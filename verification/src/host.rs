use vstd::prelude::*;

use crate::records::Ident;

verus! {

#[verifier::external_type_specification]
#[verifier::external_body]
pub struct ExPubkey(anchor_lang::solana_program::pubkey::Pubkey);

#[verifier::external_type_specification]
#[verifier::external_body]
pub struct ExInstruction(anchor_lang::solana_program::instruction::Instruction);

/// Relies on Pubkey::new_from_array, which wraps the given 32 bytes as a
/// host public key; the bytes are the identity's canonical little-endian
/// form.
#[verifier::external_body]
pub(crate) fn ident_pubkey(id: &Ident) -> anchor_lang::solana_program::pubkey::Pubkey {
    let mut b = [0u8; 32];
    b[0..8].copy_from_slice(&id.w0.to_le_bytes());
    b[8..16].copy_from_slice(&id.w1.to_le_bytes());
    b[16..24].copy_from_slice(&id.w2.to_le_bytes());
    b[24..32].copy_from_slice(&id.w3.to_le_bytes());
    anchor_lang::solana_program::pubkey::Pubkey::new_from_array(b)
}

} // verus!
