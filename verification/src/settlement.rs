use vstd::prelude::*;

use crate::records::Ident;

verus! {

/// One request to the ledger's native value-transfer primitive: move
/// exactly `amount` units from `from` to `to`, atomically with the
/// surrounding operation.
#[derive(Clone, Copy, PartialEq, Eq, Structural, Debug)]
pub struct Payment {
    pub from: Ident,
    pub to: Ident,
    pub amount: u64,
}

/// Relies on the system interface's transfer: builds the native
/// value-transfer instruction moving exactly `amount` units from `from` to
/// `to`.
#[verifier::external_body]
fn build_transfer(
    from: anchor_lang::solana_program::pubkey::Pubkey,
    to: anchor_lang::solana_program::pubkey::Pubkey,
    amount: u64,
) -> anchor_lang::solana_program::instruction::Instruction {
    anchor_lang::solana_program::system_instruction::transfer(&from, &to, amount)
}

/// Builds the host instruction settling a payment. The instruction is
/// opaque to the verifier; the parties and the amount are fixed by the
/// payment handed in, which the state machine's contracts pin down.
pub fn payment_instruction(p: &Payment) -> anchor_lang::solana_program::instruction::Instruction {
    let from = crate::host::ident_pubkey(&p.from);
    let to = crate::host::ident_pubkey(&p.to);
    build_transfer(from, to, p.amount)
}

} // verus!
