use vstd::prelude::*;

use crate::codec::{push_ident_le, spec_ident_le};
use crate::records::Ident;

verus! {

/// Who authorizes an outgoing custody transfer.
#[derive(Clone, Copy, PartialEq, Eq, Structural, Debug)]
pub enum CustodyAuthority {
    /// The current custodian is an ordinary party who signs the transfer
    /// with their own key.
    CustodianSignature,
    /// The current custodian is the escrow record itself, which proves its
    /// delegated signing authority from these immutable fields alone.
    RecordSeeds { asset: Ident, seller: Ident, bump: u8 },
}

/// One request to the external asset-custody capability: move `asset` from
/// `custodian` to `new_owner`, optionally checking membership in a
/// collection.
#[derive(Clone, Copy, PartialEq, Eq, Structural, Debug)]
pub struct CustodyTransfer {
    pub asset: Ident,
    pub custodian: Ident,
    pub new_owner: Ident,
    pub collection: Option<Ident>,
    pub authority: CustodyAuthority,
}

/// The auxiliary-account protocol: when a caller supplies at least two
/// extra account references, the second one is the collection-verification
/// reference; otherwise the custody request omits collection verification.
pub open spec fn spec_collection_reference(aux: Seq<Ident>) -> Option<Ident> {
    if aux.len() >= 2 {
        Some(aux[1])
    } else {
        None
    }
}

/// Selects the collection-verification reference from the caller-supplied
/// auxiliary account list.
pub fn collection_reference(aux: &Vec<Ident>) -> (r: Option<Ident>)
    ensures
        r == spec_collection_reference(aux@),
{
    if aux.len() >= 2 {
        Some(aux[1])
    } else {
        None
    }
}

/// The fixed seed label of every escrow record's derived address: the
/// ASCII bytes of the word escrow.
pub open spec fn spec_seed_label() -> Seq<u8> {
    seq![101u8, 115u8, 99u8, 114u8, 111u8, 119u8]
}

/// The fixed seed label, as the host expects it.
pub fn seed_label() -> (r: Vec<u8>)
    ensures
        r@ == spec_seed_label(),
{
    let mut v: Vec<u8> = Vec::new();
    v.push(101u8);
    v.push(115u8);
    v.push(99u8);
    v.push(114u8);
    v.push(111u8);
    v.push(119u8);
    proof {
        assert(v@ =~= spec_seed_label());
    }
    v
}

/// The record's capability token: the seed list that proves its delegated
/// signing authority, derived purely from the fixed seed label, the asset,
/// the seller, and the stored derivation nonce — never from a private
/// credential.
pub fn authority_seeds(asset: &Ident, seller: &Ident, bump: u8) -> (r: Vec<Vec<u8>>)
    ensures
        r@.len() == 4,
        r@[0]@ == spec_seed_label(),
        r@[1]@ == spec_ident_le(*asset),
        r@[2]@ == spec_ident_le(*seller),
        r@[3]@ == seq![bump],
{
    let mut asset_bytes: Vec<u8> = Vec::new();
    push_ident_le(&mut asset_bytes, asset);
    let mut seller_bytes: Vec<u8> = Vec::new();
    push_ident_le(&mut seller_bytes, seller);
    let mut bump_bytes: Vec<u8> = Vec::new();
    bump_bytes.push(bump);
    proof {
        assert(asset_bytes@ =~= spec_ident_le(*asset));
        assert(seller_bytes@ =~= spec_ident_le(*seller));
        assert(bump_bytes@ =~= seq![bump]);
    }
    let mut r: Vec<Vec<u8>> = Vec::new();
    r.push(seed_label());
    r.push(asset_bytes);
    r.push(seller_bytes);
    r.push(bump_bytes);
    r
}

/// Relies on mpl_core's TransferV1Builder: builds the one custody-transfer
/// instruction for exactly the given asset, paying custodian, new owner,
/// and optional collection-verification reference.
#[verifier::external_body]
fn build_transfer_instruction(
    asset: anchor_lang::solana_program::pubkey::Pubkey,
    payer: anchor_lang::solana_program::pubkey::Pubkey,
    new_owner: anchor_lang::solana_program::pubkey::Pubkey,
    collection: Option<anchor_lang::solana_program::pubkey::Pubkey>,
) -> anchor_lang::solana_program::instruction::Instruction {
    mpl_core::instructions::TransferV1Builder::new().asset(asset).payer(payer).new_owner(
        new_owner,
    ).collection(collection).instruction()
}

/// Builds the host instruction for a custody request. The instruction is
/// opaque to the verifier; which parties it names is fixed by the request
/// handed in, which the state machine's contracts pin down.
pub fn custody_instruction(t: &CustodyTransfer) -> anchor_lang::solana_program::instruction::Instruction {
    let asset = crate::host::ident_pubkey(&t.asset);
    let payer = crate::host::ident_pubkey(&t.custodian);
    let owner = crate::host::ident_pubkey(&t.new_owner);
    let coll = match &t.collection {
        Some(c) => Some(crate::host::ident_pubkey(c)),
        None => None,
    };
    build_transfer_instruction(asset, payer, owner, coll)
}

/// The seed list a custody request signs with, when its authority is the
/// record itself rather than a signing party.
pub fn custody_signer_seeds(t: &CustodyTransfer) -> (r: Option<Vec<Vec<u8>>>)
    ensures
        t.authority is CustodianSignature ==> r is None,
        (t.authority matches CustodyAuthority::RecordSeeds { asset, seller, bump } ==> (
        r matches Some(s) && s@.len() == 4 && s@[0]@ == spec_seed_label() && s@[1]@
            == spec_ident_le(asset) && s@[2]@ == spec_ident_le(seller) && s@[3]@ == seq![bump])),
{
    match &t.authority {
        CustodyAuthority::CustodianSignature => None,
        CustodyAuthority::RecordSeeds { asset, seller, bump } => Some(
            authority_seeds(asset, seller, *bump),
        ),
    }
}

} // verus!
