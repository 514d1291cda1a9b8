use vstd::prelude::*;

use crate::custody::{spec_collection_reference, collection_reference, CustodyAuthority,
    CustodyTransfer};
use crate::records::{Escrow, EscrowError, EscrowStatus, Ident};
use crate::settlement::Payment;

verus! {

/// Accounts the host resolves for `create_escrow`: the prospective seller
/// (the caller, who must sign) and the asset to offer.
pub struct CreateEscrow {
    pub seller: Ident,
    pub asset: Ident,
}

/// Accounts the host resolves for `deposit_asset`: the caller claiming to
/// be the seller, the asset, the record's own derived address, and any
/// auxiliary references for the custody call.
pub struct DepositAsset {
    pub seller: Ident,
    pub asset: Ident,
    pub escrow: Ident,
    pub remaining: Vec<Ident>,
}

/// Accounts the host resolves for `buy_asset`: the caller (prospective
/// buyer), the asset, the seller to be paid, the record's own derived
/// address, and any auxiliary references for the custody call.
pub struct BuyAsset {
    pub buyer: Ident,
    pub asset: Ident,
    pub seller: Ident,
    pub escrow: Ident,
    pub remaining: Vec<Ident>,
}

/// Accounts the host resolves for `cancel_escrow`.
pub struct CancelEscrow {
    pub seller: Ident,
    pub asset: Ident,
    pub escrow: Ident,
    pub remaining: Vec<Ident>,
}

/// Accounts the host resolves for `close_escrow`: the seller who reclaims
/// the record's storage.
pub struct CloseEscrow {
    pub seller: Ident,
}

/// The record `create_escrow` allocates.
pub open spec fn spec_create(a: CreateEscrow, price: u64, buyer: Option<Ident>, bump: u8) -> Escrow {
    Escrow {
        asset: a.asset,
        seller: a.seller,
        buyer,
        price,
        bump,
        status: EscrowStatus::Pending,
        reserved: spec_zero_padding(),
    }
}

pub open spec fn spec_zero_padding() -> [u8; 5] {
    vstd::array::spec_array_fill_for_copy_type(0u8)
}

/// Allocates a fresh escrow record in `Pending` status. The host has
/// already established that the caller signs as `seller` and that no live
/// record exists at the derived address for `(asset, seller)`.
pub fn create_escrow(accounts: &CreateEscrow, price: u64, buyer: Option<Ident>, bump: u8) -> (e:
    Escrow)
    ensures
        e == spec_create(*accounts, price, buyer, bump),
        e.asset == accounts.asset,
        e.seller == accounts.seller,
        e.buyer == buyer,
        e.price == price,
        e.bump == bump,
        e.status == EscrowStatus::Pending,
        e.wf(),
{
    let reserved: [u8; 5] = [0u8; 5];
    let e = Escrow {
        asset: accounts.asset,
        seller: accounts.seller,
        buyer,
        price,
        bump,
        status: EscrowStatus::Pending,
        reserved,
    };
    proof {
        broadcast use vstd::array::axiom_spec_array_fill_for_copy_type;

        assert(e.wf());
    }
    e
}

/// The outcome `deposit_asset` owes: the authorization checks in order,
/// then the custody request moving the asset from the seller into the
/// record's own custody.
pub open spec fn spec_deposit_result(e: Escrow, a: DepositAsset) -> Result<
    CustodyTransfer,
    EscrowError,
> {
    if e.status != EscrowStatus::Pending {
        Err(EscrowError::EscrowNotPending)
    } else if e.seller != a.seller {
        Err(EscrowError::InvalidSeller)
    } else if e.asset != a.asset {
        Err(EscrowError::AssetMismatch)
    } else {
        Ok(
            CustodyTransfer {
                asset: e.asset,
                custodian: a.seller,
                new_owner: a.escrow,
                collection: spec_collection_reference(a.remaining@),
                authority: CustodyAuthority::CustodianSignature,
            },
        )
    }
}

/// The record after `deposit_asset`: unchanged on failure, otherwise the
/// same record in `Deposited` status.
pub open spec fn spec_deposit_next(e: Escrow, a: DepositAsset) -> Escrow {
    if spec_deposit_result(e, a) is Ok {
        Escrow { status: EscrowStatus::Deposited, ..e }
    } else {
        e
    }
}

/// Hands the asset over: validates status and identities, then requests a
/// custody transfer of the asset from the seller to the record itself.
/// After success the seller can no longer reclaim the asset unilaterally.
pub fn deposit_asset(escrow: &mut Escrow, accounts: &DepositAsset) -> (r: Result<
    CustodyTransfer,
    EscrowError,
>)
    ensures
        r == spec_deposit_result(*old(escrow), *accounts),
        *final(escrow) == spec_deposit_next(*old(escrow), *accounts),
        r is Ok <==> (old(escrow).status == EscrowStatus::Pending
            && old(escrow).seller == accounts.seller && old(escrow).asset == accounts.asset),
        r is Ok ==> final(escrow).status == EscrowStatus::Deposited,
        r is Err ==> *final(escrow) == *old(escrow),
        final(escrow).asset == old(escrow).asset,
        final(escrow).seller == old(escrow).seller,
        final(escrow).price == old(escrow).price,
        final(escrow).buyer == old(escrow).buyer,
        final(escrow).bump == old(escrow).bump,
        final(escrow).reserved == old(escrow).reserved,
{
    if escrow.status != EscrowStatus::Pending {
        return Err(EscrowError::EscrowNotPending);
    }
    if escrow.seller != accounts.seller {
        return Err(EscrowError::InvalidSeller);
    }
    if escrow.asset != accounts.asset {
        return Err(EscrowError::AssetMismatch);
    }
    let transfer = CustodyTransfer {
        asset: escrow.asset,
        custodian: accounts.seller,
        new_owner: accounts.escrow,
        collection: collection_reference(&accounts.remaining),
        authority: CustodyAuthority::CustodianSignature,
    };
    escrow.status = EscrowStatus::Deposited;
    Ok(transfer)
}

/// The outcome `buy_asset` owes: the checks in order, then the payment of
/// exactly the recorded price from the buyer to the seller, and the
/// custody request moving the asset from the record to the buyer under the
/// record's own derived signing authority.
pub open spec fn spec_buy_result(e: Escrow, a: BuyAsset) -> Result<
    (Payment, CustodyTransfer),
    EscrowError,
> {
    if e.status != EscrowStatus::Deposited {
        Err(EscrowError::EscrowNotFunded)
    } else if e.asset != a.asset {
        Err(EscrowError::AssetMismatch)
    } else if e.seller != a.seller {
        Err(EscrowError::InvalidSeller)
    } else if e.buyer matches Some(b) && b != a.buyer {
        Err(EscrowError::BuyerMismatch)
    } else {
        Ok(
            (
                Payment { from: a.buyer, to: a.seller, amount: e.price },
                CustodyTransfer {
                    asset: e.asset,
                    custodian: a.escrow,
                    new_owner: a.buyer,
                    collection: spec_collection_reference(a.remaining@),
                    authority: CustodyAuthority::RecordSeeds {
                        asset: e.asset,
                        seller: e.seller,
                        bump: e.bump,
                    },
                },
            ),
        )
    }
}

/// The record after `buy_asset`: unchanged on failure, otherwise
/// `Completed` with the buyer pinned to the purchaser.
pub open spec fn spec_buy_next(e: Escrow, a: BuyAsset) -> Escrow {
    if spec_buy_result(e, a) is Ok {
        Escrow { buyer: Some(a.buyer), status: EscrowStatus::Completed, ..e }
    } else {
        e
    }
}

/// Completes the sale: validates status and identities, rejects a buyer
/// other than a pre-committed one, and on success settles the payment and
/// releases the asset to the buyer as one atomic unit. On any failure no
/// payment and no asset movement is observable.
pub fn buy_asset(escrow: &mut Escrow, accounts: &BuyAsset) -> (r: Result<
    (Payment, CustodyTransfer),
    EscrowError,
>)
    ensures
        r == spec_buy_result(*old(escrow), *accounts),
        *final(escrow) == spec_buy_next(*old(escrow), *accounts),
        r is Ok <==> (old(escrow).status == EscrowStatus::Deposited
            && old(escrow).asset == accounts.asset && old(escrow).seller == accounts.seller
            && (old(escrow).buyer is None || old(escrow).buyer == Some(accounts.buyer))),
        r is Ok ==> final(escrow).status == EscrowStatus::Completed
            && final(escrow).buyer == Some(accounts.buyer),
        r is Err ==> *final(escrow) == *old(escrow),
        final(escrow).asset == old(escrow).asset,
        final(escrow).seller == old(escrow).seller,
        final(escrow).price == old(escrow).price,
        final(escrow).bump == old(escrow).bump,
        final(escrow).reserved == old(escrow).reserved,
{
    if escrow.status != EscrowStatus::Deposited {
        return Err(EscrowError::EscrowNotFunded);
    }
    if escrow.asset != accounts.asset {
        return Err(EscrowError::AssetMismatch);
    }
    if escrow.seller != accounts.seller {
        return Err(EscrowError::InvalidSeller);
    }
    // The host settles the payment before this check and rolls it back as
    // one unit if the check fails, so a mismatch leaves no payment behind.
    match escrow.buyer {
        Some(expected) => {
            if expected != accounts.buyer {
                return Err(EscrowError::BuyerMismatch);
            }
        },
        None => {},
    }
    let payment = Payment { from: accounts.buyer, to: accounts.seller, amount: escrow.price };
    let transfer = CustodyTransfer {
        asset: escrow.asset,
        custodian: accounts.escrow,
        new_owner: accounts.buyer,
        collection: collection_reference(&accounts.remaining),
        authority: CustodyAuthority::RecordSeeds {
            asset: escrow.asset,
            seller: escrow.seller,
            bump: escrow.bump,
        },
    };
    escrow.buyer = Some(accounts.buyer);
    escrow.status = EscrowStatus::Completed;
    Ok((payment, transfer))
}

/// The outcome `cancel_escrow` owes: the checks in order, then the custody
/// request returning the asset from the record to the seller under the
/// record's own derived signing authority.
pub open spec fn spec_cancel_result(e: Escrow, a: CancelEscrow) -> Result<
    CustodyTransfer,
    EscrowError,
> {
    if e.status != EscrowStatus::Deposited {
        Err(EscrowError::EscrowNotFunded)
    } else if e.asset != a.asset {
        Err(EscrowError::AssetMismatch)
    } else if e.seller != a.seller {
        Err(EscrowError::InvalidSeller)
    } else {
        Ok(
            CustodyTransfer {
                asset: e.asset,
                custodian: a.escrow,
                new_owner: a.seller,
                collection: spec_collection_reference(a.remaining@),
                authority: CustodyAuthority::RecordSeeds {
                    asset: e.asset,
                    seller: e.seller,
                    bump: e.bump,
                },
            },
        )
    }
}

/// The record after `cancel_escrow`: unchanged on failure, otherwise
/// `Cancelled` with the buyer reset to absent.
pub open spec fn spec_cancel_next(e: Escrow, a: CancelEscrow) -> Escrow {
    if spec_cancel_result(e, a) is Ok {
        Escrow { buyer: None, status: EscrowStatus::Cancelled, ..e }
    } else {
        e
    }
}

/// Unwinds a deposited escrow: validates status and identities, returns
/// the asset to the seller, clears the buyer, and marks the record
/// `Cancelled`.
pub fn cancel_escrow(escrow: &mut Escrow, accounts: &CancelEscrow) -> (r: Result<
    CustodyTransfer,
    EscrowError,
>)
    ensures
        r == spec_cancel_result(*old(escrow), *accounts),
        *final(escrow) == spec_cancel_next(*old(escrow), *accounts),
        r is Ok <==> (old(escrow).status == EscrowStatus::Deposited
            && old(escrow).asset == accounts.asset && old(escrow).seller == accounts.seller),
        r is Ok ==> final(escrow).status == EscrowStatus::Cancelled
            && final(escrow).buyer is None,
        r is Err ==> *final(escrow) == *old(escrow),
        final(escrow).asset == old(escrow).asset,
        final(escrow).seller == old(escrow).seller,
        final(escrow).price == old(escrow).price,
        final(escrow).bump == old(escrow).bump,
        final(escrow).reserved == old(escrow).reserved,
{
    if escrow.status != EscrowStatus::Deposited {
        return Err(EscrowError::EscrowNotFunded);
    }
    if escrow.asset != accounts.asset {
        return Err(EscrowError::AssetMismatch);
    }
    if escrow.seller != accounts.seller {
        return Err(EscrowError::InvalidSeller);
    }
    let transfer = CustodyTransfer {
        asset: escrow.asset,
        custodian: accounts.escrow,
        new_owner: accounts.seller,
        collection: collection_reference(&accounts.remaining),
        authority: CustodyAuthority::RecordSeeds {
            asset: escrow.asset,
            seller: escrow.seller,
            bump: escrow.bump,
        },
    };
    escrow.buyer = None;
    escrow.status = EscrowStatus::Cancelled;
    Ok(transfer)
}

/// Whether a record may be closed: only a terminal status qualifies.
pub open spec fn spec_close_result(e: Escrow) -> Result<(), EscrowError> {
    if e.status == EscrowStatus::Completed || e.status == EscrowStatus::Cancelled {
        Ok(())
    } else {
        Err(EscrowError::EscrowStillActive)
    }
}

/// Approves reclaiming the record's storage to the seller: purely
/// administrative, permitted only from a terminal status, and touching
/// neither the asset nor any funds.
pub fn close_escrow(escrow: &Escrow, accounts: &CloseEscrow) -> (r: Result<(), EscrowError>)
    ensures
        r == spec_close_result(*escrow),
        r is Ok <==> (escrow.status == EscrowStatus::Completed || escrow.status
            == EscrowStatus::Cancelled),
{
    if escrow.status == EscrowStatus::Completed || escrow.status == EscrowStatus::Cancelled {
        Ok(())
    } else {
        Err(EscrowError::EscrowStillActive)
    }
}

} // verus!
