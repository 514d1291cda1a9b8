use vstd::prelude::*;

use crate::machine::{spec_buy_next, spec_buy_result, spec_cancel_next, spec_cancel_result,
    spec_deposit_next, spec_deposit_result, BuyAsset, CancelEscrow, DepositAsset};
use crate::records::{Escrow, EscrowError, EscrowStatus};

verus! {

/// `price`, `asset`, `seller` (and the derivation nonce) are invariant
/// across every operation on a record, successful or not: no transition
/// ever rewrites them.
pub proof fn lemma_immutable_fields(e: Escrow, d: DepositAsset, b: BuyAsset, c: CancelEscrow)
    ensures
        spec_deposit_next(e, d).asset == e.asset,
        spec_deposit_next(e, d).seller == e.seller,
        spec_deposit_next(e, d).price == e.price,
        spec_deposit_next(e, d).bump == e.bump,
        spec_buy_next(e, b).asset == e.asset,
        spec_buy_next(e, b).seller == e.seller,
        spec_buy_next(e, b).price == e.price,
        spec_buy_next(e, b).bump == e.bump,
        spec_cancel_next(e, c).asset == e.asset,
        spec_cancel_next(e, c).seller == e.seller,
        spec_cancel_next(e, c).price == e.price,
        spec_cancel_next(e, c).bump == e.bump,
{
}

/// An open offer has its buyer set to exactly the first successful
/// purchaser's identity.
pub proof fn lemma_open_offer_first_purchaser(e: Escrow, b: BuyAsset)
    requires
        e.buyer is None,
        spec_buy_result(e, b) is Ok,
    ensures
        spec_buy_next(e, b).buyer == Some(b.buyer),
{
}

/// Once the buyer is set to a concrete identity, no deposit and no
/// purchase ever changes it to a different identity; only cancellation
/// resets it, and then to absent.
pub proof fn lemma_buyer_stable(e: Escrow, ident: crate::records::Ident, d: DepositAsset,
    b: BuyAsset, c: CancelEscrow)
    requires
        e.buyer == Some(ident),
    ensures
        spec_deposit_next(e, d).buyer == Some(ident),
        spec_buy_next(e, b).buyer == Some(ident),
        spec_cancel_result(e, c) is Ok ==> spec_cancel_next(e, c).buyer is None,
        spec_cancel_result(e, c) is Err ==> spec_cancel_next(e, c).buyer == Some(ident),
{
}

/// A targeted offer rejects a purchase from any identity other than the
/// pre-committed buyer with `BuyerMismatch`, and leaves the record — and
/// therefore every observable effect — unchanged.
pub proof fn lemma_targeted_offer_rejects_stranger(e: Escrow, ident: crate::records::Ident,
    b: BuyAsset)
    requires
        e.status == EscrowStatus::Deposited,
        e.asset == b.asset,
        e.seller == b.seller,
        e.buyer == Some(ident),
        b.buyer != ident,
    ensures
        spec_buy_result(e, b) == Err::<(crate::settlement::Payment,
            crate::custody::CustodyTransfer), EscrowError>(EscrowError::BuyerMismatch),
        spec_buy_next(e, b) == e,
{
}

/// Each mutating operation fails from any status other than the one its
/// precondition demands: deposit from `Pending` only, purchase and
/// cancellation from `Deposited` only.
pub proof fn lemma_status_preconditions(e: Escrow, d: DepositAsset, b: BuyAsset, c: CancelEscrow)
    ensures
        e.status != EscrowStatus::Pending ==> spec_deposit_result(e, d)
            == Err::<crate::custody::CustodyTransfer, EscrowError>(EscrowError::EscrowNotPending),
        e.status != EscrowStatus::Deposited ==> spec_buy_result(e, b)
            == Err::<(crate::settlement::Payment, crate::custody::CustodyTransfer), EscrowError>(
            EscrowError::EscrowNotFunded,
        ),
        e.status != EscrowStatus::Deposited ==> spec_cancel_result(e, c)
            == Err::<crate::custody::CustodyTransfer, EscrowError>(EscrowError::EscrowNotFunded),
{
}

/// The status only ever moves along the directed graph
/// `Pending -> Deposited -> {Completed, Cancelled}`: a successful
/// operation takes exactly one edge, a failed one stands still.
pub proof fn lemma_status_monotonic(e: Escrow, d: DepositAsset, b: BuyAsset, c: CancelEscrow)
    ensures
        spec_deposit_result(e, d) is Ok ==> e.status == EscrowStatus::Pending
            && spec_deposit_next(e, d).status == EscrowStatus::Deposited,
        spec_buy_result(e, b) is Ok ==> e.status == EscrowStatus::Deposited && spec_buy_next(
            e,
            b,
        ).status == EscrowStatus::Completed,
        spec_cancel_result(e, c) is Ok ==> e.status == EscrowStatus::Deposited
            && spec_cancel_next(e, c).status == EscrowStatus::Cancelled,
        spec_deposit_result(e, d) is Err ==> spec_deposit_next(e, d) == e,
        spec_buy_result(e, b) is Err ==> spec_buy_next(e, b) == e,
        spec_cancel_result(e, c) is Err ==> spec_cancel_next(e, c) == e,
{
}

/// Well-formedness of the record (its padding never gains meaning) is
/// preserved by every transition.
pub proof fn lemma_wf_preserved(e: Escrow, d: DepositAsset, b: BuyAsset, c: CancelEscrow)
    requires
        e.wf(),
    ensures
        spec_deposit_next(e, d).wf(),
        spec_buy_next(e, b).wf(),
        spec_cancel_next(e, c).wf(),
{
}

} // verus!
