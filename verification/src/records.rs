use vstd::prelude::*;

verus! {

/// A 256-bit account or asset identity, held as four 64-bit words in
/// little-endian order (word 0 covers the lowest-addressed bytes of the
/// canonical 32-byte form).
#[derive(Clone, Copy, PartialEq, Eq, Structural, Debug)]
pub struct Ident {
    pub w0: u64,
    pub w1: u64,
    pub w2: u64,
    pub w3: u64,
}

/// Lifecycle states of an escrow record. The only transitions are
/// `Pending -> Deposited -> {Completed, Cancelled}`.
#[derive(Clone, Copy, PartialEq, Eq, Structural, Debug)]
pub enum EscrowStatus {
    Pending,
    Deposited,
    Completed,
    Cancelled,
}

impl Default for EscrowStatus {
    fn default() -> (r: Self)
        ensures
            r == EscrowStatus::Pending,
    {
        EscrowStatus::Pending
    }
}

/// Every way an escrow operation can be rejected. `EscrowBumpMissing` and
/// `MissingTransferAccount` are reserved for host-side validation and are
/// raised by no code path here.
#[derive(Clone, Copy, PartialEq, Eq, Structural, Debug)]
pub enum EscrowError {
    EscrowBumpMissing,
    EscrowNotPending,
    InvalidSeller,
    AssetMismatch,
    EscrowNotFunded,
    BuyerMismatch,
    MissingTransferAccount,
    EscrowStillActive,
}

/// The persisted state of one escrow: one asset offered by one seller for
/// one fixed price, optionally restricted to one buyer.
#[derive(Clone, Copy, Debug)]
pub struct Escrow {
    pub asset: Ident,
    pub seller: Ident,
    pub buyer: Option<Ident>,
    pub price: u64,
    pub bump: u8,
    pub status: EscrowStatus,
    pub reserved: [u8; 5],
}

impl Escrow {
    /// Well-formedness: the padding bytes are zero and never carry meaning.
    pub open spec fn wf(self) -> bool {
        forall|i: int| 0 <= i < 5 ==> self.reserved@[i] == 0u8
    }
}

} // verus!
