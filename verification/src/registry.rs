use vstd::prelude::*;

use crate::custody::CustodyTransfer;
use crate::machine;
use crate::machine::{spec_buy_next, spec_buy_result, spec_cancel_next, spec_cancel_result,
    spec_close_result, spec_create, spec_deposit_next, spec_deposit_result, BuyAsset, CancelEscrow,
    CloseEscrow, CreateEscrow, DepositAsset};
use crate::records::{Escrow, EscrowError, Ident};
use crate::settlement::Payment;

verus! {

/// The host's account store, as far as the escrow logic observes it: the
/// set of live escrow records, each reachable only at the address derived
/// from its `(asset, seller)` pair. The host refuses to allocate a second
/// record at an address already in use, which is the system's sole
/// concurrency control; `wf` states the resulting uniqueness.
pub struct Registry {
    pub records: Vec<Escrow>,
}

impl Registry {
    /// At most one live record exists for any `(asset, seller)` pair.
    pub open spec fn wf(self) -> bool {
        forall|i: int, j: int|
            0 <= i < j < self.records@.len() ==> !(self.records@[i].asset
                == self.records@[j].asset && self.records@[i].seller == self.records@[j].seller)
    }

    /// Whether a live record exists for the pair.
    pub open spec fn spec_has(self, asset: Ident, seller: Ident) -> bool {
        exists|i: int|
            0 <= i < self.records@.len() && self.records@[i].asset == asset
                && self.records@[i].seller == seller
    }

    /// The position of the live record for the pair (unique under `wf`).
    pub open spec fn spec_index_of(self, asset: Ident, seller: Ident) -> int {
        choose|i: int|
            0 <= i < self.records@.len() && self.records@[i].asset == asset
                && self.records@[i].seller == seller
    }

    /// The live record for the pair.
    pub open spec fn spec_record(self, asset: Ident, seller: Ident) -> Escrow {
        self.records@[self.spec_index_of(asset, seller)]
    }

    /// Under `wf`, any position holding the pair is the position of its
    /// one live record.
    pub proof fn lemma_key_unique(self, asset: Ident, seller: Ident, i: int)
        requires
            self.wf(),
            0 <= i < self.records@.len(),
            self.records@[i].asset == asset,
            self.records@[i].seller == seller,
        ensures
            self.spec_has(asset, seller),
            self.spec_index_of(asset, seller) == i,
    {
        assert(self.spec_has(asset, seller));
        let j = self.spec_index_of(asset, seller);
        if i < j {
            assert(false);
        } else if j < i {
            assert(false);
        }
    }

    /// An empty store: no record is live.
    pub fn new() -> (r: Registry)
        ensures
            r.wf(),
            r.records@.len() == 0,
    {
        Registry { records: Vec::new() }
    }

    /// Finds the live record for the pair, if any.
    fn find(&self, asset: Ident, seller: Ident) -> (r: Option<usize>)
        requires
            self.wf(),
        ensures
            (r matches Some(i) ==> self.spec_has(asset, seller) && i == self.spec_index_of(
                asset,
                seller,
            ) && i < self.records@.len()),
            r is None ==> !self.spec_has(asset, seller),
    {
        let mut n: usize = 0;
        while n < self.records.len()
            invariant
                self.wf(),
                n <= self.records@.len(),
                forall|k: int|
                    0 <= k < n ==> !(self.records@[k].asset == asset && self.records@[k].seller
                        == seller),
            decreases self.records@.len() - n,
        {
            if self.records[n].asset == asset && self.records[n].seller == seller {
                proof {
                    self.lemma_key_unique(asset, seller, n as int);
                }
                return Some(n);
            }
            n += 1;
        }
        None
    }

    /// Allocates a new record for the pair, or refuses when one is already
    /// live — at most one record per `(asset, seller)` pair ever exists.
    pub fn create_escrow(&mut self, accounts: &CreateEscrow, price: u64, buyer: Option<Ident>,
        bump: u8) -> (r: bool)
        requires
            old(self).wf(),
        ensures
            final(self).wf(),
            r <==> !old(self).spec_has(accounts.asset, accounts.seller),
            !r ==> *final(self) == *old(self),
            r ==> final(self).records@ == old(self).records@.push(
                spec_create(*accounts, price, buyer, bump),
            ),
            final(self).spec_has(accounts.asset, accounts.seller),
    {
        match self.find(accounts.asset, accounts.seller) {
            Some(_) => false,
            None => {
                let e = machine::create_escrow(accounts, price, buyer, bump);
                self.records.push(e);
                proof {
                    let ghost s = self.records@;
                    let ghost last = s.len() - 1;
                    assert forall|i: int, j: int| 0 <= i < j < s.len() implies !(s[i].asset
                        == s[j].asset && s[i].seller == s[j].seller) by {
                        if j == last {
                            assert(!(s[i].asset == accounts.asset && s[i].seller
                                == accounts.seller));
                        }
                    }
                    assert(s[last].asset == accounts.asset && s[last].seller == accounts.seller);
                }
                true
            },
        }
    }

    /// Runs `deposit_asset` against the live record for the pair; `None`
    /// when no such record exists (the host cannot resolve the address).
    pub fn deposit_asset(&mut self, asset: Ident, seller: Ident, accounts: &DepositAsset) -> (r:
        Option<Result<CustodyTransfer, EscrowError>>)
        requires
            old(self).wf(),
        ensures
            final(self).wf(),
            !old(self).spec_has(asset, seller) ==> r is None && *final(self) == *old(self),
            old(self).spec_has(asset, seller) ==> ({
                let e = old(self).spec_record(asset, seller);
                r == Some(spec_deposit_result(e, *accounts)) && final(self).records@ == old(
                    self,
                ).records@.update(
                    old(self).spec_index_of(asset, seller),
                    spec_deposit_next(e, *accounts),
                )
            }),
    {
        match self.find(asset, seller) {
            None => None,
            Some(i) => {
                let mut e = self.records[i];
                let res = machine::deposit_asset(&mut e, accounts);
                self.records[i] = e;
                proof {
                    self.lemma_wf_after_update(*old(self), i as int);
                }
                Some(res)
            },
        }
    }

    /// Runs `buy_asset` against the live record for the pair; `None` when
    /// no such record exists.
    pub fn buy_asset(&mut self, asset: Ident, seller: Ident, accounts: &BuyAsset) -> (r: Option<
        Result<(Payment, CustodyTransfer), EscrowError>,
    >)
        requires
            old(self).wf(),
        ensures
            final(self).wf(),
            !old(self).spec_has(asset, seller) ==> r is None && *final(self) == *old(self),
            old(self).spec_has(asset, seller) ==> ({
                let e = old(self).spec_record(asset, seller);
                r == Some(spec_buy_result(e, *accounts)) && final(self).records@ == old(
                    self,
                ).records@.update(
                    old(self).spec_index_of(asset, seller),
                    spec_buy_next(e, *accounts),
                )
            }),
    {
        match self.find(asset, seller) {
            None => None,
            Some(i) => {
                let mut e = self.records[i];
                let res = machine::buy_asset(&mut e, accounts);
                self.records[i] = e;
                proof {
                    self.lemma_wf_after_update(*old(self), i as int);
                }
                Some(res)
            },
        }
    }

    /// Runs `cancel_escrow` against the live record for the pair; `None`
    /// when no such record exists.
    pub fn cancel_escrow(&mut self, asset: Ident, seller: Ident, accounts: &CancelEscrow) -> (r:
        Option<Result<CustodyTransfer, EscrowError>>)
        requires
            old(self).wf(),
        ensures
            final(self).wf(),
            !old(self).spec_has(asset, seller) ==> r is None && *final(self) == *old(self),
            old(self).spec_has(asset, seller) ==> ({
                let e = old(self).spec_record(asset, seller);
                r == Some(spec_cancel_result(e, *accounts)) && final(self).records@ == old(
                    self,
                ).records@.update(
                    old(self).spec_index_of(asset, seller),
                    spec_cancel_next(e, *accounts),
                )
            }),
    {
        match self.find(asset, seller) {
            None => None,
            Some(i) => {
                let mut e = self.records[i];
                let res = machine::cancel_escrow(&mut e, accounts);
                self.records[i] = e;
                proof {
                    self.lemma_wf_after_update(*old(self), i as int);
                }
                Some(res)
            },
        }
    }

    /// Runs `close_escrow` against the live record for the pair; on
    /// success the record's storage is reclaimed to the seller and no
    /// record for the pair remains, so every further operation on the pair
    /// finds nothing.
    pub fn close_escrow(&mut self, asset: Ident, seller: Ident, accounts: &CloseEscrow) -> (r:
        Option<Result<(), EscrowError>>)
        requires
            old(self).wf(),
        ensures
            final(self).wf(),
            !old(self).spec_has(asset, seller) ==> r is None && *final(self) == *old(self),
            old(self).spec_has(asset, seller) ==> ({
                let e = old(self).spec_record(asset, seller);
                r == Some(spec_close_result(e)) && (spec_close_result(e) is Err ==> *final(self)
                    == *old(self)) && (spec_close_result(e) is Ok ==> final(self).records@ == old(
                    self,
                ).records@.remove(old(self).spec_index_of(asset, seller)) && !final(self).spec_has(
                    asset,
                    seller,
                ))
            }),
    {
        match self.find(asset, seller) {
            None => None,
            Some(i) => {
                let res = machine::close_escrow(&self.records[i], accounts);
                if res.is_ok() {
                    self.records.remove(i);
                    proof {
                        self.lemma_wf_after_remove(*old(self), i as int, asset, seller);
                    }
                }
                Some(res)
            },
        }
    }

    /// Updating a record in place (its key fields never change) preserves
    /// the uniqueness of keys.
    proof fn lemma_wf_after_update(self, prior: Registry, i: int)
        requires
            prior.wf(),
            0 <= i < prior.records@.len(),
            self.records@.len() == prior.records@.len(),
            self.records@ == prior.records@.update(i, self.records@[i]),
            self.records@[i].asset == prior.records@[i].asset,
            self.records@[i].seller == prior.records@[i].seller,
        ensures
            self.wf(),
    {
        assert forall|p: int, q: int| 0 <= p < q < self.records@.len() implies !(self.records@[p].asset
            == self.records@[q].asset && self.records@[p].seller == self.records@[q].seller) by {
            assert(prior.records@[p].asset == self.records@[p].asset && prior.records@[p].seller
                == self.records@[p].seller);
            assert(prior.records@[q].asset == self.records@[q].asset && prior.records@[q].seller
                == self.records@[q].seller);
        }
    }

    /// Removing a record preserves uniqueness of keys, and afterwards no
    /// record for the removed pair remains.
    proof fn lemma_wf_after_remove(self, prior: Registry, i: int, asset: Ident, seller: Ident)
        requires
            prior.wf(),
            0 <= i < prior.records@.len(),
            prior.records@[i].asset == asset,
            prior.records@[i].seller == seller,
            self.records@ == prior.records@.remove(i),
        ensures
            self.wf(),
            !self.spec_has(asset, seller),
    {
        let s = self.records@;
        assert forall|p: int, q: int| 0 <= p < q < s.len() implies !(s[p].asset == s[q].asset
            && s[p].seller == s[q].seller) by {
            let p0 = if p < i { p } else { p + 1 };
            let q0 = if q < i { q } else { q + 1 };
            assert(s[p] == prior.records@[p0]);
            assert(s[q] == prior.records@[q0]);
        }
        assert forall|k: int| 0 <= k < s.len() implies !(s[k].asset == asset && s[k].seller
            == seller) by {
            let k0 = if k < i { k } else { k + 1 };
            assert(s[k] == prior.records@[k0]);
            if k0 < i {
                assert(!(prior.records@[k0].asset == asset && prior.records@[k0].seller == seller));
            } else {
                assert(i < k0);
                assert(!(prior.records@[k0].asset == asset && prior.records@[k0].seller == seller));
            }
        }
    }
}

} // verus!
