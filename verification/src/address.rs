//! Handing out addresses: which derivation index comes next, and how far it
//! may lie beyond the wallet's first unused one.

use vstd::prelude::*;
use crate::api::NewAddressResp;
use crate::error::Error;
use crate::models::Address;
use crate::ports::{Action, Store, WalletCall};
use crate::worker::Data;

verus! {

/// How far beyond the wallet's first unused index an address may be handed
/// out: fewer than this many steps.
pub const GAP_LIMIT: u32 = 20;

/// Whether `k` is the greatest index that has an address.
pub open spec fn is_greatest(addresses: Map<u32, Address>, k: u32) -> bool {
    &&& addresses.contains_key(k)
    &&& forall|o: u32| #[trigger] addresses.contains_key(o) ==> o <= k
}

/// The index after the greatest that has an address; 0 where none has.
pub open spec fn first_unused_db(addresses: Map<u32, Address>) -> int {
    if exists|k: u32| is_greatest(addresses, k) {
        (choose|k: u32| is_greatest(addresses, k)) + 1
    } else {
        0
    }
}

/// The index to hand out next: the greater of the wallet's first unused index
/// and the first that has no address yet.
pub open spec fn next_index(addresses: Map<u32, Address>, first_unused_wallet: u32) -> int {
    if first_unused_wallet >= first_unused_db(addresses) {
        first_unused_wallet as int
    } else {
        first_unused_db(addresses)
    }
}

/// Whether the next index lies within the gap limit.
pub open spec fn within_gap(addresses: Map<u32, Address>, first_unused_wallet: u32) -> bool {
    next_index(addresses, first_unused_wallet) - first_unused_wallet < GAP_LIMIT
}

/// Where some index at or below a bound has an address, and none above it
/// has, one index is the greatest.
proof fn lemma_greatest_below(addresses: Map<u32, Address>, bound: u32)
    requires
        exists|k: u32| addresses.contains_key(k),
        forall|o: u32| #[trigger] addresses.contains_key(o) ==> o <= bound,
    ensures
        exists|k: u32| is_greatest(addresses, k),
    decreases bound,
{
    if addresses.contains_key(bound) {
        assert(is_greatest(addresses, bound));
    } else {
        let k = choose|k: u32| addresses.contains_key(k);
        assert(k <= bound);
        assert(bound > 0);
        assert forall|o: u32| #[trigger] addresses.contains_key(o) implies o <= (bound - 1) as u32 by {
            assert(o <= bound);
        }
        lemma_greatest_below(addresses, (bound - 1) as u32);
    }
}

/// Once an index has an address, the first index without one lies beyond it.
pub proof fn lemma_first_unused_after(addresses: Map<u32, Address>, index: u32)
    requires
        addresses.contains_key(index),
    ensures
        first_unused_db(addresses) > index,
{
    assert forall|o: u32| #[trigger] addresses.contains_key(o) implies o <= u32::MAX by {}
    lemma_greatest_below(addresses, u32::MAX);
}

impl Data {
    /// Whether the next index, where it lies within the gap limit, can be
    /// written in 32 bits. It cannot only where the greatest index there is
    /// has an address and the wallet's first unused index is within the gap
    /// limit of the one after it.
    pub open spec fn can_issue(self, first_unused_wallet: u32) -> bool {
        within_gap(self.addresses@, first_unused_wallet) ==> next_index(
            self.addresses@,
            first_unused_wallet,
        ) <= u32::MAX
    }

    /// The index after the greatest that has an address; 0 where none has.
    fn first_unused(&self) -> (r: u64)
        ensures
            r == first_unused_db(self.addresses@),
    {
        match self.addresses.last_key() {
            Some(k) => {
                assert(is_greatest(self.addresses@, k));
                k as u64 + 1
            },
            None => {
                assert(!exists|k: u32| is_greatest(self.addresses@, k));
                0
            },
        }
    }

    /// Whether the next index, where it lies within the gap limit, can be
    /// written in 32 bits.
    pub fn has_room(&self, first_unused_wallet: u32) -> (r: bool)
        ensures
            r == self.can_issue(first_unused_wallet),
    {
        let first_unused_db = self.first_unused();
        let wallet = first_unused_wallet as u64;
        let new_index = if wallet >= first_unused_db {
            wallet
        } else {
            first_unused_db
        };
        new_index - wallet >= GAP_LIMIT as u64 || new_index <= u32::MAX as u64
    }

    /// Decides the index of the next address from the wallet's first unused
    /// index, and asks the wallet for the address there; or refuses where
    /// that index lies beyond the gap limit.
    pub fn new_address(&self, first_unused_wallet: u32) -> (r: Result<WalletCall, Error>)
        requires
            self.can_issue(first_unused_wallet),
        ensures
            within_gap(self.addresses@, first_unused_wallet) ==> r == Ok::<WalletCall, Error>(
                WalletCall::NewAddress {
                    change: false,
                    index: Some(next_index(self.addresses@, first_unused_wallet) as u32),
                },
            ),
            !within_gap(self.addresses@, first_unused_wallet) ==> r == Err::<WalletCall, Error>(
                Error::GapLimit,
            ),
    {
        let first_unused_db = self.first_unused();
        let wallet = first_unused_wallet as u64;
        let new_index: u64 = if wallet >= first_unused_db {
            wallet
        } else {
            first_unused_db
        };
        if new_index - wallet >= GAP_LIMIT as u64 {
            return Err(Error::GapLimit);
        }
        Ok(WalletCall::NewAddress { change: false, index: Some(new_index as u32) })
    }

    /// Takes in the address that the wallet named: keeps it, and says what to
    /// store and what to answer.
    pub fn new_address_done(
        &mut self,
        index: u32,
        address: String,
        user_note: Option<String>,
    ) -> (r: (Action, NewAddressResp))
        ensures
            final(self).addresses@ == old(self).addresses@.insert(
                index,
                Address { ind: index, address, user_note },
            ),
            *final(self) == (Data { addresses: final(self).addresses, ..*old(self) }),
            r.0 == Action::Store(Store::AddAddress(Address { ind: index, address, user_note })),
            r.1 == (NewAddressResp { index, address }),
            old(self).wf() ==> final(self).wf(),
    {
        let row = Address { ind: index, address: address.clone(), user_note };
        let stored = row.copy();
        self.addresses.insert(index, row);
        (Action::Store(Store::AddAddress(stored)), NewAddressResp { index, address })
    }
}

/// An address handed out is kept under its index, and the address handed out
/// after it has a greater index, whatever the wallet then reports as its
/// first unused one.
pub proof fn law_new_address_indices_increase(
    addresses: Map<u32, Address>,
    first_unused_wallet: u32,
    row: Address,
    later_first_unused_wallet: u32,
)
    requires
        row.ind == next_index(addresses, first_unused_wallet),
    ensures
        addresses.insert(row.ind, row).contains_key(row.ind),
        next_index(addresses.insert(row.ind, row), later_first_unused_wallet) > next_index(
            addresses,
            first_unused_wallet,
        ),
{
    lemma_first_unused_after(addresses.insert(row.ind, row), row.ind);
}

} // verus!
