//! Account addresses and their order.

use vstd::prelude::*;

verus! {

/// The address of an account, which names a validator or a peer: 32 bytes,
/// held as two halves, each read as a big-endian number. Addresses are
/// ordered as their bytes are, the high half first.
#[derive(Clone, Copy, Debug, PartialEq, Eq, Structural, PartialOrd, Ord, Hash)]
pub struct AccountAddress {
    /// The first sixteen bytes.
    pub hi: u128,
    /// The last sixteen bytes.
    pub lo: u128,
}

impl AccountAddress {
    /// The address with the given halves.
    pub fn new(hi: u128, lo: u128) -> (address: AccountAddress)
        ensures
            address.hi == hi,
            address.lo == lo,
    {
        AccountAddress { hi, lo }
    }

    /// Whether this address sorts before `other`.
    pub open spec fn precedes(self, other: AccountAddress) -> bool {
        self.hi < other.hi || (self.hi == other.hi && self.lo < other.lo)
    }

    /// Whether this address sorts before `other`.
    pub fn is_before(&self, other: &AccountAddress) -> (before: bool)
        ensures
            before == self.precedes(*other),
    {
        self.hi < other.hi || (self.hi == other.hi && self.lo < other.lo)
    }
}

/// Whether `s` ascends strictly: it is sorted and names no address twice.
pub open spec fn strictly_ascending(s: Seq<AccountAddress>) -> bool {
    forall|i: int, j: int| 0 <= i < j < s.len() ==> (#[trigger] s[i]).precedes(#[trigger] s[j])
}

/// Whether `least` is in `s` and no address of `s` sorts before it.
pub open spec fn is_least(s: Seq<AccountAddress>, least: AccountAddress) -> bool {
    &&& s.contains(least)
    &&& forall|i: int| 0 <= i < s.len() ==> !(#[trigger] s[i]).precedes(least)
}

/// A set of addresses has one ascending listing.
pub proof fn lemma_ascending_listing_unique(a: Seq<AccountAddress>, b: Seq<AccountAddress>)
    requires
        strictly_ascending(a),
        strictly_ascending(b),
        a.to_set() == b.to_set(),
    ensures
        a == b,
    decreases a.len(),
{
    if a.len() == 0 {
        if b.len() > 0 {
            assert(b.to_set().contains(b[0]));
            assert(a.to_set().contains(b[0]));
        }
        assert(a =~= b);
    } else if b.len() == 0 {
        assert(a.to_set().contains(a[0]));
        assert(b.to_set().contains(a[0]));
    } else {
        // The last element of each is the greatest of the common set.
        let x = a.last();
        let y = b.last();
        assert(a.to_set().contains(x));
        assert(b.to_set().contains(x));
        assert(b.to_set().contains(y));
        assert(a.to_set().contains(y));
        let ix = choose|i: int| 0 <= i < b.len() && b[i] == x;
        let iy = choose|i: int| 0 <= i < a.len() && a[i] == y;
        assert(x == y);
        let a0 = a.drop_last();
        let b0 = b.drop_last();
        assert forall|v: AccountAddress| a0.to_set().contains(v) <==> b0.to_set().contains(v) by {
            if a0.to_set().contains(v) {
                let i = choose|i: int| 0 <= i < a0.len() && a0[i] == v;
                assert(a[i] == v);
                assert(a.to_set().contains(v));
                assert(b.to_set().contains(v));
                let j = choose|j: int| 0 <= j < b.len() && b[j] == v;
                assert(v.precedes(x));
                assert(j < b.len() - 1);
                assert(b0[j] == v);
            }
            if b0.to_set().contains(v) {
                let i = choose|i: int| 0 <= i < b0.len() && b0[i] == v;
                assert(b[i] == v);
                assert(b.to_set().contains(v));
                assert(a.to_set().contains(v));
                let j = choose|j: int| 0 <= j < a.len() && a[j] == v;
                assert(v.precedes(y));
                assert(j < a.len() - 1);
                assert(a0[j] == v);
            }
        }
        assert(a0.to_set() =~= b0.to_set());
        lemma_ascending_listing_unique(a0, b0);
        assert(a =~= a0.push(x));
        assert(b =~= b0.push(y));
    }
}

} // verus!
