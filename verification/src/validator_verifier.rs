//! The committee of an epoch, as far as the epoch manager reads it.

use vstd::prelude::*;
use crate::account_address::{strictly_ascending, AccountAddress};

verus! {

/// What a validator verifier stands for: the addresses of the committee in
/// canonical order, and the voting power that makes a quorum.
pub struct ValidatorSet {
    pub addresses: Seq<AccountAddress>,
    pub quorum_voting_power: u64,
}

/// The committee that is authorised to sign the messages of one epoch. It
/// holds each validator once and lists them in ascending order of address.
#[derive(Debug, PartialEq, Eq)]
pub struct ValidatorVerifier {
    addresses: Vec<AccountAddress>,
    quorum_voting_power: u64,
}

impl View for ValidatorVerifier {
    type V = ValidatorSet;

    closed spec fn view(&self) -> ValidatorSet {
        ValidatorSet {
            addresses: self.addresses@,
            quorum_voting_power: self.quorum_voting_power,
        }
    }
}

/// Puts `address` at its place in the ascending list `sorted`, unless the
/// list holds it already.
fn insert_ascending(sorted: &mut Vec<AccountAddress>, address: AccountAddress)
    requires
        strictly_ascending(old(sorted)@),
    ensures
        strictly_ascending(final(sorted)@),
        forall|a: AccountAddress|
            final(sorted)@.contains(a) <==> (old(sorted)@.contains(a) || a == address),
        old(sorted)@.len() <= final(sorted)@.len() <= old(sorted)@.len() + 1,
        final(sorted)@.len() > 0,
{
    let mut k: usize = 0;
    while k < sorted.len() && sorted[k].is_before(&address)
        invariant
            k <= sorted.len(),
            sorted@ == old(sorted)@,
            forall|i: int| 0 <= i < k ==> (#[trigger] sorted@[i]).precedes(address),
        decreases sorted.len() - k,
    {
        k += 1;
    }
    if k < sorted.len() && sorted[k] == address {
        assert(sorted@[k as int] == address);
        assert forall|a: AccountAddress| a == address implies sorted@.contains(a) by {
            assert(sorted@[k as int] == a);
        }
    } else {
        sorted.insert(k, address);
        let ghost before = old(sorted)@;
        let ghost after = sorted@;
        assert(after == before.insert(k as int, address));
        assert forall|i: int, j: int| 0 <= i < j < after.len() implies (#[trigger] after[i]).precedes(
            #[trigger] after[j],
        ) by {
            if j < k {
                assert(after[i] == before[i] && after[j] == before[j]);
            } else if j == k {
                assert(after[i] == before[i]);
            } else if i < k {
                assert(after[i] == before[i] && after[j] == before[j - 1]);
            } else if i == k {
                assert(after[j] == before[j - 1]);
                assert(before[k as int] == before[j - 1] || before[k as int].precedes(before[j - 1]));
            } else {
                assert(after[i] == before[i - 1] && after[j] == before[j - 1]);
            }
        }
        assert forall|a: AccountAddress| after.contains(a) implies (before.contains(a) || a
            == address) by {
            let i = choose|i: int| 0 <= i < after.len() && after[i] == a;
            if i < k {
                assert(before[i] == a);
            } else if i > k {
                assert(before[i - 1] == a);
            } else {
                assert(after[k as int] == address);
            }
        }
        assert forall|a: AccountAddress| (before.contains(a) || a == address) implies after.contains(
            a,
        ) by {
            if a == address {
                assert(after[k as int] == a);
            } else {
                let i = choose|i: int| 0 <= i < before.len() && before[i] == a;
                if i < k {
                    assert(after[i] == a);
                } else {
                    assert(after[i + 1] == a);
                }
            }
        }
    }
}

impl ValidatorVerifier {
    #[verifier::type_invariant]
    spec fn listed_in_order(self) -> bool {
        strictly_ascending(self.addresses@)
    }

    /// The committee made of `validators`, in whatever order and however
    /// often they are given, with the given quorum.
    pub fn new(
        validators: &Vec<AccountAddress>,
        quorum_voting_power: u64,
    ) -> (verifier: ValidatorVerifier)
        ensures
            strictly_ascending(verifier@.addresses),
            verifier@.addresses.to_set() == validators@.to_set(),
            verifier@.addresses.len() <= validators@.len(),
            validators@.len() > 0 ==> verifier@.addresses.len() > 0,
            verifier@.quorum_voting_power == quorum_voting_power,
    {
        let mut addresses: Vec<AccountAddress> = Vec::new();
        let mut i: usize = 0;
        while i < validators.len()
            invariant
                i <= validators.len(),
                strictly_ascending(addresses@),
                addresses@.len() <= i,
                i > 0 ==> addresses@.len() > 0,
                forall|a: AccountAddress|
                    addresses@.contains(a) <==> validators@.take(i as int).contains(a),
            decreases validators.len() - i,
        {
            let ghost seen = validators@.take(i as int);
            let ghost next = validators@.take(i + 1);
            let ghost held = addresses@;
            insert_ascending(&mut addresses, validators[i]);
            assert forall|a: AccountAddress| addresses@.contains(a) <==> next.contains(a) by {
                assert(next =~= seen.push(validators@[i as int]));
                if next.contains(a) {
                    let j = choose|j: int| 0 <= j < next.len() && next[j] == a;
                    if j < i {
                        assert(seen[j] == a);
                    }
                }
                if seen.contains(a) {
                    let j = choose|j: int| 0 <= j < seen.len() && seen[j] == a;
                    assert(next[j] == a);
                }
                if a == validators@[i as int] {
                    assert(next[i as int] == a);
                }
            }
            i += 1;
        }
        assert(validators@.take(i as int) =~= validators@);
        assert(addresses@.to_set() =~= validators@.to_set());
        ValidatorVerifier { addresses, quorum_voting_power }
    }

    /// The number of validators.
    pub fn len(&self) -> (n: usize)
        ensures
            n == self@.addresses.len(),
    {
        self.addresses.len()
    }

    /// The voting power that makes a quorum.
    pub fn quorum_voting_power(&self) -> (power: u64)
        ensures
            power == self@.quorum_voting_power,
    {
        self.quorum_voting_power
    }

    /// The addresses of the validators in canonical order: ascending, each
    /// once.
    pub fn get_ordered_account_addresses(&self) -> (addresses: Vec<AccountAddress>)
        ensures
            addresses@ == self@.addresses,
            strictly_ascending(addresses@),
    {
        proof {
            use_type_invariant(self);
        }
        let mut addresses: Vec<AccountAddress> = Vec::new();
        let mut i: usize = 0;
        while i < self.addresses.len()
            invariant
                i <= self.addresses.len(),
                addresses@ == self.addresses@.take(i as int),
            decreases self.addresses.len() - i,
        {
            addresses.push(self.addresses[i]);
            assert(self.addresses@.take(i + 1) =~= self.addresses@.take(i as int).push(
                self.addresses@[i as int],
            ));
            i += 1;
        }
        assert(self.addresses@.take(i as int) =~= self.addresses@);
        addresses
    }
}

impl Clone for ValidatorVerifier {
    fn clone(&self) -> (copy: ValidatorVerifier)
        ensures
            copy@ == self@,
    {
        proof {
            use_type_invariant(self);
        }
        ValidatorVerifier {
            addresses: self.get_ordered_account_addresses(),
            quorum_voting_power: self.quorum_voting_power,
        }
    }
}

} // verus!
