//! What the epoch manager settles about liveness when an epoch starts: who
//! proposes, and how round timeouts grow.

use vstd::prelude::*;
use vstd::arithmetic::div_mod::lemma_fundamental_div_mod;
use vstd::arithmetic::power::{lemma_pow_increases, lemma_pow_positive, pow};
use crate::account_address::{is_least, AccountAddress};

verus! {

/// The address among `peers` that sorts first.
pub open spec fn leader_of(peers: Seq<AccountAddress>) -> AccountAddress {
    choose|a: AccountAddress| is_least(peers, a)
}

/// The leader among `peers`: the one whose address sorts first.
pub fn choose_leader(peers: &Vec<AccountAddress>) -> (leader: AccountAddress)
    requires
        peers.len() > 0,
    ensures
        is_least(peers@, leader),
        leader == leader_of(peers@),
{
    let mut leader = peers[0];
    let mut i: usize = 1;
    while i < peers.len()
        invariant
            1 <= i <= peers.len(),
            exists|k: int| 0 <= k < i && peers@[k] == leader,
            forall|j: int| 0 <= j < i ==> !(#[trigger] peers@[j]).precedes(leader),
        decreases peers.len() - i,
    {
        if peers[i].is_before(&leader) {
            leader = peers[i];
        }
        i += 1;
    }
    proof {
        lemma_leader_of_set(peers@, peers@, leader, leader_of(peers@));
    }
    leader
}

/// The leader depends on who the peers are, not on the order or the number
/// of times they are listed.
pub proof fn lemma_leader_of_set(
    a: Seq<AccountAddress>,
    b: Seq<AccountAddress>,
    x: AccountAddress,
    y: AccountAddress,
)
    requires
        a.to_set() == b.to_set(),
        is_least(a, x),
        is_least(b, y),
    ensures
        x == y,
{
    assert(a.to_set().contains(x));
    assert(b.to_set().contains(x));
    assert(b.to_set().contains(y));
    assert(a.to_set().contains(y));
    let i = choose|i: int| 0 <= i < b.len() && b[i] == x;
    let j = choose|j: int| 0 <= j < a.len() && a[j] == y;
    assert(!b[i].precedes(y));
    assert(!a[j].precedes(x));
}

/// Among one or more peers there is a leader: one of them, before whom none
/// of them sorts.
pub proof fn lemma_leader_is_least(peers: Seq<AccountAddress>)
    requires
        peers.len() > 0,
    ensures
        is_least(peers, leader_of(peers)),
    decreases peers.len(),
{
    let last = peers.last();
    let rest = peers.drop_last();
    let least = if rest.len() == 0 {
        last
    } else {
        lemma_leader_is_least(rest);
        let of_rest = leader_of(rest);
        let i = choose|i: int| 0 <= i < rest.len() && rest[i] == of_rest;
        assert(peers[i] == of_rest);
        if last.precedes(of_rest) {
            last
        } else {
            of_rest
        }
    };
    assert(peers[peers.len() - 1] == last);
    assert forall|i: int| 0 <= i < peers.len() implies !(#[trigger] peers[i]).precedes(least) by {
        if i < rest.len() {
            assert(peers[i] == rest[i]);
        }
    }
    assert(is_least(peers, least));
}

/// A strategy of proposer election with what it is made from.
#[derive(Clone, Debug, PartialEq, Eq)]
pub enum ProposerElection {
    /// The proposers take turns, each for `contiguous_rounds` rounds.
    RotatingProposer { proposers: Vec<AccountAddress>, contiguous_rounds: u32 },
    /// In each round of `epoch`, `num_proposers_per_round` of the proposers
    /// may propose, in an order.
    MultiProposer { epoch: u64, proposers: Vec<AccountAddress>, num_proposers_per_round: usize },
}

/// What a strategy of proposer election stands for.
pub enum ElectionPlan {
    Rotating { proposers: Seq<AccountAddress>, contiguous_rounds: u32 },
    Multi { epoch: u64, proposers: Seq<AccountAddress>, num_proposers_per_round: usize },
}

impl View for ProposerElection {
    type V = ElectionPlan;

    open spec fn view(&self) -> ElectionPlan {
        match *self {
            ProposerElection::RotatingProposer { proposers, contiguous_rounds } => {
                ElectionPlan::Rotating { proposers: proposers@, contiguous_rounds }
            },
            ProposerElection::MultiProposer { epoch, proposers, num_proposers_per_round } => {
                ElectionPlan::Multi { epoch, proposers: proposers@, num_proposers_per_round }
            },
        }
    }
}

/// What a growing round timeout stands for: the timeout of the first round
/// after progress in milliseconds, the factor `numerator / denominator` by
/// which it grows with each further round, and the number of rounds after
/// which it grows no more.
pub struct Backoff {
    pub base_ms: u64,
    pub numerator: u32,
    pub denominator: u32,
    pub max_exponent: u32,
}

/// `a / d`, rounded up.
pub open spec fn div_ceil(a: int, d: int) -> int {
    (a + d - 1) / d
}

impl Backoff {
    /// Whether the factor is a ratio and its greatest power stays within 32
    /// bits, above and below the line.
    pub open spec fn fits(self) -> bool {
        &&& self.denominator > 0
        &&& pow(self.numerator as int, self.max_exponent as nat) <= u32::MAX
        &&& pow(self.denominator as int, self.max_exponent as nat) <= u32::MAX
    }

    /// How often the timeout of the round with the given index has grown.
    pub open spec fn exponent(self, round_index: nat) -> nat {
        if round_index < self.max_exponent {
            round_index
        } else {
            self.max_exponent as nat
        }
    }

    /// The timeout of the round with the given index, before it is cut to
    /// what 64 bits hold: the base times the factor to the power of the
    /// exponent, rounded up to whole milliseconds.
    pub open spec fn exact_duration_ms(self, round_index: nat) -> int {
        let k = self.exponent(round_index);
        div_ceil(self.base_ms * pow(self.numerator as int, k), pow(self.denominator as int, k))
    }

    /// The timeout of the round with the given index, in milliseconds.
    pub open spec fn round_duration_ms(self, round_index: nat) -> int {
        if self.exact_duration_ms(round_index) > u64::MAX {
            u64::MAX as int
        } else {
            self.exact_duration_ms(round_index)
        }
    }
}

/// A round timeout that grows by a constant factor with each round since
/// the last progress, up to a cap.
#[derive(Clone, Copy, Debug, PartialEq, Eq)]
pub struct ExponentialTimeInterval {
    base_ms: u64,
    numerator: u32,
    denominator: u32,
    max_exponent: u32,
}

impl View for ExponentialTimeInterval {
    type V = Backoff;

    closed spec fn view(&self) -> Backoff {
        Backoff {
            base_ms: self.base_ms,
            numerator: self.numerator,
            denominator: self.denominator,
            max_exponent: self.max_exponent,
        }
    }
}

impl ExponentialTimeInterval {
    #[verifier::type_invariant]
    spec fn growth_fits(self) -> bool {
        self@.fits()
    }

    /// The interval that starts at `base_ms` and grows by the factor
    /// `numerator / denominator` for `max_exponent` rounds.
    pub fn new(base_ms: u64, numerator: u32, denominator: u32, max_exponent: u32) -> (interval:
        ExponentialTimeInterval)
        requires
            (Backoff { base_ms, numerator, denominator, max_exponent }).fits(),
        ensures
            interval@ == (Backoff { base_ms, numerator, denominator, max_exponent }),
    {
        ExponentialTimeInterval { base_ms, numerator, denominator, max_exponent }
    }

    /// The timeout of the first round after progress, in milliseconds.
    pub fn base_ms(&self) -> (ms: u64)
        ensures
            ms == self@.base_ms,
    {
        self.base_ms
    }

    /// The number of rounds after which the timeout grows no more.
    pub fn max_exponent(&self) -> (rounds: u32)
        ensures
            rounds == self@.max_exponent,
    {
        self.max_exponent
    }

    /// The timeout, in milliseconds, of the round that is
    /// `round_index_after_committed_qc` rounds after the last progress.
    pub fn get_round_duration_ms(&self, round_index_after_committed_qc: usize) -> (ms: u64)
        ensures
            ms == self@.round_duration_ms(round_index_after_committed_qc as nat),
    {
        proof {
            use_type_invariant(self);
        }
        let k: u32 = if round_index_after_committed_qc < self.max_exponent as usize {
            round_index_after_committed_qc as u32
        } else {
            self.max_exponent
        };
        assert(k == self@.exponent(round_index_after_committed_qc as nat));
        let mut above: u64 = 1;
        let mut below: u64 = 1;
        let mut i: u32 = 0;
        proof {
            lemma_power_step(self.numerator as int, 0);
            lemma_power_step(self.denominator as int, 0);
        }
        while i < k
            invariant
                i <= k <= self.max_exponent,
                self@.fits(),
                above == pow(self.numerator as int, i as nat),
                below == pow(self.denominator as int, i as nat),
                above <= u32::MAX,
                below <= u32::MAX,
            decreases k - i,
        {
            proof {
                lemma_power_bounded(self.numerator, (i + 1) as nat, self.max_exponent as nat);
                lemma_power_bounded(self.denominator, (i + 1) as nat, self.max_exponent as nat);
                lemma_power_step(self.numerator as int, i as nat);
                lemma_power_step(self.denominator as int, i as nat);
                assert(above * self.numerator == self.numerator * above) by (nonlinear_arith);
                assert(below * self.denominator == self.denominator * below) by (nonlinear_arith);
            }
            above = above * (self.numerator as u64);
            below = below * (self.denominator as u64);
            i += 1;
        }
        proof {
            lemma_pow_positive(self.denominator as int, k as nat);
            assert(self.base_ms * above <= 0xffff_ffff_ffff_ffff * 0xffff_ffff) by (nonlinear_arith)
                requires
                    self.base_ms <= 0xffff_ffff_ffff_ffff,
                    0 <= above <= 0xffff_ffff,
            ;
        }
        let scaled: u128 = (self.base_ms as u128) * (above as u128);
        let rounded: u128 = (scaled + (below as u128 - 1)) / (below as u128);
        if rounded > u64::MAX as u128 {
            u64::MAX
        } else {
            rounded as u64
        }
    }
}

/// How a power is made from the one before it.
proof fn lemma_power_step(b: int, e: nat)
    ensures
        pow(b, 0) == 1,
        pow(b, e + 1) == b * pow(b, e),
{
    reveal(pow);
}

/// A power of `b` is no greater than a later power of it that fits 32 bits.
proof fn lemma_power_bounded(b: u32, e: nat, max: nat)
    requires
        e <= max,
        pow(b as int, max) <= u32::MAX,
    ensures
        0 <= pow(b as int, e) <= u32::MAX,
{
    if b == 0 {
        if e > 0 {
            lemma_power_step(0, (e - 1) as nat);
        } else {
            lemma_power_step(0, 0);
        }
    } else {
        lemma_pow_increases(b as nat, e, max);
        lemma_pow_positive(b as int, e);
    }
}

/// Unless it was cut to 64 bits, a round timeout is the least whole number
/// of milliseconds that is no less than the base times the factor to the
/// power of the exponent.
pub proof fn lemma_round_duration_rounds_up(backoff: Backoff, round_index: nat)
    requires
        backoff.fits(),
        backoff.round_duration_ms(round_index) < u64::MAX,
    ensures
        ({
            let k = backoff.exponent(round_index);
            let d = backoff.round_duration_ms(round_index);
            let above = pow(backoff.numerator as int, k);
            let below = pow(backoff.denominator as int, k);
            &&& d * below >= backoff.base_ms * above
            &&& (d - 1) * below < backoff.base_ms * above
        }),
{
    let k = backoff.exponent(round_index);
    let d = backoff.round_duration_ms(round_index);
    let above = pow(backoff.numerator as int, k);
    let below = pow(backoff.denominator as int, k);
    lemma_pow_positive(backoff.denominator as int, k);
    let a = backoff.base_ms * above;
    lemma_fundamental_div_mod(a + below - 1, below);
    assert(d == (a + below - 1) / below);
    assert(d * below == below * d) by (nonlinear_arith);
    assert((d - 1) * below == below * d - below) by (nonlinear_arith);
}

/// From the cap on, every round has the timeout of the round at the cap.
pub proof fn lemma_round_duration_capped(backoff: Backoff, round_index: nat)
    requires
        round_index >= backoff.max_exponent,
    ensures
        backoff.round_duration_ms(round_index) == backoff.round_duration_ms(
            backoff.max_exponent as nat,
        ),
{
}

} // verus!
