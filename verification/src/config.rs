//! The options of the consensus engine that the epoch manager reads.

use vstd::prelude::*;

verus! {

/// How the proposers of an epoch are chosen.
#[derive(Clone, Copy, Debug, PartialEq, Eq, Structural)]
pub enum ConsensusProposerType {
    /// One validator proposes in every round.
    FixedProposer,
    /// The validators take turns.
    RotatingProposer,
    /// Several ordered proposers in each round.
    MultipleOrderedProposers,
}

/// The recognised options.
#[derive(Clone, Copy, Debug, PartialEq, Eq, Structural)]
pub struct ConsensusConfig {
    /// The cap on the payload of a proposed block.
    pub max_block_size: u64,
    /// The strategy of proposer election.
    pub proposer_type: ConsensusProposerType,
    /// For how many rounds in a row a rotating or fixed proposer stays.
    pub contiguous_rounds: u32,
    /// The cap on pruned blocks that the block store keeps in memory.
    pub max_pruned_blocks_in_mem: u64,
    /// The base round timeout, in milliseconds.
    pub pacemaker_initial_timeout_ms: u64,
}

} // verus!
