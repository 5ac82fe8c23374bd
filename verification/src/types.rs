//! Plain values that parameter derivation reads and produces.

use vstd::prelude::*;

verus! {

/// Width of one node, and of one domain value, in bytes.
pub const NODE_SIZE: u64 = 32;

/// Seed from which the replication graph is sampled. It is part of the
/// protocol: another seed gives another graph, and proofs made over the one
/// do not verify over the other.
pub const DRG_SEED: [u8; 28] = [
    0, 1, 2, 3, 4, 5, 6, 7, 8, 9, 10, 11, 12, 13, 14, 15, 16, 17, 18, 19, 20, 21, 22, 23, 24, 25,
    26, 27,
];

/// A sector size in bytes, after padding.
#[derive(Clone, Copy, Debug, PartialEq, Eq, Structural)]
pub struct PaddedBytesAmount(pub u64);

/// A sector size in bytes, as configured.
#[derive(Clone, Copy, Debug, PartialEq, Eq, Structural)]
pub struct SectorSize(pub u64);

/// The number of partitions that a replication proof is made of.
#[derive(Clone, Copy, Debug, PartialEq, Eq, Structural)]
pub struct PoRepProofPartitions(pub u8);

impl From<PoRepProofPartitions> for usize {
    fn from(partitions: PoRepProofPartitions) -> (n: usize) {
        let count: u8 = partitions.0;
        count as usize
    }
}

impl vstd::std_specs::convert::FromSpecImpl<PoRepProofPartitions> for usize {
    open spec fn obeys_from_spec() -> bool {
        true
    }

    open spec fn from_spec(partitions: PoRepProofPartitions) -> usize {
        partitions.0 as usize
    }
}

/// What a caller configures for the election scheme.
#[derive(Clone, Copy, Debug, PartialEq, Eq, Structural)]
pub struct PoStConfig {
    pub sector_size: SectorSize,
    pub challenge_count: usize,
    pub challenged_nodes: usize,
}

impl PoStConfig {
    /// The padded size of the configured sector: the same number of bytes.
    pub fn padded_bytes(&self) -> (size: PaddedBytesAmount)
        ensures
            size.0 == self.sector_size.0,
    {
        PaddedBytesAmount(self.sector_size.0)
    }
}

/// How many layers a replica has and how many challenges one partition answers.
#[derive(Clone, Copy, Debug, PartialEq, Eq, Structural)]
pub struct LayerChallenges {
    layers: usize,
    max_count: usize,
}

impl LayerChallenges {
    pub closed spec fn spec_layers(&self) -> usize {
        self.layers
    }

    pub closed spec fn spec_max_count(&self) -> usize {
        self.max_count
    }

    /// The schedule of `layers` layers and `max_count` challenges.
    pub closed spec fn spec_new(layers: usize, max_count: usize) -> LayerChallenges {
        LayerChallenges { layers, max_count }
    }

    /// `spec_new` holds what it was given.
    pub proof fn lemma_spec_new(layers: usize, max_count: usize)
        ensures
            Self::spec_new(layers, max_count).spec_layers() == layers,
            Self::spec_new(layers, max_count).spec_max_count() == max_count,
    {
    }

    /// A schedule asks for at least one challenge.
    pub open spec fn wf(&self) -> bool {
        self.spec_max_count() >= 1
    }

    pub fn new(layers: usize, max_count: usize) -> (lc: LayerChallenges)
        requires
            max_count >= 1,
        ensures
            lc == Self::spec_new(layers, max_count),
            lc.spec_layers() == layers,
            lc.spec_max_count() == max_count,
            lc.wf(),
    {
        LayerChallenges { layers, max_count }
    }

    #[verifier::when_used_as_spec(spec_layers)]
    pub fn layers(&self) -> (n: usize)
        ensures
            n == self.spec_layers(),
    {
        self.layers
    }

    /// The number of challenges that one partition answers.
    pub fn challenges_count_all(&self) -> (n: usize)
        ensures
            n == self.spec_max_count(),
    {
        self.max_count
    }
}

/// What the replication scheme's setup consumes.
#[derive(Clone, Copy, Debug, PartialEq, Eq)]
pub struct SetupParams {
    /// Number of nodes of the graph.
    pub nodes: usize,
    /// In-degree of the base graph.
    pub degree: usize,
    /// In-degree added by the expander between layers.
    pub expansion_degree: usize,
    /// Seed from which the graph is sampled.
    pub seed: [u8; 28],
    pub layer_challenges: LayerChallenges,
}

/// What the election scheme's setup consumes.
#[derive(Clone, Copy, Debug, PartialEq, Eq, Structural)]
pub struct PostSetupParams {
    pub sector_size: u64,
    pub challenge_count: usize,
    pub challenged_nodes: usize,
}

} // verus!
