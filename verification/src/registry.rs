//! The security policy: what each supported sector size demands, and the
//! degrees of the replication graph.

use std::collections::HashMap;
use vstd::prelude::*;

verus! {

broadcast use vstd::std_specs::hash::group_hash_axioms;

/// What the policy demands of one sector size.
#[derive(Clone, Copy, Debug, PartialEq, Eq, Structural)]
pub struct SectorPolicy {
    /// Least number of challenges that all partitions together answer.
    pub minimum_challenges: u64,
    /// Number of layers of a replica.
    pub layers: usize,
}

/// An immutable table of policies, built once and then only read.
pub struct PolicyRegistry {
    policies: HashMap<u64, SectorPolicy>,
    drg_degree: usize,
    exp_degree: usize,
    total_degree: usize,
}

impl PolicyRegistry {
    /// The registered sector sizes, each with its policy.
    pub closed spec fn policies(&self) -> Map<u64, SectorPolicy> {
        self.policies@
    }

    pub closed spec fn spec_drg_degree(&self) -> usize {
        self.drg_degree
    }

    pub closed spec fn spec_exp_degree(&self) -> usize {
        self.exp_degree
    }

    pub closed spec fn spec_total_degree(&self) -> usize {
        self.total_degree
    }

    /// The two configured degrees add up to the degree that the scheme fixes.
    pub open spec fn wf(&self) -> bool {
        self.spec_drg_degree() + self.spec_exp_degree() == self.spec_total_degree()
    }

    pub open spec fn contains(&self, sector_bytes: u64) -> bool {
        self.policies().contains_key(sector_bytes)
    }

    /// A registry without sector sizes.
    pub fn new(drg_degree: usize, exp_degree: usize, total_degree: usize) -> (registry: PolicyRegistry)
        requires
            drg_degree + exp_degree == total_degree,
        ensures
            registry.wf(),
            registry.policies() == Map::<u64, SectorPolicy>::empty(),
            registry.spec_drg_degree() == drg_degree,
            registry.spec_exp_degree() == exp_degree,
            registry.spec_total_degree() == total_degree,
    {
        PolicyRegistry { policies: HashMap::new(), drg_degree, exp_degree, total_degree }
    }

    /// Registers a sector size, replacing what was registered for it.
    pub fn register(&mut self, sector_bytes: u64, minimum_challenges: u64, layers: usize)
        requires
            old(self).wf(),
        ensures
            final(self).wf(),
            final(self).policies() == old(self).policies().insert(
                sector_bytes,
                (SectorPolicy { minimum_challenges, layers }),
            ),
            final(self).spec_drg_degree() == old(self).spec_drg_degree(),
            final(self).spec_exp_degree() == old(self).spec_exp_degree(),
            final(self).spec_total_degree() == old(self).spec_total_degree(),
    {
        self.policies.insert(sector_bytes, SectorPolicy { minimum_challenges, layers });
    }

    /// The policy of a sector size, if it is registered.
    pub fn lookup(&self, sector_bytes: u64) -> (found: Option<SectorPolicy>)
        ensures
            found == if self.contains(sector_bytes) {
                Some(self.policies()[sector_bytes])
            } else {
                None
            },
    {
        match self.policies.get(&sector_bytes) {
            Some(policy) => Some(*policy),
            None => None,
        }
    }

    /// The policy of a registered sector size.
    pub fn policy(&self, sector_bytes: u64) -> (policy: SectorPolicy)
        requires
            self.contains(sector_bytes),
        ensures
            policy == self.policies()[sector_bytes],
    {
        *self.policies.get(&sector_bytes).unwrap()
    }

    #[verifier::when_used_as_spec(spec_drg_degree)]
    pub fn drg_degree(&self) -> (d: usize)
        ensures
            d == self.spec_drg_degree(),
    {
        self.drg_degree
    }

    #[verifier::when_used_as_spec(spec_exp_degree)]
    pub fn exp_degree(&self) -> (d: usize)
        ensures
            d == self.spec_exp_degree(),
    {
        self.exp_degree
    }

    #[verifier::when_used_as_spec(spec_total_degree)]
    pub fn total_degree(&self) -> (d: usize)
        ensures
            d == self.spec_total_degree(),
    {
        self.total_degree
    }
}

} // verus!
