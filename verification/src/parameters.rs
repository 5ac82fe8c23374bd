//! From a sector size and a number of partitions to the parameters that the
//! proof schemes are set up with.

use vstd::prelude::*;
use crate::error::Error;
use crate::registry::PolicyRegistry;
use crate::types::{
    LayerChallenges, PaddedBytesAmount, PoStConfig, PostSetupParams, SetupParams, DRG_SEED,
    NODE_SIZE,
};

verus! {

/// Whether `partitions` partitions of `count` challenges each answer at
/// least `minimum` challenges together.
pub open spec fn meets_floor(partitions: nat, count: nat, minimum: nat) -> bool {
    partitions * count >= minimum
}

/// The least positive number of challenges per partition with which
/// `partitions` partitions reach `minimum`.
pub open spec fn smallest_count(partitions: nat, minimum: nat) -> nat
    recommends
        partitions >= 1,
{
    if minimum == 0 {
        1
    } else {
        ((minimum - 1) / (partitions as int) + 1) as nat
    }
}

/// `smallest_count` reaches the floor, and no smaller positive count does.
pub proof fn lemma_smallest_count_is_least(partitions: nat, minimum: nat)
    requires
        partitions >= 1,
    ensures
        smallest_count(partitions, minimum) >= 1,
        minimum >= 1 ==> smallest_count(partitions, minimum) <= minimum,
        meets_floor(partitions, smallest_count(partitions, minimum), minimum),
        forall|c: nat|
            1 <= c < smallest_count(partitions, minimum) ==> !#[trigger] meets_floor(
                partitions,
                c,
                minimum,
            ),
{
    let s = smallest_count(partitions, minimum);
    if minimum > 0 {
        let q = (minimum - 1) / (partitions as int);
        assert(q >= 0 && partitions * q <= minimum - 1 && minimum - 1 < partitions * (q + 1))
            by (nonlinear_arith)
            requires
                partitions >= 1,
                minimum >= 1,
                q == (minimum - 1) / (partitions as int),
        ;
        assert forall|c: nat| 1 <= c < s implies !#[trigger] meets_floor(partitions, c, minimum) by {
            assert(partitions * c <= partitions * q) by (nonlinear_arith)
                requires
                    c <= q,
                    partitions >= 1,
            ;
        }
    } else {
        assert(partitions * 1 >= 0) by (nonlinear_arith);
    }
}

/// A positive count that reaches the floor, while no smaller positive
/// count does, is `smallest_count`.
pub proof fn lemma_least_is_smallest_count(partitions: nat, minimum: nat, count: nat)
    requires
        partitions >= 1,
        count >= 1,
        meets_floor(partitions, count, minimum),
        forall|c: nat| 1 <= c < count ==> !#[trigger] meets_floor(partitions, c, minimum),
    ensures
        count == smallest_count(partitions, minimum),
{
    lemma_smallest_count_is_least(partitions, minimum);
    let s = smallest_count(partitions, minimum);
    if s < count {
        assert(!meets_floor(partitions, s, minimum));
    }
    if count < s {
        assert(!meets_floor(partitions, count, minimum));
    }
}

/// Across the layers too the count is least, where there is one layer or
/// the floor is no more than one challenge for each partition: it is then
/// the least positive `c` with `partitions * layers * c >= minimum`.
pub proof fn lemma_smallest_count_least_across_layers(partitions: nat, minimum: nat, layers: nat)
    requires
        partitions >= 1,
        minimum >= 1,
        layers >= 1,
        layers == 1 || minimum <= partitions,
    ensures
        partitions * layers * smallest_count(partitions, minimum) >= minimum,
        forall|c: nat|
            1 <= c < smallest_count(partitions, minimum) ==> !#[trigger] meets_floor(
                partitions * layers,
                c,
                minimum,
            ),
{
    lemma_smallest_count_is_least(partitions, minimum);
    let s = smallest_count(partitions, minimum);
    if layers == 1 {
        assert(partitions * layers == partitions) by (nonlinear_arith)
            requires
                layers == 1,
        ;
        assert forall|c: nat| 1 <= c < s implies !#[trigger] meets_floor(
            partitions * layers,
            c,
            minimum,
        ) by {
            assert(!meets_floor(partitions, c, minimum));
        }
    } else {
        assert(s == 1) by (nonlinear_arith)
            requires
                s == (minimum - 1) / (partitions as int) + 1,
                1 <= minimum <= partitions,
        ;
        assert(partitions * layers * 1 >= partitions) by (nonlinear_arith)
            requires
                layers >= 1,
        ;
    }
}

/// The schedule that `select_challenges` picks.
pub open spec fn selected_challenges(
    partitions: usize,
    minimum_total_challenges: usize,
    layers: usize,
) -> LayerChallenges {
    LayerChallenges::spec_new(
        layers,
        smallest_count(partitions as nat, minimum_total_challenges as nat) as usize,
    )
}

/// The schedule picked keeps the layers it was given, and its count is
/// `smallest_count`.
pub proof fn lemma_selected_challenges(
    partitions: usize,
    minimum_total_challenges: usize,
    layers: usize,
)
    requires
        partitions >= 1,
    ensures
        selected_challenges(partitions, minimum_total_challenges, layers).wf(),
        selected_challenges(partitions, minimum_total_challenges, layers).spec_layers() == layers,
        selected_challenges(partitions, minimum_total_challenges, layers).spec_max_count()
            == smallest_count(partitions as nat, minimum_total_challenges as nat),
{
    lemma_smallest_count_is_least(partitions as nat, minimum_total_challenges as nat);
    LayerChallenges::lemma_spec_new(
        layers,
        smallest_count(partitions as nat, minimum_total_challenges as nat) as usize,
    );
}

/// Whether `partitions` partitions of the schedule `guess` reach `minimum`.
fn reaches_floor(partitions: usize, guess: &LayerChallenges, minimum: usize) -> (reached: bool)
    ensures
        reached == meets_floor(partitions as nat, guess.spec_max_count() as nat, minimum as nat),
{
    match partitions.checked_mul(guess.challenges_count_all()) {
        Some(total) => total >= minimum,
        None => true,
    }
}

/// The schedule with the fewest challenges per partition with which
/// `partitions` partitions together answer at least
/// `minimum_total_challenges` challenges.
pub fn select_challenges(partitions: usize, minimum_total_challenges: usize, layers: usize) -> (r:
    Result<LayerChallenges, Error>)
    requires
        partitions >= 1,
    ensures
        r == Ok::<LayerChallenges, Error>(
            selected_challenges(partitions, minimum_total_challenges, layers),
        ),
        r->Ok_0.wf(),
        r->Ok_0.spec_layers() == layers,
        r->Ok_0.spec_max_count() == smallest_count(
            partitions as nat,
            minimum_total_challenges as nat,
        ),
        meets_floor(
            partitions as nat,
            r->Ok_0.spec_max_count() as nat,
            minimum_total_challenges as nat,
        ),
        forall|c: nat|
            1 <= c < r->Ok_0.spec_max_count() ==> !#[trigger] meets_floor(
                partitions as nat,
                c,
                minimum_total_challenges as nat,
            ),
{
    let mut guess = LayerChallenges::new(layers, 1);
    while !reaches_floor(partitions, &guess, minimum_total_challenges)
        invariant
            partitions >= 1,
            guess.wf(),
            guess == LayerChallenges::spec_new(layers, guess.spec_max_count()),
            guess.spec_layers() == layers,
            guess.spec_max_count() <= minimum_total_challenges || guess.spec_max_count() == 1,
            forall|c: nat|
                1 <= c < guess.spec_max_count() ==> !#[trigger] meets_floor(
                    partitions as nat,
                    c,
                    minimum_total_challenges as nat,
                ),
        decreases minimum_total_challenges - guess.spec_max_count(),
    {
        let count: usize = guess.challenges_count_all();
        proof {
            assert(count < minimum_total_challenges) by (nonlinear_arith)
                requires
                    partitions >= 1,
                    partitions * count < minimum_total_challenges,
            ;
        }
        guess = LayerChallenges::new(layers, count + 1);
    }
    proof {
        lemma_least_is_smallest_count(
            partitions as nat,
            minimum_total_challenges as nat,
            guess.spec_max_count() as nat,
        );
    }
    Ok(guess)
}

/// The replication parameters of a registered sector size.
pub open spec fn setup_params_for(
    registry: &PolicyRegistry,
    sector_bytes: u64,
    partitions: usize,
) -> SetupParams
    recommends
        registry.contains(sector_bytes),
{
    let policy = registry.policies()[sector_bytes];
    SetupParams {
        nodes: (sector_bytes / NODE_SIZE) as usize,
        degree: registry.spec_drg_degree(),
        expansion_degree: registry.spec_exp_degree(),
        seed: DRG_SEED,
        layer_challenges: selected_challenges(
            partitions,
            policy.minimum_challenges as usize,
            policy.layers,
        ),
    }
}

/// What `setup_params` returns: the parameters where the sector is a whole
/// number of nodes, and the refusal of the size where it is not.
pub open spec fn setup_params_result(
    registry: &PolicyRegistry,
    sector_bytes: u64,
    partitions: usize,
) -> Result<SetupParams, Error> {
    if sector_bytes % NODE_SIZE == 0 {
        Ok(setup_params_for(registry, sector_bytes, partitions))
    } else {
        Err(Error::InvalidInput { sector_bytes })
    }
}

/// The outcome depends on the sector size, the number of partitions and what
/// the registry holds, and on nothing else: two registries that hold the
/// same give the same outcome, seed included.
pub proof fn lemma_setup_params_deterministic(
    first: &PolicyRegistry,
    second: &PolicyRegistry,
    sector_bytes: u64,
    partitions: usize,
)
    requires
        first.policies() == second.policies(),
        first.spec_drg_degree() == second.spec_drg_degree(),
        first.spec_exp_degree() == second.spec_exp_degree(),
    ensures
        setup_params_result(first, sector_bytes, partitions) == setup_params_result(
            second,
            sector_bytes,
            partitions,
        ),
        setup_params_result(first, sector_bytes, partitions) matches Ok(params)
            ==> params.seed == DRG_SEED,
{
}

/// The parameters with which the replication scheme is set up for sectors
/// of `sector_bytes` bytes proved in `partitions` partitions.
///
/// A size that is a whole number of nodes has to be registered, and there
/// has to be at least one partition.
pub fn setup_params(
    registry: &PolicyRegistry,
    sector_bytes: PaddedBytesAmount,
    partitions: usize,
) -> (r: Result<SetupParams, Error>)
    requires
        registry.wf(),
        sector_bytes.0 % NODE_SIZE == 0 ==> partitions >= 1 && registry.contains(sector_bytes.0),
    ensures
        r == setup_params_result(registry, sector_bytes.0, partitions),
        r is Ok ==> r->Ok_0.degree + r->Ok_0.expansion_degree == registry.spec_total_degree(),
        r matches Ok(params) ==> {
            let policy = registry.policies()[sector_bytes.0];
            &&& params.layer_challenges.wf()
            &&& params.layer_challenges.spec_layers() == policy.layers
            &&& params.layer_challenges.spec_max_count() == smallest_count(
                partitions as nat,
                policy.minimum_challenges as usize as nat,
            )
        },
{
    let sector_bytes: u64 = sector_bytes.0;
    if sector_bytes % NODE_SIZE != 0 {
        return Err(Error::InvalidInput { sector_bytes });
    }
    let policy = registry.policy(sector_bytes);
    let layer_challenges = match select_challenges(
        partitions,
        policy.minimum_challenges as usize,
        policy.layers,
    ) {
        Ok(layer_challenges) => layer_challenges,
        Err(e) => {
            return Err(e);
        },
    };
    let nodes = (sector_bytes / NODE_SIZE) as usize;
    Ok(
        SetupParams {
            nodes,
            degree: registry.drg_degree(),
            expansion_degree: registry.exp_degree(),
            seed: DRG_SEED,
            layer_challenges,
        },
    )
}

/// The election parameters that a configuration stands for.
pub open spec fn post_setup_params_for(post_config: PoStConfig) -> PostSetupParams {
    PostSetupParams {
        sector_size: post_config.sector_size.0,
        challenge_count: post_config.challenge_count,
        challenged_nodes: post_config.challenged_nodes,
    }
}

/// The parameters with which the election scheme is set up: the fields of
/// the configuration, the sector size as a plain number of bytes.
pub fn post_setup_params(post_config: PoStConfig) -> (r: PostSetupParams)
    ensures
        r == post_setup_params_for(post_config),
{
    let size = post_config.padded_bytes();
    PostSetupParams {
        sector_size: size.0,
        challenge_count: post_config.challenge_count,
        challenged_nodes: post_config.challenged_nodes,
    }
}

/// Derives the replication parameters and hands them to the scheme's
/// `setup`; its answer is returned as it came. Where the sector size is
/// refused, `setup` is not called.
pub fn public_params<P, F>(
    registry: &PolicyRegistry,
    sector_bytes: PaddedBytesAmount,
    partitions: usize,
    setup: F,
) -> (r: Result<P, Error>) where F: FnOnce(&SetupParams) -> Result<P, Error>,
    requires
        registry.wf(),
        sector_bytes.0 % NODE_SIZE == 0 ==> {
            &&& partitions >= 1
            &&& registry.contains(sector_bytes.0)
            &&& setup.requires((&setup_params_for(registry, sector_bytes.0, partitions),))
        },
    ensures
        sector_bytes.0 % NODE_SIZE != 0 ==> r == Err::<P, Error>(
            Error::InvalidInput { sector_bytes: sector_bytes.0 },
        ),
        sector_bytes.0 % NODE_SIZE == 0 ==> setup.ensures(
            (&setup_params_for(registry, sector_bytes.0, partitions),),
            r,
        ),
{
    match setup_params(registry, sector_bytes, partitions) {
        Ok(params) => setup(&params),
        Err(e) => Err(e),
    }
}

/// Derives the election parameters and hands them to the scheme's `setup`;
/// its answer is returned as it came.
pub fn post_public_params<P, F>(post_config: PoStConfig, setup: F) -> (r: Result<P, Error>) where
    F: FnOnce(&PostSetupParams) -> Result<P, Error>,

    requires
        setup.requires((&post_setup_params_for(post_config),)),
    ensures
        setup.ensures((&post_setup_params_for(post_config),), r),
{
    let params = post_setup_params(post_config);
    setup(&params)
}

} // verus!
