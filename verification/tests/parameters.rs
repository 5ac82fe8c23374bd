use proof_params::error::Error;
use proof_params::parameters::{
    post_public_params, post_setup_params, public_params, select_challenges, setup_params,
};
use proof_params::registry::{PolicyRegistry, SectorPolicy};
use proof_params::types::{
    LayerChallenges, PaddedBytesAmount, PoRepProofPartitions, PoStConfig, PostSetupParams,
    SectorSize, SetupParams, DRG_SEED, NODE_SIZE,
};

fn registry() -> PolicyRegistry {
    let mut registry = PolicyRegistry::new(6, 8, 14);
    registry.register(0, 1, 1);
    registry.register(1024, 12, 11);
    registry.register(1 << 30, 50, 4);
    registry
}

#[test]
fn partition_layer_challenges_test() {
    let f = |partitions| {
        select_challenges(partitions, 12, 11)
            .unwrap()
            .challenges_count_all()
    };
    // Update to ensure all supported PoRepProofPartitions options are represented here.
    assert_eq!(6, f(usize::from(PoRepProofPartitions(2))));

    assert_eq!(12, f(1));
    assert_eq!(6, f(2));
    assert_eq!(3, f(4));
}

#[test]
fn select_challenges_rounds_up() {
    assert_eq!(select_challenges(3, 10, 5).unwrap().challenges_count_all(), 4);
    assert_eq!(select_challenges(5, 12, 11).unwrap().challenges_count_all(), 3);
    assert_eq!(select_challenges(7, 50, 2).unwrap().challenges_count_all(), 8);
}

#[test]
fn select_challenges_is_least() {
    for partitions in 1usize..20 {
        for minimum in 0usize..200 {
            let count = select_challenges(partitions, minimum, 3).unwrap().challenges_count_all();
            assert!(count >= 1);
            assert!(partitions * count >= minimum);
            assert!(count == 1 || partitions * (count - 1) < minimum);
        }
    }
}

#[test]
fn select_challenges_least_across_one_layer() {
    for partitions in 1usize..10 {
        for minimum in 1usize..60 {
            let chosen = select_challenges(partitions, minimum, 1).unwrap();
            let count = chosen.challenges_count_all();
            assert!(partitions * chosen.layers() * count >= minimum);
            assert!(count == 1 || partitions * chosen.layers() * (count - 1) < minimum);
        }
    }
}

#[test]
fn select_challenges_floor_already_met() {
    assert_eq!(select_challenges(12, 12, 11).unwrap().challenges_count_all(), 1);
    assert_eq!(select_challenges(13, 12, 11).unwrap().challenges_count_all(), 1);
    assert_eq!(select_challenges(1, 0, 11).unwrap().challenges_count_all(), 1);
    assert_eq!(select_challenges(1, 1, 11).unwrap().challenges_count_all(), 1);
}

#[test]
fn select_challenges_keeps_layers() {
    let chosen = select_challenges(2, 12, 11).unwrap();
    assert_eq!(chosen.layers(), 11);
    assert_eq!(chosen, LayerChallenges::new(11, 6));
}

#[test]
fn select_challenges_huge_partitions() {
    assert_eq!(select_challenges(usize::MAX, usize::MAX, 1).unwrap().challenges_count_all(), 1);
    assert_eq!(select_challenges(usize::MAX - 1, usize::MAX, 1).unwrap().challenges_count_all(), 2);
    assert_eq!(select_challenges(usize::MAX / 2 + 1, usize::MAX, 7).unwrap().challenges_count_all(), 2);
}

#[test]
fn select_challenges_same_input_same_result() {
    assert_eq!(select_challenges(4, 12, 11), select_challenges(4, 12, 11));
}

#[test]
fn partitions_convert_to_count() {
    assert_eq!(usize::from(PoRepProofPartitions(0)), 0);
    assert_eq!(usize::from(PoRepProofPartitions(255)), 255);
}

#[test]
fn setup_params_of_registered_size() {
    let params = setup_params(&registry(), PaddedBytesAmount(1024), 2).unwrap();
    assert_eq!(
        params,
        SetupParams {
            nodes: 32,
            degree: 6,
            expansion_degree: 8,
            seed: [
                0, 1, 2, 3, 4, 5, 6, 7, 8, 9, 10, 11, 12, 13, 14, 15, 16, 17, 18, 19, 20, 21, 22,
                23, 24, 25, 26, 27,
            ],
            layer_challenges: LayerChallenges::new(11, 6),
        }
    );
}

#[test]
fn setup_params_large_sector() {
    let params = setup_params(&registry(), PaddedBytesAmount(1 << 30), 8).unwrap();
    assert_eq!(params.nodes, 1 << 25);
    assert_eq!(params.layer_challenges.layers(), 4);
    assert_eq!(params.layer_challenges.challenges_count_all(), 7);
    assert_eq!(params.degree + params.expansion_degree, 14);
}

#[test]
fn setup_params_is_deterministic() {
    let first = setup_params(&registry(), PaddedBytesAmount(1024), 4);
    let second = setup_params(&registry(), PaddedBytesAmount(1024), 4);
    assert_eq!(first, second);
    assert_eq!(first.unwrap().seed, DRG_SEED);
}

#[test]
fn setup_params_refuses_partial_nodes() {
    let registry = registry();
    assert_eq!(
        setup_params(&registry, PaddedBytesAmount(31), 1),
        Err(Error::InvalidInput { sector_bytes: 31 })
    );
    assert_eq!(
        setup_params(&registry, PaddedBytesAmount(1), 1),
        Err(Error::InvalidInput { sector_bytes: 1 })
    );
    assert_eq!(
        setup_params(&registry, PaddedBytesAmount(1025), 2),
        Err(Error::InvalidInput { sector_bytes: 1025 })
    );
    assert_eq!(
        setup_params(&registry, PaddedBytesAmount(u64::MAX), 0),
        Err(Error::InvalidInput { sector_bytes: u64::MAX })
    );
}

#[test]
fn setup_params_empty_sector() {
    let params = setup_params(&registry(), PaddedBytesAmount(0), 1).unwrap();
    assert_eq!(params.nodes, 0);
    assert_eq!(params.layer_challenges, LayerChallenges::new(1, 1));
}

#[test]
fn node_size_is_field_width() {
    assert_eq!(NODE_SIZE, 32);
    assert_eq!(DRG_SEED.len(), 28);
}

#[test]
fn post_setup_params_projects_fields() {
    let config = PoStConfig {
        sector_size: SectorSize(2048),
        challenge_count: 40,
        challenged_nodes: 1,
    };
    assert_eq!(config.padded_bytes(), PaddedBytesAmount(2048));
    assert_eq!(
        post_setup_params(config),
        PostSetupParams { sector_size: 2048, challenge_count: 40, challenged_nodes: 1 }
    );
}

#[test]
fn public_params_hands_derived_params_to_setup() {
    let registry = registry();
    let built = public_params(&registry, PaddedBytesAmount(1024), 4, |params: &SetupParams| {
        Ok((params.nodes, params.layer_challenges.challenges_count_all()))
    });
    assert_eq!(built, Ok((32, 3)));
    let seen = public_params(&registry, PaddedBytesAmount(1024), 4, |params: &SetupParams| {
        Ok(*params)
    });
    assert_eq!(seen, setup_params(&registry, PaddedBytesAmount(1024), 4));
}

#[test]
fn public_params_does_not_set_up_a_refused_size() {
    let mut called = false;
    let built = public_params(&registry(), PaddedBytesAmount(33), 4, |_: &SetupParams| {
        called = true;
        Ok(0u8)
    });
    assert_eq!(built, Err(Error::InvalidInput { sector_bytes: 33 }));
    assert!(!called);
}

#[test]
fn public_params_returns_setup_failure() {
    let built: Result<u8, Error> =
        public_params(&registry(), PaddedBytesAmount(1024), 1, |_: &SetupParams| Err(Error::Setup));
    assert_eq!(built, Err(Error::Setup));
}

#[test]
fn post_public_params_hands_projection_to_setup() {
    let config = PoStConfig {
        sector_size: SectorSize(4096),
        challenge_count: 3,
        challenged_nodes: 2,
    };
    let built = post_public_params(config, |params: &PostSetupParams| Ok(*params));
    assert_eq!(
        built,
        Ok(PostSetupParams { sector_size: 4096, challenge_count: 3, challenged_nodes: 2 })
    );
    let failed: Result<u8, Error> = post_public_params(config, |_: &PostSetupParams| Err(Error::Setup));
    assert_eq!(failed, Err(Error::Setup));
}

#[test]
fn registry_lookup() {
    let mut registry = PolicyRegistry::new(6, 8, 14);
    assert_eq!(registry.lookup(1024), None);
    registry.register(1024, 12, 11);
    assert_eq!(registry.lookup(1024), Some(SectorPolicy { minimum_challenges: 12, layers: 11 }));
    assert_eq!(registry.policy(1024), SectorPolicy { minimum_challenges: 12, layers: 11 });
    assert_eq!(registry.lookup(2048), None);
    registry.register(1024, 20, 2);
    assert_eq!(registry.lookup(1024), Some(SectorPolicy { minimum_challenges: 20, layers: 2 }));
    assert_eq!(registry.drg_degree(), 6);
    assert_eq!(registry.exp_degree(), 8);
    assert_eq!(registry.total_degree(), 14);
}

#[test]
fn error_messages() {
    assert_eq!(
        Error::InvalidInput { sector_bytes: 31 }.message(),
        "sector_bytes must be a multiple of 32"
    );
    assert_eq!(Error::Decoding.message(), "bytes do not encode a domain value");
    assert_eq!(Error::Setup.message(), "scheme setup failed");
}
