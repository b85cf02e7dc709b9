use rand::rngs::SmallRng;
use rand::{Rng, SeedableRng};

use creep_engine::geom::{in_range_to, is_near_to, range_between, Position};
use creep_engine::rng::pick_biased_index;
use creep_engine::selector::{downgrade_threshold, repair_threshold, select_carrying, select_harvest};
use creep_engine::task::{CreepTarget, StoreTarget};
use creep_engine::world::{ConstructionSiteInfo, SourceInfo, Terrain, WorldSnapshot, WorldStructure};

fn world_with(structures: Vec<WorldStructure>) -> WorldSnapshot {
    WorldSnapshot {
        structures,
        construction_sites: Vec::new(),
        active_sources: Vec::new(),
        hostiles: Vec::new(),
    }
}

fn pos(x: u8, y: u8) -> Position {
    Position { x, y }
}

#[test]
fn chebyshev_range() {
    assert_eq!(range_between(pos(10, 10), pos(10, 10)), 0);
    assert_eq!(range_between(pos(10, 10), pos(13, 11)), 3);
    assert_eq!(range_between(pos(10, 10), pos(8, 4)), 6);
    assert!(in_range_to(pos(10, 10), pos(13, 11), 3));
    assert!(!in_range_to(pos(10, 10), pos(14, 10), 3));
    assert!(is_near_to(pos(10, 10), pos(11, 11)));
    assert!(!is_near_to(pos(10, 10), pos(12, 10)));
}

#[test]
fn threshold_tables() {
    assert_eq!(downgrade_threshold(1), 20_000);
    assert_eq!(downgrade_threshold(2), 10_000);
    assert_eq!(downgrade_threshold(8), 200_000);
    assert_eq!(downgrade_threshold(0), 20_000);
    assert_eq!(repair_threshold(Terrain::Plain), 5_000);
    assert_eq!(repair_threshold(Terrain::Swamp), 25_000);
    assert_eq!(repair_threshold(Terrain::Wall), 750_000);
}

#[test]
fn upgrade_wins_over_store() {
    // Both a controller near downgrade and an extension with free capacity:
    // the selector must choose the upgrade, never the store.
    let world = world_with(vec![
        WorldStructure::Extension { id: 2, pos: pos(4, 4), free_energy: 50 },
        WorldStructure::Controller {
            id: 1,
            pos: pos(20, 20),
            level: 3,
            // Danger cutoff for level 3 is 20000 - 5000 = 15000.
            ticks_to_downgrade: 14_999,
        },
    ]);
    assert_eq!(select_carrying(&world), Some(CreepTarget::Upgrade(1)));
}

#[test]
fn controller_at_cutoff_is_not_dangerous() {
    let world = world_with(vec![
        WorldStructure::Controller {
            id: 1,
            pos: pos(20, 20),
            level: 3,
            ticks_to_downgrade: 15_000,
        },
        WorldStructure::Spawn { id: 2, pos: pos(4, 4), free_energy: 10 },
    ]);
    // The controller is exactly at the cutoff: the spawn is fed instead.
    assert_eq!(
        select_carrying(&world),
        Some(CreepTarget::Store(StoreTarget::Spawn(2)))
    );
}

#[test]
fn priority_order_spawn_extension_tower() {
    let spawn = WorldStructure::Spawn { id: 1, pos: pos(1, 1), free_energy: 10 };
    let ext = WorldStructure::Extension { id: 2, pos: pos(2, 2), free_energy: 10 };
    let tower = WorldStructure::Tower { id: 3, pos: pos(3, 3), free_energy: 10 };

    let world = world_with(vec![tower, ext, spawn]);
    assert_eq!(
        select_carrying(&world),
        Some(CreepTarget::Store(StoreTarget::Spawn(1)))
    );

    let world = world_with(vec![tower, ext]);
    assert_eq!(
        select_carrying(&world),
        Some(CreepTarget::Store(StoreTarget::Extension(2)))
    );

    let world = world_with(vec![tower]);
    assert_eq!(
        select_carrying(&world),
        Some(CreepTarget::Store(StoreTarget::Tower(3)))
    );
}

#[test]
fn full_structures_are_skipped() {
    let world = world_with(vec![
        WorldStructure::Spawn { id: 1, pos: pos(1, 1), free_energy: 0 },
        WorldStructure::Extension { id: 2, pos: pos(2, 2), free_energy: 0 },
        WorldStructure::Tower { id: 3, pos: pos(3, 3), free_energy: 5 },
    ]);
    assert_eq!(
        select_carrying(&world),
        Some(CreepTarget::Store(StoreTarget::Tower(3)))
    );
}

#[test]
fn worn_road_is_repaired() {
    // Plain cutoff is 5000 * 8 / 10 = 4000.
    let world = world_with(vec![
        WorldStructure::Road { id: 4, pos: pos(9, 9), hits: 3_999, terrain: Terrain::Plain },
    ]);
    assert_eq!(select_carrying(&world), Some(CreepTarget::Repair(4)));

    let world = world_with(vec![
        WorldStructure::Road { id: 4, pos: pos(9, 9), hits: 4_000, terrain: Terrain::Plain },
        WorldStructure::Controller { id: 1, pos: pos(2, 2), level: 3, ticks_to_downgrade: 100_000 },
    ]);
    // At the cutoff the road is healthy enough; the fallback applies.
    assert_eq!(select_carrying(&world), Some(CreepTarget::Upgrade(1)));
}

#[test]
fn swamp_road_has_higher_cutoff() {
    // Swamp cutoff is 25000 * 8 / 10 = 20000.
    let world = world_with(vec![
        WorldStructure::Road { id: 4, pos: pos(9, 9), hits: 10_000, terrain: Terrain::Swamp },
    ]);
    assert_eq!(select_carrying(&world), Some(CreepTarget::Repair(4)));
}

#[test]
fn construction_site_before_fallback() {
    let mut world = world_with(vec![
        WorldStructure::Controller { id: 1, pos: pos(2, 2), level: 3, ticks_to_downgrade: 100_000 },
    ]);
    world.construction_sites = vec![ConstructionSiteInfo { id: 7, pos: pos(6, 6) }];
    assert_eq!(select_carrying(&world), Some(CreepTarget::Construct(7)));

    world.construction_sites = Vec::new();
    assert_eq!(select_carrying(&world), Some(CreepTarget::Upgrade(1)));
}

#[test]
fn nothing_to_do_selects_nothing() {
    let world = world_with(vec![
        WorldStructure::Other { id: 11, pos: pos(30, 30) },
    ]);
    assert_eq!(select_carrying(&world), None);
}

#[test]
fn harvest_pick_comes_from_candidates() {
    let mut world = world_with(Vec::new());
    world.active_sources = vec![
        SourceInfo { id: 100, pos: pos(1, 1) },
        SourceInfo { id: 200, pos: pos(2, 2) },
        SourceInfo { id: 300, pos: pos(3, 3) },
    ];
    let mut rng = SmallRng::seed_from_u64(7);
    for _ in 0..100 {
        match select_harvest(&world, &mut rng) {
            Some(CreepTarget::Harvest(id)) => {
                assert!(id == 100 || id == 200 || id == 300)
            }
            other => panic!("unexpected selection: {:?}", other),
        }
    }
}

#[test]
fn empty_candidate_set_selects_nothing() {
    let world = world_with(Vec::new());
    let mut rng = SmallRng::seed_from_u64(7);
    assert_eq!(select_harvest(&world, &mut rng), None);
}

#[test]
fn biased_pick_favors_higher_indices() {
    // The larger of two independent uniform draws must dominate a single
    // uniform draw toward higher indices: compare empirical distributions
    // over many trials.
    let n: usize = 10;
    let trials: usize = 20_000;

    let mut rng = SmallRng::seed_from_u64(99);
    let mut biased_counts = vec![0u32; n];
    for _ in 0..trials {
        biased_counts[pick_biased_index(&mut rng, n)] += 1;
    }

    let mut uni = SmallRng::seed_from_u64(1234);
    let mut uniform_counts = vec![0u32; n];
    for _ in 0..trials {
        let i: usize = uni.gen_range(0..n);
        uniform_counts[i] += 1;
    }

    // Cumulative counts: the biased CDF must sit at or below the uniform CDF
    // everywhere before the top index (allowing statistical slack), and the
    // means must differ clearly.
    let mut biased_cum = 0u32;
    let mut uniform_cum = 0u32;
    for i in 0..n - 1 {
        biased_cum += biased_counts[i];
        uniform_cum += uniform_counts[i];
        let slack = (trials / 50) as u32;
        assert!(
            biased_cum <= uniform_cum + slack,
            "index {}: biased cumulative {} above uniform {}",
            i,
            biased_cum,
            uniform_cum
        );
    }

    let mean = |counts: &Vec<u32>| -> f64 {
        let total: f64 = counts.iter().enumerate().map(|(i, c)| i as f64 * *c as f64).sum();
        total / trials as f64
    };
    assert!(mean(&biased_counts) > mean(&uniform_counts) + 0.8);
}

#[test]
fn store_resolution_checks_the_kind() {
    let world = world_with(vec![
        WorldStructure::Extension { id: 5, pos: pos(2, 2), free_energy: 10 },
    ]);
    // A spawn target with the same identifier must not resolve against an
    // extension.
    assert_eq!(StoreTarget::Spawn(5).resolve(&world), None);
    assert_eq!(StoreTarget::Extension(5).resolve(&world), Some(pos(2, 2)));
}

#[test]
fn repair_resolution_accepts_any_kind() {
    let world = world_with(vec![
        WorldStructure::Spawn { id: 5, pos: pos(2, 2), free_energy: 10 },
    ]);
    assert_eq!(CreepTarget::Repair(5).resolve(&world), Some(pos(2, 2)));
    assert_eq!(CreepTarget::Repair(6).resolve(&world), None);
    // And an upgrade target resolves only against a controller.
    assert_eq!(CreepTarget::Upgrade(5).resolve(&world), None);
}
