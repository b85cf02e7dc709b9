//! The task selector: the priority-ordered scan run for an agent without a
//! task.
//!
//! An agent carrying energy is matched against world state in a fixed order:
//! controller near downgrade, spawn with free capacity, extension with free
//! capacity, tower with free capacity, road below its terrain's durability
//! cutoff, pending construction site, and finally any controller. An agent
//! carrying nothing picks an active resource node, with a deliberate bias
//! toward later-indexed nodes.

use vstd::prelude::*;
use rand::rngs::SmallRng;
use crate::rng::pick_biased_index;
use crate::scan::{first_match, lemma_first_match, lemma_first_match_is, lemma_first_match_none};
use crate::task::{CreepTarget, StoreTarget};
use crate::world::{Terrain, WorldSnapshot, WorldStructure};

verus! {

/// Ticks-until-downgrade below which a controller of the given level is
/// considered in danger, before the safety margin is applied.
pub open spec fn spec_downgrade_threshold(level: u8) -> u32 {
    match level {
        1u8 => 20_000u32,
        2u8 => 10_000u32,
        3u8 => 20_000u32,
        4u8 => 40_000u32,
        5u8 => 80_000u32,
        6u8 => 120_000u32,
        7u8 => 150_000u32,
        8u8 => 200_000u32,
        _ => 20_000u32,
    }
}

/// Ticks-until-downgrade danger table, keyed by controller level.
pub fn downgrade_threshold(level: u8) -> (r: u32)
    ensures
        r == spec_downgrade_threshold(level),
        r >= 10_000,
{
    match level {
        1 => 20_000,
        2 => 10_000,
        3 => 20_000,
        4 => 40_000,
        5 => 80_000,
        6 => 120_000,
        7 => 150_000,
        8 => 200_000,
        _ => 20_000,
    }
}

/// Safety margin subtracted from the downgrade threshold.
pub const DOWNGRADE_MARGIN: u32 = 5_000;

/// Durability threshold of a passable-terrain structure, by terrain kind,
/// before the safety factor is applied.
pub open spec fn spec_repair_threshold(terrain: Terrain) -> u32 {
    match terrain {
        Terrain::Plain => 5_000u32,
        Terrain::Swamp => 25_000u32,
        Terrain::Wall => 750_000u32,
    }
}

/// Durability threshold of a passable-terrain structure, by terrain kind.
pub fn repair_threshold(terrain: Terrain) -> (r: u32)
    ensures
        r == spec_repair_threshold(terrain),
        r <= 750_000,
{
    match terrain {
        Terrain::Plain => 5_000,
        Terrain::Swamp => 25_000,
        Terrain::Wall => 750_000,
    }
}

/// Durability cutoff below which a road is repaired: the terrain threshold
/// scaled by a fixed safety factor of eight tenths.
pub open spec fn spec_repair_cutoff(terrain: Terrain) -> int {
    spec_repair_threshold(terrain) * 8 / 10
}

/// The structure scans of the priority order, in the order they run.
#[derive(Clone, Copy, Debug, PartialEq, Eq, Structural)]
pub enum ScanKind {
    DangerousController,
    SpawnWithFreeEnergy,
    ExtensionWithFreeEnergy,
    TowerWithFreeEnergy,
    RoadBelowCutoff,
    AnyController,
}

/// Whether structure `s` is what scan `k` looks for.
pub open spec fn scan_pred(k: ScanKind, s: WorldStructure) -> bool {
    match k {
        ScanKind::DangerousController => s matches WorldStructure::Controller {
            level,
            ticks_to_downgrade,
            ..
        } && ticks_to_downgrade < spec_downgrade_threshold(level) - DOWNGRADE_MARGIN,
        ScanKind::SpawnWithFreeEnergy => s matches WorldStructure::Spawn { free_energy, .. }
            && free_energy > 0,
        ScanKind::ExtensionWithFreeEnergy => s matches WorldStructure::Extension {
            free_energy,
            ..
        } && free_energy > 0,
        ScanKind::TowerWithFreeEnergy => s matches WorldStructure::Tower { free_energy, .. }
            && free_energy > 0,
        ScanKind::RoadBelowCutoff => s matches WorldStructure::Road { hits, terrain, .. } && hits
            < spec_repair_cutoff(terrain),
        ScanKind::AnyController => s matches WorldStructure::Controller { .. },
    }
}

/// The predicate of scan `k`, as a function value shared by specification
/// and implementation.
pub open spec fn scan_fn(k: ScanKind) -> spec_fn(WorldStructure) -> bool {
    |s: WorldStructure| scan_pred(k, s)
}

/// Identifier of the first structure matching scan `k`, if any.
fn find_first(structures: &Vec<WorldStructure>, k: ScanKind) -> (r: Option<u128>)
    ensures
        match first_match(structures@, scan_fn(k)) {
            Some(i) => r == Some(structures@[i].spec_id()),
            None => r is None,
        },
{
    let n = structures.len();
    let mut idx: usize = 0;
    while idx < n
        invariant
            0 <= idx <= n,
            forall|j: int| 0 <= j < idx ==> !(scan_fn(k)(structures@[j])),
        decreases n - idx,
    {
        let s = &structures[idx];
        let hit: bool = match k {
            ScanKind::DangerousController => {
                match s {
                    WorldStructure::Controller { level, ticks_to_downgrade, .. } => {
                        let t = downgrade_threshold(*level);
                        *ticks_to_downgrade < t - DOWNGRADE_MARGIN
                    },
                    _ => false,
                }
            },
            ScanKind::SpawnWithFreeEnergy => {
                match s {
                    WorldStructure::Spawn { free_energy, .. } => *free_energy > 0,
                    _ => false,
                }
            },
            ScanKind::ExtensionWithFreeEnergy => {
                match s {
                    WorldStructure::Extension { free_energy, .. } => *free_energy > 0,
                    _ => false,
                }
            },
            ScanKind::TowerWithFreeEnergy => {
                match s {
                    WorldStructure::Tower { free_energy, .. } => *free_energy > 0,
                    _ => false,
                }
            },
            ScanKind::RoadBelowCutoff => {
                match s {
                    WorldStructure::Road { hits, terrain, .. } => {
                        let cutoff = repair_threshold(*terrain) * 8 / 10;
                        *hits < cutoff
                    },
                    _ => false,
                }
            },
            ScanKind::AnyController => {
                match s {
                    WorldStructure::Controller { .. } => true,
                    _ => false,
                }
            },
        };
        proof {
            assert(hit == scan_pred(k, structures@[idx as int]));
        }
        if hit {
            proof {
                assert(scan_fn(k)(structures@[idx as int]));
                lemma_first_match_is(structures@, scan_fn(k), idx as int);
            }
            return Some(s.id());
        }
        idx = idx + 1;
    }
    proof {
        lemma_first_match_none(structures@, scan_fn(k));
    }
    None
}

/// The task the priority scan yields for an agent carrying energy, if any:
/// life support first (controller decay), then feeding production (spawn,
/// extension), then defense upkeep (tower), then infrastructure durability
/// (road repair), then growth (construction), then the universal fallback
/// (upgrade any controller).
pub open spec fn select_carrying_spec(world: WorldSnapshot) -> Option<CreepTarget> {
    let ss = world.structures@;
    match first_match(ss, scan_fn(ScanKind::DangerousController)) {
        Some(i) => Some(CreepTarget::Upgrade(ss[i].spec_id())),
        None => match first_match(ss, scan_fn(ScanKind::SpawnWithFreeEnergy)) {
            Some(i) => Some(CreepTarget::Store(StoreTarget::Spawn(ss[i].spec_id()))),
            None => match first_match(ss, scan_fn(ScanKind::ExtensionWithFreeEnergy)) {
                Some(i) => Some(CreepTarget::Store(StoreTarget::Extension(ss[i].spec_id()))),
                None => match first_match(ss, scan_fn(ScanKind::TowerWithFreeEnergy)) {
                    Some(i) => Some(CreepTarget::Store(StoreTarget::Tower(ss[i].spec_id()))),
                    None => match first_match(ss, scan_fn(ScanKind::RoadBelowCutoff)) {
                        Some(i) => Some(CreepTarget::Repair(ss[i].spec_id())),
                        None => if world.construction_sites@.len() > 0 {
                            Some(CreepTarget::Construct(world.construction_sites@[0].id))
                        } else {
                            match first_match(ss, scan_fn(ScanKind::AnyController)) {
                                Some(i) => Some(CreepTarget::Upgrade(ss[i].spec_id())),
                                None => None,
                            }
                        },
                    },
                },
            },
        },
    }
}

/// Priority-ordered scan for an agent that carries energy.
pub fn select_carrying(world: &WorldSnapshot) -> (r: Option<CreepTarget>)
    ensures
        r == select_carrying_spec(*world),
{
    if let Some(id) = find_first(&world.structures, ScanKind::DangerousController) {
        return Some(CreepTarget::Upgrade(id));
    }
    if let Some(id) = find_first(&world.structures, ScanKind::SpawnWithFreeEnergy) {
        return Some(CreepTarget::Store(StoreTarget::Spawn(id)));
    }
    if let Some(id) = find_first(&world.structures, ScanKind::ExtensionWithFreeEnergy) {
        return Some(CreepTarget::Store(StoreTarget::Extension(id)));
    }
    if let Some(id) = find_first(&world.structures, ScanKind::TowerWithFreeEnergy) {
        return Some(CreepTarget::Store(StoreTarget::Tower(id)));
    }
    if let Some(id) = find_first(&world.structures, ScanKind::RoadBelowCutoff) {
        return Some(CreepTarget::Repair(id));
    }
    if world.construction_sites.len() > 0 {
        return Some(CreepTarget::Construct(world.construction_sites[0].id));
    }
    if let Some(id) = find_first(&world.structures, ScanKind::AnyController) {
        return Some(CreepTarget::Upgrade(id));
    }
    None
}

/// Pick of a harvest task for an agent that carries nothing: one of the
/// currently active resource nodes, chosen with the larger of two uniform
/// draws; nothing when the candidate set is empty (the agent stays idle).
pub fn select_harvest(world: &WorldSnapshot, rng: &mut SmallRng) -> (r: Option<CreepTarget>)
    ensures
        r is None <==> world.active_sources@.len() == 0,
        match r {
            Some(t) => exists|i: int|
                0 <= i < world.active_sources@.len() && t == CreepTarget::Harvest(
                    world.active_sources@[i].id,
                ),
            None => true,
        },
{
    let n = world.active_sources.len();
    if n == 0 {
        return None;
    }
    let idx = pick_biased_index(rng, n);
    let picked = CreepTarget::Harvest(world.active_sources[idx].id);
    proof {
        assert(0 <= idx < world.active_sources@.len() && picked == CreepTarget::Harvest(
            world.active_sources@[idx as int].id,
        ));
    }
    Some(picked)
}

/// Priority ordering: in any world where some controller is near downgrade,
/// the carrying selector chooses an upgrade task — never a store task, even
/// when a spawn, extension or tower has free capacity.
pub proof fn lemma_priority_upgrade_over_store(world: WorldSnapshot)
    requires
        exists|i: int|
            0 <= i < world.structures@.len() && scan_pred(
                ScanKind::DangerousController,
                #[trigger] world.structures@[i],
            ),
    ensures
        select_carrying_spec(world) matches Some(t) && t matches CreepTarget::Upgrade(_),
{
    let ss = world.structures@;
    lemma_first_match(ss, scan_fn(ScanKind::DangerousController));
    if first_match(ss, scan_fn(ScanKind::DangerousController)) is None {
        let i = choose|i: int|
            0 <= i < ss.len() && scan_pred(ScanKind::DangerousController, ss[i]);
        assert(!(scan_fn(ScanKind::DangerousController)(ss[i])));
        assert(false);
    }
}

} // verus!
