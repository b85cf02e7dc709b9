use rand::rngs::SmallRng;
use rand::SeedableRng;

use creep_engine::executor::{run_creep, settle_action, ActionOutcome, AgentState, Directive};
use creep_engine::geom::Position;
use creep_engine::registry::TaskRegistry;
use creep_engine::task::{CreepTarget, StoreTarget};
use creep_engine::world::{ConstructionSiteInfo, HostileInfo, SourceInfo, WorldSnapshot, WorldStructure};

fn empty_world() -> WorldSnapshot {
    WorldSnapshot {
        structures: Vec::new(),
        construction_sites: Vec::new(),
        active_sources: Vec::new(),
        hostiles: Vec::new(),
    }
}

fn agent(name: &str, x: u8, y: u8, used: u32, free: u32) -> AgentState {
    AgentState {
        name: String::from(name),
        pos: Position { x, y },
        carry_used: used,
        carry_free: free,
        spawning: false,
    }
}

fn rng() -> SmallRng {
    SmallRng::seed_from_u64(200)
}

#[test]
fn registry_insert_get_remove() {
    let mut reg = TaskRegistry::new();
    assert_eq!(reg.len(), 0);
    assert!(reg.get(&String::from("a")).is_none());

    reg.insert(String::from("a"), CreepTarget::Upgrade(7));
    assert_eq!(reg.get(&String::from("a")), Some(CreepTarget::Upgrade(7)));
    assert_eq!(reg.len(), 1);

    reg.insert(String::from("b"), CreepTarget::Harvest(9));
    assert_eq!(reg.len(), 2);

    reg.remove(&String::from("a"));
    assert!(reg.get(&String::from("a")).is_none());
    assert_eq!(reg.get(&String::from("b")), Some(CreepTarget::Harvest(9)));
    assert_eq!(reg.len(), 1);
}

#[test]
fn single_active_task_per_agent() {
    // Re-inserting under the same name replaces the entry: never two tasks.
    let mut reg = TaskRegistry::new();
    reg.insert(String::from("a"), CreepTarget::Upgrade(7));
    reg.insert(String::from("a"), CreepTarget::Harvest(9));
    assert_eq!(reg.len(), 1);
    assert_eq!(reg.get(&String::from("a")), Some(CreepTarget::Harvest(9)));
}

#[test]
fn missing_referent_evicts() {
    // The task's referent is nowhere in the snapshot: one pass must leave
    // the entry vacant.
    let mut reg = TaskRegistry::new();
    reg.insert(String::from("a"), CreepTarget::Upgrade(42));
    let a = agent("a", 10, 10, 5, 45);
    let world = empty_world();
    let d = run_creep(&a, &world, &mut reg, &mut rng());
    assert_eq!(d, Directive::Idle);
    assert!(reg.get(&String::from("a")).is_none());
}

#[test]
fn stale_guard_evicts() {
    // An upgrade task held by an agent that carries nothing is stale.
    let mut reg = TaskRegistry::new();
    reg.insert(String::from("a"), CreepTarget::Upgrade(42));
    let a = agent("a", 10, 10, 0, 50);
    let world = WorldSnapshot {
        structures: vec![WorldStructure::Controller {
            id: 42,
            pos: Position { x: 11, y: 11 },
            level: 3,
            ticks_to_downgrade: 100_000,
        }],
        construction_sites: Vec::new(),
        active_sources: Vec::new(),
        hostiles: Vec::new(),
    };
    let d = run_creep(&a, &world, &mut reg, &mut rng());
    assert_eq!(d, Directive::Idle);
    assert!(reg.get(&String::from("a")).is_none());
}

#[test]
fn out_of_range_moves_without_evicting() {
    // Resolver succeeds, the agent is far away: exactly one move directive,
    // entry unchanged.
    let mut reg = TaskRegistry::new();
    reg.insert(String::from("a"), CreepTarget::Upgrade(42));
    let a = agent("a", 10, 10, 5, 45);
    let world = WorldSnapshot {
        structures: vec![WorldStructure::Controller {
            id: 42,
            pos: Position { x: 30, y: 10 },
            level: 3,
            ticks_to_downgrade: 100_000,
        }],
        construction_sites: Vec::new(),
        active_sources: Vec::new(),
        hostiles: Vec::new(),
    };
    let d = run_creep(&a, &world, &mut reg, &mut rng());
    assert_eq!(
        d,
        Directive::MoveTo { target: Position { x: 30, y: 10 }, reuse_path: 20 }
    );
    assert_eq!(reg.get(&String::from("a")), Some(CreepTarget::Upgrade(42)));
}

#[test]
fn out_of_range_outcome_settles_to_move() {
    // The terminal action was attempted and reported out-of-range: the entry
    // is unchanged and the settlement is exactly one move directive.
    let mut reg = TaskRegistry::new();
    reg.insert(String::from("a"), CreepTarget::Harvest(5));
    let a = agent("a", 10, 10, 0, 50);
    let world = WorldSnapshot {
        structures: Vec::new(),
        construction_sites: Vec::new(),
        active_sources: vec![SourceInfo { id: 5, pos: Position { x: 11, y: 10 } }],
        hostiles: Vec::new(),
    };
    let d = run_creep(&a, &world, &mut reg, &mut rng());
    assert_eq!(
        d,
        Directive::Act { task: CreepTarget::Harvest(5), target: Position { x: 11, y: 10 } }
    );
    let m = settle_action(&a, &world, &mut reg, ActionOutcome::OutOfRange);
    assert_eq!(
        m,
        Directive::MoveTo { target: Position { x: 11, y: 10 }, reuse_path: 5 }
    );
    assert_eq!(reg.get(&String::from("a")), Some(CreepTarget::Harvest(5)));
}

#[test]
fn rejected_outcome_evicts() {
    let mut reg = TaskRegistry::new();
    reg.insert(String::from("a"), CreepTarget::Construct(3));
    let a = agent("a", 10, 10, 5, 45);
    let world = empty_world();
    let m = settle_action(&a, &world, &mut reg, ActionOutcome::Rejected);
    assert_eq!(m, Directive::Idle);
    assert!(reg.get(&String::from("a")).is_none());
}

#[test]
fn success_keeps_task_except_repair() {
    let mut reg = TaskRegistry::new();
    reg.insert(String::from("a"), CreepTarget::Harvest(5));
    reg.insert(String::from("b"), CreepTarget::Repair(8));
    let world = empty_world();

    let a = agent("a", 10, 10, 0, 50);
    settle_action(&a, &world, &mut reg, ActionOutcome::Success);
    assert_eq!(reg.get(&String::from("a")), Some(CreepTarget::Harvest(5)));

    // Repair is single-shot: one successful action evicts it.
    let b = agent("b", 10, 10, 5, 45);
    settle_action(&b, &world, &mut reg, ActionOutcome::Success);
    assert!(reg.get(&String::from("b")).is_none());
}

#[test]
fn idle_agent_stays_idle() {
    // Empty candidate set, nothing carried: taskless after any number of
    // ticks over the same world.
    let mut reg = TaskRegistry::new();
    let a = agent("a", 10, 10, 0, 50);
    let world = empty_world();
    for _ in 0..25 {
        let d = run_creep(&a, &world, &mut reg, &mut rng());
        assert_eq!(d, Directive::Idle);
        assert!(reg.get(&String::from("a")).is_none());
        assert_eq!(reg.len(), 0);
    }
}

#[test]
fn spawning_agent_is_skipped() {
    let mut reg = TaskRegistry::new();
    let mut a = agent("a", 10, 10, 5, 45);
    a.spawning = true;
    let world = WorldSnapshot {
        structures: vec![WorldStructure::Spawn {
            id: 1,
            pos: Position { x: 5, y: 5 },
            free_energy: 100,
        }],
        construction_sites: Vec::new(),
        active_sources: Vec::new(),
        hostiles: Vec::new(),
    };
    let d = run_creep(&a, &world, &mut reg, &mut rng());
    assert_eq!(d, Directive::Idle);
    assert!(reg.get(&String::from("a")).is_none());
}

#[test]
fn vacant_agent_selects_and_inserts() {
    // Carrying energy with a spawn in need: the scan inserts a store task,
    // and the tick itself issues no directive.
    let mut reg = TaskRegistry::new();
    let a = agent("a", 10, 10, 50, 0);
    let world = WorldSnapshot {
        structures: vec![WorldStructure::Spawn {
            id: 1,
            pos: Position { x: 5, y: 5 },
            free_energy: 100,
        }],
        construction_sites: Vec::new(),
        active_sources: Vec::new(),
        hostiles: Vec::new(),
    };
    let d = run_creep(&a, &world, &mut reg, &mut rng());
    assert_eq!(d, Directive::Idle);
    assert_eq!(
        reg.get(&String::from("a")),
        Some(CreepTarget::Store(StoreTarget::Spawn(1)))
    );
}

#[test]
fn empty_handed_agent_picks_a_source() {
    let mut reg = TaskRegistry::new();
    let a = agent("a", 10, 10, 0, 50);
    let world = WorldSnapshot {
        structures: Vec::new(),
        construction_sites: Vec::new(),
        active_sources: vec![
            SourceInfo { id: 100, pos: Position { x: 1, y: 1 } },
            SourceInfo { id: 200, pos: Position { x: 2, y: 2 } },
        ],
        hostiles: Vec::new(),
    };
    let d = run_creep(&a, &world, &mut reg, &mut rng());
    assert_eq!(d, Directive::Idle);
    let t = reg.get(&String::from("a")).expect("a harvest task was inserted");
    assert!(matches!(t, CreepTarget::Harvest(id) if id == 100 || id == 200));
}

#[test]
fn processing_one_agent_leaves_others_alone() {
    let mut reg = TaskRegistry::new();
    reg.insert(String::from("b"), CreepTarget::Construct(3));
    let a = agent("a", 10, 10, 0, 50);
    let world = empty_world();
    run_creep(&a, &world, &mut reg, &mut rng());
    assert_eq!(reg.get(&String::from("b")), Some(CreepTarget::Construct(3)));

    let mut reg2 = TaskRegistry::new();
    reg2.insert(String::from("a"), CreepTarget::Upgrade(42));
    reg2.insert(String::from("c"), CreepTarget::Harvest(5));
    // Missing referent evicts a's entry only.
    run_creep(&a, &world, &mut reg2, &mut rng());
    assert!(reg2.get(&String::from("a")).is_none());
    assert_eq!(reg2.get(&String::from("c")), Some(CreepTarget::Harvest(5)));
}

#[test]
fn unused_sites_do_not_matter_for_occupied_agents() {
    // An occupied agent never re-runs the selector, even when the world
    // offers other work.
    let mut reg = TaskRegistry::new();
    reg.insert(String::from("a"), CreepTarget::Construct(3));
    let a = agent("a", 10, 10, 5, 45);
    let world = WorldSnapshot {
        structures: vec![WorldStructure::Spawn {
            id: 1,
            pos: Position { x: 5, y: 5 },
            free_energy: 100,
        }],
        construction_sites: vec![ConstructionSiteInfo { id: 3, pos: Position { x: 10, y: 12 } }],
        active_sources: Vec::new(),
        hostiles: vec![HostileInfo { id: 9, pos: Position { x: 0, y: 0 } }],
    };
    let d = run_creep(&a, &world, &mut reg, &mut rng());
    assert_eq!(
        d,
        Directive::Act { task: CreepTarget::Construct(3), target: Position { x: 10, y: 12 } }
    );
    assert_eq!(reg.get(&String::from("a")), Some(CreepTarget::Construct(3)));
}
