//! The task executor: one agent's processing for one tick.
//!
//! `run_creep` recovers the agent's task from the registry, validates its
//! referent against this tick's snapshot, and either hands back the terminal
//! action to attempt, a move directive, or nothing; agents without a task go
//! through the selector. `settle_action` applies the failure policy to the
//! outcome of an attempted terminal action.
//!
//! Both transitions are specified exactly by `step_tasks`/`step_directive`
//! and `settle_tasks`/`settle_directive`; the harvest pick is the one
//! nondeterministic input (a random draw), so `run_creep` promises its
//! postcondition for some valid pick.

use vstd::prelude::*;
use rand::rngs::SmallRng;
use crate::geom::{in_range_to, spec_range_between, Position};
use crate::registry::TaskRegistry;
use crate::selector::{select_carrying, select_carrying_spec, select_harvest};
use crate::task::CreepTarget;
use crate::world::WorldSnapshot;

verus! {

/// What the engine reads from one agent on one tick.
pub struct AgentState {
    /// Stable, process-unique agent identity: the registry key.
    pub name: String,
    pub pos: Position,
    /// Carried amount of the tracked resource.
    pub carry_used: u32,
    /// Free carry capacity for the tracked resource.
    pub carry_free: u32,
    /// Agents still being produced are skipped entirely.
    pub spawning: bool,
}

/// What the host should do for the agent this tick.
#[derive(Clone, Copy, Debug, PartialEq, Eq, Structural)]
pub enum Directive {
    /// Nothing to do (no task and none selectable, or a registry-only step).
    Idle,
    /// Attempt the task's terminal action against the referent at `target`,
    /// then report the outcome to `settle_action`.
    Act { task: CreepTarget, target: Position },
    /// Move toward `target`, reusing a cached path for `reuse_path` ticks.
    MoveTo { target: Position, reuse_path: u32 },
}

/// Outcome classification of an attempted terminal action.
#[derive(Clone, Copy, Debug, PartialEq, Eq, Structural)]
pub enum ActionOutcome {
    /// The action went through.
    Success,
    /// The target was temporarily out of reach: the one failure that is a
    /// normal, high-frequency outcome.
    OutOfRange,
    /// Any other failure (resource depleted, target invalid, permission
    /// denied).
    Rejected,
}

/// Whether `pick` is a possible harvest draw for this world.
pub open spec fn valid_pick(world: WorldSnapshot, pick: int) -> bool {
    if world.active_sources@.len() > 0 {
        0 <= pick < world.active_sources@.len()
    } else {
        pick == 0
    }
}

/// The registry after one agent's execution pass. `pick` is the index drawn
/// when a harvest task is selected; every other branch ignores it.
pub open spec fn step_tasks(
    tasks: Map<Seq<char>, CreepTarget>,
    agent: AgentState,
    world: WorldSnapshot,
    pick: int,
) -> Map<Seq<char>, CreepTarget> {
    if agent.spawning {
        tasks
    } else if tasks.contains_key(agent.name@) {
        let t = tasks[agent.name@];
        if !t.guard_holds(agent.carry_used, agent.carry_free) {
            tasks.remove(agent.name@)
        } else {
            match t.resolve_spec(world) {
                None => tasks.remove(agent.name@),
                Some(_) => tasks,
            }
        }
    } else if agent.carry_used > 0 {
        match select_carrying_spec(world) {
            Some(t) => tasks.insert(agent.name@, t),
            None => tasks,
        }
    } else {
        if world.active_sources@.len() == 0 {
            tasks
        } else {
            tasks.insert(agent.name@, CreepTarget::Harvest(world.active_sources@[pick].id))
        }
    }
}

/// The directive one agent's execution pass hands back.
pub open spec fn step_directive(
    tasks: Map<Seq<char>, CreepTarget>,
    agent: AgentState,
    world: WorldSnapshot,
    pick: int,
) -> Directive {
    if agent.spawning {
        Directive::Idle
    } else if tasks.contains_key(agent.name@) {
        let t = tasks[agent.name@];
        if !t.guard_holds(agent.carry_used, agent.carry_free) {
            Directive::Idle
        } else {
            match t.resolve_spec(world) {
                None => Directive::Idle,
                Some(p) => if spec_range_between(agent.pos, p) <= t.spec_action_range() {
                    Directive::Act { task: t, target: p }
                } else {
                    Directive::MoveTo { target: p, reuse_path: t.spec_reuse_path() }
                },
            }
        }
    } else {
        Directive::Idle
    }
}

/// Process one agent for one tick.
///
/// A spawning agent is skipped. An agent with a task has the task's guard
/// and referent validated: a failed guard or a missing referent evicts the
/// entry; a live referent yields the terminal action when in range and a
/// move directive otherwise, with the entry kept. An agent without a task
/// runs the selector for its load state and at most inserts one new task.
pub fn run_creep(
    agent: &AgentState,
    world: &WorldSnapshot,
    reg: &mut TaskRegistry,
    rng: &mut SmallRng,
) -> (d: Directive)
    requires
        old(reg).wf(),
    ensures
        final(reg).wf(),
        exists|pick: int|
            #![auto]
            valid_pick(*world, pick) && final(reg).tasks() == step_tasks(
                old(reg).tasks(),
                *agent,
                *world,
                pick,
            ) && d == step_directive(old(reg).tasks(), *agent, *world, pick),
{
    let ghost tasks0 = reg.tasks();
    if agent.spawning {
        proof {
            assert(valid_pick(*world, 0) && reg.tasks() == step_tasks(tasks0, *agent, *world, 0)
                && Directive::Idle == step_directive(tasks0, *agent, *world, 0));
        }
        return Directive::Idle;
    }
    match reg.get(&agent.name) {
        Some(t) => {
            if !t.check_guard(agent.carry_used, agent.carry_free) {
                reg.remove(&agent.name);
                proof {
                    assert(valid_pick(*world, 0) && reg.tasks() == step_tasks(
                        tasks0,
                        *agent,
                        *world,
                        0,
                    ) && Directive::Idle == step_directive(tasks0, *agent, *world, 0));
                }
                Directive::Idle
            } else {
                match t.resolve(world) {
                    None => {
                        reg.remove(&agent.name);
                        proof {
                            assert(valid_pick(*world, 0) && reg.tasks() == step_tasks(
                                tasks0,
                                *agent,
                                *world,
                                0,
                            ) && Directive::Idle == step_directive(tasks0, *agent, *world, 0));
                        }
                        Directive::Idle
                    },
                    Some(p) => {
                        let d: Directive = if in_range_to(agent.pos, p, t.action_range()) {
                            Directive::Act { task: t, target: p }
                        } else {
                            Directive::MoveTo { target: p, reuse_path: t.reuse_path() }
                        };
                        proof {
                            assert(valid_pick(*world, 0) && reg.tasks() == step_tasks(
                                tasks0,
                                *agent,
                                *world,
                                0,
                            ) && d == step_directive(tasks0, *agent, *world, 0));
                        }
                        d
                    },
                }
            }
        },
        None => {
            if agent.carry_used > 0 {
                match select_carrying(world) {
                    Some(t) => {
                        reg.insert(agent.name.clone(), t);
                    },
                    None => {},
                }
                proof {
                    assert(valid_pick(*world, 0) && reg.tasks() == step_tasks(
                        tasks0,
                        *agent,
                        *world,
                        0,
                    ) && Directive::Idle == step_directive(tasks0, *agent, *world, 0));
                }
                Directive::Idle
            } else {
                match select_harvest(world, rng) {
                    Some(t) => {
                        reg.insert(agent.name.clone(), t);
                        proof {
                            let pick = choose|i: int|
                                0 <= i < world.active_sources@.len() && t == CreepTarget::Harvest(
                                    world.active_sources@[i].id,
                                );
                            assert(valid_pick(*world, pick) && reg.tasks() == step_tasks(
                                tasks0,
                                *agent,
                                *world,
                                pick,
                            ) && Directive::Idle == step_directive(tasks0, *agent, *world, pick));
                        }
                        Directive::Idle
                    },
                    None => {
                        proof {
                            assert(valid_pick(*world, 0) && reg.tasks() == step_tasks(
                                tasks0,
                                *agent,
                                *world,
                                0,
                            ) && Directive::Idle == step_directive(tasks0, *agent, *world, 0));
                        }
                        Directive::Idle
                    },
                }
            }
        },
    }
}

/// The registry after settling an action outcome: success keeps the task for
/// continuation — except repair, a single-shot task evicted after one
/// successful action; an out-of-range outcome never evicts; any other
/// failure evicts.
pub open spec fn settle_tasks(
    tasks: Map<Seq<char>, CreepTarget>,
    agent: AgentState,
    outcome: ActionOutcome,
) -> Map<Seq<char>, CreepTarget> {
    if !tasks.contains_key(agent.name@) {
        tasks
    } else {
        let t = tasks[agent.name@];
        match outcome {
            ActionOutcome::Success => if t matches CreepTarget::Repair(_) {
                tasks.remove(agent.name@)
            } else {
                tasks
            },
            ActionOutcome::OutOfRange => tasks,
            ActionOutcome::Rejected => tasks.remove(agent.name@),
        }
    }
}

/// The directive settling hands back: out of reach falls through to a move
/// toward the referent; everything else ends the agent's tick.
pub open spec fn settle_directive(
    tasks: Map<Seq<char>, CreepTarget>,
    agent: AgentState,
    world: WorldSnapshot,
    outcome: ActionOutcome,
) -> Directive {
    if !tasks.contains_key(agent.name@) {
        Directive::Idle
    } else {
        let t = tasks[agent.name@];
        match outcome {
            ActionOutcome::OutOfRange => match t.resolve_spec(world) {
                Some(p) => Directive::MoveTo { target: p, reuse_path: t.spec_reuse_path() },
                None => Directive::Idle,
            },
            _ => Directive::Idle,
        }
    }
}

/// Apply the failure policy to the outcome of the terminal action that a
/// `Directive::Act` asked the host to attempt.
pub fn settle_action(
    agent: &AgentState,
    world: &WorldSnapshot,
    reg: &mut TaskRegistry,
    outcome: ActionOutcome,
) -> (d: Directive)
    requires
        old(reg).wf(),
    ensures
        final(reg).wf(),
        final(reg).tasks() == settle_tasks(old(reg).tasks(), *agent, outcome),
        d == settle_directive(old(reg).tasks(), *agent, *world, outcome),
{
    let ghost tasks0 = reg.tasks();
    match reg.get(&agent.name) {
        None => {
            proof {
                assert(tasks0 =~= settle_tasks(tasks0, *agent, outcome));
            }
            Directive::Idle
        },
        Some(t) => {
            match outcome {
                ActionOutcome::Success => {
                    let is_repair = match t {
                        CreepTarget::Repair(_) => true,
                        _ => false,
                    };
                    if is_repair {
                        reg.remove(&agent.name);
                    }
                    Directive::Idle
                },
                ActionOutcome::OutOfRange => {
                    match t.resolve(world) {
                        Some(p) => Directive::MoveTo {
                            target: p,
                            reuse_path: t.reuse_path(),
                        },
                        None => Directive::Idle,
                    }
                },
                ActionOutcome::Rejected => {
                    reg.remove(&agent.name);
                    Directive::Idle
                },
            }
        },
    }
}

/// The registry after `picks.len()` consecutive execution passes for the
/// same agent over the same world, one pick per pass.
pub open spec fn iterate_steps(
    tasks: Map<Seq<char>, CreepTarget>,
    agent: AgentState,
    world: WorldSnapshot,
    picks: Seq<int>,
) -> Map<Seq<char>, CreepTarget>
    decreases picks.len(),
{
    if picks.len() == 0 {
        tasks
    } else {
        iterate_steps(step_tasks(tasks, agent, world, picks[0]), agent, world, picks.skip(1))
    }
}

/// Eviction on missing referent: an agent whose current task no longer
/// resolves against the world snapshot loses its registry entry in the
/// execution pass, whatever pick is drawn.
pub proof fn lemma_eviction_on_missing_referent(
    tasks: Map<Seq<char>, CreepTarget>,
    agent: AgentState,
    world: WorldSnapshot,
    pick: int,
)
    requires
        !agent.spawning,
        tasks.contains_key(agent.name@),
        tasks[agent.name@].resolve_spec(world) is None,
    ensures
        !step_tasks(tasks, agent, world, pick).contains_key(agent.name@),
        step_tasks(tasks, agent, world, pick) == tasks.remove(agent.name@),
{
}

/// Range fallback does not evict: when the task's guard holds and its
/// referent resolves, the execution pass keeps the registry unchanged; an
/// agent out of range gets a move directive directly, and an in-range
/// terminal action whose outcome is out-of-range settles to an unchanged
/// registry and exactly a move directive.
pub proof fn lemma_range_fallback_does_not_evict(
    tasks: Map<Seq<char>, CreepTarget>,
    agent: AgentState,
    world: WorldSnapshot,
    pick: int,
    p: Position,
)
    requires
        !agent.spawning,
        tasks.contains_key(agent.name@),
        tasks[agent.name@].guard_holds(agent.carry_used, agent.carry_free),
        tasks[agent.name@].resolve_spec(world) == Some(p),
    ensures
        step_tasks(tasks, agent, world, pick) == tasks,
        spec_range_between(agent.pos, p) > tasks[agent.name@].spec_action_range()
            ==> step_directive(tasks, agent, world, pick) == (Directive::MoveTo {
            target: p,
            reuse_path: tasks[agent.name@].spec_reuse_path(),
        }),
        spec_range_between(agent.pos, p) <= tasks[agent.name@].spec_action_range() ==> {
            &&& step_directive(tasks, agent, world, pick) == (Directive::Act {
                task: tasks[agent.name@],
                target: p,
            })
            &&& settle_tasks(tasks, agent, ActionOutcome::OutOfRange) == tasks
            &&& settle_directive(tasks, agent, world, ActionOutcome::OutOfRange)
                == (Directive::MoveTo {
                target: p,
                reuse_path: tasks[agent.name@].spec_reuse_path(),
            })
        },
{
}

/// Idempotent idle: an agent with no task, nothing carried, and no active
/// resource node stays taskless — any number of consecutive execution
/// passes over the same empty world leave the registry unchanged, and each
/// pass hands back no directive.
pub proof fn lemma_idle_agent_stays_idle(
    tasks: Map<Seq<char>, CreepTarget>,
    agent: AgentState,
    world: WorldSnapshot,
    picks: Seq<int>,
)
    requires
        !agent.spawning,
        !tasks.contains_key(agent.name@),
        agent.carry_used == 0,
        world.active_sources@.len() == 0,
    ensures
        iterate_steps(tasks, agent, world, picks) == tasks,
        forall|pick: int| #[trigger]
            step_directive(tasks, agent, world, pick) == Directive::Idle,
    decreases picks.len(),
{
    if picks.len() > 0 {
        assert(step_tasks(tasks, agent, world, picks[0]) == tasks);
        lemma_idle_agent_stays_idle(tasks, agent, world, picks.skip(1));
    }
}

/// One agent's processing never touches another agent's entry: neither the
/// execution pass nor the settlement of an action outcome changes any key
/// but the agent's own.
pub proof fn lemma_step_preserves_other_entries(
    tasks: Map<Seq<char>, CreepTarget>,
    agent: AgentState,
    world: WorldSnapshot,
    pick: int,
    outcome: ActionOutcome,
    k: Seq<char>,
)
    requires
        k != agent.name@,
    ensures
        step_tasks(tasks, agent, world, pick).contains_key(k) == tasks.contains_key(k),
        tasks.contains_key(k) ==> step_tasks(tasks, agent, world, pick)[k] == tasks[k],
        settle_tasks(tasks, agent, outcome).contains_key(k) == tasks.contains_key(k),
        tasks.contains_key(k) ==> settle_tasks(tasks, agent, outcome)[k] == tasks[k],
{
}

} // verus!
