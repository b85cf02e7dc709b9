//! Tasks and referent resolution.
//!
//! A task stores only a stable identifier of its referent, never a live
//! handle: the referent is resolved anew each tick against the current
//! `WorldSnapshot`, and a failed resolution is the normal signal that the
//! world changed and the task must be evicted.

use vstd::prelude::*;
use crate::geom::Position;
use crate::scan::{first_match, lemma_first_match_is, lemma_first_match_none};
use crate::world::{WorldSnapshot, WorldStructure};

verus! {

/// A storable structure a `Store` task can deliver energy to. The set of
/// kinds is closed here but meant to grow.
#[derive(Clone, Copy, Debug, PartialEq, Eq, Structural)]
pub enum StoreTarget {
    Extension(u128),
    Spawn(u128),
    Tower(u128),
}

/// An agent's lock on a specific target: the committed intention the agent
/// is pursuing, persisted across ticks in the task registry.
#[derive(Clone, Copy, Debug, PartialEq, Eq, Structural)]
pub enum CreepTarget {
    Upgrade(u128),
    Harvest(u128),
    Construct(u128),
    Store(StoreTarget),
    Repair(u128),
}

/// Whether a world structure is the referent of the given store target.
pub open spec fn is_store_referent(t: StoreTarget, s: WorldStructure) -> bool {
    match t {
        StoreTarget::Extension(id) => s matches WorldStructure::Extension { id: sid, .. } && sid == id,
        StoreTarget::Spawn(id) => s matches WorldStructure::Spawn { id: sid, .. } && sid == id,
        StoreTarget::Tower(id) => s matches WorldStructure::Tower { id: sid, .. } && sid == id,
    }
}

impl StoreTarget {
    /// Position of the first matching structure of the right kind, if any.
    pub open spec fn resolve_spec(self, world: WorldSnapshot) -> Option<Position> {
        match first_match(world.structures@, |s: WorldStructure| is_store_referent(self, s)) {
            Some(i) => Some(world.structures@[i].spec_pos()),
            None => None,
        }
    }

    /// Turns the stable identifier into this tick's referent, as far as the
    /// engine needs it: the referent's position. Nothing when the referent
    /// no longer exists.
    pub fn resolve(&self, world: &WorldSnapshot) -> (r: Option<Position>)
        ensures
            r == self.resolve_spec(*world),
    {
        let t = *self;
        let ghost p = |s: WorldStructure| is_store_referent(t, s);
        let n = world.structures.len();
        let mut i: usize = 0;
        while i < n
            invariant
                0 <= i <= n,
                n == world.structures@.len(),
                forall|j: int| 0 <= j < i ==> !p(world.structures@[j]),
            decreases n - i,
        {
            let s = &world.structures[i];
            let found = match (t, s) {
                (StoreTarget::Extension(id), WorldStructure::Extension { id: sid, .. }) => id == *sid,
                (StoreTarget::Spawn(id), WorldStructure::Spawn { id: sid, .. }) => id == *sid,
                (StoreTarget::Tower(id), WorldStructure::Tower { id: sid, .. }) => id == *sid,
                _ => false,
            };
            if found {
                proof {
                    assert(is_store_referent(t, world.structures@[i as int]));
                    assert(p(world.structures@[i as int]));
                    lemma_first_match_is(world.structures@, p, i as int);
                }
                return Some(s.pos());
            }
            i = i + 1;
        }
        proof {
            lemma_first_match_none(world.structures@, p);
        }
        None
    }
}

impl CreepTarget {
    /// Guard over the agent's current load: `Upgrade` needs something
    /// carried, `Harvest` needs free capacity; the other kinds always match.
    /// A task whose guard fails is stale relative to the agent's load state.
    pub open spec fn guard_holds(self, carry_used: u32, carry_free: u32) -> bool {
        match self {
            CreepTarget::Upgrade(_) => carry_used > 0,
            CreepTarget::Harvest(_) => carry_free > 0,
            _ => true,
        }
    }

    /// Guard over the agent's current load, evaluated at run time.
    pub fn check_guard(&self, carry_used: u32, carry_free: u32) -> (r: bool)
        ensures
            r == self.guard_holds(carry_used, carry_free),
    {
        match self {
            CreepTarget::Upgrade(_) => carry_used > 0,
            CreepTarget::Harvest(_) => carry_free > 0,
            _ => true,
        }
    }

    /// Range at which the terminal action can be attempted: contact for
    /// `Harvest` and `Store`, ranged for the rest.
    pub open spec fn spec_action_range(self) -> u8 {
        match self {
            CreepTarget::Harvest(_) => 1,
            CreepTarget::Store(_) => 1,
            _ => 3,
        }
    }

    /// Range at which the terminal action can be attempted.
    pub fn action_range(&self) -> (r: u8)
        ensures
            r == self.spec_action_range(),
    {
        match self {
            CreepTarget::Harvest(_) => 1,
            CreepTarget::Store(_) => 1,
            _ => 3,
        }
    }

    /// Path-reuse hint for move directives: shorter for perishable targets
    /// such as resource nodes, longer for stationary ones such as the
    /// controller.
    pub open spec fn spec_reuse_path(self) -> u32 {
        match self {
            CreepTarget::Harvest(_) => 5,
            CreepTarget::Store(_) => 5,
            CreepTarget::Construct(_) => 10,
            CreepTarget::Repair(_) => 10,
            CreepTarget::Upgrade(_) => 20,
        }
    }

    /// Path-reuse hint for move directives.
    pub fn reuse_path(&self) -> (r: u32)
        ensures
            r == self.spec_reuse_path(),
    {
        match self {
            CreepTarget::Harvest(_) => 5,
            CreepTarget::Store(_) => 5,
            CreepTarget::Construct(_) => 10,
            CreepTarget::Repair(_) => 10,
            CreepTarget::Upgrade(_) => 20,
        }
    }

    /// Position of the task's referent in this tick's snapshot, if it still
    /// exists: controllers resolve among structures, harvest nodes among the
    /// active sources, construction referents among the pending sites, store
    /// targets among structures of their kind, and repair referents among
    /// structures of any kind.
    pub open spec fn resolve_spec(self, world: WorldSnapshot) -> Option<Position> {
        match self {
            CreepTarget::Upgrade(id) => {
                match first_match(
                    world.structures@,
                    |s: WorldStructure| s matches WorldStructure::Controller { id: sid, .. } && sid == id,
                ) {
                    Some(i) => Some(world.structures@[i].spec_pos()),
                    None => None,
                }
            },
            CreepTarget::Harvest(id) => {
                match first_match(world.active_sources@, |s: crate::world::SourceInfo| s.id == id) {
                    Some(i) => Some(world.active_sources@[i].pos),
                    None => None,
                }
            },
            CreepTarget::Construct(id) => {
                match first_match(
                    world.construction_sites@,
                    |s: crate::world::ConstructionSiteInfo| s.id == id,
                ) {
                    Some(i) => Some(world.construction_sites@[i].pos),
                    None => None,
                }
            },
            CreepTarget::Store(t) => t.resolve_spec(world),
            CreepTarget::Repair(id) => {
                match first_match(world.structures@, |s: WorldStructure| s.spec_id() == id) {
                    Some(i) => Some(world.structures@[i].spec_pos()),
                    None => None,
                }
            },
        }
    }

    /// Turns the task's stable identifier into this tick's referent position,
    /// or nothing when the referent no longer exists (the eviction signal).
    pub fn resolve(&self, world: &WorldSnapshot) -> (r: Option<Position>)
        ensures
            r == self.resolve_spec(*world),
    {
        match *self {
            CreepTarget::Upgrade(id) => {
                let ghost p = |s: WorldStructure| s matches WorldStructure::Controller { id: sid, .. } && sid == id;
                let n = world.structures.len();
                let mut i: usize = 0;
                while i < n
                    invariant
                        0 <= i <= n,
                        n == world.structures@.len(),
                        forall|j: int| 0 <= j < i ==> !p(world.structures@[j]),
                    decreases n - i,
                {
                    let s = &world.structures[i];
                    if let WorldStructure::Controller { id: sid, pos, .. } = s {
                        if *sid == id {
                            proof {
                                assert(p(world.structures@[i as int]));
                                lemma_first_match_is(world.structures@, p, i as int);
                            }
                            return Some(*pos);
                        }
                    }
                    i = i + 1;
                }
                proof {
                    lemma_first_match_none(world.structures@, p);
                }
                None
            },
            CreepTarget::Harvest(id) => {
                let ghost p = |s: crate::world::SourceInfo| s.id == id;
                let n = world.active_sources.len();
                let mut i: usize = 0;
                while i < n
                    invariant
                        0 <= i <= n,
                        n == world.active_sources@.len(),
                        forall|j: int| 0 <= j < i ==> !p(world.active_sources@[j]),
                    decreases n - i,
                {
                    let s = &world.active_sources[i];
                    if s.id == id {
                        proof {
                            assert(p(world.active_sources@[i as int]));
                            lemma_first_match_is(world.active_sources@, p, i as int);
                        }
                        return Some(s.pos);
                    }
                    i = i + 1;
                }
                proof {
                    lemma_first_match_none(world.active_sources@, p);
                }
                None
            },
            CreepTarget::Construct(id) => {
                let ghost p = |s: crate::world::ConstructionSiteInfo| s.id == id;
                let n = world.construction_sites.len();
                let mut i: usize = 0;
                while i < n
                    invariant
                        0 <= i <= n,
                        n == world.construction_sites@.len(),
                        forall|j: int| 0 <= j < i ==> !p(world.construction_sites@[j]),
                    decreases n - i,
                {
                    let s = &world.construction_sites[i];
                    if s.id == id {
                        proof {
                            assert(p(world.construction_sites@[i as int]));
                            lemma_first_match_is(world.construction_sites@, p, i as int);
                        }
                        return Some(s.pos);
                    }
                    i = i + 1;
                }
                proof {
                    lemma_first_match_none(world.construction_sites@, p);
                }
                None
            },
            CreepTarget::Store(t) => t.resolve(world),
            CreepTarget::Repair(id) => {
                let ghost p = |s: WorldStructure| s.spec_id() == id;
                let n = world.structures.len();
                let mut i: usize = 0;
                while i < n
                    invariant
                        0 <= i <= n,
                        n == world.structures@.len(),
                        forall|j: int| 0 <= j < i ==> !p(world.structures@[j]),
                    decreases n - i,
                {
                    let s = &world.structures[i];
                    if s.id() == id {
                        proof {
                            assert(p(world.structures@[i as int]));
                            lemma_first_match_is(world.structures@, p, i as int);
                        }
                        return Some(s.pos());
                    }
                    i = i + 1;
                }
                proof {
                    lemma_first_match_none(world.structures@, p);
                }
                None
            },
        }
    }
}

} // verus!
