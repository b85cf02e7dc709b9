//! The defense controller: a stateless per-tick scan that assigns every
//! defensive structure to attack the nearest hostile agent.
//!
//! It runs before task processing, touches no persisted state, and is
//! independent of the task registry.

use vstd::prelude::*;
use crate::geom::{range_between, spec_range_between, Position};
use crate::world::{HostileInfo, WorldSnapshot, WorldStructure};

verus! {

/// One attack directive: the tower that fires, the hostile it fires at.
#[derive(Clone, Copy, Debug, PartialEq, Eq, Structural)]
pub struct AttackOrder {
    pub tower_id: u128,
    pub hostile_id: u128,
}

/// Index of the hostile nearest to `pos`: the earliest index achieving the
/// minimal range, or nothing when there is no hostile.
pub open spec fn nearest_hostile(hostiles: Seq<HostileInfo>, pos: Position) -> Option<int>
    decreases hostiles.len(),
{
    if hostiles.len() == 0 {
        None
    } else {
        match nearest_hostile(hostiles.drop_last(), pos) {
            None => Some(0int),
            Some(i) => if spec_range_between(pos, hostiles[i].pos) <= spec_range_between(
                pos,
                hostiles.last().pos,
            ) {
                Some(i)
            } else {
                Some(hostiles.len() - 1)
            },
        }
    }
}

/// What `nearest_hostile` returns: an index whose range no other hostile
/// beats, and that no earlier hostile ties.
pub proof fn lemma_nearest_hostile(hostiles: Seq<HostileInfo>, pos: Position)
    ensures
        match nearest_hostile(hostiles, pos) {
            Some(i) => 0 <= i < hostiles.len() && (forall|j: int|
                0 <= j < hostiles.len() ==> spec_range_between(pos, hostiles[i].pos)
                    <= spec_range_between(pos, #[trigger] hostiles[j].pos)) && (forall|j: int|
                0 <= j < i ==> spec_range_between(pos, #[trigger] hostiles[j].pos)
                    > spec_range_between(pos, hostiles[i].pos)),
            None => hostiles.len() == 0,
        },
    decreases hostiles.len(),
{
    if hostiles.len() > 0 {
        let pre = hostiles.drop_last();
        lemma_nearest_hostile(pre, pos);
        assert(forall|j: int| 0 <= j < pre.len() ==> pre[j] == hostiles[j]);
    }
}

/// The attack orders for a structure list: one order per tower, pairing it
/// with the hostile nearest to it; no orders when no hostile is present.
pub open spec fn attack_orders(
    structures: Seq<WorldStructure>,
    hostiles: Seq<HostileInfo>,
) -> Seq<AttackOrder>
    decreases structures.len(),
{
    if structures.len() == 0 {
        Seq::empty()
    } else {
        let rest = attack_orders(structures.drop_last(), hostiles);
        match structures.last() {
            WorldStructure::Tower { id, pos, .. } => match nearest_hostile(hostiles, pos) {
                Some(i) => rest.push(AttackOrder { tower_id: id, hostile_id: hostiles[i].id }),
                None => rest,
            },
            _ => rest,
        }
    }
}

/// Index of the hostile nearest to `pos`, at run time.
fn find_nearest_hostile(hostiles: &Vec<HostileInfo>, pos: Position) -> (r: Option<usize>)
    ensures
        match r {
            Some(i) => i < hostiles@.len() && nearest_hostile(hostiles@, pos) == Some(i as int),
            None => hostiles@.len() == 0,
        },
{
    let n = hostiles.len();
    if n == 0 {
        return None;
    }
    let mut best: usize = 0;
    let mut best_range: u8 = range_between(pos, hostiles[0].pos);
    let mut i: usize = 1;
    proof {
        reveal_with_fuel(nearest_hostile, 3);
        assert(hostiles@.take(1).len() == 1);
        assert(hostiles@.take(1).drop_last() =~= Seq::<HostileInfo>::empty());
        assert(hostiles@.take(1)[0] == hostiles@[0]);
        assert(nearest_hostile(hostiles@.take(1), pos) == Some(0int));
    }
    while i < n
        invariant
            1 <= i <= n,
            0 <= best < i,
            best_range == spec_range_between(pos, hostiles@[best as int].pos),
            nearest_hostile(hostiles@.take(i as int), pos) == Some(best as int),
        decreases n - i,
    {
        let r = range_between(pos, hostiles[i].pos);
        proof {
            assert(hostiles@.take(i as int + 1).drop_last() =~= hostiles@.take(i as int));
            assert(hostiles@.take(i as int + 1).last() == hostiles@[i as int]);
        }
        if r < best_range {
            best = i;
            best_range = r;
        }
        i = i + 1;
    }
    proof {
        assert(hostiles@.take(n as int) =~= hostiles@);
    }
    Some(best)
}

/// Plan the tick's defense: for every tower, an attack directive against the
/// hostile nearest to it; nothing when no hostile is in the room.
pub fn plan_defense(world: &WorldSnapshot) -> (r: Vec<AttackOrder>)
    ensures
        r@ == attack_orders(world.structures@, world.hostiles@),
{
    let mut orders: Vec<AttackOrder> = Vec::new();
    let n = world.structures.len();
    let mut i: usize = 0;
    while i < n
        invariant
            0 <= i <= n,
            orders@ == attack_orders(world.structures@.take(i as int), world.hostiles@),
        decreases n - i,
    {
        proof {
            assert(world.structures@.take(i as int + 1).drop_last() =~= world.structures@.take(
                i as int,
            ));
            assert(world.structures@.take(i as int + 1).last() == world.structures@[i as int]);
        }
        if let WorldStructure::Tower { id, pos, .. } = &world.structures[i] {
            if let Some(h) = find_nearest_hostile(&world.hostiles, *pos) {
                orders.push(AttackOrder { tower_id: *id, hostile_id: world.hostiles[h].id });
            } else {
                proof {
                    assert(nearest_hostile(world.hostiles@, *pos) is None);
                }
            }
        }
        i = i + 1;
    }
    proof {
        assert(world.structures@.take(n as int) =~= world.structures@);
    }
    orders
}

} // verus!
