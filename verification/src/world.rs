//! The per-tick world snapshot.
//!
//! Live object handles are valid for exactly one tick, so the engine never
//! holds one: the host assembles a fresh `WorldSnapshot` of plain values each
//! tick, and every stable identifier stored in a task is re-resolved against
//! that snapshot.

use vstd::prelude::*;
use crate::geom::Position;

verus! {

/// Terrain classification of a tile, used for repair thresholds.
#[derive(Clone, Copy, Debug, PartialEq, Eq, Structural)]
pub enum Terrain {
    Plain,
    Swamp,
    Wall,
}

/// One structure in the room, tagged by kind, with the fields the engine
/// reads from it. `free_energy` is the free capacity of the structure's
/// energy store; `hits` is current durability.
#[derive(Clone, Copy, Debug, PartialEq, Eq, Structural)]
pub enum WorldStructure {
    Controller { id: u128, pos: Position, level: u8, ticks_to_downgrade: u32 },
    Spawn { id: u128, pos: Position, free_energy: u32 },
    Extension { id: u128, pos: Position, free_energy: u32 },
    Tower { id: u128, pos: Position, free_energy: u32 },
    Road { id: u128, pos: Position, hits: u32, terrain: Terrain },
    Other { id: u128, pos: Position },
}

impl WorldStructure {
    /// The stable identifier of the structure, whatever its kind.
    pub open spec fn spec_id(self) -> u128 {
        match self {
            WorldStructure::Controller { id, .. } => id,
            WorldStructure::Spawn { id, .. } => id,
            WorldStructure::Extension { id, .. } => id,
            WorldStructure::Tower { id, .. } => id,
            WorldStructure::Road { id, .. } => id,
            WorldStructure::Other { id, .. } => id,
        }
    }

    /// The position of the structure, whatever its kind.
    pub open spec fn spec_pos(self) -> Position {
        match self {
            WorldStructure::Controller { pos, .. } => pos,
            WorldStructure::Spawn { pos, .. } => pos,
            WorldStructure::Extension { pos, .. } => pos,
            WorldStructure::Tower { pos, .. } => pos,
            WorldStructure::Road { pos, .. } => pos,
            WorldStructure::Other { pos, .. } => pos,
        }
    }

    /// The stable identifier of the structure, whatever its kind.
    pub fn id(&self) -> (r: u128)
        ensures
            r == self.spec_id(),
    {
        match self {
            WorldStructure::Controller { id, .. } => *id,
            WorldStructure::Spawn { id, .. } => *id,
            WorldStructure::Extension { id, .. } => *id,
            WorldStructure::Tower { id, .. } => *id,
            WorldStructure::Road { id, .. } => *id,
            WorldStructure::Other { id, .. } => *id,
        }
    }

    /// The position of the structure, whatever its kind.
    pub fn pos(&self) -> (r: Position)
        ensures
            r == self.spec_pos(),
    {
        match self {
            WorldStructure::Controller { pos, .. } => *pos,
            WorldStructure::Spawn { pos, .. } => *pos,
            WorldStructure::Extension { pos, .. } => *pos,
            WorldStructure::Tower { pos, .. } => *pos,
            WorldStructure::Road { pos, .. } => *pos,
            WorldStructure::Other { pos, .. } => *pos,
        }
    }
}

/// A pending construction site.
#[derive(Clone, Copy, Debug, PartialEq, Eq, Structural)]
pub struct ConstructionSiteInfo {
    pub id: u128,
    pub pos: Position,
}

/// A currently active (harvestable) resource node.
#[derive(Clone, Copy, Debug, PartialEq, Eq, Structural)]
pub struct SourceInfo {
    pub id: u128,
    pub pos: Position,
}

/// A hostile agent present in the room.
#[derive(Clone, Copy, Debug, PartialEq, Eq, Structural)]
pub struct HostileInfo {
    pub id: u128,
    pub pos: Position,
}

/// Everything the engine reads from the room on one tick.
pub struct WorldSnapshot {
    pub structures: Vec<WorldStructure>,
    pub construction_sites: Vec<ConstructionSiteInfo>,
    pub active_sources: Vec<SourceInfo>,
    pub hostiles: Vec<HostileInfo>,
}

} // verus!
