//! A per-tick task assignment and execution engine for a population of
//! autonomous agents ("creeps") working in a shared room: a persistent task
//! registry, a referent resolver over a per-tick world snapshot, a
//! priority-ordered task selector, a task executor with eviction policy, a
//! population controller, and a stateless defense controller.
//!
//! All world interaction (queries and action directives) happens outside this
//! library; the engine works on plain snapshot data and returns directives.

#![verifier::loop_isolation(false)]

pub mod defense;
pub mod executor;
pub mod gc;
pub mod geom;
pub mod naming;
pub mod registry;
pub mod rng;
pub mod scan;
pub mod selector;
pub mod spawning;
pub mod task;
pub mod world;
