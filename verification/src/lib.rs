//! Per-tick decision engine for a colony of creeps: the worker state machine,
//! the population controller and the records that carry their state from one
//! tick to the next.

pub mod agent;
pub mod engine;
pub mod logging;
pub mod memory;
pub mod population;
pub mod text;
pub mod world;
