//! Launch constraints, the simulation state machine, counters and the
//! pipeline that coordinates the other agents.

pub mod constraints;
pub mod fsm;
pub mod metrics;
pub mod state;
pub mod orchestrator;
