//! Controlled attack-simulation agent: launch constraints, scenario catalogue,
//! simulation state machine and the decisions of the pipeline that drives the
//! other security agents.

pub mod text;
pub mod ip;
pub mod scenarios;
pub mod clock;
pub mod config;
pub mod control;
pub mod comms;
pub mod api;
