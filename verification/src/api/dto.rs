//! The requests that the routes read and the responses they write.

use crate::control::metrics::MetricsSnapshot;
use crate::control::state::PhaseResult;
use vstd::prelude::*;

verus! {

/// `POST /simulation/start`.
#[derive(Debug)]
pub struct SimulationLaunchRequest {
    pub request_id: Option<String>,
    pub message_type: Option<String>,
    pub scenario: String,
    pub target: TargetRef,
    pub mode: Option<String>,
    pub max_duration_seconds: Option<u64>,
    pub authorized_by: Option<String>,
    pub authorization_ref: Option<String>,
    pub snapshot_id: Option<String>,
    pub rollback_plan_id: Option<String>,
    pub intensity: Option<String>,
}

/// The target of a launch.
#[derive(Debug)]
pub struct TargetRef {
    pub target_type: Option<String>,
    pub value: String,
}

/// `POST /simulation/stop`.
#[derive(Debug)]
pub struct SimulationStopOrder {
    pub request_id: Option<String>,
    pub message_type: Option<String>,
    pub simulation_id: String,
    pub simulation_token: String,
    pub reason: Option<String>,
}

/// `POST /simulation/phase_ack`.
#[derive(Debug)]
pub struct PhaseAckRequest {
    pub request_id: Option<String>,
    pub message_type: Option<String>,
    pub simulation_id: String,
    pub phase: u8,
    pub status: Option<String>,
    pub detected: Option<bool>,
}

/// `GET /health`.
#[derive(Debug)]
pub struct HealthResponse {
    pub request_id: String,
    pub message_type: &'static str,
    pub status: &'static str,
    pub uptime_sec: u64,
    pub version: &'static str,
}

/// `GET /simulation/list`.
#[derive(Debug)]
pub struct ScenarioListResponse {
    pub request_id: String,
    pub message_type: &'static str,
    pub scenarios: Vec<ScenarioItem>,
}

/// One scenario of the list.
#[derive(Debug)]
pub struct ScenarioItem {
    pub id: String,
    pub description: String,
    pub agent_cible: String,
    pub phase: String,
    pub anomaly_ref: String,
    pub mitre_tactic: String,
    pub max_duration_secs: u64,
    pub detection_timeout_secs: u64,
}

/// `GET /simulation/status`.
#[derive(Debug)]
pub struct SimulationStatusResponse {
    pub request_id: String,
    pub message_type: &'static str,
    pub active: bool,
    pub fsm_state: String,
    pub simulation_id: Option<String>,
    pub scenario: Option<String>,
    pub started_at: Option<String>,
    pub phase_results: Vec<PhaseResult>,
}

/// `GET /metrics`.
#[derive(Debug)]
pub struct MetricsResponse {
    pub request_id: String,
    pub message_type: &'static str,
    pub metrics: MetricsSnapshot,
}

/// An error answer.
#[derive(Debug)]
pub struct ApiErrorResponse {
    pub request_id: String,
    pub message_type: &'static str,
    pub error: String,
    pub description: String,
}

} // verus!
