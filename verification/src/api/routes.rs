//! What each route decides. The caller holds the shared state under its lock,
//! calls these functions, and performs the answers and the I/O.

use crate::api::auth::{
    ApiStatus, check_auditeur, check_decideur, header_view, token_accepted,
};
use crate::api::dto::{
    HealthResponse, MetricsResponse, PhaseAckRequest, ScenarioItem, ScenarioListResponse,
    SimulationLaunchRequest, SimulationStatusResponse, SimulationStopOrder,
};
use crate::config::{Config, spec_decideur_token};
use crate::control::fsm::{FsmState, fsm_label};
use crate::control::metrics::{MetricsSnapshot, SimulationMetrics};
use crate::control::metrics::bump;
use crate::control::orchestrator::{Action, EventDetails, StartParams, event_details, sends};
use crate::control::state::{
    SimulationState, StateView, copy_opt, copy_results, opt_seq, results_view,
};
use crate::scenarios::catalogue::{catalog_scenarios, known_scenarios};
use crate::scenarios::types::{PhaseKind, ScenarioView, phase_label as phase_name, scenario_views};
use vstd::prelude::*;
use vstd::string::*;

verus! {

/// The name of a phase, as the list of scenarios writes it.
pub fn phase_label(p: PhaseKind) -> (r: String)
    ensures
        r@ == phase_name(p),
{
    String::from_str(p.as_str())
}

/// The item that lists a scenario.
pub open spec fn item_matches(item: ScenarioItem, s: ScenarioView) -> bool {
    &&& item.id@ == s.id
    &&& item.description@ == s.description
    &&& item.agent_cible@ == s.agent_cible
    &&& item.phase@ == phase_name(s.phase)
    &&& item.anomaly_ref@ == s.anomaly_ref
    &&& item.mitre_tactic@ == s.mitre_tactic
    &&& item.max_duration_secs == s.max_duration_secs
    &&& item.detection_timeout_secs == s.detection_timeout_secs
}

/// The items of `GET /simulation/list`: one per catalogue scenario, in order.
pub fn scenario_items() -> (r: Vec<ScenarioItem>)
    ensures
        r.len() == catalog_scenarios().len(),
        forall|k: int| 0 <= k < r.len() ==> item_matches(#[trigger] r@[k], catalog_scenarios()[k]),
{
    let v = known_scenarios();
    let ghost c = catalog_scenarios();
    let mut out: Vec<ScenarioItem> = Vec::new();
    let mut i: usize = 0;
    while i < v.len()
        invariant
            scenario_views(v@) == c,
            c == catalog_scenarios(),
            i <= v.len(),
            out.len() == i,
            forall|k: int| 0 <= k < i ==> item_matches(#[trigger] out@[k], c[k]),
        decreases v.len() - i,
    {
        let s = &v[i];
        assert(c[i as int] == s@);
        out.push(
            ScenarioItem {
                id: s.id.clone(),
                description: s.description.clone(),
                agent_cible: s.agent_cible.clone(),
                phase: phase_label(s.phase),
                anomaly_ref: s.anomaly_ref.clone(),
                mitre_tactic: s.mitre_tactic.clone(),
                max_duration_secs: s.max_duration_secs,
                detection_timeout_secs: s.detection_timeout_secs,
            },
        );
        i = i + 1;
    }
    out
}

/// `GET /simulation/list`.
pub fn scenario_list_response(request_id: String) -> (r: ScenarioListResponse)
    ensures
        r.request_id@ == request_id@,
        r.message_type@ == "response"@,
        r.scenarios.len() == catalog_scenarios().len(),
        forall|k: int|
            0 <= k < r.scenarios.len() ==> item_matches(
                #[trigger] r.scenarios@[k],
                catalog_scenarios()[k],
            ),
{
    ScenarioListResponse { request_id, message_type: "response", scenarios: scenario_items() }
}

/// `GET /health`.
pub fn health_response(request_id: String, uptime_sec: u64, version: &'static str) -> (r:
    HealthResponse)
    ensures
        r.request_id@ == request_id@,
        r.message_type@ == "response"@,
        r.status@ == "ok"@,
        r.uptime_sec == uptime_sec,
        r.version@ == version@,
{
    HealthResponse { request_id, message_type: "response", status: "ok", uptime_sec, version }
}

/// `GET /metrics`, for a caller with the agent token.
pub fn metrics_response(
    header: Option<&Vec<u8>>,
    cfg: &Config,
    metrics: &SimulationMetrics,
    request_id: String,
) -> (r: Result<MetricsResponse, ApiStatus>)
    ensures
        !token_accepted(header_view(header), cfg.agent_token@) ==> r == Err::<
            MetricsResponse,
            ApiStatus,
        >(ApiStatus::Forbidden),
        token_accepted(header_view(header), cfg.agent_token@) ==> (r matches Ok(m)
            && m.request_id@ == request_id@ && m.message_type@ == "response"@ && m.metrics
            == metrics@),
{
    check_auditeur(header, cfg.agent_token.as_str())?;
    Ok(MetricsResponse { request_id, message_type: "response", metrics: metrics.snapshot() })
}

/// `GET /simulation/status`, for a caller with the agent token.
pub fn status_response(
    header: Option<&Vec<u8>>,
    cfg: &Config,
    state: &SimulationState,
    request_id: String,
) -> (r: Result<SimulationStatusResponse, ApiStatus>)
    ensures
        !token_accepted(header_view(header), cfg.agent_token@) ==> r == Err::<
            SimulationStatusResponse,
            ApiStatus,
        >(ApiStatus::Forbidden),
        token_accepted(header_view(header), cfg.agent_token@) ==> (r matches Ok(s)
            && s.request_id@ == request_id@ && s.message_type@ == "response"@ && s.active
            == state.active && s.fsm_state@ == fsm_label(state.fsm) && opt_seq(s.simulation_id)
            == opt_seq(state.simulation_id) && opt_seq(s.scenario) == opt_seq(state.scenario)
            && opt_seq(s.started_at) == opt_seq(state.started_at) && results_view(
            s.phase_results@,
        ) == results_view(state.phase_results@)),
{
    check_auditeur(header, cfg.agent_token.as_str())?;
    Ok(
        SimulationStatusResponse {
            request_id,
            message_type: "response",
            active: state.active,
            fsm_state: String::from_str(state.fsm.label()),
            simulation_id: copy_opt(&state.simulation_id),
            scenario: copy_opt(&state.scenario),
            started_at: copy_opt(&state.started_at),
            phase_results: copy_results(&state.phase_results),
        },
    )
}

/// `POST /simulation/start`: a caller with the agent token launches a run
/// unless one is active (409); the run's parameters come from the request,
/// the caller's token counting as valid.
pub fn start_decision(
    header: Option<&Vec<u8>>,
    cfg: &Config,
    state: &SimulationState,
    body: &SimulationLaunchRequest,
) -> (r: Result<StartParams, ApiStatus>)
    ensures
        !token_accepted(header_view(header), cfg.agent_token@) ==> r == Err::<
            StartParams,
            ApiStatus,
        >(ApiStatus::Forbidden),
        token_accepted(header_view(header), cfg.agent_token@) && state.active ==> r == Err::<
            StartParams,
            ApiStatus,
        >(ApiStatus::Conflict),
        token_accepted(header_view(header), cfg.agent_token@) && !state.active ==> (r matches Ok(
            p,
        ) && p.scenario == body.scenario && p.target == body.target.value && p.authorized_by
            == body.authorized_by && p.authorization_ref == body.authorization_ref && p.snapshot_id
            == body.snapshot_id && p.rollback_plan_id == body.rollback_plan_id
            && p.max_duration_seconds == body.max_duration_seconds && p.token_valid),
{
    check_auditeur(header, cfg.agent_token.as_str())?;
    if state.active {
        return Err(ApiStatus::Conflict);
    }
    Ok(
        StartParams {
            scenario: body.scenario.clone(),
            target: body.target.value.clone(),
            authorized_by: copy_opt(&body.authorized_by),
            authorization_ref: copy_opt(&body.authorization_ref),
            snapshot_id: copy_opt(&body.snapshot_id),
            rollback_plan_id: copy_opt(&body.rollback_plan_id),
            max_duration_seconds: body.max_duration_seconds,
            token_valid: true,
        },
    )
}

/// `POST /simulation/stop`: the Décideur stops the active simulation whose
/// token it presents. The run is asked to stop (released from any wait for
/// an acknowledgement) and the state machine enters `Stopping`; the answer
/// carries the simulation's identifier (empty when it has none). The caller
/// then counts the stop, journals it and clears the state (`stop`).
pub fn stop_decision(
    header: Option<&Vec<u8>>,
    cfg: &Config,
    state: &mut SimulationState,
    body: &SimulationStopOrder,
) -> (r: Result<String, ApiStatus>)
    ensures
        !token_accepted(header_view(header), spec_decideur_token(*cfg)) ==> r == Err::<
            String,
            ApiStatus,
        >(ApiStatus::Forbidden) && final(state)@ == old(state)@,
        token_accepted(header_view(header), spec_decideur_token(*cfg)) && !old(state)@.active
            ==> r == Err::<String, ApiStatus>(ApiStatus::NotFound) && final(state)@ == old(state)@,
        token_accepted(header_view(header), spec_decideur_token(*cfg)) && old(state)@.active
            && old(state)@.simulation_token != Some(body.simulation_token@) ==> r == Err::<
            String,
            ApiStatus,
        >(ApiStatus::Forbidden) && final(state)@ == old(state)@,
        token_accepted(header_view(header), spec_decideur_token(*cfg)) && old(state)@.active
            && old(state)@.simulation_token == Some(body.simulation_token@) ==> (r matches Ok(id)
            && id@ == (match old(state)@.simulation_id {
            Some(s) => s,
            None => Seq::<char>::empty(),
        }) && final(state)@ == (StateView {
            fsm: FsmState::Stopping,
            cancel_requested: true,
            phase_ack_pending: false,
            ..old(state)@
        })),
{
    check_decideur(header, cfg.decideur_token())?;
    if !state.active {
        return Err(ApiStatus::NotFound);
    }
    let matches_token = match &state.simulation_token {
        Some(t) => *t == body.simulation_token,
        None => false,
    };
    if !matches_token {
        return Err(ApiStatus::Forbidden);
    }
    let id = match &state.simulation_id {
        Some(s) => s.clone(),
        None => String::new(),
    };
    state.request_cancel();
    state.set_fsm(FsmState::Stopping);
    Ok(id)
}

/// The reason of a stop order: the Décideur's, else `Décideur`.
pub open spec fn stop_reason(body: SimulationStopOrder) -> Seq<char> {
    match body.reason {
        Some(r) => r@,
        None => "Décideur"@,
    }
}

/// The whole of `POST /simulation/stop` but the clearing of the state: the
/// decision (`stop_decision`), the count of one more stopped simulation, and
/// the event to journal, `SIMULATION_STOPPED` with the reason of the order.
/// Once the event is journalled, the caller clears the state with
/// `SimulationState::stop`, which leaves it idle. The run ends whichever it
/// sees: a waiting phase released by the request is recorded as undetected,
/// the request is checked at the end of phases 1 and 2, and a run that finds
/// its state cleared closes at its next step (`law_cleared_run_closes`).
pub fn stop_simulation(
    header: Option<&Vec<u8>>,
    cfg: &Config,
    state: &mut SimulationState,
    metrics: &mut SimulationMetrics,
    body: &SimulationStopOrder,
) -> (r: Result<(String, Action), ApiStatus>)
    ensures
        !token_accepted(header_view(header), spec_decideur_token(*cfg)) ==> (r matches Err(s)
            && s == ApiStatus::Forbidden),
        token_accepted(header_view(header), spec_decideur_token(*cfg)) && !old(state)@.active
            ==> (r matches Err(s) && s == ApiStatus::NotFound),
        token_accepted(header_view(header), spec_decideur_token(*cfg)) && old(state)@.active
            && old(state)@.simulation_token != Some(body.simulation_token@) ==> (r matches Err(s)
            && s == ApiStatus::Forbidden),
        r is Err ==> final(state)@ == old(state)@ && final(metrics)@ == old(metrics)@,
        token_accepted(header_view(header), spec_decideur_token(*cfg)) && old(state)@.active
            && old(state)@.simulation_token == Some(body.simulation_token@) ==> (r matches Ok(
            (id, a),
        ) && id@ == (match old(state)@.simulation_id {
            Some(s) => s,
            None => Seq::<char>::empty(),
        }) && final(state)@ == (StateView {
            fsm: FsmState::Stopping,
            cancel_requested: true,
            phase_ack_pending: false,
            ..old(state)@
        }) && final(metrics)@ == (MetricsSnapshot {
            simulations_stopped: bump(old(metrics)@.simulations_stopped),
            ..old(metrics)@
        }) && sends(a, "SIMULATION_STOPPED"@) && (event_details(a) matches EventDetails::Stopped {
            reason,
        } && reason@ == stop_reason(*body))),
{
    let id = stop_decision(header, cfg, state, body)?;
    metrics.inc_stopped();
    let reason = match &body.reason {
        Some(r) => r.clone(),
        None => String::from_str("Décideur"),
    };
    Ok(
        (
            id,
            Action::SendEvent {
                event_type: String::from_str("SIMULATION_STOPPED"),
                details: EventDetails::Stopped { reason },
            },
        ),
    )
}

/// `POST /simulation/phase_ack`: the Décideur acknowledges a phase of the
/// simulation it names; the pipeline, if waiting, is released. The answer
/// carries the phase.
pub fn phase_ack_decision(
    header: Option<&Vec<u8>>,
    cfg: &Config,
    state: &mut SimulationState,
    body: &PhaseAckRequest,
) -> (r: Result<u8, ApiStatus>)
    ensures
        !token_accepted(header_view(header), spec_decideur_token(*cfg)) ==> r == Err::<
            u8,
            ApiStatus,
        >(ApiStatus::Forbidden) && final(state)@ == old(state)@,
        token_accepted(header_view(header), spec_decideur_token(*cfg)) && old(state)@.simulation_id
            != Some(body.simulation_id@) ==> r == Err::<u8, ApiStatus>(ApiStatus::NotFound)
            && final(state)@ == old(state)@,
        token_accepted(header_view(header), spec_decideur_token(*cfg)) && old(state)@.simulation_id
            == Some(body.simulation_id@) ==> r == Ok::<u8, ApiStatus>(body.phase) && final(state)@ == (StateView { phase_ack_pending: false, ..old(state)@ }),
{
    check_decideur(header, cfg.decideur_token())?;
    let matches_id = match &state.simulation_id {
        Some(s) => *s == body.simulation_id,
        None => false,
    };
    if !matches_id {
        return Err(ApiStatus::NotFound);
    }
    state.signal_phase_ack();
    Ok(body.phase)
}

} // verus!
