use simulateur::api::auth::{check_auditeur, check_decideur, check_token, header_value_text, ApiStatus, CallerRole};
use simulateur::api::dto::{PhaseAckRequest, SimulationLaunchRequest, SimulationStopOrder, TargetRef};
use simulateur::api::routes::{
    health_response, metrics_response, phase_ack_decision, phase_label, scenario_items,
    scenario_list_response, start_decision, status_response, stop_decision,
    stop_simulation,
};
use simulateur::config::Config;
use simulateur::control::fsm::FsmState;
use simulateur::control::metrics::SimulationMetrics;
use simulateur::control::orchestrator::{network_phase_result, Action, EventDetails};
use simulateur::control::state::SimulationState;
use simulateur::scenarios::types::PhaseKind;

fn config() -> Config {
    Config {
        agent_token: "agent-secret".into(),
        decideur_token: Some("decideur-secret".into()),
        auditeur_url: "http://a".into(),
        decideur_url: "http://d".into(),
        analyseur_url: "http://n".into(),
        chiffreur_url: "http://c".into(),
        trusted_ca: None,
        simulateur_whitelist: vec![],
        sandbox_cidr: "192.168.99.0/24".into(),
        production_cidrs: vec![],
        dry_run: true,
        detection_timeout_secs: 60,
        phase1_scenario: "ddos_syn".into(),
        phase2_scenario: "brute_force".into(),
        phase3_scenario: "mot_de_passe_faible".into(),
        min_phases_ok_for_success: 2,
        backup_events_path: "var/log/events.jsonl".into(),
        listen_port: 8005,
        require_authorization: true,
        require_authorization_ref: false,
        require_snapshot: false,
        require_rollback_plan: false,
        enforce_launch_window: false,
        enforce_health_checks: false,
        launch_hour_start: 8,
        launch_hour_end: 22,
        global_max_duration_secs: 900,
    }
}

fn started() -> SimulationState {
    let mut s = SimulationState::new();
    s.start(
        "SIM-1".into(),
        "SIM-TOKEN-1".into(),
        "ddos_syn".into(),
        "192.168.99.5".into(),
        Some("admin".into()),
        120,
        "2025-03-07T09:05:02+00:00".into(),
    )
    .unwrap();
    s
}

fn launch() -> SimulationLaunchRequest {
    SimulationLaunchRequest {
        request_id: None,
        message_type: None,
        scenario: "ddos_syn".into(),
        target: TargetRef { target_type: Some("vm".into()), value: "192.168.99.5".into() },
        mode: None,
        max_duration_seconds: Some(60),
        authorized_by: Some("admin".into()),
        authorization_ref: None,
        snapshot_id: None,
        rollback_plan_id: None,
        intensity: None,
    }
}

fn header(s: &str) -> Vec<u8> {
    s.as_bytes().to_vec()
}

#[test]
fn state_start_and_stop() {
    let mut s = SimulationState::new();
    assert!(!s.is_active());
    assert_eq!(s.fsm, FsmState::Idle);
    s.start("SIM-1".into(), "T".into(), "ddos_syn".into(), "1.2.3.4".into(), None, 120, "t0".into()).unwrap();
    assert!(s.is_active());
    assert_eq!(s.fsm, FsmState::Validating);
    assert_eq!(s.started_at.as_deref(), Some("t0"));
    assert_eq!(s.max_duration_secs, 120);
    assert_eq!(
        s.start("SIM-2".into(), "U".into(), "x".into(), "y".into(), None, 1, "t1".into()),
        Err("SIMULATION_ACTIVE")
    );
    assert_eq!(s.simulation_id.as_deref(), Some("SIM-1"));
    s.push_phase_result(network_phase_result(1, "ddos_syn", true));
    assert_eq!(s.phase_results.len(), 1);
    s.stop();
    assert!(!s.is_active());
    assert_eq!(s.simulation_id, None);
    assert!(s.phase_results.is_empty());
    assert!(s.start("SIM-3".into(), "V".into(), "x".into(), "y".into(), None, 1, "t2".into()).is_ok());
}

#[test]
fn acknowledgement_slot() {
    let mut s = started();
    assert!(!s.signal_phase_ack());
    s.set_phase_ack_tx();
    assert!(s.signal_phase_ack());
    assert!(!s.signal_phase_ack());
    s.set_phase_ack_tx();
    assert!(s.take_phase_ack_tx());
    s.set_phase_ack_tx();
    assert!(s.request_cancel());
    assert!(s.cancel_requested);
    assert!(!s.phase_ack_pending);
}

#[test]
fn metrics_counters() {
    let mut m = SimulationMetrics::new();
    m.inc_total();
    m.inc_total();
    m.inc_success();
    m.inc_error();
    m.inc_timeout();
    m.inc_stopped();
    m.record_phase(1, true);
    m.record_phase(1, false);
    m.record_phase(2, false);
    m.record_phase(3, true);
    m.record_phase(4, true);
    let s = m.snapshot();
    assert_eq!(s.simulations_total, 2);
    assert_eq!((s.simulations_success, s.simulations_error, s.simulations_timeout, s.simulations_stopped), (1, 1, 1, 1));
    assert_eq!((s.phase1_ok, s.phase1_timeout, s.phase2_ok, s.phase2_timeout, s.phase3_ok, s.phase3_timeout), (1, 1, 0, 1, 1, 0));
    let d = SimulationMetrics::default().snapshot();
    assert_eq!(d, SimulationMetrics::new().snapshot());
}

#[test]
fn increments_add_up() {
    let mut m = SimulationMetrics::new();
    m.simulations_total = 40;
    for _ in 0..25 {
        m.inc_total();
    }
    let s = m.snapshot();
    assert_eq!(s.simulations_total, 65);
    assert_eq!(s.simulations_success + s.simulations_error + s.simulations_stopped, 0);
}

#[test]
fn metrics_wrap_around() {
    let mut m = SimulationMetrics::new();
    m.simulations_total = u64::MAX;
    m.inc_total();
    assert_eq!(m.snapshot().simulations_total, 0);
}

#[test]
fn fsm_names() {
    assert_eq!(FsmState::Phase1Filtreur.label(), "phase1filtreur");
    assert_eq!(FsmState::Idle.label(), "idle");
    assert!(!FsmState::Idle.is_busy());
    assert!(!FsmState::Failed.is_busy());
    assert!(FsmState::Reporting.is_busy());
}

#[test]
fn token_headers() {
    assert_eq!(check_token(Some(&header("abc")), "abc", CallerRole::Auditeur), Ok(()));
    assert_eq!(check_token(Some(&header("abd")), "abc", CallerRole::Decideur), Err(ApiStatus::Forbidden));
    assert_eq!(check_token(None, "abc", CallerRole::Auditeur), Err(ApiStatus::Forbidden));
    // a header that is not text counts as empty
    assert_eq!(check_token(Some(&vec![0xff]), "", CallerRole::Auditeur), Ok(()));
    assert_eq!(check_auditeur(Some(&header("x")), "x"), Ok(()));
    assert_eq!(check_decideur(Some(&header("x")), "y"), Err(ApiStatus::Forbidden));
    assert_eq!(header_value_text(&header("a\tb")), Some("a\tb".to_string()));
    assert_eq!(header_value_text(&vec![b'a', 0x7f]), None);
    assert_eq!(ApiStatus::Forbidden.code(), 403);
    assert_eq!(ApiStatus::Conflict.code(), 409);
    assert_eq!(ApiStatus::NotFound.code(), 404);
    assert_eq!(ApiStatus::Accepted.code(), 202);
}

#[test]
fn scenario_list() {
    let items = scenario_items();
    assert_eq!(items.len(), 25);
    assert_eq!(items[0].id, "ddos_syn");
    assert_eq!(items[0].phase, "filtreur");
    assert_eq!(items[24].phase, "auditeur");
    let r = scenario_list_response("req-1".into());
    assert_eq!(r.message_type, "response");
    assert_eq!(r.scenarios.len(), 25);
    assert_eq!(phase_label(PhaseKind::Chiffreur), "chiffreur");
}

#[test]
fn health_and_metrics_routes() {
    let h = health_response("req-1".into(), 42, "0.1.0");
    assert_eq!((h.status, h.uptime_sec, h.version), ("ok", 42, "0.1.0"));
    let cfg = config();
    let mut m = SimulationMetrics::new();
    m.inc_total();
    assert_eq!(metrics_response(None, &cfg, &m, "r".into()).unwrap_err(), ApiStatus::Forbidden);
    let ok = metrics_response(Some(&header("agent-secret")), &cfg, &m, "r".into()).unwrap();
    assert_eq!(ok.metrics.simulations_total, 1);
}

#[test]
fn status_route() {
    let cfg = config();
    let s = started();
    assert_eq!(
        status_response(Some(&header("decideur-secret")), &cfg, &s, "r".into()).unwrap_err(),
        ApiStatus::Forbidden
    );
    let r = status_response(Some(&header("agent-secret")), &cfg, &s, "r".into()).unwrap();
    assert!(r.active);
    assert_eq!(r.fsm_state, "validating");
    assert_eq!(r.simulation_id.as_deref(), Some("SIM-1"));
    assert_eq!(r.scenario.as_deref(), Some("ddos_syn"));
    assert_eq!(r.started_at, s.started_at);
}

#[test]
fn start_route() {
    let cfg = config();
    let idle = SimulationState::new();
    assert_eq!(start_decision(None, &cfg, &idle, &launch()).unwrap_err(), ApiStatus::Forbidden);
    let p = start_decision(Some(&header("agent-secret")), &cfg, &idle, &launch()).unwrap();
    assert_eq!(p.scenario, "ddos_syn");
    assert_eq!(p.target, "192.168.99.5");
    assert_eq!(p.max_duration_seconds, Some(60));
    assert!(p.token_valid);
    let busy = started();
    assert_eq!(
        start_decision(Some(&header("agent-secret")), &cfg, &busy, &launch()).unwrap_err(),
        ApiStatus::Conflict
    );
}

#[test]
fn stop_route() {
    let cfg = config();
    let order = |tok: &str| SimulationStopOrder {
        request_id: None,
        message_type: None,
        simulation_id: "SIM-1".into(),
        simulation_token: tok.into(),
        reason: None,
    };
    let mut idle = SimulationState::new();
    assert_eq!(
        stop_decision(Some(&header("decideur-secret")), &cfg, &mut idle, &order("SIM-TOKEN-1")).unwrap_err(),
        ApiStatus::NotFound
    );
    let mut s = started();
    assert_eq!(
        stop_decision(Some(&header("agent-secret")), &cfg, &mut s, &order("SIM-TOKEN-1")).unwrap_err(),
        ApiStatus::Forbidden
    );
    assert_eq!(
        stop_decision(Some(&header("decideur-secret")), &cfg, &mut s, &order("OTHER")).unwrap_err(),
        ApiStatus::Forbidden
    );
    assert!(!s.cancel_requested);
    s.set_phase_ack_tx();
    let id = stop_decision(Some(&header("decideur-secret")), &cfg, &mut s, &order("SIM-TOKEN-1")).unwrap();
    assert_eq!(id, "SIM-1");
    assert!(s.cancel_requested);
    assert!(!s.phase_ack_pending);
    assert_eq!(s.fsm, FsmState::Stopping);
    assert!(s.is_active());
}

#[test]
fn phase_ack_route() {
    let mut cfg = config();
    let ack = |id: &str| PhaseAckRequest {
        request_id: None,
        message_type: None,
        simulation_id: id.into(),
        phase: 2,
        status: None,
        detected: Some(true),
    };
    let mut s = started();
    s.set_phase_ack_tx();
    assert_eq!(
        phase_ack_decision(Some(&header("decideur-secret")), &cfg, &mut s, &ack("SIM-9")).unwrap_err(),
        ApiStatus::NotFound
    );
    assert!(s.phase_ack_pending);
    assert_eq!(phase_ack_decision(Some(&header("decideur-secret")), &cfg, &mut s, &ack("SIM-1")), Ok(2));
    assert!(!s.phase_ack_pending);
    // without a token of its own, the Décideur presents the agent token
    cfg.decideur_token = None;
    assert_eq!(phase_ack_decision(Some(&header("agent-secret")), &cfg, &mut s, &ack("SIM-1")), Ok(2));
    assert_eq!(cfg.decideur_token(), "agent-secret");
}

#[test]
fn stop_route_counts_and_journals() {
    let cfg = config();
    let order = |reason: Option<&str>| SimulationStopOrder {
        request_id: None,
        message_type: None,
        simulation_id: "SIM-1".into(),
        simulation_token: "SIM-TOKEN-1".into(),
        reason: reason.map(|r| r.to_string()),
    };
    let mut m = SimulationMetrics::new();
    let mut idle = SimulationState::new();
    assert_eq!(
        stop_simulation(Some(&header("decideur-secret")), &cfg, &mut idle, &mut m, &order(None)).unwrap_err(),
        ApiStatus::NotFound
    );
    assert_eq!(m.snapshot().simulations_stopped, 0);
    let mut s = started();
    let (id, event) =
        stop_simulation(Some(&header("decideur-secret")), &cfg, &mut s, &mut m, &order(None)).unwrap();
    assert_eq!(id, "SIM-1");
    assert_eq!(m.snapshot().simulations_stopped, 1);
    assert_eq!(m.snapshot().simulations_total, 0);
    assert!(s.cancel_requested);
    match event {
        Action::SendEvent { event_type, details: EventDetails::Stopped { reason } } => {
            assert_eq!(event_type, "SIMULATION_STOPPED");
            assert_eq!(reason, "Décideur");
        }
        other => panic!("{other:?}"),
    }
    s.stop();
    assert!(!s.is_active());
    let mut s = started();
    let (_, event) =
        stop_simulation(Some(&header("decideur-secret")), &cfg, &mut s, &mut m, &order(Some("fin de test"))).unwrap();
    assert!(matches!(event, Action::SendEvent { details: EventDetails::Stopped { ref reason }, .. } if reason == "fin de test"));
    assert_eq!(m.snapshot().simulations_stopped, 2);
}
