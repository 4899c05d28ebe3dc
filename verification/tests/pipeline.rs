use simulateur::comms::chiffreur::CryptoTestResult;
use simulateur::config::Config;
use simulateur::control::fsm::FsmState;
use simulateur::control::metrics::SimulationMetrics;
use simulateur::control::orchestrator::{
    build_report, count_ok, crypto_phase_result, effective_detection_timeout,
    effective_max_duration, execution_error_result, global_cap, launch_context,
    network_phase_result, request_stop, signal_phase_ack, Action, Event, EventDetails, Pipeline,
    StartParams,
};
use simulateur::control::state::SimulationState;
use simulateur::scenarios::types::PhaseResultStatus;

fn config(dry_run: bool) -> Config {
    Config {
        agent_token: "t".into(),
        decideur_token: None,
        auditeur_url: "http://auditeur".into(),
        decideur_url: "http://decideur".into(),
        analyseur_url: "http://analyseur".into(),
        chiffreur_url: "http://chiffreur".into(),
        trusted_ca: None,
        simulateur_whitelist: vec![],
        sandbox_cidr: "192.168.99.0/24".into(),
        production_cidrs: vec!["10.0.0.0/8".into()],
        dry_run,
        detection_timeout_secs: 60,
        phase1_scenario: "ddos_syn".into(),
        phase2_scenario: "brute_force".into(),
        phase3_scenario: "mot_de_passe_faible".into(),
        min_phases_ok_for_success: 2,
        backup_events_path: "var/log".into(),
        listen_port: 8005,
        require_authorization: true,
        require_authorization_ref: false,
        require_snapshot: false,
        require_rollback_plan: false,
        enforce_launch_window: false,
        enforce_health_checks: false,
        launch_hour_start: 8,
        launch_hour_end: 22,
        global_max_duration_secs: 900,
    }
}

fn params(target: &str) -> StartParams {
    StartParams {
        scenario: "ddos_syn".into(),
        target: target.into(),
        authorized_by: Some("admin".into()),
        authorization_ref: None,
        snapshot_id: None,
        rollback_plan_id: None,
        max_duration_seconds: None,
        token_valid: true,
    }
}

/// What a test answers to each action.
struct Script {
    detections: Vec<bool>,
    weak: Option<CryptoTestResult>,
    handshake: Result<(), String>,
    pre_health: Result<(), String>,
    post_health: Result<(), String>,
    expire_at_handshake: bool,
    stop_while_waiting: bool,
    stop_and_clear_while_waiting: bool,
}

impl Script {
    fn nominal() -> Self {
        Script {
            detections: vec![],
            weak: None,
            handshake: Ok(()),
            pre_health: Ok(()),
            post_health: Ok(()),
            expire_at_handshake: false,
            stop_while_waiting: false,
            stop_and_clear_while_waiting: false,
        }
    }
}

struct Trace {
    events: Vec<String>,
    actions: Vec<Action>,
}

fn drive(
    cfg: &Config,
    p: StartParams,
    state: &mut SimulationState,
    metrics: &mut SimulationMetrics,
    mut script: Script,
) -> Trace {
    let mut pipeline = Pipeline::new(cfg, p, "SIM-TEST".into(), "SIM-TOKEN-TEST".into());
    let mut ev = Event::Start;
    let mut health_checks = 0;
    let mut trace = Trace { events: vec![], actions: vec![] };
    for _ in 0..40 {
        let a = pipeline.step(ev, cfg, state, metrics);
        ev = match &a {
            Action::SendEvent { event_type, .. } => {
                trace.events.push(event_type.clone());
                Event::Sent
            }
            Action::CheckHealth => {
                health_checks += 1;
                if health_checks == 1 {
                    Event::Checked(script.pre_health.clone())
                } else {
                    Event::Checked(script.post_health.clone())
                }
            }
            Action::StartClock { .. } | Action::StopClock | Action::Sleep { .. } => Event::Sent,
            Action::Handshake { .. } => {
                if script.expire_at_handshake {
                    Event::Expired
                } else {
                    Event::Checked(script.handshake.clone())
                }
            }
            Action::Execute { .. } | Action::AnalyseurStart { .. } | Action::AnalyseurEnd => {
                Event::Checked(Ok(()))
            }
            Action::AwaitAck { .. } => {
                assert!(state.phase_ack_pending);
                if script.stop_while_waiting {
                    // the stop releases the wait as an acknowledgement would
                    assert!(request_stop(state));
                    Event::Detected(true)
                } else if script.stop_and_clear_while_waiting {
                    assert!(request_stop(state));
                    state.stop();
                    Event::Detected(true)
                } else {
                    let d = script.detections.remove(0);
                    if d {
                        assert!(signal_phase_ack(state));
                        Event::Detected(true)
                    } else {
                        Event::Detected(false)
                    }
                }
            }
            Action::TestWeakPassword { password } => {
                assert_eq!(password, "123456");
                Event::Crypto(script.weak.take().unwrap_or(CryptoTestResult::RejectedAsExpected))
            }
            Action::TestRoundtrip { plaintext } => {
                assert_eq!(plaintext, "message-test-simulation");
                Event::Crypto(CryptoTestResult::Success)
            }
            Action::Finish => {
                trace.actions.push(a);
                break;
            }
        };
        trace.actions.push(a);
    }
    assert!(pipeline.is_done());
    trace
}

fn report_of(trace: &Trace) -> &simulateur::control::orchestrator::SimulationReport {
    for a in &trace.actions {
        if let Action::SendEvent { details: EventDetails::Report { report }, .. } = a {
            return report;
        }
    }
    panic!("no report");
}

#[test]
fn dry_run_goes_through_every_phase() {
    let cfg = config(true);
    let mut state = SimulationState::new();
    let mut metrics = SimulationMetrics::new();
    let trace = drive(&cfg, params("192.168.99.5"), &mut state, &mut metrics, Script::nominal());
    assert_eq!(
        trace.events,
        vec![
            "C6_CELLULES_NOTIFIEES",
            "SIMULATION_START",
            "PHASE1_START",
            "PHASE1_OK",
            "PHASE2_START",
            "PHASE2_OK",
            "PHASE3_START",
            "PHASE3_OK",
            "PHASE4_START",
            "PHASE4_OK",
            "SIMULATION_END",
        ]
    );
    assert!(!trace.actions.iter().any(|a| matches!(a, Action::AwaitAck { .. })));
    assert!(!trace.actions.iter().any(|a| matches!(
        a,
        Action::TestWeakPassword { .. } | Action::TestRoundtrip { .. }
    )));
    let r = report_of(&trace);
    assert!(r.overall_success);
    assert_eq!(r.simulation_id, "SIM-TEST");
    assert_eq!(r.phases.len(), 3);
    assert!(r.phases.iter().all(|p| p.status == PhaseResultStatus::Success));
    assert_eq!(r.phases[1].scenario, "brute_force");
    assert_eq!(r.constraints_validated.len(), 15);
    assert_eq!(r.constraints_validated[14], "C15");
    let m = metrics.snapshot();
    assert_eq!(m.simulations_total, 1);
    assert_eq!(m.simulations_success, 1);
    assert_eq!(m.simulations_error, 0);
    assert_eq!((m.phase1_ok, m.phase2_ok, m.phase3_ok), (1, 1, 1));
    assert!(!state.is_active());
    assert_eq!(state.fsm, FsmState::Idle);
}

#[test]
fn dry_run_actions_carry_settings() {
    let cfg = config(true);
    let mut state = SimulationState::new();
    let mut metrics = SimulationMetrics::new();
    let trace = drive(&cfg, params("192.168.99.5"), &mut state, &mut metrics, Script::nominal());
    let mut saw_clock = false;
    let mut executes = vec![];
    for a in &trace.actions {
        match a {
            Action::StartClock { secs } => {
                saw_clock = true;
                assert_eq!(*secs, 900);
            }
            Action::Handshake { attack_type, target, max_duration_secs } => {
                assert_eq!(attack_type, "brute_force");
                assert_eq!(target, "192.168.99.5");
                assert_eq!(*max_duration_secs, 120);
            }
            Action::AnalyseurStart { perimeter, max_duration_secs } => {
                assert_eq!(perimeter, "192.168.99.0/24");
                assert_eq!(*max_duration_secs, 120);
            }
            Action::Execute { scenario, duration_secs, dry_run, .. } => {
                assert!(*dry_run);
                executes.push((scenario.clone(), *duration_secs));
            }
            Action::Sleep { secs } => assert_eq!(*secs, 2),
            Action::SendEvent { event_type, details: EventDetails::PhaseStart { detection_timeout_secs, max_duration_secs, .. } } => {
                if event_type == "PHASE1_START" {
                    assert_eq!((*max_duration_secs, *detection_timeout_secs), (120, 60));
                } else {
                    assert_eq!((*max_duration_secs, *detection_timeout_secs), (300, 90));
                }
            }
            _ => {}
        }
    }
    assert!(saw_clock);
    assert_eq!(
        executes,
        vec![
            ("ddos_syn".to_string(), 120),
            ("brute_force".to_string(), 300),
            ("cert_tls".to_string(), 60),
            ("injection_base".to_string(), 60),
        ]
    );
}

#[test]
fn refused_launch_is_journalled_and_counted() {
    let cfg = config(true);
    let mut state = SimulationState::new();
    let mut metrics = SimulationMetrics::new();
    let trace = drive(&cfg, params("192.168.1.5"), &mut state, &mut metrics, Script::nominal());
    assert_eq!(trace.events, vec!["SIMULATION_ERROR"]);
    match &trace.actions[0] {
        Action::SendEvent { details: EventDetails::Error { error }, .. } => {
            assert_eq!(error, "C1: Cible 192.168.1.5 hors sandbox 192.168.99.0/24 (C1)");
        }
        other => panic!("{other:?}"),
    }
    let m = metrics.snapshot();
    assert_eq!((m.simulations_total, m.simulations_error, m.simulations_success), (1, 1, 0));
    assert!(!state.is_active());
}

#[test]
fn failed_pre_health_check_stops_the_run() {
    let cfg = config(true);
    let mut state = SimulationState::new();
    let mut metrics = SimulationMetrics::new();
    let mut script = Script::nominal();
    script.pre_health = Err("C7: decideur injoignable: refused".into());
    let trace = drive(&cfg, params("192.168.99.5"), &mut state, &mut metrics, script);
    assert_eq!(trace.events, vec!["SIMULATION_ERROR"]);
    assert_eq!(metrics.snapshot().simulations_error, 1);
    assert!(!state.is_active());
}

#[test]
fn refused_handshake_fails_the_run() {
    let cfg = config(false);
    let mut state = SimulationState::new();
    let mut metrics = SimulationMetrics::new();
    let mut script = Script::nominal();
    script.handshake = Err("Handshake refusé: HTTP 403 Forbidden".into());
    let trace = drive(&cfg, params("192.168.99.5"), &mut state, &mut metrics, script);
    assert_eq!(
        trace.events,
        vec!["C6_CELLULES_NOTIFIEES", "SIMULATION_START", "SIMULATION_ERROR"]
    );
    let m = metrics.snapshot();
    assert_eq!((m.simulations_total, m.simulations_error), (1, 1));
    assert!(!state.is_active());
}

#[test]
fn deadline_expiry_fails_the_run() {
    let cfg = config(true);
    let mut state = SimulationState::new();
    let mut metrics = SimulationMetrics::new();
    let mut script = Script::nominal();
    script.expire_at_handshake = true;
    let trace = drive(&cfg, params("192.168.99.5"), &mut state, &mut metrics, script);
    assert_eq!(trace.events.last().unwrap(), "SIMULATION_ERROR");
    let err = trace
        .actions
        .iter()
        .find_map(|a| match a {
            Action::SendEvent { details: EventDetails::Error { error }, .. } => Some(error.clone()),
            _ => None,
        })
        .unwrap();
    assert_eq!(err, "C14: dépassement durée globale 900s");
    assert_eq!(metrics.snapshot().simulations_error, 1);
    assert!(!state.is_active());
}

#[test]
fn live_run_with_missed_detection_and_accepted_weak_password() {
    let cfg = config(false);
    let mut state = SimulationState::new();
    let mut metrics = SimulationMetrics::new();
    let mut script = Script::nominal();
    script.detections = vec![false, true];
    script.weak = Some(CryptoTestResult::Failed("mot de passe faible accepté".into()));
    let trace = drive(&cfg, params("192.168.99.5"), &mut state, &mut metrics, script);
    assert_eq!(
        trace.events,
        vec![
            "C6_CELLULES_NOTIFIEES",
            "SIMULATION_START",
            "PHASE1_START",
            "PHASE1_TIMEOUT",
            "PHASE2_START",
            "PHASE2_OK",
            "PHASE3_START",
            "PHASE3_ERROR",
            "PHASE4_START",
            "PHASE4_OK",
            "SIMULATION_END",
        ]
    );
    let r = report_of(&trace);
    assert!(!r.overall_success);
    assert_eq!(r.phases[0].status, PhaseResultStatus::Timeout);
    assert_eq!(r.phases[1].status, PhaseResultStatus::Success);
    assert_eq!(r.phases[2].status, PhaseResultStatus::Error);
    assert_eq!(
        r.phases[2].message.as_deref(),
        Some("weak=Failed(\"mot de passe faible accepté\"), roundtrip=Ok")
    );
    let m = metrics.snapshot();
    assert_eq!((m.simulations_success, m.simulations_timeout), (0, 1));
    assert_eq!((m.phase1_timeout, m.phase2_ok, m.phase3_timeout), (1, 1, 1));
}

#[test]
fn stop_during_detection_wait_cancels_the_run() {
    let cfg = config(false);
    let mut state = SimulationState::new();
    let mut metrics = SimulationMetrics::new();
    let mut script = Script::nominal();
    script.stop_while_waiting = true;
    let trace = drive(&cfg, params("192.168.99.5"), &mut state, &mut metrics, script);
    assert_eq!(
        trace.events,
        vec![
            "C6_CELLULES_NOTIFIEES",
            "SIMULATION_START",
            "PHASE1_START",
            "PHASE1_TIMEOUT",
            "SIMULATION_ERROR",
        ]
    );
    let err = trace
        .actions
        .iter()
        .find_map(|a| match a {
            Action::SendEvent { details: EventDetails::Error { error }, .. } => Some(error.clone()),
            _ => None,
        })
        .unwrap();
    assert_eq!(err, "Simulation annulée (C14)");
    assert!(!state.is_active());
    let m = metrics.snapshot();
    assert_eq!((m.phase1_ok, m.phase1_timeout, m.simulations_error), (0, 1, 1));
}

#[test]
fn cleared_run_closes_at_next_step() {
    let cfg = config(false);
    let mut state = SimulationState::new();
    let mut metrics = SimulationMetrics::new();
    let mut script = Script::nominal();
    script.stop_and_clear_while_waiting = true;
    let trace = drive(&cfg, params("192.168.99.5"), &mut state, &mut metrics, script);
    assert_eq!(
        trace.events,
        vec!["C6_CELLULES_NOTIFIEES", "SIMULATION_START", "PHASE1_START", "SIMULATION_ERROR"]
    );
    let m = metrics.snapshot();
    assert_eq!((m.phase1_ok, m.phase1_timeout, m.simulations_error), (0, 0, 1));
    assert!(!trace.actions.iter().any(|a| matches!(a, Action::AnalyseurStart { .. })));
}

#[test]
fn cleared_run_leaves_new_simulation_alone() {
    let cfg = config(true);
    let mut state = SimulationState::new();
    let mut metrics = SimulationMetrics::new();
    let mut pipeline = Pipeline::new(&cfg, params("192.168.99.5"), "SIM-A".into(), "TOK-A".into());
    let mut ev = Event::Start;
    // launch, health, notify: the run now holds the state
    for _ in 0..3 {
        let a = pipeline.step(ev, &cfg, &mut state, &mut metrics);
        ev = if matches!(a, Action::CheckHealth) { Event::Checked(Ok(())) } else { Event::Sent };
    }
    assert_eq!(state.simulation_token.as_deref(), Some("TOK-A"));
    // the stop clears the state and another simulation starts
    state.stop();
    state
        .start("SIM-B".into(), "TOK-B".into(), "scan_ports".into(), "192.168.99.6".into(), None, 60, "t".into())
        .unwrap();
    let a = pipeline.step(ev, &cfg, &mut state, &mut metrics);
    assert!(matches!(a, Action::SendEvent { details: EventDetails::Error { ref error }, .. } if error == "Simulation annulée (C14)"));
    assert_eq!(state.simulation_token.as_deref(), Some("TOK-B"));
    assert!(state.is_active());
    let a = pipeline.step(Event::Sent, &cfg, &mut state, &mut metrics);
    assert!(matches!(a, Action::Finish));
    assert!(pipeline.is_done());
    assert!(state.is_active());
}

#[test]
fn busy_agent_refuses_second_run() {
    let cfg = config(true);
    let mut state = SimulationState::new();
    state
        .start("SIM-A".into(), "TOK".into(), "ddos_syn".into(), "192.168.99.5".into(), None, 60, "2025-01-01T00:00:00+00:00".into())
        .unwrap();
    let mut metrics = SimulationMetrics::new();
    let trace = drive(&cfg, params("192.168.99.5"), &mut state, &mut metrics, Script::nominal());
    assert_eq!(trace.events, vec!["SIMULATION_ERROR"]);
    let m = metrics.snapshot();
    assert_eq!((m.simulations_total, m.simulations_error), (1, 1));
    assert_eq!(state.simulation_id.as_deref(), Some("SIM-A"));
}

#[test]
fn report_counts_successes() {
    let phases = vec![
        network_phase_result(1, "ddos_syn", true),
        network_phase_result(2, "brute_force", false),
        crypto_phase_result("mot_de_passe_faible", &CryptoTestResult::RejectedAsExpected, &CryptoTestResult::Success),
    ];
    assert_eq!(count_ok(&phases), 2);
    let r = build_report("SIM-1".into(), phases, 2);
    assert!(r.overall_success);
    let phases = vec![execution_error_result(1, "ddos_syn", "boom")];
    assert_eq!(phases[0].message.as_deref(), Some("boom"));
    assert_eq!(phases[0].status, PhaseResultStatus::Error);
    assert!(!build_report("SIM-2".into(), phases, 1).overall_success);
    assert!(build_report("SIM-3".into(), vec![], 0).overall_success);
}

#[test]
fn crypto_verdict_text() {
    let r = crypto_phase_result(
        "mot_de_passe_faible",
        &CryptoTestResult::Success,
        &CryptoTestResult::Failed("decrypt HTTP 500 Internal Server Error".into()),
    );
    assert_eq!(r.status, PhaseResultStatus::Error);
    assert_eq!(
        r.message.as_deref(),
        Some("weak=Ok, roundtrip=Failed(\"decrypt HTTP 500 Internal Server Error\")")
    );
    let ok = crypto_phase_result("x", &CryptoTestResult::Success, &CryptoTestResult::Success);
    assert_eq!(ok.status, PhaseResultStatus::Success);
    assert_eq!(ok.message, None);
}

#[test]
fn durations_and_timeouts() {
    assert_eq!(effective_detection_timeout("ddos_syn", 1), 60);
    assert_eq!(effective_detection_timeout("ddos_syn", 2), 90);
    assert_eq!(effective_detection_timeout("brute_force", 3), 90);
    assert_eq!(effective_detection_timeout("cert_tls", 3), 45);
    assert_eq!(global_cap(600), 600);
    assert_eq!(global_cap(5000), 900);
    let mut p = params("192.168.99.5");
    assert_eq!(effective_max_duration(&p), 120);
    p.max_duration_seconds = Some(30);
    assert_eq!(effective_max_duration(&p), 30);
    p.scenario = "absent".into();
    p.max_duration_seconds = None;
    assert_eq!(effective_max_duration(&p), 300);
    let ctx = launch_context(&p, true);
    assert!(ctx.simulation_active);
    assert_eq!(ctx.scenario, "absent");
    assert_eq!(ctx.authorized_by.as_deref(), Some("admin"));
}
