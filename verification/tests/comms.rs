use simulateur::comms::analyseur::AnalyseurClient;
use simulateur::comms::auditeur::{phase_event_type, AuditeurClient};
use simulateur::comms::chiffreur::{
    ChiffreurClient, CryptoTestResult, EncryptAnswer, Roundtrip, RoundtripAction, RoundtripEvent,
};
use simulateur::comms::decideur::DecideurClient;
use simulateur::comms::dto::{
    format_simulation_id, new_request_id, new_simulation_id, new_simulation_token, unique_suffix,
};
use simulateur::comms::health::{health_checks_skipped, health_next, health_targets, health_verdict, HealthNext};
use simulateur::comms::http::{endpoint, required_exchange_result, HttpOutcome};
use simulateur::comms::AgentClients;
use simulateur::clock::UtcFields;
use simulateur::config::Config;

fn config() -> Config {
    Config {
        agent_token: "agent".into(),
        decideur_token: Some("dec".into()),
        auditeur_url: "http://auditeur:8001".into(),
        decideur_url: "http://decideur:8002".into(),
        analyseur_url: "http://analyseur:8003".into(),
        chiffreur_url: "http://chiffreur:8004".into(),
        trusted_ca: None,
        simulateur_whitelist: vec![],
        sandbox_cidr: "192.168.99.0/24".into(),
        production_cidrs: vec![],
        dry_run: false,
        detection_timeout_secs: 60,
        phase1_scenario: "ddos_syn".into(),
        phase2_scenario: "brute_force".into(),
        phase3_scenario: "mot_de_passe_faible".into(),
        min_phases_ok_for_success: 2,
        backup_events_path: "var/log/events.jsonl".into(),
        listen_port: 8005,
        require_authorization: true,
        require_authorization_ref: false,
        require_snapshot: false,
        require_rollback_plan: false,
        enforce_launch_window: false,
        enforce_health_checks: true,
        launch_hour_start: 8,
        launch_hour_end: 22,
        global_max_duration_secs: 900,
    }
}

fn status(code: u16, text: &str) -> HttpOutcome {
    HttpOutcome::Status { code, text: text.into() }
}

#[test]
fn identifiers() {
    assert_eq!(new_request_id(0xabc), "req-0000000000000abc");
    assert_eq!(new_simulation_token(u64::MAX), "SIM-TOKEN-ffffffffffffffff");
    assert_eq!(unique_suffix(0xff00, 0), 0xff00);
    assert_eq!(unique_suffix(0, 1), 0x9E37_79B9);
    assert_eq!(unique_suffix(0, u64::MAX), 0u64.wrapping_sub(0x9E37_79B9));
    let f = UtcFields { year: 2025, month: 3, day: 7, hour: 9, minute: 5, second: 2, nanosecond: 0 };
    assert_eq!(format_simulation_id(&f), "SIM-20250307-090502");
    let leap = UtcFields { year: 2016, month: 12, day: 31, hour: 23, minute: 59, second: 59, nanosecond: 1_500_000_000 };
    assert_eq!(format_simulation_id(&leap), "SIM-20161231-235960");
    let id = new_simulation_id();
    assert_eq!(id.len(), "SIM-YYYYMMDD-HHMMSS".len());
    assert!(id.starts_with("SIM-20"));
}

#[test]
fn clients_from_configuration() {
    let cfg = config();
    let c = AgentClients::from_config(&cfg);
    assert_eq!(c.decideur.token, "dec");
    assert_eq!(c.analyseur.token, "agent");
    assert_eq!(c.auditeur.backup_path, "var/log/events.jsonl");
    assert_eq!(c.auditeur.events_endpoint(), "http://auditeur:8001/events");
    assert_eq!(c.analyseur.mode_endpoint(), "http://analyseur:8003/simulation/mode");
    assert_eq!(c.decideur.handshake_endpoint(), "http://decideur:8002/simulation/handshake");
    assert_eq!(c.chiffreur.rotate_endpoint(), "http://chiffreur:8004/credential/rotate");
    assert_eq!(c.chiffreur.encrypt_endpoint(), "http://chiffreur:8004/encrypt");
    assert_eq!(c.chiffreur.decrypt_endpoint(), "http://chiffreur:8004/decrypt");
    assert!(!c.chiffreur.dry_run);
}

#[test]
fn required_exchanges() {
    let cfg = config();
    let a = AnalyseurClient::new(cfg.analyseur_url.clone(), "t".into(), false);
    assert_eq!(a.mode_result(status(204, "204 No Content")), Ok(()));
    assert_eq!(
        a.mode_result(status(503, "503 Service Unavailable")),
        Err("Analyseur mode refusé: HTTP 503 Service Unavailable".to_string())
    );
    assert_eq!(
        a.mode_result(HttpOutcome::Failed("connexion refusée".into())),
        Err("Erreur Analyseur: connexion refusée".to_string())
    );
    let dry = AnalyseurClient::new("u".into(), "t".into(), true);
    assert_eq!(dry.mode_result(status(500, "500")), Ok(()));
    assert_eq!(dry.mode_result(HttpOutcome::Failed("x".into())), Ok(()));
    let d = DecideurClient::new("u".into(), "t".into(), false);
    assert_eq!(
        d.handshake_result(status(403, "403 Forbidden")),
        Err("Handshake refusé: HTTP 403 Forbidden".to_string())
    );
    assert_eq!(
        d.handshake_result(HttpOutcome::Failed("timeout".into())),
        Err("Erreur handshake Décideur: timeout".to_string())
    );
    assert_eq!(required_exchange_result(status(299, ""), false, "a", "b"), Ok(()));
    assert_eq!(required_exchange_result(status(300, "300"), false, "a", "b"), Err("a300".to_string()));
    assert_eq!(endpoint("http://x", "/y"), "http://x/y");
    assert!(status(200, "").succeeded());
    assert!(!HttpOutcome::Failed("".into()).succeeded());
}

#[test]
fn auditeur_backup_and_event_types() {
    let a = AuditeurClient::new("u".into(), "t".into(), "b".into(), true);
    assert!(!a.needs_backup(&status(201, "201 Created")));
    assert!(a.needs_backup(&status(500, "500")));
    assert!(a.needs_backup(&HttpOutcome::Failed("down".into())));
    assert_eq!(phase_event_type(1, "START"), "PHASE1_START");
    assert_eq!(phase_event_type(4, "OK"), "PHASE4_OK");
    assert_eq!(phase_event_type(255, "X"), "PHASE255_X");
}

#[test]
fn health_checks() {
    let mut cfg = config();
    let t = health_targets(&cfg);
    assert_eq!(t.len(), 2);
    assert_eq!(t[0], ("decideur".to_string(), "http://decideur:8002/health".to_string()));
    assert_eq!(t[1], ("analyseur".to_string(), "http://analyseur:8003/health".to_string()));
    assert!(!health_checks_skipped(&cfg));
    cfg.dry_run = true;
    assert!(health_checks_skipped(&cfg));
    assert!(health_targets(&cfg).is_empty());
    cfg.dry_run = false;
    cfg.enforce_health_checks = false;
    assert!(health_targets(&cfg).is_empty());
    assert_eq!(health_verdict("decideur", &status(200, "200 OK")), Ok(()));
    assert_eq!(
        health_verdict("analyseur", &status(503, "503 Service Unavailable")),
        Err("C7: analyseur état non nominal HTTP 503 Service Unavailable".to_string())
    );
    assert_eq!(
        health_verdict("decideur", &HttpOutcome::Failed("refused".into())),
        Err("C7: decideur injoignable: refused".to_string())
    );
}

#[test]
fn crypto_verdicts() {
    assert!(matches!(ChiffreurClient::dry_run_weak_password("123456"), CryptoTestResult::RejectedAsExpected));
    assert!(matches!(
        ChiffreurClient::dry_run_weak_password("12345678"),
        CryptoTestResult::Failed(ref m) if m == "dry_run: mot de passe trop fort pour le test"
    ));
    assert!(matches!(ChiffreurClient::weak_password_verdict(&status(422, "422")), CryptoTestResult::RejectedAsExpected));
    assert!(matches!(
        ChiffreurClient::weak_password_verdict(&status(200, "200 OK")),
        CryptoTestResult::Failed(ref m) if m == "mot de passe faible accepté"
    ));
    assert!(matches!(
        ChiffreurClient::weak_password_verdict(&status(500, "500 Internal Server Error")),
        CryptoTestResult::Failed(ref m) if m == "HTTP 500 Internal Server Error"
    ));
    assert!(matches!(
        ChiffreurClient::weak_password_verdict(&HttpOutcome::Failed("dns".into())),
        CryptoTestResult::Failed(ref m) if m == "weak password test: dns"
    ));
    assert!(ChiffreurClient::encrypt_verdict(&status(200, "200")).is_none());
    assert!(matches!(
        ChiffreurClient::encrypt_verdict(&status(401, "401 Unauthorized")),
        Some(CryptoTestResult::Failed(ref m)) if m == "encrypt HTTP 401 Unauthorized"
    ));
    assert!(matches!(
        ChiffreurClient::encrypt_verdict(&HttpOutcome::Failed("reset".into())),
        Some(CryptoTestResult::Failed(ref m)) if m == "encrypt: reset"
    ));
    assert!(matches!(
        ChiffreurClient::encrypt_json_verdict("EOF"),
        CryptoTestResult::Failed(ref m) if m == "encrypt JSON: EOF"
    ));
    assert!(matches!(ChiffreurClient::decrypt_verdict(&status(200, "200")), CryptoTestResult::Success));
    assert!(matches!(
        ChiffreurClient::decrypt_verdict(&status(400, "400 Bad Request")),
        CryptoTestResult::Failed(ref m) if m == "decrypt HTTP 400 Bad Request"
    ));
}

#[test]
fn crypto_debug_texts() {
    assert_eq!(CryptoTestResult::Success.debug_text(), "Ok");
    assert_eq!(CryptoTestResult::RejectedAsExpected.debug_text(), "RejectedAsExpected");
    let f = CryptoTestResult::Failed("a\"b\\c\nd\u{1}é".into());
    assert_eq!(f.debug_text(), "Failed(\"a\\\"b\\\\c\\nd\\u{1}é\")");
    assert_eq!(f.debug_text(), format!("{:?}", f));
    let g = CryptoTestResult::Failed("soft\u{ad}hyphen\u{200b}'".into());
    assert_eq!(g.debug_text(), format!("{:?}", g));
}

fn run_trip(dry_run: bool, answers: Vec<RoundtripEvent>) -> (Vec<String>, CryptoTestResult) {
    let mut trip = Roundtrip::new(dry_run, "message-test-simulation".into());
    let mut ev = RoundtripEvent::Start;
    let mut answers = answers.into_iter();
    let mut asked = vec![];
    loop {
        match trip.step(ev) {
            RoundtripAction::Finish(v) => return (asked, v),
            RoundtripAction::Encrypt { plaintext, key_id } => {
                assert_eq!(plaintext, "message-test-simulation");
                assert_eq!(key_id, "simulateur_communication_key");
                asked.push("encrypt".to_string());
            }
            RoundtripAction::ReadAnswer => asked.push("read".to_string()),
            RoundtripAction::Decrypt { ciphertext, iv, auth_tag, key_id } => {
                assert_eq!(key_id, "simulateur_communication_key");
                asked.push(format!("decrypt {ciphertext:?} {iv:?} {auth_tag:?}"));
            }
        }
        ev = answers.next().expect("an answer");
    }
}

#[test]
fn roundtrip_dry_run_asks_nothing() {
    let (asked, v) = run_trip(true, vec![]);
    assert!(asked.is_empty());
    assert!(matches!(v, CryptoTestResult::Success));
}

#[test]
fn roundtrip_relays_encryption_answer() {
    let (asked, v) = run_trip(
        false,
        vec![
            RoundtripEvent::Answered(status(200, "200 OK")),
            RoundtripEvent::Read(Ok(EncryptAnswer {
                ciphertext: Some("\"abc\"".into()),
                iv: Some("\"iv0\"".into()),
                auth_tag: None,
            })),
            RoundtripEvent::Answered(status(200, "200 OK")),
        ],
    );
    assert_eq!(
        asked,
        vec![
            "encrypt".to_string(),
            "read".to_string(),
            "decrypt Some(\"\\\"abc\\\"\") Some(\"\\\"iv0\\\"\") None".to_string()
        ]
    );
    assert!(matches!(v, CryptoTestResult::Success));
}

#[test]
fn roundtrip_stops_before_decrypt_on_refusal() {
    let (asked, v) = run_trip(false, vec![RoundtripEvent::Answered(status(500, "500 Internal Server Error"))]);
    assert_eq!(asked, vec!["encrypt".to_string()]);
    assert!(matches!(v, CryptoTestResult::Failed(ref m) if m == "encrypt HTTP 500 Internal Server Error"));
    let (asked, v) = run_trip(
        false,
        vec![RoundtripEvent::Answered(status(200, "200")), RoundtripEvent::Read(Err("EOF".into()))],
    );
    assert_eq!(asked, vec!["encrypt".to_string(), "read".to_string()]);
    assert!(matches!(v, CryptoTestResult::Failed(ref m) if m == "encrypt JSON: EOF"));
    let (_, v) = run_trip(
        false,
        vec![
            RoundtripEvent::Answered(status(200, "200")),
            RoundtripEvent::Read(Ok(EncryptAnswer { ciphertext: None, iv: None, auth_tag: None })),
            RoundtripEvent::Answered(HttpOutcome::Failed("reset".into())),
        ],
    );
    assert!(matches!(v, CryptoTestResult::Failed(ref m) if m == "decrypt: reset"));
}

#[test]
fn handshake_body_window() {
    let q = DecideurClient::handshake_request("SIM-1", "TOK", "brute_force", "192.168.99.5", 120, 1_700_000_000, 0)
        .unwrap();
    assert_eq!(q.simulation_id, "SIM-1");
    assert_eq!(q.simulation_token, "TOK");
    assert_eq!(q.attack_type, "brute_force");
    assert_eq!(q.target_type, "vm");
    assert_eq!(q.target_value, "192.168.99.5");
    assert_eq!(q.expected_start, "2023-11-14T22:13:20+00:00");
    assert_eq!(q.expected_end, "2023-11-14T22:15:20+00:00");
    let r = DecideurClient::handshake_request("a", "b", "c", "d", 0, 0, 500_000_000).unwrap();
    assert_eq!(r.expected_start, "1970-01-01T00:00:00.500+00:00");
    assert!(DecideurClient::handshake_request("a", "b", "c", "d", 0, i64::MAX, 0).is_none());
}

#[test]
fn health_check_stops_at_first_failure() {
    let cfg = config();
    match health_next(&cfg, 0, None) {
        HealthNext::Ask { name, url } => {
            assert_eq!(name, "decideur");
            assert_eq!(url, "http://decideur:8002/health");
        }
        other => panic!("{other:?}"),
    }
    let down = HttpOutcome::Failed("refused".into());
    match health_next(&cfg, 1, Some(&down)) {
        HealthNext::Done(r) => assert_eq!(r, Err("C7: decideur injoignable: refused".to_string())),
        other => panic!("{other:?}"),
    }
    let ok = status(200, "200 OK");
    assert!(matches!(health_next(&cfg, 1, Some(&ok)), HealthNext::Ask { ref name, .. } if name == "analyseur"));
    assert!(matches!(health_next(&cfg, 2, Some(&ok)), HealthNext::Done(Ok(()))));
    let mut dry = config();
    dry.dry_run = true;
    assert!(matches!(health_next(&dry, 0, None), HealthNext::Done(Ok(()))));
}
