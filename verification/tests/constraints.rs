use simulateur::config::Config;
use simulateur::control::constraints::{
    check_launch_window_at, check_no_active_simulation, validate_all_at, check_token, ip_in_cidr, mask_overflows,
    sandbox_check_would_overflow, validate_all, validation_would_overflow, LaunchContext,
};
use simulateur::ip::{parse_ip_str, IpAddress};

fn config() -> Config {
    Config {
        agent_token: "t".into(),
        decideur_token: None,
        auditeur_url: "".into(),
        decideur_url: "".into(),
        analyseur_url: "".into(),
        chiffreur_url: "".into(),
        trusted_ca: None,
        simulateur_whitelist: vec![],
        sandbox_cidr: "192.168.99.0/24".into(),
        production_cidrs: vec!["10.0.0.0/8".into()],
        dry_run: true,
        detection_timeout_secs: 60,
        phase1_scenario: "ddos_syn".into(),
        phase2_scenario: "brute_force".into(),
        phase3_scenario: "mot_de_passe_faible".into(),
        min_phases_ok_for_success: 2,
        backup_events_path: "var/log".into(),
        listen_port: 8005,
        require_authorization: true,
        require_authorization_ref: false,
        require_snapshot: false,
        require_rollback_plan: false,
        enforce_launch_window: false,
        enforce_health_checks: false,
        launch_hour_start: 8,
        launch_hour_end: 22,
        global_max_duration_secs: 900,
    }
}

fn context() -> LaunchContext {
    LaunchContext {
        scenario: "ddos_syn".into(),
        target: "192.168.99.5".into(),
        authorized_by: Some("admin".into()),
        authorization_ref: None,
        snapshot_id: None,
        rollback_plan_id: None,
        max_duration_seconds: None,
        token_valid: true,
        simulation_active: false,
    }
}

fn violation_of(ctx: &LaunchContext, cfg: &Config) -> (String, String, String) {
    let v = validate_all(ctx, cfg).unwrap_err();
    (v.constraint.to_string(), v.code, v.message)
}

#[test]
fn c9_blocks_active() {
    assert!(check_no_active_simulation(true).is_err());
}

#[test]
fn c1_sandbox() {
    let cfg = Config {
        agent_token: "t".into(),
        decideur_token: None,
        auditeur_url: "".into(),
        decideur_url: "".into(),
        analyseur_url: "".into(),
        chiffreur_url: "".into(),
        trusted_ca: None,
        simulateur_whitelist: vec![],
        sandbox_cidr: "192.168.99.0/24".into(),
        production_cidrs: vec!["10.0.0.0/8".into()],
        dry_run: true,
        detection_timeout_secs: 60,
        phase1_scenario: "ddos_syn".into(),
        phase2_scenario: "brute_force".into(),
        phase3_scenario: "mot_de_passe_faible".into(),
        min_phases_ok_for_success: 2,
        backup_events_path: "var/log".into(),
        listen_port: 8005,
        require_authorization: true,
        require_authorization_ref: false,
        require_snapshot: false,
        require_rollback_plan: false,
        enforce_launch_window: false,
        enforce_health_checks: false,
        launch_hour_start: 8,
        launch_hour_end: 22,
        global_max_duration_secs: 900,
    };
    let ctx = LaunchContext {
        scenario: "ddos_syn".into(),
        target: "192.168.99.5".into(),
        authorized_by: Some("admin".into()),
        authorization_ref: None,
        snapshot_id: None,
        rollback_plan_id: None,
        max_duration_seconds: None,
        token_valid: true,
        simulation_active: false,
    };
    assert!(validate_all(&ctx, &cfg).is_ok());
}

#[test]
fn no_active_simulation_passes() {
    assert_eq!(check_no_active_simulation(false), Ok(()));
    assert_eq!(check_no_active_simulation(true), Err("SIMULATION_ACTIVE".to_string()));
}

#[test]
fn token_check_compares_exactly() {
    assert_eq!(check_token("abc", "abc"), Ok(()));
    assert_eq!(check_token("abc", "abd"), Err("INSUFFICIENT_PERMISSIONS".to_string()));
    assert_eq!(check_token("", "abc"), Err("INSUFFICIENT_PERMISSIONS".to_string()));
}

#[test]
fn c9_comes_first() {
    let mut ctx = context();
    ctx.simulation_active = true;
    ctx.token_valid = false;
    let (c, code, msg) = violation_of(&ctx, &config());
    assert_eq!(c, "C9");
    assert_eq!(code, "SIMULATION_ACTIVE");
    assert_eq!(msg, "Simulation déjà active");
}

#[test]
fn c3_invalid_token() {
    let mut ctx = context();
    ctx.token_valid = false;
    let (c, code, msg) = violation_of(&ctx, &config());
    assert_eq!(c, "C3");
    assert_eq!(code, "INSUFFICIENT_PERMISSIONS");
    assert_eq!(msg, "Token X-Agent-Token invalide ou absent");
}

#[test]
fn c2_missing_or_blank_author() {
    let mut ctx = context();
    ctx.authorized_by = None;
    let (c, code, msg) = violation_of(&ctx, &config());
    assert_eq!(c, "C2");
    assert_eq!(code, "ADMIN_APPROVAL_REQUIRED");
    assert_eq!(msg, "authorized_by obligatoire (autorisation formelle C2)");
    ctx.authorized_by = Some("  \t ".into());
    assert_eq!(violation_of(&ctx, &config()).0, "C2");
    let mut cfg = config();
    cfg.require_authorization = false;
    assert!(validate_all(&ctx, &cfg).is_ok());
}

#[test]
fn c2_missing_reference() {
    let ctx = context();
    let mut cfg = config();
    cfg.require_authorization_ref = true;
    let (c, code, msg) = violation_of(&ctx, &cfg);
    assert_eq!(c, "C2");
    assert_eq!(code, "INVALID_REQUEST");
    assert_eq!(msg, "authorization_ref obligatoire (référence écrite C2)");
    let mut ctx2 = context();
    ctx2.authorization_ref = Some("REF-1".into());
    assert!(validate_all(&ctx2, &cfg).is_ok());
}

#[test]
fn c1_invalid_ip() {
    let mut ctx = context();
    ctx.target = "192.168.99".into();
    let (c, code, msg) = violation_of(&ctx, &config());
    assert_eq!(c, "C1");
    assert_eq!(code, "INVALID_IP_FORMAT");
    assert_eq!(msg, "IP invalide: 192.168.99");
}

#[test]
fn c1_target_trimmed() {
    let mut ctx = context();
    ctx.target = "  192.168.99.7 ".into();
    assert!(validate_all(&ctx, &config()).is_ok());
}

#[test]
fn c1_outside_sandbox() {
    let mut ctx = context();
    ctx.target = "192.168.100.5".into();
    let (c, code, msg) = violation_of(&ctx, &config());
    assert_eq!(c, "C1");
    assert_eq!(code, "INVALID_REQUEST");
    assert_eq!(msg, "Cible 192.168.100.5 hors sandbox 192.168.99.0/24 (C1)");
}

#[test]
fn c11_production_segment() {
    let mut cfg = config();
    cfg.sandbox_cidr = "10.1.0.0/16".into();
    cfg.production_cidrs = vec!["172.16.0.0/12".into(), "10.1.2.0/24".into()];
    let mut ctx = context();
    ctx.target = "10.1.2.3".into();
    let (c, code, msg) = violation_of(&ctx, &cfg);
    assert_eq!(c, "C11");
    assert_eq!(code, "INVALID_REQUEST");
    assert_eq!(msg, "Cible 10.1.2.3 dans segment production 10.1.2.0/24 (C11)");
    ctx.target = "10.1.3.3".into();
    assert!(validate_all(&ctx, &cfg).is_ok());
}

#[test]
fn c10_unknown_scenario() {
    let mut ctx = context();
    ctx.scenario = "teleportation".into();
    let (c, code, msg) = violation_of(&ctx, &config());
    assert_eq!(c, "C10");
    assert_eq!(code, "INVALID_REQUEST");
    assert_eq!(msg, "Scénario inconnu: teleportation");
}

#[test]
fn c10_duration_over_limit() {
    let mut ctx = context();
    ctx.max_duration_seconds = Some(121);
    let (c, _, msg) = violation_of(&ctx, &config());
    assert_eq!(c, "C10");
    assert_eq!(msg, "Durée demandée 121s > max 120s pour ddos_syn (C10)");
    ctx.max_duration_seconds = Some(120);
    assert!(validate_all(&ctx, &config()).is_ok());
}

#[test]
fn c10_launch_window_at_hour() {
    let mut cfg = config();
    assert!(check_launch_window_at(&cfg, 3).is_ok());
    cfg.enforce_launch_window = true;
    assert!(check_launch_window_at(&cfg, 8).is_ok());
    assert!(check_launch_window_at(&cfg, 21).is_ok());
    let v = check_launch_window_at(&cfg, 22).unwrap_err();
    assert_eq!(v.constraint, "C10");
    assert_eq!(v.code, "INVALID_REQUEST");
    assert_eq!(v.message, "Hors fenêtre autorisée 8h-22h (C10)");
    assert!(check_launch_window_at(&cfg, 7).is_err());
}

#[test]
fn c10_window_enforced_by_validation() {
    let mut cfg = config();
    cfg.enforce_launch_window = true;
    cfg.launch_hour_start = 0;
    cfg.launch_hour_end = 24;
    assert!(validate_all(&context(), &cfg).is_ok());
    cfg.launch_hour_end = 0;
    let (c, _, msg) = violation_of(&context(), &cfg);
    assert_eq!(c, "C10");
    assert_eq!(msg, "Hors fenêtre autorisée 0h-0h (C10)");
}

#[test]
fn c4_snapshot_outside_dry_run() {
    let mut cfg = config();
    cfg.require_snapshot = true;
    assert!(validate_all(&context(), &cfg).is_ok());
    cfg.dry_run = false;
    let (c, code, msg) = violation_of(&context(), &cfg);
    assert_eq!(c, "C4");
    assert_eq!(code, "INVALID_REQUEST");
    assert_eq!(msg, "snapshot_id obligatoire avant lancement (C4 — Versionneur)");
    let mut ctx = context();
    ctx.snapshot_id = Some("snap-1".into());
    assert!(validate_all(&ctx, &cfg).is_ok());
}

#[test]
fn c12_rollback_outside_dry_run() {
    let mut cfg = config();
    cfg.require_rollback_plan = true;
    cfg.dry_run = false;
    let (c, code, msg) = violation_of(&context(), &cfg);
    assert_eq!(c, "C12");
    assert_eq!(code, "INVALID_REQUEST");
    assert_eq!(msg, "rollback_plan_id obligatoire (C12 — plan retour état normal)");
    let mut ctx = context();
    ctx.rollback_plan_id = Some("plan".into());
    assert!(validate_all(&ctx, &cfg).is_ok());
}

#[test]
fn cidr_membership() {
    let ip = parse_ip_str("192.168.99.5").unwrap();
    assert_eq!(ip, IpAddress::V4(0xC0A8_6305));
    assert!(ip_in_cidr(ip, "192.168.99.0/24"));
    assert!(!ip_in_cidr(ip, "192.168.98.0/24"));
    assert!(ip_in_cidr(ip, "192.168.0.0/16"));
    assert!(ip_in_cidr(ip, "192.168.99.5/32"));
    assert!(ip_in_cidr(ip, "192.168.99.5/40"));
    assert!(!ip_in_cidr(ip, "192.168.99.4/32"));
    // not two pieces around one slash: everything passes
    assert!(ip_in_cidr(ip, "192.168.1.0"));
    assert!(ip_in_cidr(ip, "1/2/3"));
    // unreadable network or prefix: nothing passes
    assert!(!ip_in_cidr(ip, "999.0.0.0/8"));
    assert!(!ip_in_cidr(ip, "192.168.99.0/abc"));
    assert!(!ip_in_cidr(ip, "192.168.99.0/256"));
    // an explicit plus sign is read as u8 reads it
    assert!(ip_in_cidr(ip, "192.168.99.0/+24"));
    // an address is never inside a block of the other family
    assert!(!ip_in_cidr(ip, "fe80::/10"));
    let v6 = parse_ip_str("2001:db8::1").unwrap();
    assert_eq!(v6, IpAddress::V6);
    assert!(!ip_in_cidr(v6, "10.0.0.0/8"));
    // two IPv6 values are not compared
    assert!(ip_in_cidr(v6, "fe80::/10"));
}

#[test]
fn prefix_zero_would_overflow() {
    let ip = parse_ip_str("10.0.0.1").unwrap();
    assert!(mask_overflows(ip, "0.0.0.0/0"));
    assert!(!mask_overflows(ip, "0.0.0.0/1"));
    assert!(!mask_overflows(IpAddress::V6, "0.0.0.0/0"));
    let mut cfg = config();
    cfg.sandbox_cidr = "0.0.0.0/0".into();
    assert!(sandbox_check_would_overflow("10.0.0.1", &cfg));
    assert!(!sandbox_check_would_overflow("not an ip", &cfg));
    assert!(!sandbox_check_would_overflow("192.168.99.5", &config()));
}

#[test]
fn overflow_only_where_the_sandbox_check_is_reached() {
    let mut cfg = config();
    cfg.sandbox_cidr = "0.0.0.0/0".into();
    let ctx = context();
    assert!(validation_would_overflow(&ctx, &cfg));
    let mut refused_earlier = context();
    refused_earlier.authorized_by = None;
    assert!(!validation_would_overflow(&refused_earlier, &cfg));
    let mut active = context();
    active.simulation_active = true;
    assert!(!validation_would_overflow(&active, &cfg));
    assert!(!validation_would_overflow(&context(), &config()));
}

#[test]
fn c1_ipv6_target_outside_ipv4_sandbox() {
    let mut cfg = config();
    cfg.production_cidrs = vec![];
    let mut ctx = context();
    ctx.target = "::1".into();
    let (c, code, msg) = violation_of(&ctx, &cfg);
    assert_eq!(c, "C1");
    assert_eq!(code, "INVALID_REQUEST");
    assert_eq!(msg, "Cible ::1 hors sandbox 192.168.99.0/24 (C1)");
}

#[test]
fn ipv6_production_block_does_not_hold_ipv4_target() {
    let mut cfg = config();
    cfg.production_cidrs = vec!["fd00::/8".into()];
    assert!(validate_all(&context(), &cfg).is_ok());
}

#[test]
fn validation_at_a_given_hour() {
    let mut cfg = config();
    cfg.enforce_launch_window = true;
    assert!(validate_all_at(&context(), &cfg, 8).is_ok());
    assert!(validate_all_at(&context(), &cfg, 21).is_ok());
    let v = validate_all_at(&context(), &cfg, 22).unwrap_err();
    assert_eq!(v.constraint, "C10");
    assert_eq!(v.message, "Hors fenêtre autorisée 8h-22h (C10)");
    let mut ctx = context();
    ctx.target = "10.9.9.9".into();
    assert_eq!(validate_all_at(&ctx, &cfg, 3).unwrap_err().constraint, "C1");
}
