use simulateur::scenarios::catalogue::{
    catalog, default_for_phase, detection_timeout_for, detection_timeout_for_phase,
    find_scenario, global_pipeline_max_secs, known_scenarios, max_duration_for,
    scenarios_by_agent, timeouts_policy,
};
use simulateur::scenarios::knowledge;
use simulateur::scenarios::types::PhaseKind;

#[test]
fn catalog_has_25_scenarios() {
    assert_eq!(known_scenarios().len(), 25);
}

#[test]
fn every_agent_has_scenarios() {
    for agent in ["filtreur", "analyseur", "chiffreur", "auditeur"] {
        assert!(
            !scenarios_by_agent(agent).is_empty(),
            "aucun scénario pour {agent}"
        );
    }
}

#[test]
fn each_agent_represented() {
    assert!(knowledge::all_scenarios().iter().any(|s| s.agent_cible == "filtreur"));
    assert!(knowledge::all_scenarios().iter().any(|s| s.agent_cible == "analyseur"));
    assert!(knowledge::all_scenarios().iter().any(|s| s.agent_cible == "chiffreur"));
    assert!(knowledge::all_scenarios().iter().any(|s| s.agent_cible == "auditeur"));
}

#[test]
fn knowledge_base_has_24_entries() {
    assert_eq!(knowledge::all_scenarios().len(), 24);
}

#[test]
fn agents_split_seven_fourteen_three_one() {
    assert_eq!(scenarios_by_agent("filtreur").len(), 7);
    assert_eq!(scenarios_by_agent("analyseur").len(), 14);
    assert_eq!(scenarios_by_agent("chiffreur").len(), 3);
    assert_eq!(scenarios_by_agent("auditeur").len(), 1);
    assert_eq!(scenarios_by_agent("versionneur").len(), 0);
    assert!(scenarios_by_agent("chiffreur").iter().all(|s| s.agent_cible == "chiffreur"));
}

#[test]
fn identifiers_are_distinct_and_found() {
    let all = known_scenarios();
    for (i, a) in all.iter().enumerate() {
        for b in all.iter().skip(i + 1) {
            assert_ne!(a.id, b.id);
        }
        let found = find_scenario(&a.id).expect("listed scenario found");
        assert_eq!(found.id, a.id);
        assert_eq!(found.max_duration_secs, a.max_duration_secs);
        assert_eq!(max_duration_for(&a.id), a.max_duration_secs);
        assert_eq!(detection_timeout_for(&a.id), a.detection_timeout_secs);
    }
}

#[test]
fn lookup_of_known_scenario() {
    let s = find_scenario("brute_force").unwrap();
    assert_eq!(s.agent_cible, "analyseur");
    assert_eq!(s.phase, PhaseKind::Analyseur);
    assert_eq!(s.anomaly_ref, "ANO-004");
    assert_eq!(s.mitre_tactic, "T1110");
    assert_eq!(s.tool, "hydra");
    assert_eq!(s.max_duration_secs, 300);
    assert_eq!(s.detection_timeout_secs, 90);
    assert!(s.pipeline_default);
    assert!(find_scenario("Brute_Force").is_none());
}

#[test]
fn limits_of_unknown_scenario() {
    assert_eq!(max_duration_for("inconnu"), 300);
    assert_eq!(detection_timeout_for("inconnu"), 60);
    assert_eq!(max_duration_for("port_interdit"), 60);
    assert_eq!(detection_timeout_for("cert_tls"), 45);
}

#[test]
fn no_limit_above_three_hundred_seconds() {
    assert!(known_scenarios().iter().all(|s| s.max_duration_secs <= 300));
}

#[test]
fn phase_timeouts() {
    assert_eq!(detection_timeout_for_phase(1), 60);
    assert_eq!(detection_timeout_for_phase(2), 90);
    assert_eq!(detection_timeout_for_phase(3), 45);
    assert_eq!(detection_timeout_for_phase(0), 60);
    assert_eq!(detection_timeout_for_phase(4), 60);
    assert_eq!(global_pipeline_max_secs(), 900);
    let p = timeouts_policy();
    assert_eq!(p.detection_default_secs, 60);
    assert_eq!(p.global_pipeline_max_secs, 900);
}

#[test]
fn pipeline_defaults_per_phase() {
    assert_eq!(default_for_phase(PhaseKind::Filtreur).unwrap().id, "ddos_syn");
    assert_eq!(default_for_phase(PhaseKind::Analyseur).unwrap().id, "brute_force");
    assert_eq!(default_for_phase(PhaseKind::Chiffreur).unwrap().id, "mot_de_passe_faible");
    // no default for the Auditeur: its first scenario stands in
    assert_eq!(default_for_phase(PhaseKind::Auditeur).unwrap().id, "injection_base");
}

#[test]
fn catalog_bundles_scenarios_and_policy() {
    let c = catalog();
    assert_eq!(c.scenarios.len(), 25);
    assert_eq!(c.scenarios[0].id, "ddos_syn");
    assert_eq!(c.timeouts_policy.detection_phase2_secs, 90);
}

#[test]
fn knowledge_lookups() {
    let s = knowledge::find("weak_password").unwrap();
    assert_eq!(s.agent_cible, "chiffreur");
    assert_eq!(s.detection_timeout_secs, 30);
    assert!(knowledge::find("ddos_syn").is_none());
    assert_eq!(knowledge::default_for_phase(PhaseKind::Filtreur).unwrap().id, "ddos_syn_ext");
    assert!(knowledge::default_for_phase(PhaseKind::Auditeur).is_none());
    assert_eq!(knowledge::detection_timeout_for("dns_tunnel", 7), 90);
    assert_eq!(knowledge::detection_timeout_for("absent", 7), 7);
    assert_eq!(knowledge::max_duration_for("key_rotation"), 120);
    assert_eq!(knowledge::max_duration_for("absent"), 300);
}

#[test]
fn phase_names_read_back() {
    for p in [PhaseKind::Filtreur, PhaseKind::Analyseur, PhaseKind::Chiffreur, PhaseKind::Auditeur] {
        assert_eq!(PhaseKind::from_str(p.as_str()), Some(p));
    }
    assert_eq!(PhaseKind::Chiffreur.as_str(), "chiffreur");
    assert_eq!(PhaseKind::from_str("Filtreur"), None);
}

#[test]
fn knowledge_base_is_consistent() {
    let all = knowledge::all_scenarios();
    for (i, a) in all.iter().enumerate() {
        for b in all.iter().skip(i + 1) {
            assert_ne!(a.id, b.id);
        }
        assert_eq!(a.agent_cible, a.phase.as_str());
        assert!(a.detection_timeout_secs <= a.max_duration_secs);
    }
    let count = |p: PhaseKind| all.iter().filter(|s| s.phase == p).count();
    let defaults = |p: PhaseKind| all.iter().filter(|s| s.phase == p && s.pipeline_default).count();
    assert_eq!(
        (count(PhaseKind::Filtreur), count(PhaseKind::Analyseur), count(PhaseKind::Chiffreur), count(PhaseKind::Auditeur)),
        (7, 11, 4, 2)
    );
    assert_eq!(
        (defaults(PhaseKind::Filtreur), defaults(PhaseKind::Analyseur), defaults(PhaseKind::Chiffreur), defaults(PhaseKind::Auditeur)),
        (1, 1, 1, 0)
    );
}
