//! The attack catalogue: twenty-five scenarios across the four agents, each
//! with its limits, and the timeout policy of the pipeline.

use crate::scenarios::types::{
    AttacksCatalog, PhaseKind, ScenarioInfo, ScenarioView, TimeoutsPolicy, scenario_views,
};
use vstd::prelude::*;
use vstd::string::*;

verus! {

/// The duration limit of a scenario that the catalogue does not hold.
pub const UNKNOWN_SCENARIO_MAX_SECS: u64 = 300;

pub open spec fn scenario_view(
    id: Seq<char>,
    description: Seq<char>,
    agent_cible: Seq<char>,
    phase: PhaseKind,
    anomaly_ref: Seq<char>,
    mitre_tactic: Seq<char>,
    tool: Seq<char>,
    max_duration_secs: u64,
    detection_timeout_secs: u64,
    pipeline_default: bool,
) -> ScenarioView {
    ScenarioView {
        id,
        description,
        agent_cible,
        phase,
        anomaly_ref,
        mitre_tactic,
        tool,
        max_duration_secs,
        detection_timeout_secs,
        pipeline_default,
    }
}

/// The scenarios of the catalogue, in order.
#[verifier::opaque]
pub open spec fn catalog_scenarios() -> Seq<ScenarioView> {
    seq![
        scenario_view("ddos_syn"@, "SYN flood entrant Internet"@, "filtreur"@, PhaseKind::Filtreur, "ANO-018"@, "T1498"@, "hping3"@, 120, 60, true),
        scenario_view("scan_ports"@, "Scan ports externe"@, "filtreur"@, PhaseKind::Filtreur, "ANO-019"@, "T1046"@, "nmap"@, 180, 60, false),
        scenario_view("brute_force_externe"@, "Brute force SSH/RDP externe"@, "filtreur"@, PhaseKind::Filtreur, "ANO-020"@, "T1110"@, "hydra"@, 300, 60, false),
        scenario_view("ping_flood"@, "Ping flood ICMP externe"@, "filtreur"@, PhaseKind::Filtreur, "ANO-021"@, "T1498"@, "hping3"@, 120, 60, false),
        scenario_view("port_interdit"@, "Port interdit ingress"@, "filtreur"@, PhaseKind::Filtreur, "ANO-022"@, "T1046"@, "nc"@, 60, 60, false),
        scenario_view("contact_cc"@, "Contact C&C sortant"@, "filtreur"@, PhaseKind::Filtreur, "ANO-016"@, "T1071"@, "curl"@, 120, 60, false),
        scenario_view("exfiltration_externe"@, "Exfiltration Internet"@, "filtreur"@, PhaseKind::Filtreur, "ANO-017"@, "T1048"@, "curl"@, 180, 60, false),
        scenario_view("syn_flood_interne"@, "SYN flood interne"@, "analyseur"@, PhaseKind::Analyseur, "ANO-001"@, "T1498"@, "hping3"@, 120, 90, false),
        scenario_view("scan_interne"@, "Scan ports interne"@, "analyseur"@, PhaseKind::Analyseur, "ANO-002"@, "T1046"@, "nmap"@, 180, 90, false),
        scenario_view("brute_force"@, "Brute force SSH inter-VM"@, "analyseur"@, PhaseKind::Analyseur, "ANO-004"@, "T1110"@, "hydra"@, 300, 90, true),
        scenario_view("tunnel_dns"@, "Tunneling DNS"@, "analyseur"@, PhaseKind::Analyseur, "ANO-003"@, "T1071.004"@, "dig"@, 300, 90, false),
        scenario_view("exfiltration"@, "Exfiltration interne"@, "analyseur"@, PhaseKind::Analyseur, "ANO-006"@, "T1041"@, "curl"@, 180, 90, false),
        scenario_view("mitm"@, "Interception ARP (MITM)"@, "analyseur"@, PhaseKind::Analyseur, "ANO-007"@, "T1557.002"@, "arpspoof"@, 180, 90, false),
        scenario_view("injection_sql"@, "Injection SQL"@, "analyseur"@, PhaseKind::Analyseur, "ANO-009"@, "T1190"@, "curl"@, 120, 90, false),
        scenario_view("scraping"@, "Scraping HTTP massif"@, "analyseur"@, PhaseKind::Analyseur, "ANO-010"@, "T1119"@, "curl"@, 300, 90, false),
        scenario_view("ransomware_sim"@, "Comportement ransomware simulé"@, "analyseur"@, PhaseKind::Analyseur, "ANO-008"@, "T1486"@, "script"@, 180, 90, false),
        scenario_view("replay_attack"@, "Rejeu de jeton expiré"@, "analyseur"@, PhaseKind::Analyseur, "ANO-011"@, "T1550"@, "curl"@, 120, 90, false),
        scenario_view("saturation"@, "Saturation ressources sandbox"@, "analyseur"@, PhaseKind::Analyseur, "ANO-012"@, "T1499"@, "dd"@, 180, 90, false),
        scenario_view("monitoring_fail"@, "Arrêt agent de supervision"@, "analyseur"@, PhaseKind::Analyseur, "ANO-014"@, "T1562.001"@, "systemctl"@, 120, 90, false),
        scenario_view("panne_reseau"@, "Panne interface réseau"@, "analyseur"@, PhaseKind::Analyseur, "ANO-015"@, "T1499"@, "ip"@, 120, 90, false),
        scenario_view("acces_non_autorise"@, "Accès non autorisé zone admin"@, "analyseur"@, PhaseKind::Analyseur, "ANO-013"@, "T1078"@, "curl"@, 120, 90, false),
        scenario_view("cert_tls"@, "Certificat TLS expiré"@, "chiffreur"@, PhaseKind::Chiffreur, "PLB-005"@, "T1553"@, "openssl"@, 60, 45, false),
        scenario_view("mot_de_passe_faible"@, "Mot de passe faible"@, "chiffreur"@, PhaseKind::Chiffreur, "ANO-005"@, "T1110"@, "api"@, 60, 45, true),
        scenario_view("rotation_cle"@, "Rotation clés/credentials"@, "chiffreur"@, PhaseKind::Chiffreur, "PLB-003"@, "T1552"@, "api"@, 90, 45, false),
        scenario_view("injection_base"@, "Injection règle malformée"@, "auditeur"@, PhaseKind::Auditeur, "ANO-021"@, "T1565"@, "curl"@, 90, 60, false),
    ]
}

/// The timeout policy of the catalogue.
pub open spec fn catalog_timeouts() -> TimeoutsPolicy {
    TimeoutsPolicy {
        detection_default_secs: 60,
        detection_phase1_secs: 60,
        detection_phase2_secs: 90,
        detection_phase3_secs: 45,
        global_pipeline_max_secs: 900,
    }
}

/// The first scenario of `s` with identifier `id`.
pub open spec fn find_by_id(s: Seq<ScenarioView>, id: Seq<char>) -> Option<ScenarioView>
    decreases s.len(),
{
    if s.len() == 0 {
        None
    } else if s[0].id == id {
        Some(s[0])
    } else {
        find_by_id(s.drop_first(), id)
    }
}

/// The first scenario of `s` for phase `p` that the pipeline runs by default.
pub open spec fn find_default_of_phase(s: Seq<ScenarioView>, p: PhaseKind) -> Option<ScenarioView>
    decreases s.len(),
{
    if s.len() == 0 {
        None
    } else if s[0].phase == p && s[0].pipeline_default {
        Some(s[0])
    } else {
        find_default_of_phase(s.drop_first(), p)
    }
}

/// The first scenario of `s` for phase `p`.
pub open spec fn find_of_phase(s: Seq<ScenarioView>, p: PhaseKind) -> Option<ScenarioView>
    decreases s.len(),
{
    if s.len() == 0 {
        None
    } else if s[0].phase == p {
        Some(s[0])
    } else {
        find_of_phase(s.drop_first(), p)
    }
}

/// The duration limit of a scenario: the catalogue's, else 300 s.
pub open spec fn spec_max_duration_for(id: Seq<char>) -> u64 {
    match find_by_id(catalog_scenarios(), id) {
        Some(s) => s.max_duration_secs,
        None => UNKNOWN_SCENARIO_MAX_SECS,
    }
}

/// The detection timeout of a scenario: the catalogue's, else the policy's
/// default.
pub open spec fn spec_detection_timeout_for(id: Seq<char>) -> u64 {
    match find_by_id(catalog_scenarios(), id) {
        Some(s) => s.detection_timeout_secs,
        None => catalog_timeouts().detection_default_secs,
    }
}

/// The detection timeout that the policy fixes for a pipeline phase.
pub open spec fn spec_detection_timeout_for_phase(phase: u8) -> u64 {
    let p = catalog_timeouts();
    if phase == 1 {
        p.detection_phase1_secs
    } else if phase == 2 {
        p.detection_phase2_secs
    } else if phase == 3 {
        p.detection_phase3_secs
    } else {
        p.detection_default_secs
    }
}

fn scenario(
    id: &str,
    description: &str,
    agent_cible: &str,
    phase: PhaseKind,
    anomaly_ref: &str,
    mitre_tactic: &str,
    tool: &str,
    max_duration_secs: u64,
    detection_timeout_secs: u64,
    pipeline_default: bool,
) -> (r: ScenarioInfo)
    ensures
        r@ == scenario_view(
            id@,
            description@,
            agent_cible@,
            phase,
            anomaly_ref@,
            mitre_tactic@,
            tool@,
            max_duration_secs,
            detection_timeout_secs,
            pipeline_default,
        ),
{
    ScenarioInfo {
        id: String::from_str(id),
        description: String::from_str(description),
        agent_cible: String::from_str(agent_cible),
        phase,
        anomaly_ref: String::from_str(anomaly_ref),
        mitre_tactic: String::from_str(mitre_tactic),
        tool: String::from_str(tool),
        max_duration_secs,
        detection_timeout_secs,
        pipeline_default,
    }
}

/// The scenarios of the catalogue.
#[verifier::rlimit(50)]
pub fn known_scenarios() -> (v: Vec<ScenarioInfo>)
    ensures
        scenario_views(v@) == catalog_scenarios(),
{
    let mut v: Vec<ScenarioInfo> = Vec::new();
    v.push(scenario("ddos_syn", "SYN flood entrant Internet", "filtreur", PhaseKind::Filtreur, "ANO-018", "T1498", "hping3", 120, 60, true));
    v.push(scenario("scan_ports", "Scan ports externe", "filtreur", PhaseKind::Filtreur, "ANO-019", "T1046", "nmap", 180, 60, false));
    v.push(scenario("brute_force_externe", "Brute force SSH/RDP externe", "filtreur", PhaseKind::Filtreur, "ANO-020", "T1110", "hydra", 300, 60, false));
    v.push(scenario("ping_flood", "Ping flood ICMP externe", "filtreur", PhaseKind::Filtreur, "ANO-021", "T1498", "hping3", 120, 60, false));
    v.push(scenario("port_interdit", "Port interdit ingress", "filtreur", PhaseKind::Filtreur, "ANO-022", "T1046", "nc", 60, 60, false));
    v.push(scenario("contact_cc", "Contact C&C sortant", "filtreur", PhaseKind::Filtreur, "ANO-016", "T1071", "curl", 120, 60, false));
    v.push(scenario("exfiltration_externe", "Exfiltration Internet", "filtreur", PhaseKind::Filtreur, "ANO-017", "T1048", "curl", 180, 60, false));
    v.push(scenario("syn_flood_interne", "SYN flood interne", "analyseur", PhaseKind::Analyseur, "ANO-001", "T1498", "hping3", 120, 90, false));
    v.push(scenario("scan_interne", "Scan ports interne", "analyseur", PhaseKind::Analyseur, "ANO-002", "T1046", "nmap", 180, 90, false));
    v.push(scenario("brute_force", "Brute force SSH inter-VM", "analyseur", PhaseKind::Analyseur, "ANO-004", "T1110", "hydra", 300, 90, true));
    v.push(scenario("tunnel_dns", "Tunneling DNS", "analyseur", PhaseKind::Analyseur, "ANO-003", "T1071.004", "dig", 300, 90, false));
    v.push(scenario("exfiltration", "Exfiltration interne", "analyseur", PhaseKind::Analyseur, "ANO-006", "T1041", "curl", 180, 90, false));
    v.push(scenario("mitm", "Interception ARP (MITM)", "analyseur", PhaseKind::Analyseur, "ANO-007", "T1557.002", "arpspoof", 180, 90, false));
    v.push(scenario("injection_sql", "Injection SQL", "analyseur", PhaseKind::Analyseur, "ANO-009", "T1190", "curl", 120, 90, false));
    v.push(scenario("scraping", "Scraping HTTP massif", "analyseur", PhaseKind::Analyseur, "ANO-010", "T1119", "curl", 300, 90, false));
    v.push(scenario("ransomware_sim", "Comportement ransomware simulé", "analyseur", PhaseKind::Analyseur, "ANO-008", "T1486", "script", 180, 90, false));
    v.push(scenario("replay_attack", "Rejeu de jeton expiré", "analyseur", PhaseKind::Analyseur, "ANO-011", "T1550", "curl", 120, 90, false));
    v.push(scenario("saturation", "Saturation ressources sandbox", "analyseur", PhaseKind::Analyseur, "ANO-012", "T1499", "dd", 180, 90, false));
    v.push(scenario("monitoring_fail", "Arrêt agent de supervision", "analyseur", PhaseKind::Analyseur, "ANO-014", "T1562.001", "systemctl", 120, 90, false));
    v.push(scenario("panne_reseau", "Panne interface réseau", "analyseur", PhaseKind::Analyseur, "ANO-015", "T1499", "ip", 120, 90, false));
    v.push(scenario("acces_non_autorise", "Accès non autorisé zone admin", "analyseur", PhaseKind::Analyseur, "ANO-013", "T1078", "curl", 120, 90, false));
    v.push(scenario("cert_tls", "Certificat TLS expiré", "chiffreur", PhaseKind::Chiffreur, "PLB-005", "T1553", "openssl", 60, 45, false));
    v.push(scenario("mot_de_passe_faible", "Mot de passe faible", "chiffreur", PhaseKind::Chiffreur, "ANO-005", "T1110", "api", 60, 45, true));
    v.push(scenario("rotation_cle", "Rotation clés/credentials", "chiffreur", PhaseKind::Chiffreur, "PLB-003", "T1552", "api", 90, 45, false));
    v.push(scenario("injection_base", "Injection règle malformée", "auditeur", PhaseKind::Auditeur, "ANO-021", "T1565", "curl", 90, 60, false));
    reveal(catalog_scenarios);
    assert(scenario_views(v@) =~= catalog_scenarios());
    v
}

/// The timeout policy of the catalogue.
pub fn timeouts_policy() -> (p: TimeoutsPolicy)
    ensures
        p == catalog_timeouts(),
{
    TimeoutsPolicy {
        detection_default_secs: 60,
        detection_phase1_secs: 60,
        detection_phase2_secs: 90,
        detection_phase3_secs: 45,
        global_pipeline_max_secs: 900,
    }
}

/// The whole catalogue.
pub fn catalog() -> (c: AttacksCatalog)
    ensures
        c.version@ == "1.0"@,
        scenario_views(c.scenarios@) == catalog_scenarios(),
        c.timeouts_policy == catalog_timeouts(),
{
    AttacksCatalog {
        version: String::from_str("1.0"),
        scenarios: known_scenarios(),
        timeouts_policy: timeouts_policy(),
    }
}

/// The view of an optional scenario.
pub open spec fn opt_view(o: Option<ScenarioInfo>) -> Option<ScenarioView> {
    match o {
        Some(s) => Some(s@),
        None => None,
    }
}

/// The scenario of the catalogue with identifier `id`.
pub fn find_scenario(id: &str) -> (r: Option<ScenarioInfo>)
    ensures
        opt_view(r) == find_by_id(catalog_scenarios(), id@),
{
    let mut v = known_scenarios();
    let key = String::from_str(id);
    let n = v.len();
    let ghost c = catalog_scenarios();
    let mut i: usize = 0;
    assert(c.skip(0) =~= c);
    while i < n
        invariant
            v.len() == n,
            scenario_views(v@) == c,
            c == catalog_scenarios(),
            key@ == id@,
            i <= n,
            find_by_id(c, id@) == find_by_id(c.skip(i as int), id@),
        decreases n - i,
    {
        assert(c[i as int] == v@[i as int]@);
        if v[i].id == key {
            return Some(v.remove(i));
        }
        assert(c.skip(i as int).drop_first() =~= c.skip(i as int + 1));
        i = i + 1;
    }
    None
}

/// The scenario that the pipeline runs for `phase`: the first marked as the
/// phase's default, else the first of the phase.
pub fn default_for_phase(phase: PhaseKind) -> (r: Option<ScenarioInfo>)
    ensures
        opt_view(r) == match find_default_of_phase(catalog_scenarios(), phase) {
            Some(s) => Some(s),
            None => find_of_phase(catalog_scenarios(), phase),
        },
{
    let mut v = known_scenarios();
    let n = v.len();
    let ghost c = catalog_scenarios();
    let mut i: usize = 0;
    assert(c.skip(0) =~= c);
    while i < n
        invariant
            v.len() == n,
            scenario_views(v@) == c,
            c == catalog_scenarios(),
            i <= n,
            find_default_of_phase(c, phase) == find_default_of_phase(c.skip(i as int), phase),
        decreases n - i,
    {
        assert(c[i as int] == v@[i as int]@);
        if v[i].phase == phase && v[i].pipeline_default {
            return Some(v.remove(i));
        }
        assert(c.skip(i as int).drop_first() =~= c.skip(i as int + 1));
        i = i + 1;
    }
    assert(c.skip(n as int) =~= Seq::<ScenarioView>::empty());
    let mut j: usize = 0;
    while j < n
        invariant
            v.len() == n,
            scenario_views(v@) == c,
            c == catalog_scenarios(),
            find_default_of_phase(c, phase) is None,
            j <= n,
            find_of_phase(c, phase) == find_of_phase(c.skip(j as int), phase),
        decreases n - j,
    {
        assert(c[j as int] == v@[j as int]@);
        if v[j].phase == phase {
            return Some(v.remove(j));
        }
        assert(c.skip(j as int).drop_first() =~= c.skip(j as int + 1));
        j = j + 1;
    }
    None
}

/// The longest execution allowed for a scenario.
pub fn max_duration_for(scenario_id: &str) -> (r: u64)
    ensures
        r == spec_max_duration_for(scenario_id@),
{
    match find_scenario(scenario_id) {
        Some(s) => s.max_duration_secs,
        None => UNKNOWN_SCENARIO_MAX_SECS,
    }
}

/// How long the pipeline waits for a scenario to be detected.
pub fn detection_timeout_for(scenario_id: &str) -> (r: u64)
    ensures
        r == spec_detection_timeout_for(scenario_id@),
{
    match find_scenario(scenario_id) {
        Some(s) => s.detection_timeout_secs,
        None => timeouts_policy().detection_default_secs,
    }
}

/// How long the pipeline waits for detection in a phase (1 to 3; any other
/// number gets the default).
pub fn detection_timeout_for_phase(phase: u8) -> (r: u64)
    ensures
        r == spec_detection_timeout_for_phase(phase),
{
    let p = timeouts_policy();
    match phase {
        1 => p.detection_phase1_secs,
        2 => p.detection_phase2_secs,
        3 => p.detection_phase3_secs,
        _ => p.detection_default_secs,
    }
}

/// The ceiling that the catalogue puts on a whole pipeline run.
pub fn global_pipeline_max_secs() -> (r: u64)
    ensures
        r == catalog_timeouts().global_pipeline_max_secs,
{
    timeouts_policy().global_pipeline_max_secs
}

/// The scenarios of the catalogue that target `agent`, in catalogue order.
pub fn scenarios_by_agent(agent: &str) -> (r: Vec<ScenarioInfo>)
    ensures
        scenario_views(r@) == catalog_scenarios().filter(
            |s: ScenarioView| s.agent_cible == agent@,
        ),
{
    let v = known_scenarios();
    let key = String::from_str(agent);
    let n = v.len();
    let ghost c = catalog_scenarios();
    let ghost pred = |s: ScenarioView| s.agent_cible == agent@;
    let mut out: Vec<ScenarioInfo> = Vec::new();
    let mut i: usize = 0;
    assert(c.take(0).filter(pred) == Seq::<ScenarioView>::empty()) by {
        reveal_with_fuel(Seq::<_>::filter, 1);
        assert(c.take(0) =~= Seq::<ScenarioView>::empty());
    }
    assert(scenario_views(out@) =~= c.take(0).filter(pred));
    while i < n
        invariant
            v.len() == n,
            scenario_views(v@) == c,
            key@ == agent@,
            i <= n,
            pred == (|s: ScenarioView| s.agent_cible == agent@),
            scenario_views(out@) == c.take(i as int).filter(pred),
        decreases n - i,
    {
        assert(c[i as int] == v@[i as int]@);
        assert(c.take(i as int + 1).filter(pred) == if pred(c[i as int]) {
            c.take(i as int).filter(pred).push(c[i as int])
        } else {
            c.take(i as int).filter(pred)
        }) by {
            reveal_with_fuel(Seq::<_>::filter, 1);
            assert(c.take(i as int + 1).drop_last() =~= c.take(i as int));
            assert(c.take(i as int + 1).last() == c[i as int]);
        }
        if v[i].agent_cible == key {
            let ghost before = out@;
            assert(pred(c[i as int]));
            out.push(v[i].duplicate());
            assert(scenario_views(out@) =~= scenario_views(before).push(c[i as int]));
            assert(scenario_views(out@) == c.take(i as int + 1).filter(pred));
        } else {
            assert(!pred(c[i as int]));
            assert(scenario_views(out@) == c.take(i as int + 1).filter(pred));
        }
        i = i + 1;
    }
    assert(c.take(n as int) =~= c);
    out
}

/// A scenario found by identifier carries that identifier and stands in the
/// list searched.
pub proof fn lemma_find_by_id_member(s: Seq<ScenarioView>, id: Seq<char>)
    ensures
        find_by_id(s, id) matches Some(x) ==> x.id == id && exists|k: int|
            0 <= k < s.len() && s[k] == x,
    decreases s.len(),
{
    if s.len() > 0 && s[0].id != id {
        lemma_find_by_id_member(s.drop_first(), id);
        if let Some(x) = find_by_id(s.drop_first(), id) {
            let k = choose|k: int| 0 <= k < s.drop_first().len() && s.drop_first()[k] == x;
            assert(s[k + 1] == x);
        }
    }
}

/// The timeout policy: detection waits 60 s in phase 1 (Filtreur), 90 s in
/// phase 2 (Analyseur), 45 s in phase 3 (Chiffreur) and 60 s otherwise, and a
/// whole run is held to 900 s (C14).
pub proof fn law_timeout_policy(phase: u8)
    ensures
        phase == 1 ==> spec_detection_timeout_for_phase(phase) == 60,
        phase == 2 ==> spec_detection_timeout_for_phase(phase) == 90,
        phase == 3 ==> spec_detection_timeout_for_phase(phase) == 45,
        !(1 <= phase <= 3) ==> spec_detection_timeout_for_phase(phase) == 60,
        catalog_timeouts().detection_default_secs == 60,
        catalog_timeouts().global_pipeline_max_secs == 900,
{
}

/// A list that holds a scenario with identifier `id` (at `k`) yields one on
/// a search for `id`.
pub proof fn lemma_find_by_id_some(s: Seq<ScenarioView>, id: Seq<char>, k: int)
    requires
        0 <= k < s.len(),
        s[k].id == id,
    ensures
        find_by_id(s, id) is Some,
    decreases k,
{
    if k > 0 && s[0].id != id {
        assert(s.drop_first()[k - 1] == s[k]);
        lemma_find_by_id_some(s.drop_first(), id, k - 1);
    }
}

/// No scenario of the catalogue may run longer than 300 s, and an unknown
/// one is held to 300 s: the limit that C10 compares a request against is
/// never above 300 s.
pub proof fn lemma_max_duration_bounded(id: Seq<char>)
    ensures
        spec_max_duration_for(id) <= 300,
{
    lemma_find_by_id_member(catalog_scenarios(), id);
    reveal(catalog_scenarios);
}

/// The length, first and last character of an identifier: enough to tell the
/// catalogue's identifiers apart.
pub open spec fn id_key(s: Seq<char>) -> (int, char, char) {
    (s.len() as int, s[0], s[s.len() - 1])
}

/// The keys of the catalogue's identifiers, in order.
pub open spec fn catalog_id_keys() -> Seq<(int, char, char)> {
    seq![
        (8, 'd', 'n'),
        (10, 's', 's'),
        (19, 'b', 'e'),
        (10, 'p', 'd'),
        (13, 'p', 't'),
        (10, 'c', 'c'),
        (20, 'e', 'e'),
        (17, 's', 'e'),
        (12, 's', 'e'),
        (11, 'b', 'e'),
        (10, 't', 's'),
        (12, 'e', 'n'),
        (4, 'm', 'm'),
        (13, 'i', 'l'),
        (8, 's', 'g'),
        (14, 'r', 'm'),
        (13, 'r', 'k'),
        (10, 's', 'n'),
        (15, 'm', 'l'),
        (12, 'p', 'u'),
        (18, 'a', 'e'),
        (8, 'c', 's'),
        (19, 'm', 'e'),
        (12, 'r', 'e'),
        (14, 'i', 'e'),
    ]
}

proof fn lemma_catalog_id_keys()
    ensures
        catalog_scenarios().len() == catalog_id_keys().len(),
        forall|k: int|
            0 <= k < catalog_scenarios().len() ==> #[trigger] id_key(catalog_scenarios()[k].id)
                == catalog_id_keys()[k],
{
    reveal(catalog_scenarios);
    reveal_strlit("ddos_syn");
    reveal_strlit("scan_ports");
    reveal_strlit("brute_force_externe");
    reveal_strlit("ping_flood");
    reveal_strlit("port_interdit");
    reveal_strlit("contact_cc");
    reveal_strlit("exfiltration_externe");
    reveal_strlit("syn_flood_interne");
    reveal_strlit("scan_interne");
    reveal_strlit("brute_force");
    reveal_strlit("tunnel_dns");
    reveal_strlit("exfiltration");
    reveal_strlit("mitm");
    reveal_strlit("injection_sql");
    reveal_strlit("scraping");
    reveal_strlit("ransomware_sim");
    reveal_strlit("replay_attack");
    reveal_strlit("saturation");
    reveal_strlit("monitoring_fail");
    reveal_strlit("panne_reseau");
    reveal_strlit("acces_non_autorise");
    reveal_strlit("cert_tls");
    reveal_strlit("mot_de_passe_faible");
    reveal_strlit("rotation_cle");
    reveal_strlit("injection_base");
    assert(id_key(catalog_scenarios()[0].id) == catalog_id_keys()[0]);
    assert(id_key(catalog_scenarios()[1].id) == catalog_id_keys()[1]);
    assert(id_key(catalog_scenarios()[2].id) == catalog_id_keys()[2]);
    assert(id_key(catalog_scenarios()[3].id) == catalog_id_keys()[3]);
    assert(id_key(catalog_scenarios()[4].id) == catalog_id_keys()[4]);
    assert(id_key(catalog_scenarios()[5].id) == catalog_id_keys()[5]);
    assert(id_key(catalog_scenarios()[6].id) == catalog_id_keys()[6]);
    assert(id_key(catalog_scenarios()[7].id) == catalog_id_keys()[7]);
    assert(id_key(catalog_scenarios()[8].id) == catalog_id_keys()[8]);
    assert(id_key(catalog_scenarios()[9].id) == catalog_id_keys()[9]);
    assert(id_key(catalog_scenarios()[10].id) == catalog_id_keys()[10]);
    assert(id_key(catalog_scenarios()[11].id) == catalog_id_keys()[11]);
    assert(id_key(catalog_scenarios()[12].id) == catalog_id_keys()[12]);
    assert(id_key(catalog_scenarios()[13].id) == catalog_id_keys()[13]);
    assert(id_key(catalog_scenarios()[14].id) == catalog_id_keys()[14]);
    assert(id_key(catalog_scenarios()[15].id) == catalog_id_keys()[15]);
    assert(id_key(catalog_scenarios()[16].id) == catalog_id_keys()[16]);
    assert(id_key(catalog_scenarios()[17].id) == catalog_id_keys()[17]);
    assert(id_key(catalog_scenarios()[18].id) == catalog_id_keys()[18]);
    assert(id_key(catalog_scenarios()[19].id) == catalog_id_keys()[19]);
    assert(id_key(catalog_scenarios()[20].id) == catalog_id_keys()[20]);
    assert(id_key(catalog_scenarios()[21].id) == catalog_id_keys()[21]);
    assert(id_key(catalog_scenarios()[22].id) == catalog_id_keys()[22]);
    assert(id_key(catalog_scenarios()[23].id) == catalog_id_keys()[23]);
    assert(id_key(catalog_scenarios()[24].id) == catalog_id_keys()[24]);
}

proof fn lemma_catalog_id_keys_distinct()
    ensures
        forall|i: int, j: int|
            #![trigger catalog_id_keys()[i], catalog_id_keys()[j]]
            0 <= i < j < catalog_id_keys().len() ==> catalog_id_keys()[i] != catalog_id_keys()[j],
{
}

/// No two scenarios of the catalogue share an identifier.
pub proof fn law_catalog_ids_distinct()
    ensures
        forall|i: int, j: int|
            #![trigger catalog_scenarios()[i], catalog_scenarios()[j]]
            0 <= i < j < catalog_scenarios().len() ==> catalog_scenarios()[i].id
                != catalog_scenarios()[j].id,
{
    lemma_catalog_id_keys();
    lemma_catalog_id_keys_distinct();
    assert forall|i: int, j: int| 0 <= i < j < catalog_scenarios().len() implies
        #[trigger] catalog_scenarios()[i].id != #[trigger] catalog_scenarios()[j].id by {
        assert(id_key(catalog_scenarios()[i].id) == catalog_id_keys()[i]);
        assert(id_key(catalog_scenarios()[j].id) == catalog_id_keys()[j]);
        assert(catalog_id_keys()[i] != catalog_id_keys()[j]);
    }
}

/// Searching a list for the identifier of one of its scenarios finds that
/// scenario, where no earlier one shares the identifier.
pub proof fn lemma_find_by_own_id(s: Seq<ScenarioView>, i: int)
    requires
        0 <= i < s.len(),
        forall|j: int| 0 <= j < i ==> #[trigger] s[j].id != s[i].id,
    ensures
        find_by_id(s, s[i].id) == Some(s[i]),
    decreases i,
{
    if i > 0 {
        assert forall|j: int| 0 <= j < i - 1 implies #[trigger] s.drop_first()[j].id
            != s.drop_first()[i - 1].id by {
            assert(s.drop_first()[j] == s[j + 1]);
        }
        lemma_find_by_own_id(s.drop_first(), i - 1);
    }
}

/// Every scenario of the catalogue is found by its identifier: the lookups
/// (`find_scenario`, `max_duration_for`, `detection_timeout_for`) read the
/// scenario's own limits.
pub proof fn law_catalog_lookup_finds_each(i: int)
    requires
        0 <= i < catalog_scenarios().len(),
    ensures
        find_by_id(catalog_scenarios(), catalog_scenarios()[i].id) == Some(catalog_scenarios()[i]),
        spec_max_duration_for(catalog_scenarios()[i].id) == catalog_scenarios()[i].max_duration_secs,
        spec_detection_timeout_for(catalog_scenarios()[i].id)
            == catalog_scenarios()[i].detection_timeout_secs,
{
    law_catalog_ids_distinct();
    lemma_find_by_own_id(catalog_scenarios(), i);
}

} // verus!
