//! The knowledge base of the data centre: twenty-four attack scenarios with
//! their anomaly references, kept as constant text.

use crate::scenarios::catalogue::{
    UNKNOWN_SCENARIO_MAX_SECS, find_by_id, find_default_of_phase, scenario_view,
};
use crate::scenarios::types::{PhaseKind, ScenarioView, phase_label};
use crate::text::str_eq;
use vstd::prelude::*;

verus! {

/// One scenario of the knowledge base.
#[derive(Debug, Clone, Copy, PartialEq, Eq)]
pub struct ScenarioSpec {
    pub id: &'static str,
    pub description: &'static str,
    pub agent_cible: &'static str,
    pub phase: PhaseKind,
    pub anomaly_ref: &'static str,
    pub mitre: &'static str,
    pub tool: &'static str,
    pub max_duration_secs: u64,
    pub detection_timeout_secs: u64,
    pub pipeline_default: bool,
}

impl View for ScenarioSpec {
    type V = ScenarioView;

    open spec fn view(&self) -> ScenarioView {
        scenario_view(
            self.id@,
            self.description@,
            self.agent_cible@,
            self.phase,
            self.anomaly_ref@,
            self.mitre@,
            self.tool@,
            self.max_duration_secs,
            self.detection_timeout_secs,
            self.pipeline_default,
        )
    }
}

/// The views of a list of knowledge-base entries.
pub open spec fn spec_views(v: Seq<ScenarioSpec>) -> Seq<ScenarioView> {
    v.map_values(|s: ScenarioSpec| s@)
}

/// The view of an optional entry.
pub open spec fn opt_spec_view(o: Option<ScenarioSpec>) -> Option<ScenarioView> {
    match o {
        Some(s) => Some(s@),
        None => None,
    }
}

/// The entries of the knowledge base, in order.
#[verifier::opaque]
pub open spec fn knowledge_scenarios() -> Seq<ScenarioView> {
    seq![
        scenario_view("ddos_syn_ext"@, "SYN flood entrant Internet"@, "filtreur"@, PhaseKind::Filtreur, "ANO-018"@, "T1498"@, "hping3"@, 120, 45, true),
        scenario_view("scan_ports_ext"@, "Scan ports externe"@, "filtreur"@, PhaseKind::Filtreur, "ANO-019"@, "T1046"@, "nmap"@, 180, 60, false),
        scenario_view("brute_force_rdp_ext"@, "Brute force SSH/RDP externe"@, "filtreur"@, PhaseKind::Filtreur, "ANO-020"@, "T1110"@, "hydra"@, 300, 45, false),
        scenario_view("icmp_flood_ext"@, "Ping flood ICMP externe"@, "filtreur"@, PhaseKind::Filtreur, "ANO-021"@, "T1498"@, "hping3"@, 120, 45, false),
        scenario_view("port_interdit_ext"@, "Port interdit ingress"@, "filtreur"@, PhaseKind::Filtreur, "ANO-022"@, "T1046"@, "nc"@, 60, 45, false),
        scenario_view("contact_cc_ext"@, "Contact C&C sortant"@, "filtreur"@, PhaseKind::Filtreur, "ANO-016"@, "T1071"@, "curl"@, 120, 45, false),
        scenario_view("exfiltration_ext"@, "Exfiltration Internet"@, "filtreur"@, PhaseKind::Filtreur, "ANO-017"@, "T1048"@, "curl"@, 180, 60, false),
        scenario_view("ddos_syn_int"@, "SYN flood interne"@, "analyseur"@, PhaseKind::Analyseur, "ANO-001"@, "T1498"@, "hping3"@, 120, 90, false),
        scenario_view("scan_ports_int"@, "Scan ports interne"@, "analyseur"@, PhaseKind::Analyseur, "ANO-002"@, "T1046"@, "nmap"@, 180, 90, false),
        scenario_view("dns_tunnel"@, "Tunneling DNS"@, "analyseur"@, PhaseKind::Analyseur, "ANO-003"@, "T1071.004"@, "dig"@, 300, 90, false),
        scenario_view("brute_force_ssh_int"@, "Brute force SSH inter-VM"@, "analyseur"@, PhaseKind::Analyseur, "ANO-004"@, "T1110"@, "hydra"@, 300, 90, true),
        scenario_view("brute_force_auth"@, "Brute force authentification"@, "analyseur"@, PhaseKind::Analyseur, "ANO-005"@, "T1110"@, "hydra"@, 300, 90, false),
        scenario_view("sql_injection"@, "Injection SQL"@, "analyseur"@, PhaseKind::Analyseur, "ANO-009"@, "T1190"@, "curl"@, 120, 90, false),
        scenario_view("web_scraping"@, "Scraping HTTP massif"@, "analyseur"@, PhaseKind::Analyseur, "ANO-010"@, "T1119"@, "curl"@, 300, 90, false),
        scenario_view("vlan_violation"@, "Violation isolation VLAN"@, "analyseur"@, PhaseKind::Analyseur, "ANO-013"@, "T1021"@, "hping3"@, 120, 90, false),
        scenario_view("bandwidth_saturation"@, "Saturation bande passante"@, "analyseur"@, PhaseKind::Analyseur, "ANO-012"@, "T1498"@, "iperf3"@, 300, 90, false),
        scenario_view("ransomware_sim"@, "Comportement ransomware simulé"@, "analyseur"@, PhaseKind::Analyseur, "ANO-008"@, "T1486"@, "script"@, 180, 90, false),
        scenario_view("lateral_movement"@, "Mouvement latéral SSH"@, "analyseur"@, PhaseKind::Analyseur, "ANO-004"@, "T1021.004"@, "ssh"@, 300, 90, false),
        scenario_view("cert_tls_expired"@, "Certificat TLS expiré"@, "chiffreur"@, PhaseKind::Chiffreur, "PLB-005"@, "T1553"@, "openssl"@, 60, 30, false),
        scenario_view("weak_password"@, "Mot de passe faible"@, "chiffreur"@, PhaseKind::Chiffreur, "ANO-005"@, "T1110"@, "api"@, 60, 30, true),
        scenario_view("key_rotation"@, "Rotation clés/credentials"@, "chiffreur"@, PhaseKind::Chiffreur, "PLB-003"@, "T1552"@, "api"@, 120, 30, false),
        scenario_view("encrypt_roundtrip"@, "Chiffrement/déchiffrement"@, "chiffreur"@, PhaseKind::Chiffreur, "API"@, "T1573"@, "api"@, 60, 30, false),
        scenario_view("injection_base"@, "Injection règle malformée"@, "auditeur"@, PhaseKind::Auditeur, "ANO-021"@, "T1565"@, "curl"@, 90, 45, false),
        scenario_view("audit_log_flood"@, "Flood logs audit"@, "auditeur"@, PhaseKind::Auditeur, "ANO-022"@, "T1562"@, "script"@, 90, 45, false),
    ]
}

fn scenario_spec(
    id: &'static str,
    description: &'static str,
    agent_cible: &'static str,
    phase: PhaseKind,
    anomaly_ref: &'static str,
    mitre: &'static str,
    tool: &'static str,
    max_duration_secs: u64,
    detection_timeout_secs: u64,
    pipeline_default: bool,
) -> (r: ScenarioSpec)
    ensures
        r@ == scenario_view(
            id@,
            description@,
            agent_cible@,
            phase,
            anomaly_ref@,
            mitre@,
            tool@,
            max_duration_secs,
            detection_timeout_secs,
            pipeline_default,
        ),
{
    ScenarioSpec {
        id,
        description,
        agent_cible,
        phase,
        anomaly_ref,
        mitre,
        tool,
        max_duration_secs,
        detection_timeout_secs,
        pipeline_default,
    }
}

/// The entries of the knowledge base.
#[verifier::rlimit(50)]
pub fn all_scenarios() -> (v: Vec<ScenarioSpec>)
    ensures
        spec_views(v@) == knowledge_scenarios(),
{
    let mut v: Vec<ScenarioSpec> = Vec::new();
    v.push(scenario_spec("ddos_syn_ext", "SYN flood entrant Internet", "filtreur", PhaseKind::Filtreur, "ANO-018", "T1498", "hping3", 120, 45, true));
    v.push(scenario_spec("scan_ports_ext", "Scan ports externe", "filtreur", PhaseKind::Filtreur, "ANO-019", "T1046", "nmap", 180, 60, false));
    v.push(scenario_spec("brute_force_rdp_ext", "Brute force SSH/RDP externe", "filtreur", PhaseKind::Filtreur, "ANO-020", "T1110", "hydra", 300, 45, false));
    v.push(scenario_spec("icmp_flood_ext", "Ping flood ICMP externe", "filtreur", PhaseKind::Filtreur, "ANO-021", "T1498", "hping3", 120, 45, false));
    v.push(scenario_spec("port_interdit_ext", "Port interdit ingress", "filtreur", PhaseKind::Filtreur, "ANO-022", "T1046", "nc", 60, 45, false));
    v.push(scenario_spec("contact_cc_ext", "Contact C&C sortant", "filtreur", PhaseKind::Filtreur, "ANO-016", "T1071", "curl", 120, 45, false));
    v.push(scenario_spec("exfiltration_ext", "Exfiltration Internet", "filtreur", PhaseKind::Filtreur, "ANO-017", "T1048", "curl", 180, 60, false));
    v.push(scenario_spec("ddos_syn_int", "SYN flood interne", "analyseur", PhaseKind::Analyseur, "ANO-001", "T1498", "hping3", 120, 90, false));
    v.push(scenario_spec("scan_ports_int", "Scan ports interne", "analyseur", PhaseKind::Analyseur, "ANO-002", "T1046", "nmap", 180, 90, false));
    v.push(scenario_spec("dns_tunnel", "Tunneling DNS", "analyseur", PhaseKind::Analyseur, "ANO-003", "T1071.004", "dig", 300, 90, false));
    v.push(scenario_spec("brute_force_ssh_int", "Brute force SSH inter-VM", "analyseur", PhaseKind::Analyseur, "ANO-004", "T1110", "hydra", 300, 90, true));
    v.push(scenario_spec("brute_force_auth", "Brute force authentification", "analyseur", PhaseKind::Analyseur, "ANO-005", "T1110", "hydra", 300, 90, false));
    v.push(scenario_spec("sql_injection", "Injection SQL", "analyseur", PhaseKind::Analyseur, "ANO-009", "T1190", "curl", 120, 90, false));
    v.push(scenario_spec("web_scraping", "Scraping HTTP massif", "analyseur", PhaseKind::Analyseur, "ANO-010", "T1119", "curl", 300, 90, false));
    v.push(scenario_spec("vlan_violation", "Violation isolation VLAN", "analyseur", PhaseKind::Analyseur, "ANO-013", "T1021", "hping3", 120, 90, false));
    v.push(scenario_spec("bandwidth_saturation", "Saturation bande passante", "analyseur", PhaseKind::Analyseur, "ANO-012", "T1498", "iperf3", 300, 90, false));
    v.push(scenario_spec("ransomware_sim", "Comportement ransomware simulé", "analyseur", PhaseKind::Analyseur, "ANO-008", "T1486", "script", 180, 90, false));
    v.push(scenario_spec("lateral_movement", "Mouvement latéral SSH", "analyseur", PhaseKind::Analyseur, "ANO-004", "T1021.004", "ssh", 300, 90, false));
    v.push(scenario_spec("cert_tls_expired", "Certificat TLS expiré", "chiffreur", PhaseKind::Chiffreur, "PLB-005", "T1553", "openssl", 60, 30, false));
    v.push(scenario_spec("weak_password", "Mot de passe faible", "chiffreur", PhaseKind::Chiffreur, "ANO-005", "T1110", "api", 60, 30, true));
    v.push(scenario_spec("key_rotation", "Rotation clés/credentials", "chiffreur", PhaseKind::Chiffreur, "PLB-003", "T1552", "api", 120, 30, false));
    v.push(scenario_spec("encrypt_roundtrip", "Chiffrement/déchiffrement", "chiffreur", PhaseKind::Chiffreur, "API", "T1573", "api", 60, 30, false));
    v.push(scenario_spec("injection_base", "Injection règle malformée", "auditeur", PhaseKind::Auditeur, "ANO-021", "T1565", "curl", 90, 45, false));
    v.push(scenario_spec("audit_log_flood", "Flood logs audit", "auditeur", PhaseKind::Auditeur, "ANO-022", "T1562", "script", 90, 45, false));
    reveal(knowledge_scenarios);
    assert(spec_views(v@) =~= knowledge_scenarios());
    v
}

/// The entry with identifier `id`.
pub fn find(id: &str) -> (r: Option<ScenarioSpec>)
    ensures
        opt_spec_view(r) == find_by_id(knowledge_scenarios(), id@),
{
    let v = all_scenarios();
    let n = v.len();
    let ghost c = knowledge_scenarios();
    let mut i: usize = 0;
    assert(c.skip(0) =~= c);
    while i < n
        invariant
            v.len() == n,
            spec_views(v@) == c,
            c == knowledge_scenarios(),
            i <= n,
            find_by_id(c, id@) == find_by_id(c.skip(i as int), id@),
        decreases n - i,
    {
        assert(c[i as int] == v@[i as int]@);
        if str_eq(v[i].id, id) {
            return Some(v[i]);
        }
        assert(c.skip(i as int).drop_first() =~= c.skip(i as int + 1));
        i = i + 1;
    }
    None
}

/// The entry marked as the default of `phase`, if any.
pub fn default_for_phase(phase: PhaseKind) -> (r: Option<ScenarioSpec>)
    ensures
        opt_spec_view(r) == find_default_of_phase(knowledge_scenarios(), phase),
{
    let v = all_scenarios();
    let n = v.len();
    let ghost c = knowledge_scenarios();
    let mut i: usize = 0;
    assert(c.skip(0) =~= c);
    while i < n
        invariant
            v.len() == n,
            spec_views(v@) == c,
            c == knowledge_scenarios(),
            i <= n,
            find_default_of_phase(c, phase) == find_default_of_phase(c.skip(i as int), phase),
        decreases n - i,
    {
        assert(c[i as int] == v@[i as int]@);
        if v[i].phase == phase && v[i].pipeline_default {
            return Some(v[i]);
        }
        assert(c.skip(i as int).drop_first() =~= c.skip(i as int + 1));
        i = i + 1;
    }
    None
}

/// The detection timeout of the entry `id`, else `fallback`.
pub fn detection_timeout_for(scenario_id: &str, fallback: u64) -> (r: u64)
    ensures
        r == match find_by_id(knowledge_scenarios(), scenario_id@) {
            Some(s) => s.detection_timeout_secs,
            None => fallback,
        },
{
    match find(scenario_id) {
        Some(s) => s.detection_timeout_secs,
        None => fallback,
    }
}

/// The duration limit of the entry `id`, else 300 s.
pub fn max_duration_for(scenario_id: &str) -> (r: u64)
    ensures
        r == match find_by_id(knowledge_scenarios(), scenario_id@) {
            Some(s) => s.max_duration_secs,
            None => UNKNOWN_SCENARIO_MAX_SECS,
        },
{
    match find(scenario_id) {
        Some(s) => s.max_duration_secs,
        None => UNKNOWN_SCENARIO_MAX_SECS,
    }
}

/// The length and the first, last and last-but-one characters of an
/// identifier: enough to tell the knowledge base's identifiers apart.
pub open spec fn entry_key(s: Seq<char>) -> (int, char, char, char) {
    (s.len() as int, s[0], s[s.len() - 1], s[s.len() - 2])
}

/// The keys of the knowledge base's identifiers, in order.
pub open spec fn knowledge_id_keys() -> Seq<(int, char, char, char)> {
    seq![
        (12, 'd', 't', 'x'),
        (14, 's', 't', 'x'),
        (19, 'b', 't', 'x'),
        (14, 'i', 't', 'x'),
        (17, 'p', 't', 'x'),
        (14, 'c', 't', 'x'),
        (16, 'e', 't', 'x'),
        (12, 'd', 't', 'n'),
        (14, 's', 't', 'n'),
        (10, 'd', 'l', 'e'),
        (19, 'b', 't', 'n'),
        (16, 'b', 'h', 't'),
        (13, 's', 'n', 'o'),
        (12, 'w', 'g', 'n'),
        (14, 'v', 'n', 'o'),
        (20, 'b', 'n', 'o'),
        (14, 'r', 'm', 'i'),
        (16, 'l', 't', 'n'),
        (16, 'c', 'd', 'e'),
        (13, 'w', 'd', 'r'),
        (12, 'k', 'n', 'o'),
        (17, 'e', 'p', 'i'),
        (14, 'i', 'e', 's'),
        (15, 'a', 'd', 'o'),
    ]
}

proof fn lemma_knowledge_id_keys()
    ensures
        knowledge_scenarios().len() == knowledge_id_keys().len(),
        forall|k: int|
            0 <= k < knowledge_scenarios().len() ==> #[trigger] entry_key(
                knowledge_scenarios()[k].id,
            ) == knowledge_id_keys()[k],
{
    reveal(knowledge_scenarios);
    reveal_strlit("ddos_syn_ext");
    reveal_strlit("scan_ports_ext");
    reveal_strlit("brute_force_rdp_ext");
    reveal_strlit("icmp_flood_ext");
    reveal_strlit("port_interdit_ext");
    reveal_strlit("contact_cc_ext");
    reveal_strlit("exfiltration_ext");
    reveal_strlit("ddos_syn_int");
    reveal_strlit("scan_ports_int");
    reveal_strlit("dns_tunnel");
    reveal_strlit("brute_force_ssh_int");
    reveal_strlit("brute_force_auth");
    reveal_strlit("sql_injection");
    reveal_strlit("web_scraping");
    reveal_strlit("vlan_violation");
    reveal_strlit("bandwidth_saturation");
    reveal_strlit("ransomware_sim");
    reveal_strlit("lateral_movement");
    reveal_strlit("cert_tls_expired");
    reveal_strlit("weak_password");
    reveal_strlit("key_rotation");
    reveal_strlit("encrypt_roundtrip");
    reveal_strlit("injection_base");
    reveal_strlit("audit_log_flood");
    assert(entry_key(knowledge_scenarios()[0].id) == knowledge_id_keys()[0]);
    assert(entry_key(knowledge_scenarios()[1].id) == knowledge_id_keys()[1]);
    assert(entry_key(knowledge_scenarios()[2].id) == knowledge_id_keys()[2]);
    assert(entry_key(knowledge_scenarios()[3].id) == knowledge_id_keys()[3]);
    assert(entry_key(knowledge_scenarios()[4].id) == knowledge_id_keys()[4]);
    assert(entry_key(knowledge_scenarios()[5].id) == knowledge_id_keys()[5]);
    assert(entry_key(knowledge_scenarios()[6].id) == knowledge_id_keys()[6]);
    assert(entry_key(knowledge_scenarios()[7].id) == knowledge_id_keys()[7]);
    assert(entry_key(knowledge_scenarios()[8].id) == knowledge_id_keys()[8]);
    assert(entry_key(knowledge_scenarios()[9].id) == knowledge_id_keys()[9]);
    assert(entry_key(knowledge_scenarios()[10].id) == knowledge_id_keys()[10]);
    assert(entry_key(knowledge_scenarios()[11].id) == knowledge_id_keys()[11]);
    assert(entry_key(knowledge_scenarios()[12].id) == knowledge_id_keys()[12]);
    assert(entry_key(knowledge_scenarios()[13].id) == knowledge_id_keys()[13]);
    assert(entry_key(knowledge_scenarios()[14].id) == knowledge_id_keys()[14]);
    assert(entry_key(knowledge_scenarios()[15].id) == knowledge_id_keys()[15]);
    assert(entry_key(knowledge_scenarios()[16].id) == knowledge_id_keys()[16]);
    assert(entry_key(knowledge_scenarios()[17].id) == knowledge_id_keys()[17]);
    assert(entry_key(knowledge_scenarios()[18].id) == knowledge_id_keys()[18]);
    assert(entry_key(knowledge_scenarios()[19].id) == knowledge_id_keys()[19]);
    assert(entry_key(knowledge_scenarios()[20].id) == knowledge_id_keys()[20]);
    assert(entry_key(knowledge_scenarios()[21].id) == knowledge_id_keys()[21]);
    assert(entry_key(knowledge_scenarios()[22].id) == knowledge_id_keys()[22]);
    assert(entry_key(knowledge_scenarios()[23].id) == knowledge_id_keys()[23]);
}

/// No two entries of the knowledge base share an identifier.
pub proof fn law_knowledge_ids_distinct()
    ensures
        forall|i: int, j: int|
            #![trigger knowledge_scenarios()[i], knowledge_scenarios()[j]]
            0 <= i < j < knowledge_scenarios().len() ==> knowledge_scenarios()[i].id
                != knowledge_scenarios()[j].id,
{
    lemma_knowledge_id_keys();
    assert forall|i: int, j: int| 0 <= i < j < knowledge_scenarios().len() implies
        #[trigger] knowledge_scenarios()[i].id != #[trigger] knowledge_scenarios()[j].id by {
        assert(entry_key(knowledge_scenarios()[i].id) == knowledge_id_keys()[i]);
        assert(entry_key(knowledge_scenarios()[j].id) == knowledge_id_keys()[j]);
        assert(knowledge_id_keys()[i] != knowledge_id_keys()[j]);
    }
}

/// The number of entries of `s` for phase `p`.
pub open spec fn count_phase(s: Seq<ScenarioView>, p: PhaseKind) -> nat
    decreases s.len(),
{
    if s.len() == 0 {
        0
    } else {
        count_phase(s.drop_last(), p) + if s.last().phase == p {
            1nat
        } else {
            0nat
        }
    }
}

/// The number of entries of `s` for phase `p` that the pipeline runs by
/// default.
pub open spec fn count_defaults(s: Seq<ScenarioView>, p: PhaseKind) -> nat
    decreases s.len(),
{
    if s.len() == 0 {
        0
    } else {
        count_defaults(s.drop_last(), p) + if s.last().phase == p && s.last().pipeline_default {
            1nat
        } else {
            0nat
        }
    }
}

/// Every entry of the knowledge base names as its agent the agent of its
/// phase, and waits for detection no longer than it may run.
pub proof fn law_knowledge_entries_consistent()
    ensures
        forall|k: int|
            0 <= k < knowledge_scenarios().len() ==> {
                &&& (#[trigger] knowledge_scenarios()[k]).agent_cible == phase_label(
                    knowledge_scenarios()[k].phase,
                )
                &&& knowledge_scenarios()[k].detection_timeout_secs
                    <= knowledge_scenarios()[k].max_duration_secs
            },
{
    reveal(knowledge_scenarios);
}

/// The knowledge base holds 7 entries for the Filtreur, 11 for the
/// Analyseur, 4 for the Chiffreur and 2 for the Auditeur; the pipeline runs
/// exactly one of them by default for each of the first three agents and
/// none for the Auditeur.
pub proof fn law_knowledge_per_phase()
    ensures
        count_phase(knowledge_scenarios(), PhaseKind::Filtreur) == 7,
        count_phase(knowledge_scenarios(), PhaseKind::Analyseur) == 11,
        count_phase(knowledge_scenarios(), PhaseKind::Chiffreur) == 4,
        count_phase(knowledge_scenarios(), PhaseKind::Auditeur) == 2,
        count_defaults(knowledge_scenarios(), PhaseKind::Filtreur) == 1,
        count_defaults(knowledge_scenarios(), PhaseKind::Analyseur) == 1,
        count_defaults(knowledge_scenarios(), PhaseKind::Chiffreur) == 1,
        count_defaults(knowledge_scenarios(), PhaseKind::Auditeur) == 0,
{
    reveal(knowledge_scenarios);
    reveal_with_fuel(count_phase, 25);
    reveal_with_fuel(count_defaults, 25);
}

} // verus!
