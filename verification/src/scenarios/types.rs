//! Types shared by the scenario catalogue, the executor and the pipeline.

use crate::text::str_eq;
use vstd::prelude::*;

verus! {

/// The agent whose detection a scenario exercises.
#[derive(Debug, Clone, Copy, PartialEq, Eq, Structural)]
pub enum PhaseKind {
    Filtreur,
    Analyseur,
    Chiffreur,
    Auditeur,
}

/// The lowercase name of a phase.
pub open spec fn phase_label(p: PhaseKind) -> Seq<char> {
    match p {
        PhaseKind::Filtreur => "filtreur"@,
        PhaseKind::Analyseur => "analyseur"@,
        PhaseKind::Chiffreur => "chiffreur"@,
        PhaseKind::Auditeur => "auditeur"@,
    }
}

/// The phase whose lowercase name is `s`, if any.
pub open spec fn phase_from_label(s: Seq<char>) -> Option<PhaseKind> {
    if s == "filtreur"@ {
        Some(PhaseKind::Filtreur)
    } else if s == "analyseur"@ {
        Some(PhaseKind::Analyseur)
    } else if s == "chiffreur"@ {
        Some(PhaseKind::Chiffreur)
    } else if s == "auditeur"@ {
        Some(PhaseKind::Auditeur)
    } else {
        None
    }
}

impl PhaseKind {
    /// The lowercase name of the phase.
    pub fn as_str(self) -> (r: &'static str)
        ensures
            r@ == phase_label(self),
    {
        match self {
            PhaseKind::Filtreur => "filtreur",
            PhaseKind::Analyseur => "analyseur",
            PhaseKind::Chiffreur => "chiffreur",
            PhaseKind::Auditeur => "auditeur",
        }
    }

    /// The phase named `s` (lowercase, exact), if any.
    pub fn from_str(s: &str) -> (r: Option<Self>)
        ensures
            r == phase_from_label(s@),
    {
        if str_eq(s, "filtreur") {
            Some(PhaseKind::Filtreur)
        } else if str_eq(s, "analyseur") {
            Some(PhaseKind::Analyseur)
        } else if str_eq(s, "chiffreur") {
            Some(PhaseKind::Chiffreur)
        } else if str_eq(s, "auditeur") {
            Some(PhaseKind::Auditeur)
        } else {
            None
        }
    }
}

/// Reading back the name of a phase gives the phase.
pub proof fn lemma_phase_label_roundtrip(p: PhaseKind)
    ensures
        phase_from_label(phase_label(p)) == Some(p),
{
    reveal_strlit("filtreur");
    reveal_strlit("analyseur");
    reveal_strlit("chiffreur");
    reveal_strlit("auditeur");
    assert("analyseur"@[0] != "filtreur"@[0]);
    assert("chiffreur"@[0] != "filtreur"@[0]);
    assert("chiffreur"@[0] != "analyseur"@[0]);
    assert("auditeur"@[1] != "filtreur"@[1]);
    assert("auditeur"@[1] != "analyseur"@[1]);
    assert("auditeur"@[1] != "chiffreur"@[1]);
}

/// How the execution of a scenario command ended.
#[derive(Debug, Clone, Copy, PartialEq, Eq, Structural)]
pub enum ExecuteOutcome {
    Success,
    Error,
}

/// The verdict of one pipeline phase.
#[derive(Debug, Clone, Copy, PartialEq, Eq, Structural)]
pub enum PhaseResultStatus {
    Success,
    Timeout,
    Error,
    Skipped,
}

/// One scenario of the attack catalogue.
#[derive(Debug)]
pub struct ScenarioInfo {
    pub id: String,
    pub description: String,
    pub agent_cible: String,
    pub phase: PhaseKind,
    pub anomaly_ref: String,
    pub mitre_tactic: String,
    pub tool: String,
    pub max_duration_secs: u64,
    pub detection_timeout_secs: u64,
    pub pipeline_default: bool,
}

/// What a `ScenarioInfo` holds, its texts as character sequences.
pub struct ScenarioView {
    pub id: Seq<char>,
    pub description: Seq<char>,
    pub agent_cible: Seq<char>,
    pub phase: PhaseKind,
    pub anomaly_ref: Seq<char>,
    pub mitre_tactic: Seq<char>,
    pub tool: Seq<char>,
    pub max_duration_secs: u64,
    pub detection_timeout_secs: u64,
    pub pipeline_default: bool,
}

impl View for ScenarioInfo {
    type V = ScenarioView;

    open spec fn view(&self) -> ScenarioView {
        ScenarioView {
            id: self.id@,
            description: self.description@,
            agent_cible: self.agent_cible@,
            phase: self.phase,
            anomaly_ref: self.anomaly_ref@,
            mitre_tactic: self.mitre_tactic@,
            tool: self.tool@,
            max_duration_secs: self.max_duration_secs,
            detection_timeout_secs: self.detection_timeout_secs,
            pipeline_default: self.pipeline_default,
        }
    }
}

impl ScenarioInfo {
    /// A copy of the scenario.
    pub fn duplicate(&self) -> (r: Self)
        ensures
            r@ == self@,
    {
        ScenarioInfo {
            id: self.id.clone(),
            description: self.description.clone(),
            agent_cible: self.agent_cible.clone(),
            phase: self.phase,
            anomaly_ref: self.anomaly_ref.clone(),
            mitre_tactic: self.mitre_tactic.clone(),
            tool: self.tool.clone(),
            max_duration_secs: self.max_duration_secs,
            detection_timeout_secs: self.detection_timeout_secs,
            pipeline_default: self.pipeline_default,
        }
    }
}

/// The views of a list of scenarios.
pub open spec fn scenario_views(v: Seq<ScenarioInfo>) -> Seq<ScenarioView> {
    v.map_values(|s: ScenarioInfo| s@)
}

/// The detection timeouts that the catalogue fixes.
#[derive(Debug, Clone, Copy, PartialEq, Eq, Structural)]
pub struct TimeoutsPolicy {
    pub detection_default_secs: u64,
    pub detection_phase1_secs: u64,
    pub detection_phase2_secs: u64,
    pub detection_phase3_secs: u64,
    pub global_pipeline_max_secs: u64,
}

/// The attack catalogue: its version, scenarios and timeout policy.
#[derive(Debug)]
pub struct AttacksCatalog {
    pub version: String,
    pub scenarios: Vec<ScenarioInfo>,
    pub timeouts_policy: TimeoutsPolicy,
}

} // verus!
