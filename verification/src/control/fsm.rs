//! The stages that the simulation state machine goes through.

use vstd::prelude::*;

verus! {

/// The stage of the simulation in progress, or `Idle` / `Failed` between runs.
#[derive(Debug, Clone, Copy, PartialEq, Eq, Structural)]
pub enum FsmState {
    Idle,
    Validating,
    Handshake,
    Phase1Filtreur,
    Phase2Analyseur,
    Phase3Chiffreur,
    Reporting,
    Stopping,
    Failed,
}

/// The lowercase name of a stage, as the status report spells it (the
/// variant's name in lowercase).
pub open spec fn fsm_label(s: FsmState) -> Seq<char> {
    match s {
        FsmState::Idle => "idle"@,
        FsmState::Validating => "validating"@,
        FsmState::Handshake => "handshake"@,
        FsmState::Phase1Filtreur => "phase1filtreur"@,
        FsmState::Phase2Analyseur => "phase2analyseur"@,
        FsmState::Phase3Chiffreur => "phase3chiffreur"@,
        FsmState::Reporting => "reporting"@,
        FsmState::Stopping => "stopping"@,
        FsmState::Failed => "failed"@,
    }
}

impl FsmState {
    /// A run is in progress: the stage is neither `Idle` nor `Failed`.
    pub fn is_busy(self) -> (r: bool)
        ensures
            r == !(self == FsmState::Idle || self == FsmState::Failed),
    {
        !matches!(self, FsmState::Idle | FsmState::Failed)
    }

    /// The lowercase name of the stage.
    pub fn label(self) -> (r: &'static str)
        ensures
            r@ == fsm_label(self),
    {
        match self {
            FsmState::Idle => "idle",
            FsmState::Validating => "validating",
            FsmState::Handshake => "handshake",
            FsmState::Phase1Filtreur => "phase1filtreur",
            FsmState::Phase2Analyseur => "phase2analyseur",
            FsmState::Phase3Chiffreur => "phase3chiffreur",
            FsmState::Reporting => "reporting",
            FsmState::Stopping => "stopping",
            FsmState::Failed => "failed",
        }
    }
}

} // verus!
