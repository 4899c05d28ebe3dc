//! The state of the simulation in progress, shared between the pipeline and
//! the HTTP handlers.

use crate::control::fsm::FsmState;
use crate::scenarios::types::PhaseResultStatus;
use vstd::prelude::*;
use vstd::string::*;

verus! {

/// The verdict on one phase of a run.
#[derive(Debug)]
pub struct PhaseResult {
    pub phase: u8,
    pub scenario: String,
    pub status: PhaseResultStatus,
    pub message: Option<String>,
}

/// A phase verdict as values.
pub struct PhaseResultView {
    pub phase: u8,
    pub scenario: Seq<char>,
    pub status: PhaseResultStatus,
    pub message: Option<Seq<char>>,
}

/// The view of an optional text.
pub open spec fn opt_seq(o: Option<String>) -> Option<Seq<char>> {
    match o {
        Some(s) => Some(s@),
        None => None,
    }
}

impl View for PhaseResult {
    type V = PhaseResultView;

    open spec fn view(&self) -> PhaseResultView {
        PhaseResultView {
            phase: self.phase,
            scenario: self.scenario@,
            status: self.status,
            message: opt_seq(self.message),
        }
    }
}

/// The views of a list of phase verdicts.
pub open spec fn results_view(v: Seq<PhaseResult>) -> Seq<PhaseResultView> {
    v.map_values(|r: PhaseResult| r@)
}

/// A copy of an optional text.
pub fn copy_opt(o: &Option<String>) -> (r: Option<String>)
    ensures
        r == *o,
{
    match o {
        Some(s) => Some(s.clone()),
        None => None,
    }
}

impl PhaseResult {
    /// A copy of the verdict.
    pub fn duplicate(&self) -> (r: Self)
        ensures
            r@ == self@,
    {
        PhaseResult {
            phase: self.phase,
            scenario: self.scenario.clone(),
            status: self.status,
            message: copy_opt(&self.message),
        }
    }
}

/// Copies of a list of phase verdicts.
pub fn copy_results(v: &Vec<PhaseResult>) -> (r: Vec<PhaseResult>)
    ensures
        results_view(r@) == results_view(v@),
{
    let mut out: Vec<PhaseResult> = Vec::new();
    let mut i: usize = 0;
    while i < v.len()
        invariant
            i <= v.len(),
            results_view(out@) == results_view(v@).take(i as int),
        decreases v.len() - i,
    {
        let ghost before = out@;
        let d = v[i].duplicate();
        out.push(d);
        assert(results_view(out@) =~= results_view(before).push(v@[i as int]@));
        i = i + 1;
        assert(results_view(out@) =~= results_view(v@).take(i as int));
    }
    assert(results_view(v@).take(v.len() as int) =~= results_view(v@));
    out
}

/// The state of the current simulation. `phase_ack_pending` tells that the
/// pipeline waits for a phase acknowledgement from the Décideur (the caller
/// holds the channel on which that acknowledgement is delivered).
#[derive(Debug)]
pub struct SimulationState {
    pub fsm: FsmState,
    pub active: bool,
    pub simulation_id: Option<String>,
    pub simulation_token: Option<String>,
    pub scenario: Option<String>,
    pub target: Option<String>,
    pub authorized_by: Option<String>,
    pub started_at: Option<String>,
    pub max_duration_secs: u64,
    pub phase_results: Vec<PhaseResult>,
    pub phase_ack_pending: bool,
    pub cancel_requested: bool,
}

/// The state as values.
pub struct StateView {
    pub fsm: FsmState,
    pub active: bool,
    pub simulation_id: Option<Seq<char>>,
    pub simulation_token: Option<Seq<char>>,
    pub scenario: Option<Seq<char>>,
    pub target: Option<Seq<char>>,
    pub authorized_by: Option<Seq<char>>,
    pub started_at: Option<Seq<char>>,
    pub max_duration_secs: u64,
    pub phase_results: Seq<PhaseResultView>,
    pub phase_ack_pending: bool,
    pub cancel_requested: bool,
}

impl View for SimulationState {
    type V = StateView;

    open spec fn view(&self) -> StateView {
        StateView {
            fsm: self.fsm,
            active: self.active,
            simulation_id: opt_seq(self.simulation_id),
            simulation_token: opt_seq(self.simulation_token),
            scenario: opt_seq(self.scenario),
            target: opt_seq(self.target),
            authorized_by: opt_seq(self.authorized_by),
            started_at: opt_seq(self.started_at),
            max_duration_secs: self.max_duration_secs,
            phase_results: results_view(self.phase_results@),
            phase_ack_pending: self.phase_ack_pending,
            cancel_requested: self.cancel_requested,
        }
    }
}

/// The state of an agent with no simulation.
pub open spec fn idle_state() -> StateView {
    StateView {
        fsm: FsmState::Idle,
        active: false,
        simulation_id: None,
        simulation_token: None,
        scenario: None,
        target: None,
        authorized_by: None,
        started_at: None,
        max_duration_secs: 0,
        phase_results: Seq::empty(),
        phase_ack_pending: false,
        cancel_requested: false,
    }
}

/// The state right after a simulation was started from `s`.
pub open spec fn started_state(
    s: StateView,
    simulation_id: Seq<char>,
    simulation_token: Seq<char>,
    scenario: Seq<char>,
    target: Seq<char>,
    authorized_by: Option<Seq<char>>,
    max_duration_secs: u64,
    started_at: Seq<char>,
) -> StateView {
    StateView {
        fsm: FsmState::Validating,
        active: true,
        simulation_id: Some(simulation_id),
        simulation_token: Some(simulation_token),
        scenario: Some(scenario),
        target: Some(target),
        authorized_by,
        started_at: Some(started_at),
        max_duration_secs,
        phase_results: Seq::empty(),
        phase_ack_pending: s.phase_ack_pending,
        cancel_requested: false,
    }
}

impl SimulationState {
    /// No simulation.
    pub fn new() -> (r: Self)
        ensures
            r@ == idle_state(),
    {
        let r = SimulationState {
            fsm: FsmState::Idle,
            active: false,
            simulation_id: None,
            simulation_token: None,
            scenario: None,
            target: None,
            authorized_by: None,
            started_at: None,
            max_duration_secs: 0,
            phase_results: Vec::new(),
            phase_ack_pending: false,
            cancel_requested: false,
        };
        assert(results_view(r.phase_results@) =~= Seq::<PhaseResultView>::empty());
        r
    }

    /// Starts a simulation at the time `started_at`; refused while another
    /// one is active.
    pub fn start(
        &mut self,
        simulation_id: String,
        simulation_token: String,
        scenario: String,
        target: String,
        authorized_by: Option<String>,
        max_duration_secs: u64,
        started_at: String,
    ) -> (r: Result<(), &'static str>)
        ensures
            old(self)@.active ==> (r matches Err(e) && e@ == "SIMULATION_ACTIVE"@ && final(self)@
                == old(self)@),
            !old(self)@.active ==> r is Ok && final(self)@ == started_state(
                old(self)@,
                simulation_id@,
                simulation_token@,
                scenario@,
                target@,
                opt_seq(authorized_by),
                max_duration_secs,
                started_at@,
            ),
    {
        if self.active {
            return Err("SIMULATION_ACTIVE");
        }
        self.fsm = FsmState::Validating;
        self.active = true;
        self.simulation_id = Some(simulation_id);
        self.simulation_token = Some(simulation_token);
        self.scenario = Some(scenario);
        self.target = Some(target);
        self.authorized_by = authorized_by;
        self.started_at = Some(started_at);
        self.max_duration_secs = max_duration_secs;
        self.phase_results.clear();
        self.cancel_requested = false;
        assert(results_view(self.phase_results@) =~= Seq::<PhaseResultView>::empty());
        Ok(())
    }

    /// Moves the state machine to `fsm`.
    pub fn set_fsm(&mut self, fsm: FsmState)
        ensures
            final(self)@ == (StateView { fsm, ..old(self)@ }),
    {
        self.fsm = fsm;
    }

    /// Appends the verdict of a phase.
    pub fn push_phase_result(&mut self, result: PhaseResult)
        ensures
            final(self)@ == (StateView {
                phase_results: old(self)@.phase_results.push(result@),
                ..old(self)@
            }),
    {
        self.phase_results.push(result);
        assert(results_view(self.phase_results@) =~= results_view(old(self).phase_results@).push(
            result@,
        ));
    }

    /// Withdraws the pending acknowledgement slot; tells whether there was one.
    pub fn take_phase_ack_tx(&mut self) -> (r: bool)
        ensures
            r == old(self)@.phase_ack_pending,
            final(self)@ == (StateView { phase_ack_pending: false, ..old(self)@ }),
    {
        let r = self.phase_ack_pending;
        self.phase_ack_pending = false;
        r
    }

    /// Opens the acknowledgement slot: the pipeline now waits for one.
    pub fn set_phase_ack_tx(&mut self)
        ensures
            final(self)@ == (StateView { phase_ack_pending: true, ..old(self)@ }),
    {
        self.phase_ack_pending = true;
    }

    /// Delivers a phase acknowledgement: closes the slot and tells whether
    /// the pipeline was waiting (then the caller sends on its channel).
    pub fn signal_phase_ack(&mut self) -> (r: bool)
        ensures
            r == old(self)@.phase_ack_pending,
            final(self)@ == (StateView { phase_ack_pending: false, ..old(self)@ }),
    {
        self.take_phase_ack_tx()
    }

    /// Asks the pipeline to stop, releasing it from any wait for an
    /// acknowledgement; tells whether it was waiting.
    pub fn request_cancel(&mut self) -> (r: bool)
        ensures
            r == old(self)@.phase_ack_pending,
            final(self)@ == (StateView {
                cancel_requested: true,
                phase_ack_pending: false,
                ..old(self)@
            }),
    {
        self.cancel_requested = true;
        self.signal_phase_ack()
    }

    /// Forgets the simulation: back to the state of an agent with none.
    pub fn stop(&mut self)
        ensures
            final(self)@ == idle_state(),
    {
        *self = SimulationState::new();
    }

    /// Whether a simulation is active.
    pub fn is_active(&self) -> (r: bool)
        ensures
            r == self@.active,
    {
        self.active
    }
}

/// Stopping a simulation undoes starting it: after `stop` the agent is idle
/// whatever the state was, so a new `start` is accepted; the state it leads
/// to is active (a further `start` is refused) and holds the new simulation,
/// with no verdicts, no pending acknowledgement and no stop request.
pub proof fn law_stop_allows_start(
    simulation_id: Seq<char>,
    simulation_token: Seq<char>,
    scenario: Seq<char>,
    target: Seq<char>,
    authorized_by: Option<Seq<char>>,
    max_duration_secs: u64,
    started_at: Seq<char>,
)
    ensures
        !idle_state().active,
        ({
            let s = started_state(
                idle_state(),
                simulation_id,
                simulation_token,
                scenario,
                target,
                authorized_by,
                max_duration_secs,
                started_at,
            );
            &&& s.active
            &&& s.started_at == Some(started_at)
            &&& s.simulation_id == Some(simulation_id)
            &&& s.simulation_token == Some(simulation_token)
            &&& s.scenario == Some(scenario)
            &&& s.phase_results.len() == 0
            &&& !s.phase_ack_pending
            &&& !s.cancel_requested
        }),
{
}

} // verus!
