//! The pipeline of a simulation run: validation, handshake, the three
//! attack phases, the integrity test and the report. Each step takes what
//! the last action came to and decides the next action; the caller performs
//! the actions (HTTP exchanges, commands, waits) and hands back the events.

use crate::clock::{rfc3339_at, utc_now_rfc3339};
use crate::comms::auditeur::{phase_event_type, spec_phase_event_type};
use crate::comms::chiffreur::{ChiffreurClient, CryptoTestResult, crypto_debug_text};
use crate::config::Config;
use crate::control::constraints::{
    LaunchContext, outcome, reaches_sandbox_check, sandbox_check_overflows, spec_validate,
    validate_all,
};
use crate::control::fsm::FsmState;
use crate::control::metrics::{MetricsSnapshot, SimulationMetrics, bump, record_phase_spec};
use crate::control::state::{
    PhaseResult, PhaseResultView, SimulationState, StateView, copy_opt, copy_results, idle_state,
    opt_seq, results_view, started_state,
};
use crate::scenarios::catalogue::{
    catalog_timeouts, detection_timeout_for, detection_timeout_for_phase, global_pipeline_max_secs,
    max_duration_for, spec_detection_timeout_for, spec_detection_timeout_for_phase,
    spec_max_duration_for,
};
use crate::scenarios::types::PhaseResultStatus;
use crate::text::{decimal, push_decimal};
use vstd::prelude::*;
use vstd::string::*;

verus! {

/// What a launch request asks for, once authenticated.
#[derive(Debug)]
pub struct StartParams {
    pub scenario: String,
    pub target: String,
    pub authorized_by: Option<String>,
    pub authorization_ref: Option<String>,
    pub snapshot_id: Option<String>,
    pub rollback_plan_id: Option<String>,
    pub max_duration_seconds: Option<u64>,
    pub token_valid: bool,
}

/// The report of a completed run.
#[derive(Debug)]
pub struct SimulationReport {
    pub simulation_id: String,
    pub overall_success: bool,
    pub phases: Vec<PhaseResult>,
    pub constraints_validated: Vec<&'static str>,
}

/// The constraints that a completed run has gone through, C1 to C15.
pub open spec fn all_constraints() -> Seq<Seq<char>> {
    seq![
        "C1"@,
        "C2"@,
        "C3"@,
        "C4"@,
        "C5"@,
        "C6"@,
        "C7"@,
        "C8"@,
        "C9"@,
        "C10"@,
        "C11"@,
        "C12"@,
        "C13"@,
        "C14"@,
        "C15"@,
    ]
}

/// The constraints of a report, as texts.
pub open spec fn constraints_view(v: Seq<&'static str>) -> Seq<Seq<char>> {
    v.map_values(|c: &'static str| c@)
}

/// The number of phases in `s` that succeeded.
pub open spec fn count_successes(s: Seq<PhaseResultView>) -> nat
    decreases s.len(),
{
    if s.len() == 0 {
        0
    } else {
        count_successes(s.drop_last()) + if s.last().status == PhaseResultStatus::Success {
            1nat
        } else {
            0nat
        }
    }
}

/// A run succeeds when at least `min_ok` of its phases succeeded.
pub open spec fn run_succeeds(phases: Seq<PhaseResultView>, min_ok: u8) -> bool {
    count_successes(phases) >= min_ok
}

proof fn lemma_count_successes_bound(s: Seq<PhaseResultView>)
    ensures
        count_successes(s) <= s.len(),
    decreases s.len(),
{
    if s.len() > 0 {
        lemma_count_successes_bound(s.drop_last());
    }
}

fn constraint_codes() -> (v: Vec<&'static str>)
    ensures
        constraints_view(v@) == all_constraints(),
{
    let v = vec![
        "C1",
        "C2",
        "C3",
        "C4",
        "C5",
        "C6",
        "C7",
        "C8",
        "C9",
        "C10",
        "C11",
        "C12",
        "C13",
        "C14",
        "C15",
    ];
    assert(constraints_view(v@) =~= all_constraints());
    v
}

/// The number of phases that succeeded.
pub fn count_ok(phases: &Vec<PhaseResult>) -> (n: usize)
    ensures
        n == count_successes(results_view(phases@)),
{
    let mut n: usize = 0;
    let mut i: usize = 0;
    while i < phases.len()
        invariant
            i <= phases.len(),
            n == count_successes(results_view(phases@).take(i as int)),
            n <= i,
        decreases phases.len() - i,
    {
        assert(results_view(phases@).take(i as int + 1).drop_last() =~= results_view(
            phases@,
        ).take(i as int));
        if phases[i].status == PhaseResultStatus::Success {
            n = n + 1;
        }
        i = i + 1;
    }
    assert(results_view(phases@).take(phases.len() as int) =~= results_view(phases@));
    n
}

/// The report of a run whose phases came to `phases`: it succeeds when at
/// least `min_ok` phases succeeded.
pub fn build_report(simulation_id: String, phases: Vec<PhaseResult>, min_ok: u8) -> (r:
    SimulationReport)
    ensures
        r.simulation_id@ == simulation_id@,
        results_view(r.phases@) == results_view(phases@),
        r.overall_success == run_succeeds(results_view(phases@), min_ok),
        constraints_view(r.constraints_validated@) == all_constraints(),
{
    let ok_count = count_ok(&phases);
    SimulationReport {
        simulation_id,
        overall_success: ok_count >= min_ok as usize,
        phases,
        constraints_validated: constraint_codes(),
    }
}

/// The larger of two numbers.
pub open spec fn max_u64(a: u64, b: u64) -> u64 {
    if a >= b {
        a
    } else {
        b
    }
}

/// The smaller of two numbers.
pub open spec fn min_u64(a: u64, b: u64) -> u64 {
    if a <= b {
        a
    } else {
        b
    }
}

/// The detection timeout of phase `phase` running `scenario`: the larger of
/// the scenario's and the phase's.
pub fn effective_detection_timeout(scenario: &str, phase: u8) -> (r: u64)
    ensures
        r == max_u64(spec_detection_timeout_for(scenario@), spec_detection_timeout_for_phase(phase)),
{
    let a = detection_timeout_for(scenario);
    let b = detection_timeout_for_phase(phase);
    if a >= b {
        a
    } else {
        b
    }
}

/// The ceiling on a whole run (C14): the configured one, at most the
/// catalogue's.
pub fn global_cap(configured: u64) -> (r: u64)
    ensures
        r == min_u64(configured, catalog_timeouts().global_pipeline_max_secs),
{
    let c = global_pipeline_max_secs();
    if configured <= c {
        configured
    } else {
        c
    }
}

/// The duration of a run: the requested one, else the scenario's limit.
pub open spec fn spec_effective_max_duration(params: StartParams) -> u64 {
    match params.max_duration_seconds {
        Some(d) => d,
        None => spec_max_duration_for(params.scenario@),
    }
}

/// The duration of a run: the requested one, else the scenario's limit.
pub fn effective_max_duration(params: &StartParams) -> (r: u64)
    ensures
        r == spec_effective_max_duration(*params),
{
    match params.max_duration_seconds {
        Some(d) => d,
        None => max_duration_for(params.scenario.as_str()),
    }
}

/// The launch context of a request, given whether a simulation is active.
pub open spec fn spec_launch_context(params: StartParams, active: bool) -> LaunchContext {
    LaunchContext {
        scenario: params.scenario,
        target: params.target,
        authorized_by: params.authorized_by,
        authorization_ref: params.authorization_ref,
        snapshot_id: params.snapshot_id,
        rollback_plan_id: params.rollback_plan_id,
        max_duration_seconds: params.max_duration_seconds,
        token_valid: params.token_valid,
        simulation_active: active,
    }
}

/// The launch context of a request, given whether a simulation is active.
pub fn launch_context(params: &StartParams, active: bool) -> (r: LaunchContext)
    ensures
        r == spec_launch_context(*params, active),
{
    LaunchContext {
        scenario: params.scenario.clone(),
        target: params.target.clone(),
        authorized_by: copy_opt(&params.authorized_by),
        authorization_ref: copy_opt(&params.authorization_ref),
        snapshot_id: copy_opt(&params.snapshot_id),
        rollback_plan_id: copy_opt(&params.rollback_plan_id),
        max_duration_seconds: params.max_duration_seconds,
        token_valid: params.token_valid,
        simulation_active: active,
    }
}

/// The verdict of a network phase whose detection came to `detected`.
pub open spec fn detection_verdict(phase: u8, scenario: Seq<char>, detected: bool) -> PhaseResultView {
    PhaseResultView {
        phase,
        scenario,
        status: if detected {
            PhaseResultStatus::Success
        } else {
            PhaseResultStatus::Timeout
        },
        message: None,
    }
}

/// The verdict of a network phase whose command could not run.
pub open spec fn execution_error_verdict(phase: u8, scenario: Seq<char>, message: Seq<char>) -> PhaseResultView {
    PhaseResultView { phase, scenario, status: PhaseResultStatus::Error, message: Some(message) }
}

/// Phase 3 passes when the weak password was refused (or accepted as a
/// pass) and the encryption round trip worked.
pub open spec fn crypto_ok(weak: CryptoTestResult, roundtrip: CryptoTestResult) -> bool {
    (weak is RejectedAsExpected || weak is Success) && roundtrip is Success
}

/// The verdict of the cryptographic phase.
pub open spec fn crypto_verdict(scenario: Seq<char>, weak: CryptoTestResult, roundtrip: CryptoTestResult) -> PhaseResultView {
    if crypto_ok(weak, roundtrip) {
        PhaseResultView { phase: 3, scenario, status: PhaseResultStatus::Success, message: None }
    } else {
        PhaseResultView {
            phase: 3,
            scenario,
            status: PhaseResultStatus::Error,
            message: Some(
                "weak="@ + crypto_debug_text(weak) + ", roundtrip="@ + crypto_debug_text(roundtrip),
            ),
        }
    }
}

/// The verdict of a network phase.
pub fn network_phase_result(phase: u8, scenario: &str, detected: bool) -> (r: PhaseResult)
    ensures
        r@ == detection_verdict(phase, scenario@, detected),
{
    PhaseResult {
        phase,
        scenario: String::from_str(scenario),
        status: if detected {
            PhaseResultStatus::Success
        } else {
            PhaseResultStatus::Timeout
        },
        message: None,
    }
}

/// The verdict of a network phase whose command could not run.
pub fn execution_error_result(phase: u8, scenario: &str, message: &str) -> (r: PhaseResult)
    ensures
        r@ == execution_error_verdict(phase, scenario@, message@),
{
    PhaseResult {
        phase,
        scenario: String::from_str(scenario),
        status: PhaseResultStatus::Error,
        message: Some(String::from_str(message)),
    }
}

/// The verdict of the cryptographic phase.
pub fn crypto_phase_result(
    scenario: &str,
    weak: &CryptoTestResult,
    roundtrip: &CryptoTestResult,
) -> (r: PhaseResult)
    ensures
        r@ == crypto_verdict(scenario@, *weak, *roundtrip),
{
    let ok = match (weak, roundtrip) {
        (CryptoTestResult::RejectedAsExpected, CryptoTestResult::Success) => true,
        (CryptoTestResult::Success, CryptoTestResult::Success) => true,
        _ => false,
    };
    if ok {
        PhaseResult {
            phase: 3,
            scenario: String::from_str(scenario),
            status: PhaseResultStatus::Success,
            message: None,
        }
    } else {
        let mut m = String::from_str("weak=");
        let w = weak.debug_text();
        m.append(w.as_str());
        m.append(", roundtrip=");
        let t = roundtrip.debug_text();
        m.append(t.as_str());
        PhaseResult {
            phase: 3,
            scenario: String::from_str(scenario),
            status: PhaseResultStatus::Error,
            message: Some(m),
        }
    }
}

/// Where a run stands: the action whose outcome it awaits.
#[derive(Debug, Clone, Copy, PartialEq, Eq, Structural)]
pub enum Stage {
    /// Not begun.
    Launch,
    /// The pre-launch health check (C7) is under way.
    PreHealth,
    /// The other cells are being notified (C6).
    Notify,
    /// The start is being journalled.
    Announce,
    /// The deadline of the run (C14) is being armed.
    Clocked,
    /// The Décideur handshake (C5) is under way.
    Handshake,
    /// Network phase 1 or 2: its start is being journalled.
    NetStart(u8),
    /// Network phase 1 or 2: its command is running.
    NetExec(u8),
    /// Network phase 1 or 2: waiting for its detection.
    NetWait(u8),
    /// Network phase 1 or 2: its verdict is being journalled.
    NetEnd(u8),
    /// The Analyseur is being switched into simulation mode.
    AnalyseurStart,
    /// The Analyseur is being switched back.
    AnalyseurEnd,
    /// Phase 3: its start is being journalled.
    CryptoStart,
    /// Phase 3: the TLS certificate scenario is running.
    CryptoCert,
    /// Phase 3: the weak-password test is under way.
    CryptoWeak,
    /// Phase 3: the encryption round trip is under way.
    CryptoRoundtrip,
    /// Phase 3: its verdict is being journalled.
    CryptoEnd,
    /// Integrity test: its start is being journalled.
    IntegrityStart,
    /// Integrity test: its command is running.
    IntegrityExec,
    /// Integrity test: its end is being journalled.
    IntegrityEnd,
    /// The deadline is being disarmed.
    Reported,
    /// The post-run health check (C15) is under way.
    PostHealth,
    /// A C15 warning is being journalled.
    PostHealthWarn,
    /// The report is being journalled.
    Ending,
    /// An error is being journalled; the run is over.
    Closing,
    /// The run is over.
    Done,
}

/// What the last action came to.
#[derive(Debug)]
pub enum Event {
    /// The run begins.
    Start,
    /// The action was carried out (a journalled event, a wait, the clock).
    Sent,
    /// A check or an exchange that can fail, and what it came to.
    Checked(Result<(), String>),
    /// The wait for a phase acknowledgement: whether it came in time.
    Detected(bool),
    /// A cryptographic test and its verdict.
    Crypto(CryptoTestResult),
    /// The deadline of the run passed.
    Expired,
}

/// The content of an event journalled with the Auditeur.
#[derive(Debug)]
pub enum EventDetails {
    Error { error: String },
    Notified { scenario: String, authorized_by: Option<String> },
    Scenario { scenario: String },
    PhaseStart {
        scenario: String,
        target: String,
        max_duration_secs: u64,
        detection_timeout_secs: u64,
    },
    PhaseError { message: Option<String> },
    CryptoStart { scenario: String },
    IntegrityStart { scenario: String },
    HealthWarning { error: String },
    Report { report: SimulationReport },
    Stopped { reason: String },
}

/// What the caller is to do next.
#[derive(Debug)]
pub enum Action {
    /// Journal an event of the simulation with the Auditeur.
    SendEvent { event_type: String, details: EventDetails },
    /// Check the health of the data centre (C7 / C15).
    CheckHealth,
    /// Arm the deadline of the run: from now on, an action that does not end
    /// before it is answered with `Expired`.
    StartClock { secs: u64 },
    /// Disarm the deadline.
    StopClock,
    /// Announce the simulation to the Décideur.
    Handshake { attack_type: String, target: String, max_duration_secs: u64 },
    /// Run a scenario's command.
    Execute { scenario: String, target: String, duration_secs: u64, dry_run: bool },
    /// Wait (a dry run's stand-in for detection).
    Sleep { secs: u64 },
    /// Wait at most `timeout_secs` for the Décideur's phase acknowledgement.
    AwaitAck { timeout_secs: u64 },
    /// Switch the Analyseur into simulation mode.
    AnalyseurStart { perimeter: String, max_duration_secs: u64 },
    /// Switch the Analyseur back.
    AnalyseurEnd,
    /// Submit a weak password to the Chiffreur.
    TestWeakPassword { password: String },
    /// Have the Chiffreur encrypt and decrypt a text.
    TestRoundtrip { plaintext: String },
    /// The run is over.
    Finish,
}

/// A run of the pipeline: its settings, copied from the configuration and the
/// request, and what it has gathered so far.
pub struct Pipeline {
    pub stage: Stage,
    pub params: StartParams,
    pub simulation_id: String,
    pub simulation_token: String,
    pub dry_run: bool,
    pub phase1_scenario: String,
    pub phase2_scenario: String,
    pub phase3_scenario: String,
    pub sandbox_cidr: String,
    pub min_phases_ok: u8,
    pub configured_global_max: u64,
    pub max_duration: u64,
    pub global_max: u64,
    pub phase_duration: u64,
    pub detect_timeout: u64,
    pub results: Vec<PhaseResult>,
    pub weak: Option<CryptoTestResult>,
    pub overall_success: bool,
    /// How many outcomes (success, error or timeout) this run has counted.
    pub counted: Ghost<nat>,
}

/// The order of the stages: each step moves a run forward in it.
pub open spec fn stage_rank(s: Stage) -> int {
    match s {
        Stage::Launch => 0,
        Stage::PreHealth => 1,
        Stage::Notify => 2,
        Stage::Announce => 3,
        Stage::Clocked => 4,
        Stage::Handshake => 5,
        Stage::NetStart(p) => 6 + 5 * (p - 1),
        Stage::NetExec(p) => 7 + 5 * (p - 1),
        Stage::NetWait(p) => 8 + 5 * (p - 1),
        Stage::NetEnd(p) => 9 + 5 * (p - 1),
        Stage::AnalyseurStart => 10,
        Stage::AnalyseurEnd => 15,
        Stage::CryptoStart => 16,
        Stage::CryptoCert => 17,
        Stage::CryptoWeak => 18,
        Stage::CryptoRoundtrip => 19,
        Stage::CryptoEnd => 20,
        Stage::IntegrityStart => 21,
        Stage::IntegrityExec => 22,
        Stage::IntegrityEnd => 23,
        Stage::Reported => 24,
        Stage::PostHealth => 25,
        Stage::PostHealthWarn => 26,
        Stage::Ending => 27,
        Stage::Closing => 28,
        Stage::Done => 29,
    }
}

/// The stages during which the deadline of the run is armed.
pub open spec fn timed(s: Stage) -> bool {
    match s {
        Stage::Handshake | Stage::NetStart(_) | Stage::NetExec(_) | Stage::NetWait(_)
        | Stage::NetEnd(_) | Stage::AnalyseurStart | Stage::AnalyseurEnd | Stage::CryptoStart
        | Stage::CryptoCert | Stage::CryptoWeak | Stage::CryptoRoundtrip | Stage::CryptoEnd
        | Stage::IntegrityStart | Stage::IntegrityExec | Stage::IntegrityEnd => true,
        _ => false,
    }
}

/// The number of phase verdicts a run holds at a stage.
pub open spec fn verdicts_at(s: Stage) -> int {
    match s {
        Stage::NetStart(p) => p - 1,
        Stage::NetExec(p) => p - 1,
        Stage::NetWait(p) => p - 1,
        Stage::NetEnd(p) => p as int,
        Stage::AnalyseurStart => 1,
        Stage::AnalyseurEnd | Stage::CryptoStart | Stage::CryptoCert | Stage::CryptoWeak
        | Stage::CryptoRoundtrip => 2,
        Stage::CryptoEnd | Stage::IntegrityStart | Stage::IntegrityExec | Stage::IntegrityEnd
        | Stage::Reported | Stage::PostHealth | Stage::PostHealthWarn | Stage::Ending => 3,
        _ => 0,
    }
}

/// The value of a bumped counter, for each counter a step may bump.
pub open spec fn bump_total(m: MetricsSnapshot) -> MetricsSnapshot {
    MetricsSnapshot { simulations_total: bump(m.simulations_total), ..m }
}

pub open spec fn bump_error(m: MetricsSnapshot) -> MetricsSnapshot {
    MetricsSnapshot { simulations_error: bump(m.simulations_error), ..m }
}

pub open spec fn bump_success(m: MetricsSnapshot) -> MetricsSnapshot {
    MetricsSnapshot { simulations_success: bump(m.simulations_success), ..m }
}

pub open spec fn bump_timeout(m: MetricsSnapshot) -> MetricsSnapshot {
    MetricsSnapshot { simulations_timeout: bump(m.simulations_timeout), ..m }
}

/// The event that journals `details` as `event_type`.
pub open spec fn sends(a: Action, event_type: Seq<char>) -> bool {
    a matches Action::SendEvent { event_type: t, .. } && t@ == event_type
}

/// The details of a journalled event.
pub open spec fn event_details(a: Action) -> EventDetails
    recommends
        a is SendEvent,
{
    match a {
        Action::SendEvent { details, .. } => details,
        _ => EventDetails::Error { error: arbitrary() },
    }
}

/// `a` journals the error `msg`.
pub open spec fn sends_error(a: Action, msg: Seq<char>) -> bool {
    &&& sends(a, "SIMULATION_ERROR"@)
    &&& event_details(a) matches EventDetails::Error { error } && error@ == msg
}

/// `a` journals `event_type` with the scenario `scenario`.
pub open spec fn sends_scenario(a: Action, event_type: Seq<char>, scenario: Seq<char>) -> bool {
    &&& sends(a, event_type)
    &&& event_details(a) matches EventDetails::Scenario { scenario: s } && s@ == scenario
}

/// `a` journals the report of a run whose phases came to `phases`.
pub open spec fn sends_report(
    a: Action,
    simulation_id: Seq<char>,
    phases: Seq<PhaseResultView>,
    success: bool,
) -> bool {
    &&& sends(a, "SIMULATION_END"@)
    &&& event_details(a) matches EventDetails::Report { report } && report.simulation_id@
        == simulation_id && results_view(report.phases@) == phases && report.overall_success
        == success && constraints_view(report.constraints_validated@) == all_constraints()
}

impl Pipeline {
    /// The scenario of phase `p`.
    pub open spec fn phase_scenario(self, p: u8) -> Seq<char> {
        if p == 1 {
            self.phase1_scenario@
        } else if p == 2 {
            self.phase2_scenario@
        } else {
            self.phase3_scenario@
        }
    }

    /// The invariant of a run.
    pub open spec fn wf(self) -> bool {
        &&& (match self.stage {
            Stage::NetStart(p) | Stage::NetExec(p) | Stage::NetWait(p) | Stage::NetEnd(p) => p == 1
                || p == 2,
            _ => true,
        })
        &&& if self.stage == Stage::Closing || self.stage == Stage::Done {
            self.results@.len() <= 3
        } else {
            self.results@.len() == verdicts_at(self.stage)
        }
        &&& forall|k: int| 0 <= k < self.results@.len() ==> #[trigger] self.results@[k].phase == k + 1
        &&& (self.stage == Stage::CryptoRoundtrip ==> self.weak is Some)
        &&& (self.dry_run ==> self.stage != Stage::CryptoWeak && self.stage
            != Stage::CryptoRoundtrip)
        &&& self.counted@ == if self.stage == Stage::Closing || self.stage == Stage::Done {
            1nat
        } else {
            0nat
        }
    }

    /// The settings of the run are those of `other`.
    pub open spec fn same_settings(self, other: Pipeline) -> bool {
        &&& self.params == other.params
        &&& self.simulation_id == other.simulation_id
        &&& self.simulation_token == other.simulation_token
        &&& self.dry_run == other.dry_run
        &&& self.phase1_scenario == other.phase1_scenario
        &&& self.phase2_scenario == other.phase2_scenario
        &&& self.phase3_scenario == other.phase3_scenario
        &&& self.sandbox_cidr == other.sandbox_cidr
        &&& self.min_phases_ok == other.min_phases_ok
        &&& self.configured_global_max == other.configured_global_max
    }

    /// Which events a stage awaits.
    pub open spec fn expects(self, ev: Event) -> bool {
        if ev is Expired {
            timed(self.stage)
        } else {
            match self.stage {
                Stage::Launch => ev is Start,
                Stage::PreHealth | Stage::Handshake | Stage::AnalyseurStart | Stage::AnalyseurEnd
                | Stage::CryptoCert | Stage::IntegrityExec | Stage::PostHealth => ev is Checked,
                Stage::NetExec(_) => ev is Checked,
                Stage::NetWait(_) => ev is Sent || ev is Detected,
                Stage::CryptoWeak | Stage::CryptoRoundtrip => ev is Crypto,
                Stage::Done => true,
                _ => ev is Sent,
            }
        }
    }
}

/// Exactly one of the outcome counters (success, error, timeout) went up by
/// one from `m` to `m2`.
pub open spec fn one_outcome_counted(m: MetricsSnapshot, m2: MetricsSnapshot) -> bool {
    ||| (m2.simulations_success == bump(m.simulations_success) && m2.simulations_error
        == m.simulations_error && m2.simulations_timeout == m.simulations_timeout)
    ||| (m2.simulations_success == m.simulations_success && m2.simulations_error == bump(
        m.simulations_error,
    ) && m2.simulations_timeout == m.simulations_timeout)
    ||| (m2.simulations_success == m.simulations_success && m2.simulations_error
        == m.simulations_error && m2.simulations_timeout == bump(m.simulations_timeout))
}

/// No outcome counter changed from `m` to `m2`.
pub open spec fn no_outcome_counted(m: MetricsSnapshot, m2: MetricsSnapshot) -> bool {
    &&& m2.simulations_success == m.simulations_success
    &&& m2.simulations_error == m.simulations_error
    &&& m2.simulations_timeout == m.simulations_timeout
}

/// `post` is `pre` moved to `stage`, nothing else changed.
pub open spec fn moves(pre: Pipeline, post: Pipeline, stage: Stage) -> bool {
    post == (Pipeline { stage, ..pre })
}

/// `post` is `pre` moved to `stage` with one more outcome counted.
pub open spec fn moves_counted(pre: Pipeline, post: Pipeline, stage: Stage) -> bool {
    post == (Pipeline { stage, counted: Ghost(pre.counted@ + 1), ..pre })
}

/// `post` is `pre` moved to `stage` with the verdict `v` appended.
pub open spec fn moves_with_verdict(pre: Pipeline, post: Pipeline, stage: Stage, v: PhaseResultView) -> bool {
    &&& post == (Pipeline { stage, results: post.results, ..pre })
    &&& results_view(post.results@) == results_view(pre.results@).push(v)
}

/// A failed run: its error journalled, counted as an error, the simulation
/// state cleared.
pub open spec fn fails_with(
    pre: Pipeline,
    post: Pipeline,
    st2: StateView,
    m: MetricsSnapshot,
    m2: MetricsSnapshot,
    a: Action,
    msg: Seq<char>,
) -> bool {
    &&& sends_error(a, msg)
    &&& m2 == bump_error(m)
    &&& st2 == idle_state()
    &&& moves_counted(pre, post, Stage::Closing)
}

/// The stages at which a run holds the simulation state: from the start of
/// the simulation (`Notify`) to the report (`Ending`).
pub open spec fn holds_state(s: Stage) -> bool {
    !(s == Stage::Launch || s == Stage::PreHealth || s == Stage::Closing || s == Stage::Done)
}

/// The simulation state is still that of the run: it carries the run's
/// simulation token. A stop clears it (`SimulationState::stop`), after which a
/// new simulation may hold it.
pub open spec fn owns_state(pre: Pipeline, st: StateView) -> bool {
    st.simulation_token == Some(pre.simulation_token@)
}

/// A run whose simulation was stopped and cleared ends: the cancellation is
/// journalled and counted as an error, and the state, no longer the run's, is
/// left as it is.
pub open spec fn abandons(
    pre: Pipeline,
    post: Pipeline,
    st: StateView,
    st2: StateView,
    m: MetricsSnapshot,
    m2: MetricsSnapshot,
    a: Action,
) -> bool {
    &&& sends_error(a, "Simulation annulée (C14)"@)
    &&& m2 == bump_error(m)
    &&& st2 == st
    &&& moves_counted(pre, post, Stage::Closing)
}

/// The start of network phase `p`: the state machine enters the phase, its
/// duration and detection timeout are fixed and its start is journalled.
pub open spec fn begins_network_phase(
    pre: Pipeline,
    p: u8,
    st: StateView,
    post: Pipeline,
    st2: StateView,
    a: Action,
) -> bool {
    let scenario = pre.phase_scenario(p);
    let duration = spec_max_duration_for(scenario);
    let detect = max_u64(spec_detection_timeout_for(scenario), spec_detection_timeout_for_phase(p));
    &&& post == (Pipeline {
        stage: Stage::NetStart(p),
        phase_duration: duration,
        detect_timeout: detect,
        ..pre
    })
    &&& st2 == (StateView {
        fsm: if p == 1 {
            FsmState::Phase1Filtreur
        } else {
            FsmState::Phase2Analyseur
        },
        ..st
    })
    &&& sends(a, spec_phase_event_type(p, "START"@))
    &&& event_details(a) matches EventDetails::PhaseStart {
        scenario: s,
        target,
        max_duration_secs,
        detection_timeout_secs,
    } && s@ == scenario && target@ == pre.params.target@ && max_duration_secs == duration
        && detection_timeout_secs == detect
}

/// The verdict of network phase `p` on detection `d`: counted, recorded and
/// journalled.
pub open spec fn records_detection(
    pre: Pipeline,
    p: u8,
    d: bool,
    st: StateView,
    m: MetricsSnapshot,
    post: Pipeline,
    st2: StateView,
    m2: MetricsSnapshot,
    a: Action,
) -> bool {
    let v = detection_verdict(p, pre.phase_scenario(p), d);
    &&& m2 == record_phase_spec(m, p, d)
    &&& st2 == (StateView { phase_results: st.phase_results.push(v), ..st })
    &&& moves_with_verdict(pre, post, Stage::NetEnd(p), v)
    &&& sends_scenario(
        a,
        spec_phase_event_type(
            p,
            if d {
                "OK"@
            } else {
                "TIMEOUT"@
            },
        ),
        pre.phase_scenario(p),
    )
}

/// The step from `Launch`: counts the run and checks its constraints.
pub open spec fn after_launch(pre: Pipeline, ev: Event, cfg: Config, hour: u32, st: StateView, m: MetricsSnapshot, post: Pipeline, st2: StateView, m2: MetricsSnapshot, a: Action) -> bool {
    let m1 = bump_total(m);
    &&& st2 == st
    &&& match spec_validate(spec_launch_context(pre.params, st.active), cfg, hour) {
        Some(v) => {
            &&& m2 == bump_error(m1)
            &&& moves_counted(pre, post, Stage::Closing)
            &&& sends_error(a, v.constraint + ": "@ + v.message)
        },
        None => m2 == m1 && moves(pre, post, Stage::PreHealth) && a is CheckHealth,
    }
}

/// The step from `PreHealth`: on a healthy data centre starts the simulation state, at the
/// time the clock gives, and notifies the cells.
pub open spec fn after_pre_health(pre: Pipeline, ev: Event, cfg: Config, hour: u32, st: StateView, m: MetricsSnapshot, post: Pipeline, st2: StateView, m2: MetricsSnapshot, a: Action) -> bool {
    match ev {
        Event::Checked(Err(e)) => {
            &&& sends_error(a, e@)
            &&& m2 == bump_error(m)
            &&& st2 == st
            &&& moves_counted(pre, post, Stage::Closing)
        },
        _ => {
            let d = spec_effective_max_duration(pre.params);
            if st.active {
                &&& m2 == bump_error(m)
                &&& st2 == st
                &&& post == (Pipeline {
                    stage: Stage::Done,
                    max_duration: d,
                    counted: Ghost(pre.counted@ + 1),
                    ..pre
                })
                &&& a is Finish
            } else {
                &&& m2 == m
                &&& st2.started_at is Some
                &&& exists|secs: i64, nanos: u32| rfc3339_at(secs, nanos) == st2.started_at
                &&& st2 == started_state(
                    st,
                    pre.simulation_id@,
                    pre.simulation_token@,
                    pre.params.scenario@,
                    pre.params.target@,
                    opt_seq(pre.params.authorized_by),
                    d,
                    st2.started_at->0,
                )
                &&& post == (Pipeline { stage: Stage::Notify, max_duration: d, ..pre })
                &&& sends(a, "C6_CELLULES_NOTIFIEES"@)
                &&& event_details(a) matches EventDetails::Notified {
                    scenario,
                    authorized_by,
                } && scenario@ == pre.params.scenario@ && opt_seq(authorized_by)
                    == opt_seq(pre.params.authorized_by)
            }
        },
    }
}

/// The step from `Notify`: journals the start.
pub open spec fn after_notify(pre: Pipeline, ev: Event, cfg: Config, hour: u32, st: StateView, m: MetricsSnapshot, post: Pipeline, st2: StateView, m2: MetricsSnapshot, a: Action) -> bool {
    &&& st2 == st
    &&& m2 == m
    &&& moves(pre, post, Stage::Announce)
    &&& sends_scenario(a, "SIMULATION_START"@, pre.params.scenario@)
}

/// The step from `Announce`: arms the deadline.
pub open spec fn after_announce(pre: Pipeline, ev: Event, cfg: Config, hour: u32, st: StateView, m: MetricsSnapshot, post: Pipeline, st2: StateView, m2: MetricsSnapshot, a: Action) -> bool {
    let g = min_u64(pre.configured_global_max, catalog_timeouts().global_pipeline_max_secs);
    &&& st2 == st
    &&& m2 == m
    &&& post == (Pipeline { stage: Stage::Clocked, global_max: g, ..pre })
    &&& a matches Action::StartClock { secs } && secs == g
}

/// The step from `Clocked`: shakes hands with the Décideur.
pub open spec fn after_clocked(pre: Pipeline, ev: Event, cfg: Config, hour: u32, st: StateView, m: MetricsSnapshot, post: Pipeline, st2: StateView, m2: MetricsSnapshot, a: Action) -> bool {
    &&& m2 == m
    &&& st2 == (StateView { fsm: FsmState::Handshake, ..st })
    &&& moves(pre, post, Stage::Handshake)
    &&& a matches Action::Handshake { attack_type, target, max_duration_secs }
        && attack_type@ == pre.phase2_scenario@ && target@ == pre.params.target@
        && max_duration_secs == pre.max_duration
}

/// The step from `Handshake`: on a handshake, begins network phase 1.
pub open spec fn after_handshake(pre: Pipeline, ev: Event, cfg: Config, hour: u32, st: StateView, m: MetricsSnapshot, post: Pipeline, st2: StateView, m2: MetricsSnapshot, a: Action) -> bool {
    match ev {
        Event::Checked(Err(e)) => fails_with(pre, post, st2, m, m2, a, e@),
        _ => m2 == m && begins_network_phase(pre, 1, st, post, st2, a),
    }
}

/// The step from `NetStart`: runs the command of the phase.
pub open spec fn after_net_start(pre: Pipeline, p: u8, ev: Event, st: StateView, m: MetricsSnapshot, post: Pipeline, st2: StateView, m2: MetricsSnapshot, a: Action) -> bool {
    &&& st2 == st
    &&& m2 == m
    &&& moves(pre, post, Stage::NetExec(p))
    &&& a matches Action::Execute { scenario, target, duration_secs, dry_run }
        && scenario@ == pre.phase_scenario(p) && target@ == pre.params.target@
        && duration_secs == pre.phase_duration && dry_run == pre.dry_run
}

/// The step from `NetExec`: on the command's outcome, waits for detection or records the verdict.
pub open spec fn after_net_exec(pre: Pipeline, p: u8, ev: Event, st: StateView, m: MetricsSnapshot, post: Pipeline, st2: StateView, m2: MetricsSnapshot, a: Action) -> bool {
    match ev {
        Event::Checked(Err(msg)) => {
            let v = execution_error_verdict(p, pre.phase_scenario(p), msg@);
            &&& m2 == record_phase_spec(m, p, false)
            &&& st2 == (StateView { phase_results: st.phase_results.push(v), ..st })
            &&& moves_with_verdict(pre, post, Stage::NetEnd(p), v)
            &&& sends(a, spec_phase_event_type(p, "ERROR"@))
            &&& event_details(a) matches EventDetails::PhaseError { message } && opt_seq(
                message,
            ) == Some(msg@)
        },
        _ => if pre.dry_run {
            &&& st2 == st
            &&& m2 == m
            &&& moves(pre, post, Stage::NetWait(p))
            &&& a matches Action::Sleep { secs } && secs == 2
        } else if st.cancel_requested {
            records_detection(pre, p, false, st, m, post, st2, m2, a)
        } else {
            &&& st2 == (StateView { phase_ack_pending: true, ..st })
            &&& m2 == m
            &&& moves(pre, post, Stage::NetWait(p))
            &&& a matches Action::AwaitAck { timeout_secs } && timeout_secs
                == pre.detect_timeout
        },
    }
}

/// The step from `NetWait`: records the verdict of the phase. Only the
/// Décideur's acknowledgement (or, in a dry run, the simulated wait) counts as
/// a detection; a stop requested meanwhile records the phase as undetected.
pub open spec fn after_net_wait(pre: Pipeline, p: u8, ev: Event, st: StateView, m: MetricsSnapshot, post: Pipeline, st2: StateView, m2: MetricsSnapshot, a: Action) -> bool {
    let acknowledged = match ev {
        Event::Detected(d) => d,
        _ => true,
    };
    if acknowledged && !st.cancel_requested {
        records_detection(pre, p, true, st, m, post, st2, m2, a)
    } else {
        records_detection(
            pre,
            p,
            false,
            StateView { phase_ack_pending: false, ..st },
            m,
            post,
            st2,
            m2,
            a,
        )
    }
}

/// The step from `NetEnd`: after phase 1 switches the Analyseur into simulation mode, after phase 2 back.
pub open spec fn after_net_end(pre: Pipeline, p: u8, ev: Event, st: StateView, m: MetricsSnapshot, post: Pipeline, st2: StateView, m2: MetricsSnapshot, a: Action) -> bool {
    if p == 1 {
        if st.cancel_requested {
            fails_with(pre, post, st2, m, m2, a, "Simulation annulée (C14)"@)
        } else {
            &&& m2 == m
            &&& st2 == (StateView { fsm: FsmState::Phase2Analyseur, ..st })
            &&& moves(pre, post, Stage::AnalyseurStart)
            &&& a matches Action::AnalyseurStart { perimeter, max_duration_secs }
                && perimeter@ == pre.sandbox_cidr@ && max_duration_secs
                == pre.max_duration
        }
    } else {
        &&& m2 == m
        &&& st2 == st
        &&& moves(pre, post, Stage::AnalyseurEnd)
        &&& a is AnalyseurEnd
    }
}

/// The step from `AnalyseurStart`: on the switch, begins network phase 2.
pub open spec fn after_analyseur_start(pre: Pipeline, ev: Event, cfg: Config, hour: u32, st: StateView, m: MetricsSnapshot, post: Pipeline, st2: StateView, m2: MetricsSnapshot, a: Action) -> bool {
    match ev {
        Event::Checked(Err(e)) => fails_with(pre, post, st2, m, m2, a, e@),
        _ => m2 == m && begins_network_phase(pre, 2, st, post, st2, a),
    }
}

/// The step from `AnalyseurEnd`: begins phase 3 unless the run was cancelled.
pub open spec fn after_analyseur_end(pre: Pipeline, ev: Event, cfg: Config, hour: u32, st: StateView, m: MetricsSnapshot, post: Pipeline, st2: StateView, m2: MetricsSnapshot, a: Action) -> bool {
    if st.cancel_requested {
        fails_with(pre, post, st2, m, m2, a, "Simulation annulée (C14)"@)
    } else {
        &&& m2 == m
        &&& st2 == (StateView { fsm: FsmState::Phase3Chiffreur, ..st })
        &&& moves(pre, post, Stage::CryptoStart)
        &&& sends(a, spec_phase_event_type(3, "START"@))
        &&& event_details(a) matches EventDetails::CryptoStart { scenario } && scenario@
            == pre.phase3_scenario@
    }
}

/// The step from `CryptoStart`: runs the TLS certificate scenario.
pub open spec fn after_crypto_start(pre: Pipeline, ev: Event, cfg: Config, hour: u32, st: StateView, m: MetricsSnapshot, post: Pipeline, st2: StateView, m2: MetricsSnapshot, a: Action) -> bool {
    &&& st2 == st
    &&& m2 == m
    &&& moves(pre, post, Stage::CryptoCert)
    &&& a matches Action::Execute { scenario, target, duration_secs, dry_run }
        && scenario@ == "cert_tls"@ && target@ == pre.params.target@ && duration_secs
        == 60 && dry_run == pre.dry_run
}

/// The verdict of phase 3 on the weak-password test `w` and the round trip
/// `rt`: counted, recorded and journalled.
pub open spec fn records_crypto(
    pre: Pipeline,
    w: CryptoTestResult,
    rt: CryptoTestResult,
    st: StateView,
    m: MetricsSnapshot,
    post: Pipeline,
    st2: StateView,
    m2: MetricsSnapshot,
    a: Action,
) -> bool {
    let v = crypto_verdict(pre.phase3_scenario@, w, rt);
    &&& m2 == record_phase_spec(m, 3, crypto_ok(w, rt))
    &&& st2 == (StateView { phase_results: st.phase_results.push(v), ..st })
    &&& moves_with_verdict(pre, post, Stage::CryptoEnd, v)
    &&& sends_scenario(
        a,
        spec_phase_event_type(
            3,
            if crypto_ok(w, rt) {
                "OK"@
            } else {
                "ERROR"@
            },
        ),
        pre.phase3_scenario@,
    )
}

/// The step from `CryptoCert`: tests a weak password. A dry run asks the
/// Chiffreur nothing: the weak password `123456` counts as refused (it is
/// shorter than 8 characters) and the round trip as done, and the verdict of
/// phase 3 is recorded at once.
pub open spec fn after_crypto_cert(pre: Pipeline, ev: Event, cfg: Config, hour: u32, st: StateView, m: MetricsSnapshot, post: Pipeline, st2: StateView, m2: MetricsSnapshot, a: Action) -> bool {
    if pre.dry_run {
        records_crypto(
            pre,
            CryptoTestResult::RejectedAsExpected,
            CryptoTestResult::Success,
            st,
            m,
            post,
            st2,
            m2,
            a,
        )
    } else {
        &&& st2 == st
        &&& m2 == m
        &&& moves(pre, post, Stage::CryptoWeak)
        &&& a matches Action::TestWeakPassword { password } && password@ == "123456"@
    }
}

/// The step from `CryptoWeak`: keeps its verdict and tests the encryption round trip.
pub open spec fn after_crypto_weak(pre: Pipeline, ev: Event, cfg: Config, hour: u32, st: StateView, m: MetricsSnapshot, post: Pipeline, st2: StateView, m2: MetricsSnapshot, a: Action) -> bool {
    &&& st2 == st
    &&& m2 == m
    &&& ev matches Event::Crypto(w) && post == (Pipeline {
        stage: Stage::CryptoRoundtrip,
        weak: Some(w),
        ..pre
    })
    &&& a matches Action::TestRoundtrip { plaintext } && plaintext@
        == "message-test-simulation"@
}

/// The step from `CryptoRoundtrip`: records the verdict of phase 3.
pub open spec fn after_crypto_roundtrip(pre: Pipeline, ev: Event, cfg: Config, hour: u32, st: StateView, m: MetricsSnapshot, post: Pipeline, st2: StateView, m2: MetricsSnapshot, a: Action) -> bool {
    let rt = match ev {
        Event::Crypto(r) => r,
        _ => CryptoTestResult::Success,
    };
    records_crypto(pre, pre.weak->0, rt, st, m, post, st2, m2, a)
}

/// The step from `CryptoEnd`: begins the integrity test.
pub open spec fn after_crypto_end(pre: Pipeline, ev: Event, cfg: Config, hour: u32, st: StateView, m: MetricsSnapshot, post: Pipeline, st2: StateView, m2: MetricsSnapshot, a: Action) -> bool {
    &&& st2 == st
    &&& m2 == m
    &&& moves(pre, post, Stage::IntegrityStart)
    &&& sends(a, spec_phase_event_type(4, "START"@))
    &&& event_details(a) matches EventDetails::IntegrityStart { scenario } && scenario@
        == "injection_base"@
}

/// The step from `IntegrityStart`: runs the integrity scenario.
pub open spec fn after_integrity_start(pre: Pipeline, ev: Event, cfg: Config, hour: u32, st: StateView, m: MetricsSnapshot, post: Pipeline, st2: StateView, m2: MetricsSnapshot, a: Action) -> bool {
    &&& st2 == st
    &&& m2 == m
    &&& moves(pre, post, Stage::IntegrityExec)
    &&& a matches Action::Execute { scenario, target, duration_secs, dry_run }
        && scenario@ == "injection_base"@ && target@ == pre.params.target@
        && duration_secs == 60 && dry_run == pre.dry_run
}

/// The step from `IntegrityExec`: journals its end.
pub open spec fn after_integrity_exec(pre: Pipeline, ev: Event, cfg: Config, hour: u32, st: StateView, m: MetricsSnapshot, post: Pipeline, st2: StateView, m2: MetricsSnapshot, a: Action) -> bool {
    &&& st2 == st
    &&& m2 == m
    &&& moves(pre, post, Stage::IntegrityEnd)
    &&& sends_scenario(a, spec_phase_event_type(4, "OK"@), "injection_base"@)
}

/// The step from `IntegrityEnd`: decides the outcome and disarms the deadline.
pub open spec fn after_integrity_end(pre: Pipeline, ev: Event, cfg: Config, hour: u32, st: StateView, m: MetricsSnapshot, post: Pipeline, st2: StateView, m2: MetricsSnapshot, a: Action) -> bool {
    &&& m2 == m
    &&& post == (Pipeline {
        stage: Stage::Reported,
        overall_success: run_succeeds(results_view(pre.results@), pre.min_phases_ok),
        ..pre
    })
    &&& st2 == (StateView {
        fsm: FsmState::Reporting,
        phase_results: results_view(pre.results@),
        ..st
    })
    &&& a is StopClock
}

/// The step from `Reported`: checks the health of the data centre (C15).
pub open spec fn after_reported(pre: Pipeline, ev: Event, cfg: Config, hour: u32, st: StateView, m: MetricsSnapshot, post: Pipeline, st2: StateView, m2: MetricsSnapshot, a: Action) -> bool {
    &&& st2 == st
    &&& m2 == m
    &&& moves(pre, post, Stage::PostHealth)
    &&& a is CheckHealth
}

/// The step from `PostHealth`: journals a C15 warning or the report.
pub open spec fn after_post_health(pre: Pipeline, ev: Event, cfg: Config, hour: u32, st: StateView, m: MetricsSnapshot, post: Pipeline, st2: StateView, m2: MetricsSnapshot, a: Action) -> bool {
    &&& st2 == st
    &&& m2 == m
    &&& match ev {
        Event::Checked(Err(e)) => {
            &&& moves(pre, post, Stage::PostHealthWarn)
            &&& sends(a, "C15_POST_HEALTH_WARN"@)
            &&& event_details(a) matches EventDetails::HealthWarning { error } && error@
                == e@
        },
        _ => {
            &&& moves(pre, post, Stage::Ending)
            &&& sends_report(
                a,
                pre.simulation_id@,
                results_view(pre.results@),
                pre.overall_success,
            )
        },
    }
}

/// The step from `PostHealthWarn`: journals the report.
pub open spec fn after_post_health_warn(pre: Pipeline, ev: Event, cfg: Config, hour: u32, st: StateView, m: MetricsSnapshot, post: Pipeline, st2: StateView, m2: MetricsSnapshot, a: Action) -> bool {
    &&& st2 == st
    &&& m2 == m
    &&& moves(pre, post, Stage::Ending)
    &&& sends_report(
        a,
        pre.simulation_id@,
        results_view(pre.results@),
        pre.overall_success,
    )
}

/// The step from `Ending`: counts the outcome and clears the simulation state.
pub open spec fn after_ending(pre: Pipeline, ev: Event, cfg: Config, hour: u32, st: StateView, m: MetricsSnapshot, post: Pipeline, st2: StateView, m2: MetricsSnapshot, a: Action) -> bool {
    &&& m2 == if pre.overall_success {
        bump_success(m)
    } else {
        bump_timeout(m)
    }
    &&& st2 == idle_state()
    &&& moves_counted(pre, post, Stage::Done)
    &&& a is Finish
}

/// The step from `Closing`: ends the run.
pub open spec fn after_closing(pre: Pipeline, ev: Event, cfg: Config, hour: u32, st: StateView, m: MetricsSnapshot, post: Pipeline, st2: StateView, m2: MetricsSnapshot, a: Action) -> bool {
    &&& st2 == st
    &&& m2 == m
    &&& moves(pre, post, Stage::Done)
    &&& a is Finish
}

/// One step of a run from `pre` on event `ev` at local hour `hour` (read
/// only at launch, where the launch window is enforced), given the
/// simulation state `st` and the counters `m`: the run `post`, the state
/// `st2`, the counters `m2` and the next action `a`. A run that holds the
/// simulation state but finds it cleared by a stop closes first of all.
pub open spec fn transition(
    pre: Pipeline,
    ev: Event,
    cfg: Config,
    hour: u32,
    st: StateView,
    m: MetricsSnapshot,
    post: Pipeline,
    st2: StateView,
    m2: MetricsSnapshot,
    a: Action,
) -> bool {
    if holds_state(pre.stage) && !owns_state(pre, st) {
        abandons(pre, post, st, st2, m, m2, a)
    } else if ev is Expired {
        fails_with(
            pre,
            post,
            st2,
            m,
            m2,
            a,
            "C14: dépassement durée globale "@ + decimal(pre.global_max as nat) + "s"@,
        )
    } else {
        match pre.stage {
            Stage::Launch => after_launch(pre, ev, cfg, hour, st, m, post, st2, m2, a),
            Stage::PreHealth => after_pre_health(pre, ev, cfg, hour, st, m, post, st2, m2, a),
            Stage::Notify => after_notify(pre, ev, cfg, hour, st, m, post, st2, m2, a),
            Stage::Announce => after_announce(pre, ev, cfg, hour, st, m, post, st2, m2, a),
            Stage::Clocked => after_clocked(pre, ev, cfg, hour, st, m, post, st2, m2, a),
            Stage::Handshake => after_handshake(pre, ev, cfg, hour, st, m, post, st2, m2, a),
            Stage::NetStart(p) => after_net_start(pre, p, ev, st, m, post, st2, m2, a),
            Stage::NetExec(p) => after_net_exec(pre, p, ev, st, m, post, st2, m2, a),
            Stage::NetWait(p) => after_net_wait(pre, p, ev, st, m, post, st2, m2, a),
            Stage::NetEnd(p) => after_net_end(pre, p, ev, st, m, post, st2, m2, a),
            Stage::AnalyseurStart => after_analyseur_start(pre, ev, cfg, hour, st, m, post, st2, m2, a),
            Stage::AnalyseurEnd => after_analyseur_end(pre, ev, cfg, hour, st, m, post, st2, m2, a),
            Stage::CryptoStart => after_crypto_start(pre, ev, cfg, hour, st, m, post, st2, m2, a),
            Stage::CryptoCert => after_crypto_cert(pre, ev, cfg, hour, st, m, post, st2, m2, a),
            Stage::CryptoWeak => after_crypto_weak(pre, ev, cfg, hour, st, m, post, st2, m2, a),
            Stage::CryptoRoundtrip => after_crypto_roundtrip(pre, ev, cfg, hour, st, m, post, st2, m2, a),
            Stage::CryptoEnd => after_crypto_end(pre, ev, cfg, hour, st, m, post, st2, m2, a),
            Stage::IntegrityStart => after_integrity_start(pre, ev, cfg, hour, st, m, post, st2, m2, a),
            Stage::IntegrityExec => after_integrity_exec(pre, ev, cfg, hour, st, m, post, st2, m2, a),
            Stage::IntegrityEnd => after_integrity_end(pre, ev, cfg, hour, st, m, post, st2, m2, a),
            Stage::Reported => after_reported(pre, ev, cfg, hour, st, m, post, st2, m2, a),
            Stage::PostHealth => after_post_health(pre, ev, cfg, hour, st, m, post, st2, m2, a),
            Stage::PostHealthWarn => after_post_health_warn(pre, ev, cfg, hour, st, m, post, st2, m2, a),
            Stage::Ending => after_ending(pre, ev, cfg, hour, st, m, post, st2, m2, a),
            Stage::Closing | Stage::Done => after_closing(pre, ev, cfg, hour, st, m, post, st2, m2, a),
        }
    }
}

/// Appending the verdict of the next phase keeps the verdicts in phase order.
proof fn lemma_push_in_order(before: Seq<PhaseResult>, after: Seq<PhaseResult>, v: PhaseResultView)
    requires
        forall|k: int| 0 <= k < before.len() ==> #[trigger] before[k].phase == k + 1,
        results_view(after) == results_view(before).push(v),
        v.phase == before.len() + 1,
    ensures
        after.len() == before.len() + 1,
        forall|k: int| 0 <= k < after.len() ==> #[trigger] after[k].phase == k + 1,
{
    assert(results_view(after).len() == after.len());
    assert forall|k: int| 0 <= k < after.len() implies #[trigger] after[k].phase == k + 1 by {
        assert(results_view(after)[k] == after[k]@);
        if k < before.len() {
            assert(results_view(before)[k] == before[k]@);
        }
    }
}

fn event(event_type: &str, d: EventDetails) -> (a: Action)
    ensures
        sends(a, event_type@),
        event_details(a) == d,
{
    Action::SendEvent { event_type: String::from_str(event_type), details: d }
}

fn phase_event(phase: u8, status: &str, d: EventDetails) -> (a: Action)
    ensures
        sends(a, spec_phase_event_type(phase, status@)),
        event_details(a) == d,
{
    Action::SendEvent { event_type: phase_event_type(phase, status), details: d }
}

fn error_event(msg: String) -> (a: Action)
    ensures
        sends_error(a, msg@),
{
    event("SIMULATION_ERROR", EventDetails::Error { error: msg })
}

impl Pipeline {
    /// A run not yet begun, with the settings of `cfg`, the request `params`
    /// and the identifiers of the simulation.
    pub fn new(
        cfg: &Config,
        params: StartParams,
        simulation_id: String,
        simulation_token: String,
    ) -> (p: Self)
        ensures
            p.wf(),
            p.stage == Stage::Launch,
            p.params == params,
            p.simulation_id == simulation_id,
            p.simulation_token == simulation_token,
            p.dry_run == cfg.dry_run,
            p.phase1_scenario == cfg.phase1_scenario,
            p.phase2_scenario == cfg.phase2_scenario,
            p.phase3_scenario == cfg.phase3_scenario,
            p.sandbox_cidr == cfg.sandbox_cidr,
            p.min_phases_ok == cfg.min_phases_ok_for_success,
            p.configured_global_max == cfg.global_max_duration_secs,
            p.max_duration == 0,
            p.global_max == 0,
            p.phase_duration == 0,
            p.detect_timeout == 0,
            p.results@.len() == 0,
            p.weak is None,
            !p.overall_success,
            p.counted@ == 0,
    {
        Pipeline {
            stage: Stage::Launch,
            params,
            simulation_id,
            simulation_token,
            dry_run: cfg.dry_run,
            phase1_scenario: cfg.phase1_scenario.clone(),
            phase2_scenario: cfg.phase2_scenario.clone(),
            phase3_scenario: cfg.phase3_scenario.clone(),
            sandbox_cidr: cfg.sandbox_cidr.clone(),
            min_phases_ok: cfg.min_phases_ok_for_success,
            configured_global_max: cfg.global_max_duration_secs,
            max_duration: 0,
            global_max: 0,
            phase_duration: 0,
            detect_timeout: 0,
            results: Vec::new(),
            weak: None,
            overall_success: false,
            counted: Ghost(0),
        }
    }

    /// Whether the run is over.
    pub fn is_done(&self) -> (r: bool)
        ensures
            r == (self.stage == Stage::Done),
    {
        self.stage == Stage::Done
    }

    /// Whether the deadline of the run is armed at this stage.
    pub fn is_timed(&self) -> (r: bool)
        ensures
            r == timed(self.stage),
    {
        match self.stage {
            Stage::Handshake | Stage::NetStart(_) | Stage::NetExec(_) | Stage::NetWait(_)
            | Stage::NetEnd(_) | Stage::AnalyseurStart | Stage::AnalyseurEnd | Stage::CryptoStart
            | Stage::CryptoCert | Stage::CryptoWeak | Stage::CryptoRoundtrip | Stage::CryptoEnd
            | Stage::IntegrityStart | Stage::IntegrityExec | Stage::IntegrityEnd => true,
            _ => false,
        }
    }

    fn phase_scenario_text(&self, p: u8) -> (r: &str)
        ensures
            r@ == self.phase_scenario(p),
    {
        if p == 1 {
            self.phase1_scenario.as_str()
        } else if p == 2 {
            self.phase2_scenario.as_str()
        } else {
            self.phase3_scenario.as_str()
        }
    }

    fn fail(
        &mut self,
        msg: String,
        state: &mut SimulationState,
        metrics: &mut SimulationMetrics,
    ) -> (a: Action)
        requires
            old(self).wf(),
            old(self).stage != Stage::Closing && old(self).stage != Stage::Done,
        ensures
            final(self).wf(),
            fails_with(*old(self), *final(self), final(state)@, old(metrics)@, final(metrics)@, a, msg@),
    {
        metrics.inc_error();
        state.set_fsm(FsmState::Failed);
        state.stop();
        self.stage = Stage::Closing;
        self.counted = Ghost(self.counted@ + 1);
        error_event(msg)
    }

    /// Ends a run whose simulation was stopped and cleared.
    fn abandon(&mut self, state: &SimulationState, metrics: &mut SimulationMetrics) -> (a: Action)
        requires
            old(self).wf(),
            old(self).stage != Stage::Closing && old(self).stage != Stage::Done,
        ensures
            final(self).wf(),
            abandons(*old(self), *final(self), state@, state@, old(metrics)@, final(metrics)@, a),
    {
        metrics.inc_error();
        self.stage = Stage::Closing;
        self.counted = Ghost(self.counted@ + 1);
        error_event(String::from_str("Simulation annulée (C14)"))
    }

    /// Whether the run holds the simulation state at its stage.
    fn holds_state_now(&self) -> (r: bool)
        ensures
            r == holds_state(self.stage),
    {
        match self.stage {
            Stage::Launch | Stage::PreHealth | Stage::Closing | Stage::Done => false,
            _ => true,
        }
    }

    /// Whether `state` still carries the run's simulation token.
    fn owns(&self, state: &SimulationState) -> (r: bool)
        ensures
            r == owns_state(*self, state@),
    {
        match &state.simulation_token {
            Some(t) => *t == self.simulation_token,
            None => false,
        }
    }

    fn begin_network_phase(&mut self, p: u8, state: &mut SimulationState) -> (a: Action)
        requires
            p == 1 || p == 2,
            old(self).wf(),
            old(self).results@.len() == p - 1,
            old(self).stage == Stage::Handshake || old(self).stage == Stage::AnalyseurStart,
        ensures
            final(self).wf(),
            begins_network_phase(*old(self), p, old(state)@, *final(self), final(state)@, a),
    {
        state.set_fsm(
            if p == 1 {
                FsmState::Phase1Filtreur
            } else {
                FsmState::Phase2Analyseur
            },
        );
        let scenario = String::from_str(self.phase_scenario_text(p));
        let duration = max_duration_for(scenario.as_str());
        let detect = effective_detection_timeout(scenario.as_str(), p);
        self.phase_duration = duration;
        self.detect_timeout = detect;
        self.stage = Stage::NetStart(p);
        phase_event(
            p,
            "START",
            EventDetails::PhaseStart {
                scenario,
                target: self.params.target.clone(),
                max_duration_secs: duration,
                detection_timeout_secs: detect,
            },
        )
    }

    fn record_detection(
        &mut self,
        p: u8,
        detected: bool,
        state: &mut SimulationState,
        metrics: &mut SimulationMetrics,
    ) -> (a: Action)
        requires
            old(self).wf(),
            old(self).stage == Stage::NetExec(p) || old(self).stage == Stage::NetWait(p),
        ensures
            final(self).wf(),
            records_detection(
                *old(self),
                p,
                detected,
                old(state)@,
                old(metrics)@,
                *final(self),
                final(state)@,
                final(metrics)@,
                a,
            ),
    {
        metrics.record_phase(p, detected);
        let scenario = String::from_str(self.phase_scenario_text(p));
        let r = network_phase_result(p, scenario.as_str(), detected);
        state.push_phase_result(r.duplicate());
        self.results.push(r);
        assert(results_view(self.results@) =~= results_view(old(self).results@).push(
            detection_verdict(p, old(self).phase_scenario(p), detected),
        ));
        proof {
            lemma_push_in_order(
                old(self).results@,
                self.results@,
                detection_verdict(p, old(self).phase_scenario(p), detected),
            );
        }
        self.stage = Stage::NetEnd(p);
        phase_event(
            p,
            if detected {
                "OK"
            } else {
                "TIMEOUT"
            },
            EventDetails::Scenario { scenario },
        )
    }

    fn report(&self) -> (r: SimulationReport)
        ensures
            r.simulation_id@ == self.simulation_id@,
            results_view(r.phases@) == results_view(self.results@),
            r.overall_success == self.overall_success,
            constraints_view(r.constraints_validated@) == all_constraints(),
    {
        let phases = copy_results(&self.results);
        SimulationReport {
            simulation_id: self.simulation_id.clone(),
            overall_success: self.overall_success,
            phases,
            constraints_validated: constraint_codes(),
        }
    }
}

impl Pipeline {
    /// Steps from `Launch`: counts the run and checks its constraints.
    fn step_launch(
        &mut self,
        cfg: &Config,
        state: &mut SimulationState,
        metrics: &mut SimulationMetrics,
    ) -> (a: Action)
        requires
            old(self).wf(),
            old(self).stage == Stage::Launch,
            reaches_sandbox_check(spec_launch_context(old(self).params, old(state)@.active), *cfg)
                ==> !sandbox_check_overflows(old(self).params.target@, *cfg),
        ensures
            final(self).wf(),
            exists|h: u32|
                h < 24 && transition(
                    *old(self),
                    Event::Start,
                    *cfg,
                    h,
                    old(state)@,
                    old(metrics)@,
                    *final(self),
                    final(state)@,
                    final(metrics)@,
                    a,
                ),
            !cfg.enforce_launch_window ==> transition(
                *old(self),
                Event::Start,
                *cfg,
                0,
                old(state)@,
                old(metrics)@,
                *final(self),
                final(state)@,
                final(metrics)@,
                a,
            ),
    {
        metrics.inc_total();
        let ctx = launch_context(&self.params, state.active);
        let r = validate_all(&ctx, cfg);
        let ghost h = choose|h: u32| h < 24 && outcome(r) == spec_validate(ctx, *cfg, h);
        match r {
            Err(v) => {
                metrics.inc_error();
                self.stage = Stage::Closing;
                self.counted = Ghost(self.counted@ + 1);
                let mut msg = String::from_str(v.constraint);
                msg.append(": ");
                msg.append(v.message.as_str());
                let a = error_event(msg);
                assert(transition(
                    *old(self),
                    Event::Start,
                    *cfg,
                    h,
                    old(state)@,
                    old(metrics)@,
                    *self,
                    state@,
                    metrics@,
                    a,
                ));
                a
            },
            Ok(()) => {
                self.stage = Stage::PreHealth;
                let a = Action::CheckHealth;
                assert(transition(
                    *old(self),
                    Event::Start,
                    *cfg,
                    h,
                    old(state)@,
                    old(metrics)@,
                    *self,
                    state@,
                    metrics@,
                    a,
                ));
                a
            },
        }
    }

    /// Steps from `PreHealth`: on a healthy data centre, starts the
    /// simulation state and notifies the cells (C6).
    fn step_pre_health(
        &mut self,
        ev: Event,
        cfg: &Config,
        state: &mut SimulationState,
        metrics: &mut SimulationMetrics,
    ) -> (a: Action)
        requires
            old(self).wf(),
            old(self).stage == Stage::PreHealth,
            ev is Checked,
        ensures
            final(self).wf(),
            transition(
                *old(self),
                ev,
                *cfg,
                0,
                old(state)@,
                old(metrics)@,
                *final(self),
                final(state)@,
                final(metrics)@,
                a,
            ),
    {
        match ev {
            Event::Checked(Err(e)) => {
                metrics.inc_error();
                self.stage = Stage::Closing;
                self.counted = Ghost(self.counted@ + 1);
                error_event(e)
            },
            _ => {
                let d = effective_max_duration(&self.params);
                self.max_duration = d;
                let started = state.start(
                    self.simulation_id.clone(),
                    self.simulation_token.clone(),
                    self.params.scenario.clone(),
                    self.params.target.clone(),
                    copy_opt(&self.params.authorized_by),
                    d,
                    utc_now_rfc3339(),
                );
                if started.is_err() {
                    metrics.inc_error();
                    self.stage = Stage::Done;
                    self.counted = Ghost(self.counted@ + 1);
                    return Action::Finish;
                }
                self.stage = Stage::Notify;
                event(
                    "C6_CELLULES_NOTIFIEES",
                    EventDetails::Notified {
                        scenario: self.params.scenario.clone(),
                        authorized_by: copy_opt(&self.params.authorized_by),
                    },
                )
            },
        }
    }

    /// Records the verdict of phase 3 on the tests `w` and `rt`.
    fn record_crypto(
        &mut self,
        w: &CryptoTestResult,
        rt: &CryptoTestResult,
        state: &mut SimulationState,
        metrics: &mut SimulationMetrics,
    ) -> (a: Action)
        requires
            old(self).wf(),
            old(self).stage == Stage::CryptoCert || old(self).stage == Stage::CryptoRoundtrip,
        ensures
            final(self).wf(),
            records_crypto(
                *old(self),
                *w,
                *rt,
                old(state)@,
                old(metrics)@,
                *final(self),
                final(state)@,
                final(metrics)@,
                a,
            ),
    {
        let r = crypto_phase_result(self.phase3_scenario.as_str(), w, rt);
        let ok = r.status == PhaseResultStatus::Success;
        metrics.record_phase(3, ok);
        state.push_phase_result(r.duplicate());
        let ghost v = r@;
        self.results.push(r);
        assert(results_view(self.results@) =~= results_view(old(self).results@).push(v));
        proof {
            lemma_push_in_order(old(self).results@, self.results@, v);
        }
        self.stage = Stage::CryptoEnd;
        phase_event(
            3,
            if ok {
                "OK"
            } else {
                "ERROR"
            },
            EventDetails::Scenario { scenario: self.phase3_scenario.clone() },
        )
    }

    /// Steps from a network phase stage (`NetStart`, `NetExec`, `NetWait`,
    /// `NetEnd`).
    fn step_network(
        &mut self,
        ev: Event,
        cfg: &Config,
        state: &mut SimulationState,
        metrics: &mut SimulationMetrics,
    ) -> (a: Action)
        requires
            holds_state(old(self).stage) ==> owns_state(*old(self), old(state)@),
            old(self).wf(),
            old(self).expects(ev),
            !(ev is Expired),
            old(self).stage matches Stage::NetStart(_) || old(self).stage matches Stage::NetExec(_)
                || old(self).stage matches Stage::NetWait(_) || old(self).stage matches Stage::NetEnd(_),
        ensures
            final(self).wf(),
            transition(
                *old(self),
                ev,
                *cfg,
                0,
                old(state)@,
                old(metrics)@,
                *final(self),
                final(state)@,
                final(metrics)@,
                a,
            ),
    {
        match self.stage {
            Stage::NetStart(p) => {
                self.stage = Stage::NetExec(p);
                Action::Execute {
                    scenario: String::from_str(self.phase_scenario_text(p)),
                    target: self.params.target.clone(),
                    duration_secs: self.phase_duration,
                    dry_run: self.dry_run,
                }
            },
            Stage::NetExec(p) => {
                match ev {
                    Event::Checked(Err(msg)) => {
                        metrics.record_phase(p, false);
                        let scenario = String::from_str(self.phase_scenario_text(p));
                        let r = execution_error_result(p, scenario.as_str(), msg.as_str());
                        state.push_phase_result(r.duplicate());
                        self.results.push(r);
                        assert(results_view(self.results@) =~= results_view(
                            old(self).results@,
                        ).push(execution_error_verdict(p, old(self).phase_scenario(p), msg@)));
                        proof {
                            lemma_push_in_order(
                                old(self).results@,
                                self.results@,
                                execution_error_verdict(p, old(self).phase_scenario(p), msg@),
                            );
                        }
                        self.stage = Stage::NetEnd(p);
                        phase_event(p, "ERROR", EventDetails::PhaseError { message: Some(msg) })
                    },
                    _ => {
                        if self.dry_run {
                            self.stage = Stage::NetWait(p);
                            Action::Sleep { secs: 2 }
                        } else if state.cancel_requested {
                            self.record_detection(p, false, state, metrics)
                        } else {
                            state.set_phase_ack_tx();
                            self.stage = Stage::NetWait(p);
                            Action::AwaitAck { timeout_secs: self.detect_timeout }
                        }
                    },
                }
            },
            Stage::NetWait(p) => {
                let acknowledged = match ev {
                    Event::Detected(d) => d,
                    _ => true,
                };
                if acknowledged && !state.cancel_requested {
                    self.record_detection(p, true, state, metrics)
                } else {
                    state.take_phase_ack_tx();
                    self.record_detection(p, false, state, metrics)
                }
            },
            Stage::NetEnd(p) => {
                if p == 1 {
                    if state.cancel_requested {
                        self.fail(String::from_str("Simulation annulée (C14)"), state, metrics)
                    } else {
                        state.set_fsm(FsmState::Phase2Analyseur);
                        self.stage = Stage::AnalyseurStart;
                        Action::AnalyseurStart {
                            perimeter: self.sandbox_cidr.clone(),
                            max_duration_secs: self.max_duration,
                        }
                    }
                } else {
                    self.stage = Stage::AnalyseurEnd;
                    Action::AnalyseurEnd
                }
            },
            _ => Action::Finish,
        }
    }
}

impl Pipeline {
    /// Steps from the stages around the network phases: the announcements,
    /// the handshake and the Analyseur switches.
    fn step_setup(
        &mut self,
        ev: Event,
        cfg: &Config,
        state: &mut SimulationState,
        metrics: &mut SimulationMetrics,
    ) -> (a: Action)
        requires
            holds_state(old(self).stage) ==> owns_state(*old(self), old(state)@),
            old(self).wf(),
            old(self).expects(ev),
            !(ev is Expired),
            old(self).stage == Stage::Notify || old(self).stage == Stage::Announce
                || old(self).stage == Stage::Clocked || old(self).stage == Stage::Handshake
                || old(self).stage == Stage::AnalyseurStart || old(self).stage
                == Stage::AnalyseurEnd,
        ensures
            final(self).wf(),
            transition(
                *old(self),
                ev,
                *cfg,
                0,
                old(state)@,
                old(metrics)@,
                *final(self),
                final(state)@,
                final(metrics)@,
                a,
            ),
    {
        match self.stage {
            Stage::Notify => {
                self.stage = Stage::Announce;
                event(
                    "SIMULATION_START",
                    EventDetails::Scenario { scenario: self.params.scenario.clone() },
                )
            },
            Stage::Announce => {
                let g = global_cap(self.configured_global_max);
                self.global_max = g;
                self.stage = Stage::Clocked;
                Action::StartClock { secs: g }
            },
            Stage::Clocked => {
                state.set_fsm(FsmState::Handshake);
                self.stage = Stage::Handshake;
                Action::Handshake {
                    attack_type: self.phase2_scenario.clone(),
                    target: self.params.target.clone(),
                    max_duration_secs: self.max_duration,
                }
            },
            Stage::Handshake => {
                match ev {
                    Event::Checked(Err(e)) => self.fail(e, state, metrics),
                    _ => self.begin_network_phase(1, state),
                }
            },
            Stage::AnalyseurStart => {
                match ev {
                    Event::Checked(Err(e)) => self.fail(e, state, metrics),
                    _ => self.begin_network_phase(2, state),
                }
            },
            _ => {
                if state.cancel_requested {
                    self.fail(String::from_str("Simulation annulée (C14)"), state, metrics)
                } else {
                    state.set_fsm(FsmState::Phase3Chiffreur);
                    self.stage = Stage::CryptoStart;
                    phase_event(
                        3,
                        "START",
                        EventDetails::CryptoStart { scenario: self.phase3_scenario.clone() },
                    )
                }
            },
        }
    }

    /// Steps from phase 3, the integrity test and the end of the run.
    fn step_closing(
        &mut self,
        ev: Event,
        cfg: &Config,
        state: &mut SimulationState,
        metrics: &mut SimulationMetrics,
    ) -> (a: Action)
        requires
            holds_state(old(self).stage) ==> owns_state(*old(self), old(state)@),
            old(self).wf(),
            old(self).expects(ev),
            !(ev is Expired),
            stage_rank(old(self).stage) >= 16,
        ensures
            final(self).wf(),
            transition(
                *old(self),
                ev,
                *cfg,
                0,
                old(state)@,
                old(metrics)@,
                *final(self),
                final(state)@,
                final(metrics)@,
                a,
            ),
    {
        match self.stage {
            Stage::CryptoStart => {
                self.stage = Stage::CryptoCert;
                Action::Execute {
                    scenario: String::from_str("cert_tls"),
                    target: self.params.target.clone(),
                    duration_secs: 60,
                    dry_run: self.dry_run,
                }
            },
            Stage::CryptoCert => {
                if self.dry_run {
                    proof {
                        reveal_strlit("123456");
                        assert(is_ascii("123456"));
                        is_ascii_spec_bytes("123456");
                    }
                    let w = ChiffreurClient::dry_run_weak_password("123456");
                    let rt = CryptoTestResult::Success;
                    self.record_crypto(&w, &rt, state, metrics)
                } else {
                    self.stage = Stage::CryptoWeak;
                    Action::TestWeakPassword { password: String::from_str("123456") }
                }
            },
            Stage::CryptoWeak => {
                match ev {
                    Event::Crypto(w) => {
                        self.weak = Some(w);
                        self.stage = Stage::CryptoRoundtrip;
                        Action::TestRoundtrip {
                            plaintext: String::from_str("message-test-simulation"),
                        }
                    },
                    _ => Action::Finish,
                }
            },
            Stage::CryptoRoundtrip => {
                match ev {
                    Event::Crypto(rt) => {
                        let w = match &self.weak {
                            Some(w) => w.duplicate(),
                            None => CryptoTestResult::Success,
                        };
                        self.record_crypto(&w, &rt, state, metrics)
                    },
                    _ => Action::Finish,
                }
            },
            Stage::CryptoEnd => {
                self.stage = Stage::IntegrityStart;
                phase_event(
                    4,
                    "START",
                    EventDetails::IntegrityStart { scenario: String::from_str("injection_base") },
                )
            },
            Stage::IntegrityStart => {
                self.stage = Stage::IntegrityExec;
                Action::Execute {
                    scenario: String::from_str("injection_base"),
                    target: self.params.target.clone(),
                    duration_secs: 60,
                    dry_run: self.dry_run,
                }
            },
            Stage::IntegrityExec => {
                self.stage = Stage::IntegrityEnd;
                phase_event(
                    4,
                    "OK",
                    EventDetails::Scenario { scenario: String::from_str("injection_base") },
                )
            },
            Stage::IntegrityEnd => {
                state.set_fsm(FsmState::Reporting);
                let ok_count = count_ok(&self.results);
                self.overall_success = ok_count >= self.min_phases_ok as usize;
                state.phase_results = copy_results(&self.results);
                self.stage = Stage::Reported;
                Action::StopClock
            },
            Stage::Reported => {
                self.stage = Stage::PostHealth;
                Action::CheckHealth
            },
            Stage::PostHealth => {
                match ev {
                    Event::Checked(Err(e)) => {
                        self.stage = Stage::PostHealthWarn;
                        event("C15_POST_HEALTH_WARN", EventDetails::HealthWarning { error: e })
                    },
                    _ => {
                        self.stage = Stage::Ending;
                        let report = self.report();
                        event("SIMULATION_END", EventDetails::Report { report })
                    },
                }
            },
            Stage::PostHealthWarn => {
                self.stage = Stage::Ending;
                let report = self.report();
                event("SIMULATION_END", EventDetails::Report { report })
            },
            Stage::Ending => {
                if self.overall_success {
                    metrics.inc_success();
                } else {
                    metrics.inc_timeout();
                }
                state.set_fsm(FsmState::Idle);
                state.stop();
                self.stage = Stage::Done;
                self.counted = Ghost(self.counted@ + 1);
                Action::Finish
            },
            _ => {
                self.stage = Stage::Done;
                Action::Finish
            },
        }
    }
}

impl Pipeline {
    /// Takes the run one step forward: from the outcome `ev` of the last
    /// action, updates the simulation state and the counters and returns the
    /// next action (see `transition`). The local hour is read at launch,
    /// where the launch window is enforced.
    pub fn step(
        &mut self,
        ev: Event,
        cfg: &Config,
        state: &mut SimulationState,
        metrics: &mut SimulationMetrics,
    ) -> (a: Action)
        requires
            old(self).wf(),
            old(self).expects(ev),
            old(self).stage == Stage::Launch && reaches_sandbox_check(
                spec_launch_context(old(self).params, old(state)@.active),
                *cfg,
            ) ==> !sandbox_check_overflows(old(self).params.target@, *cfg),
        ensures
            final(self).wf(),
            final(self).same_settings(*old(self)),
            old(self).stage == Stage::Done || stage_rank(final(self).stage) > stage_rank(
                old(self).stage,
            ),
            final(self).counted@ == old(self).counted@ + 1 && one_outcome_counted(
                old(metrics)@,
                final(metrics)@,
            ) || final(self).counted@ == old(self).counted@ && no_outcome_counted(
                old(metrics)@,
                final(metrics)@,
            ),
            old(self).stage == Stage::Launch ==> final(metrics)@.simulations_total == bump(
                old(metrics)@.simulations_total,
            ),
            old(self).stage != Stage::Launch ==> final(metrics)@.simulations_total == old(metrics)@.simulations_total,
            2 <= stage_rank(old(self).stage) <= 27 && (final(self).stage == Stage::Closing
                || final(self).stage == Stage::Done) ==> final(state)@ == idle_state() || (
            !owns_state(*old(self), old(state)@) && final(state)@ == old(state)@),
            exists|h: u32|
                h < 24 && transition(
                    *old(self),
                    ev,
                    *cfg,
                    h,
                    old(state)@,
                    old(metrics)@,
                    *final(self),
                    final(state)@,
                    final(metrics)@,
                    a,
                ),
            old(self).stage != Stage::Launch || !cfg.enforce_launch_window ==> transition(
                *old(self),
                ev,
                *cfg,
                0,
                old(state)@,
                old(metrics)@,
                *final(self),
                final(state)@,
                final(metrics)@,
                a,
            ),
    {
        let ghost pre = *self;
        let ghost st = state@;
        let ghost m = metrics@;
        if self.holds_state_now() && !self.owns(state) {
            let a = self.abandon(state, metrics);
            assert(transition(pre, ev, *cfg, 0, st, m, *self, state@, metrics@, a));
            return a;
        }
        if let Event::Expired = ev {
            let mut msg = String::from_str("C14: dépassement durée globale ");
            push_decimal(&mut msg, self.global_max);
            msg.append("s");
            state.request_cancel();
            let a = self.fail(msg, state, metrics);
            assert(transition(pre, ev, *cfg, 0, st, m, *self, state@, metrics@, a));
            return a;
        }
        let a = match self.stage {
            Stage::Launch => self.step_launch(cfg, state, metrics),
            Stage::PreHealth => self.step_pre_health(ev, cfg, state, metrics),
            Stage::NetStart(_) | Stage::NetExec(_) | Stage::NetWait(_) | Stage::NetEnd(_) => {
                self.step_network(ev, cfg, state, metrics)
            },
            Stage::Notify | Stage::Announce | Stage::Clocked | Stage::Handshake
            | Stage::AnalyseurStart | Stage::AnalyseurEnd => {
                self.step_setup(ev, cfg, state, metrics)
            },
            _ => self.step_closing(ev, cfg, state, metrics),
        };
        a
    }
}

/// Every run ends: each step that does not start from `Done` moves the run to
/// a stage of higher rank, and ranks lie between 0 (`Launch`) and 29 (`Done`),
/// so a run reaches `Done` in at most 29 steps.
pub proof fn law_run_ends(p: Pipeline)
    requires
        p.wf(),
    ensures
        0 <= stage_rank(p.stage) <= 29,
        stage_rank(p.stage) == 29 <==> p.stage == Stage::Done,
{
}

/// A run counts exactly one outcome: none before its end, one once it is
/// over (each step counts at most one, see `step`).
pub proof fn law_run_counted_once(p: Pipeline)
    requires
        p.wf(),
    ensures
        p.stage == Stage::Launch ==> p.counted@ == 0,
        p.stage == Stage::Done ==> p.counted@ == 1,
{
}

/// A run holds at most three phase verdicts, in phase order: the verdict of
/// phase `k + 1` stands at position `k` (kept by every step, see `step`).
pub proof fn law_verdicts_in_phase_order(p: Pipeline)
    requires
        p.wf(),
    ensures
        p.results@.len() <= 3,
        forall|k: int| 0 <= k < p.results@.len() ==> #[trigger] p.results@[k].phase == k + 1,
{
}

/// What one step does to the counters: the launch counts the run, and a
/// step counts at most one outcome (success, error or timeout), exactly when
/// it counts one more outcome of the run; stopped runs are not its business.
pub proof fn lemma_step_counters(
    pre: Pipeline,
    ev: Event,
    cfg: Config,
    hour: u32,
    st: StateView,
    m: MetricsSnapshot,
    post: Pipeline,
    st2: StateView,
    m2: MetricsSnapshot,
    a: Action,
)
    requires
        transition(pre, ev, cfg, hour, st, m, post, st2, m2, a),
    ensures
        m2.simulations_total == if pre.stage == Stage::Launch && !(ev is Expired) {
            bump(m.simulations_total)
        } else {
            m.simulations_total
        },
        m2.simulations_stopped == m.simulations_stopped,
        post.counted@ == pre.counted@ + 1 && one_outcome_counted(m, m2) || post.counted@
            == pre.counted@ && no_outcome_counted(m, m2),
        post.stage != Stage::Launch,
{
}

/// A run's trace: pipelines, events, states, counters and actions, each step
/// a `transition` at some hour.
pub open spec fn run_trace(
    ps: Seq<Pipeline>,
    evs: Seq<Event>,
    cfg: Config,
    hours: Seq<u32>,
    sts: Seq<StateView>,
    ms: Seq<MetricsSnapshot>,
    acts: Seq<Action>,
) -> bool {
    &&& ps.len() >= 1
    &&& sts.len() == ps.len()
    &&& ms.len() == ps.len()
    &&& evs.len() == ps.len() - 1
    &&& hours.len() == ps.len() - 1
    &&& acts.len() == ps.len() - 1
    &&& forall|i: int|
        0 <= i < ps.len() - 1 ==> #[trigger] transition(
            ps[i],
            evs[i],
            cfg,
            hours[i],
            sts[i],
            ms[i],
            ps[i + 1],
            sts[i + 1],
            ms[i + 1],
            acts[i],
        )
}

proof fn lemma_trace_counters(
    ps: Seq<Pipeline>,
    evs: Seq<Event>,
    cfg: Config,
    hours: Seq<u32>,
    sts: Seq<StateView>,
    ms: Seq<MetricsSnapshot>,
    acts: Seq<Action>,
    n: int,
)
    requires
        run_trace(ps, evs, cfg, hours, sts, ms, acts),
        forall|i: int| 0 <= i < ps.len() ==> (#[trigger] ps[i]).wf(),
        forall|i: int| 0 <= i < evs.len() ==> #[trigger] ps[i].expects(evs[i]),
        ps[0].stage == Stage::Launch,
        1 <= n < ps.len(),
    ensures
        ms[n].simulations_total == bump(ms[0].simulations_total),
        ms[n].simulations_stopped == ms[0].simulations_stopped,
        ps[n].counted@ == 1 && one_outcome_counted(ms[0], ms[n]) || ps[n].counted@ == 0
            && no_outcome_counted(ms[0], ms[n]),
    decreases n,
{
    let k = n - 1;
    assert(transition(ps[k], evs[k], cfg, hours[k], sts[k], ms[k], ps[k + 1], sts[k + 1], ms[k + 1], acts[k]));
    lemma_step_counters(ps[k], evs[k], cfg, hours[k], sts[k], ms[k], ps[n], sts[n], ms[n], acts[k]);
    assert(ps[k].wf());
    assert(ps[n].wf());
    if n > 1 {
        lemma_trace_counters(ps, evs, cfg, hours, sts, ms, acts, k);
        assert(ps[k].stage != Stage::Launch) by {
            let j = k - 1;
            assert(transition(ps[j], evs[j], cfg, hours[j], sts[j], ms[j], ps[j + 1], sts[j + 1], ms[j + 1], acts[j]));
            lemma_step_counters(ps[j], evs[j], cfg, hours[j], sts[j], ms[j], ps[k], sts[k], ms[k], acts[j]);
        }
    } else {
        assert(ps[0].counted@ == 0);
        assert(ps[0].expects(evs[0]));
        assert(!(evs[0] is Expired));
    }
}

/// Over a whole run, from its launch to its end, the counters go up by one
/// launched run and by exactly one outcome (success, error or timeout); the
/// count of stopped runs is untouched.
pub proof fn law_run_counts_once(
    ps: Seq<Pipeline>,
    evs: Seq<Event>,
    cfg: Config,
    hours: Seq<u32>,
    sts: Seq<StateView>,
    ms: Seq<MetricsSnapshot>,
    acts: Seq<Action>,
)
    requires
        run_trace(ps, evs, cfg, hours, sts, ms, acts),
        forall|i: int| 0 <= i < ps.len() ==> (#[trigger] ps[i]).wf(),
        forall|i: int| 0 <= i < evs.len() ==> #[trigger] ps[i].expects(evs[i]),
        ps[0].stage == Stage::Launch,
        ps.last().stage == Stage::Done,
    ensures
        ms.last().simulations_total == bump(ms[0].simulations_total),
        one_outcome_counted(ms[0], ms.last()),
        ms.last().simulations_stopped == ms[0].simulations_stopped,
{
    assert(ps.len() > 1);
    lemma_trace_counters(ps, evs, cfg, hours, sts, ms, acts, ps.len() - 1);
    assert(ps[ps.len() - 1].wf());
}

/// A dry run never waits for the Décideur: no step of a dry run asks to
/// await a phase acknowledgement, and none opens the acknowledgement slot.
pub proof fn law_dry_run_never_awaits_ack(
    pre: Pipeline,
    ev: Event,
    cfg: Config,
    hour: u32,
    st: StateView,
    m: MetricsSnapshot,
    post: Pipeline,
    st2: StateView,
    m2: MetricsSnapshot,
    a: Action,
)
    requires
        pre.dry_run,
        transition(pre, ev, cfg, hour, st, m, post, st2, m2, a),
    ensures
        !(a is AwaitAck),
        st2.phase_ack_pending ==> st.phase_ack_pending,
{
}

/// A dry run asks the Chiffreur nothing, and its phase 3 succeeds: from
/// `CryptoCert` the weak password counts as refused and the round trip as
/// done, so a successful verdict is counted and recorded.
pub proof fn law_dry_run_crypto_phase_succeeds(
    pre: Pipeline,
    ev: Event,
    cfg: Config,
    hour: u32,
    st: StateView,
    m: MetricsSnapshot,
    post: Pipeline,
    st2: StateView,
    m2: MetricsSnapshot,
    a: Action,
)
    requires
        pre.wf(),
        pre.dry_run,
        transition(pre, ev, cfg, hour, st, m, post, st2, m2, a),
    ensures
        !(a is TestWeakPassword),
        !(a is TestRoundtrip),
        pre.stage == Stage::CryptoCert && !(ev is Expired) && owns_state(pre, st) ==> {
            &&& post.stage == Stage::CryptoEnd
            &&& results_view(post.results@).last() == detection_verdict(
                3,
                pre.phase3_scenario@,
                true,
            )
            &&& m2 == record_phase_spec(m, 3, true)
        },
{
    if pre.stage == Stage::CryptoCert && !(ev is Expired) && owns_state(pre, st) {
        assert(records_crypto(
            pre,
            CryptoTestResult::RejectedAsExpected,
            CryptoTestResult::Success,
            st,
            m,
            post,
            st2,
            m2,
            a,
        ));
        assert(crypto_ok(CryptoTestResult::RejectedAsExpected, CryptoTestResult::Success));
        assert(results_view(post.results@) == results_view(pre.results@).push(
            detection_verdict(3, pre.phase3_scenario@, true),
        ));
    }
}

/// A stop requested while a phase waits for its acknowledgement is no
/// detection: whatever released the wait, the phase is recorded and counted
/// as undetected.
pub proof fn law_stop_during_wait_not_detected(
    pre: Pipeline,
    p: u8,
    ev: Event,
    cfg: Config,
    hour: u32,
    st: StateView,
    m: MetricsSnapshot,
    post: Pipeline,
    st2: StateView,
    m2: MetricsSnapshot,
    a: Action,
)
    requires
        pre.stage == Stage::NetWait(p),
        owns_state(pre, st),
        st.cancel_requested,
        !(ev is Expired),
        transition(pre, ev, cfg, hour, st, m, post, st2, m2, a),
    ensures
        post.stage == Stage::NetEnd(p),
        results_view(post.results@).last() == detection_verdict(p, pre.phase_scenario(p), false),
        m2 == record_phase_spec(m, p, false),
        !(sends(a, spec_phase_event_type(p, "OK"@))),
{
    assert(results_view(post.results@) == results_view(pre.results@).push(
        detection_verdict(p, pre.phase_scenario(p), false),
    ));
    reveal_strlit("OK");
    reveal_strlit("TIMEOUT");
    assert("OK"@[0] != "TIMEOUT"@[0]);
    assert(spec_phase_event_type(p, "TIMEOUT"@) != spec_phase_event_type(p, "OK"@)) by {
        let pre_len: int = ("PHASE"@ + decimal(p as nat) + "_"@).len() as int;
        assert(spec_phase_event_type(p, "TIMEOUT"@)[pre_len] == 'T');
        assert(spec_phase_event_type(p, "OK"@)[pre_len] == 'O');
    }
}

/// A stop order is never lost (C14): once the stop route has accepted it and
/// the simulation state was cleared (`SimulationState::stop`, after which the
/// state carries no token of the run), the run's next step closes it, with
/// the cancellation journalled and counted, and the state left as it is.
pub proof fn law_cleared_run_closes(
    pre: Pipeline,
    ev: Event,
    cfg: Config,
    hour: u32,
    st: StateView,
    m: MetricsSnapshot,
    post: Pipeline,
    st2: StateView,
    m2: MetricsSnapshot,
    a: Action,
)
    requires
        holds_state(pre.stage),
        st.simulation_token != Some(pre.simulation_token@),
        transition(pre, ev, cfg, hour, st, m, post, st2, m2, a),
    ensures
        idle_state().simulation_token is None,
        post.stage == Stage::Closing,
        st2 == st,
        m2 == bump_error(m),
        sends_error(a, "Simulation annulée (C14)"@),
{
}

/// 1 when `v` is a successful verdict, else 0.
pub open spec fn success_mark(v: PhaseResultView) -> int {
    if v.status == PhaseResultStatus::Success {
        1
    } else {
        0
    }
}

/// The outcome of a run is decided on its three phase verdicts: it succeeds
/// exactly when at least `min_phases_ok` of them succeeded (two of three with
/// the default of 2), and the report then journals that outcome.
pub proof fn law_run_outcome_from_verdicts(
    pre: Pipeline,
    ev: Event,
    cfg: Config,
    hour: u32,
    st: StateView,
    m: MetricsSnapshot,
    post: Pipeline,
    st2: StateView,
    m2: MetricsSnapshot,
    a: Action,
)
    requires
        pre.wf(),
        pre.stage == Stage::IntegrityEnd,
        owns_state(pre, st),
        !(ev is Expired),
        transition(pre, ev, cfg, hour, st, m, post, st2, m2, a),
    ensures
        post.stage == Stage::Reported,
        pre.results@.len() == 3,
        post.overall_success <==> success_mark(pre.results@[0]@) + success_mark(pre.results@[1]@)
            + success_mark(pre.results@[2]@) >= pre.min_phases_ok,
{
    let v = results_view(pre.results@);
    assert(v.len() == 3);
    assert(v[0] == pre.results@[0]@ && v[1] == pre.results@[1]@ && v[2] == pre.results@[2]@);
    assert(v.drop_last().drop_last().drop_last() =~= Seq::<PhaseResultView>::empty());
    assert(count_successes(v) == success_mark(v[0]) + success_mark(v[1]) + success_mark(v[2])) by {
        reveal_with_fuel(count_successes, 4);
        assert(v.drop_last().last() == v[1]);
        assert(v.drop_last().drop_last().last() == v[0]);
    }
}

/// A report succeeds exactly when at least `min_ok` of its phases succeeded:
/// for three phases, when the successful ones among them reach `min_ok`.
pub proof fn law_report_outcome(phases: Seq<PhaseResultView>, min_ok: u8)
    requires
        phases.len() == 3,
    ensures
        run_succeeds(phases, min_ok) <==> success_mark(phases[0]) + success_mark(phases[1])
            + success_mark(phases[2]) >= min_ok,
{
    assert(phases.drop_last().drop_last().drop_last() =~= Seq::<PhaseResultView>::empty());
    reveal_with_fuel(count_successes, 4);
    assert(phases.drop_last().last() == phases[1]);
    assert(phases.drop_last().drop_last().last() == phases[0]);
}

/// The detection timeout of a phase is the larger of the scenario's and the
/// phase's, and the ceiling of a run the smaller of the configured one and
/// the catalogue's 900 s.
pub proof fn law_timeout_bounds(scenario: Seq<char>, phase: u8, configured: u64)
    ensures
        ({
            let t = max_u64(spec_detection_timeout_for(scenario), spec_detection_timeout_for_phase(phase));
            &&& t >= spec_detection_timeout_for(scenario)
            &&& t >= spec_detection_timeout_for_phase(phase)
            &&& (t == spec_detection_timeout_for(scenario) || t == spec_detection_timeout_for_phase(phase))
        }),
        ({
            let g = min_u64(configured, catalog_timeouts().global_pipeline_max_secs);
            &&& g <= configured
            &&& g <= 900
            &&& (g == configured || g == 900)
        }),
{
}

/// Phase 3 passes exactly when the weak password was refused (or the test
/// otherwise passed) and the encryption round trip succeeded; a failure
/// carries the two verdicts' debug texts.
pub proof fn law_crypto_verdict(scenario: Seq<char>, weak: CryptoTestResult, roundtrip: CryptoTestResult)
    ensures
        crypto_verdict(scenario, weak, roundtrip).phase == 3,
        crypto_verdict(scenario, weak, roundtrip).scenario == scenario,
        crypto_verdict(scenario, weak, roundtrip).status == PhaseResultStatus::Success <==> (
        weak is RejectedAsExpected || weak is Success) && roundtrip is Success,
        crypto_verdict(scenario, weak, roundtrip).status != PhaseResultStatus::Success ==> (
        crypto_verdict(scenario, weak, roundtrip).status == PhaseResultStatus::Error
            && crypto_verdict(scenario, weak, roundtrip).message == Some(
            "weak="@ + crypto_debug_text(weak) + ", roundtrip="@ + crypto_debug_text(roundtrip),
        )),
{
}

/// The verdict of network phase `p`: success when the attack was detected,
/// timeout otherwise, with no text attached.
pub proof fn law_detection_verdict(p: u8, scenario: Seq<char>, detected: bool)
    ensures
        detection_verdict(p, scenario, detected).phase == p,
        detection_verdict(p, scenario, detected).scenario == scenario,
        detection_verdict(p, scenario, detected).status == if detected {
            PhaseResultStatus::Success
        } else {
            PhaseResultStatus::Timeout
        },
        detection_verdict(p, scenario, detected).message is None,
{
}

/// A refused launch touches no simulation state: it is counted as launched
/// and failed, its violation journalled (`C<n>: message`), and the run closes.
pub proof fn law_refused_launch_keeps_state(
    pre: Pipeline,
    ev: Event,
    cfg: Config,
    hour: u32,
    st: StateView,
    m: MetricsSnapshot,
    post: Pipeline,
    st2: StateView,
    m2: MetricsSnapshot,
    a: Action,
)
    requires
        pre.stage == Stage::Launch,
        ev is Start,
        spec_validate(spec_launch_context(pre.params, st.active), cfg, hour) is Some,
        transition(pre, ev, cfg, hour, st, m, post, st2, m2, a),
    ensures
        st2 == st,
        m2 == bump_error(bump_total(m)),
        post.stage == Stage::Closing,
        ({
            let v = spec_validate(spec_launch_context(pre.params, st.active), cfg, hour)->0;
            sends_error(a, v.constraint + ": "@ + v.message)
        }),
{
}

/// Past the deadline of a run (C14), whatever it was doing, a run that still
/// holds its simulation fails:
/// the overrun is journalled, counted as an error, the simulation state is
/// cleared and the run closes.
pub proof fn law_deadline_fails_run(
    pre: Pipeline,
    cfg: Config,
    hour: u32,
    st: StateView,
    m: MetricsSnapshot,
    post: Pipeline,
    st2: StateView,
    m2: MetricsSnapshot,
    a: Action,
)
    requires
        holds_state(pre.stage) ==> owns_state(pre, st),
        transition(pre, Event::Expired, cfg, hour, st, m, post, st2, m2, a),
    ensures
        sends_error(a, "C14: dépassement durée globale "@ + decimal(pre.global_max as nat) + "s"@),
        m2 == bump_error(m),
        st2 == idle_state(),
        post.stage == Stage::Closing,
{
}

/// Delivers the Décideur's acknowledgement of the current phase; tells
/// whether the pipeline was waiting for it.
pub fn signal_phase_ack(state: &mut SimulationState) -> (r: bool)
    ensures
        r == old(state)@.phase_ack_pending,
        final(state)@ == (StateView { phase_ack_pending: false, ..old(state)@ }),
{
    state.signal_phase_ack()
}

/// Asks the running pipeline to stop; tells whether it was waiting for an
/// acknowledgement (which the stop releases).
pub fn request_stop(state: &mut SimulationState) -> (r: bool)
    ensures
        r == old(state)@.phase_ack_pending,
        final(state)@ == (StateView {
            cancel_requested: true,
            phase_ack_pending: false,
            ..old(state)@
        }),
{
    state.request_cancel()
}

} // verus!
