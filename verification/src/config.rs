//! The agent's configuration and the values it takes by default.

use crate::text::{eq_ignore_ascii_case, str_eq, str_eq_ignore_ascii_case};
use vstd::prelude::*;

verus! {

/// Where the other agents listen, which checks are enforced and how the
/// pipeline is parameterised.
#[derive(Debug)]
pub struct Config {
    pub agent_token: String,
    pub decideur_token: Option<String>,
    pub auditeur_url: String,
    pub decideur_url: String,
    pub analyseur_url: String,
    pub chiffreur_url: String,
    pub trusted_ca: Option<String>,
    pub simulateur_whitelist: Vec<String>,
    pub sandbox_cidr: String,
    pub production_cidrs: Vec<String>,
    pub dry_run: bool,
    pub detection_timeout_secs: u64,
    pub phase1_scenario: String,
    pub phase2_scenario: String,
    pub phase3_scenario: String,
    pub min_phases_ok_for_success: u8,
    pub backup_events_path: String,
    pub listen_port: u16,
    pub require_authorization: bool,
    pub require_authorization_ref: bool,
    pub require_snapshot: bool,
    pub require_rollback_plan: bool,
    pub enforce_launch_window: bool,
    pub enforce_health_checks: bool,
    pub launch_hour_start: u32,
    pub launch_hour_end: u32,
    pub global_max_duration_secs: u64,
}

/// The token that the Décideur presents: its own if configured, else the
/// shared agent token.
pub open spec fn spec_decideur_token(cfg: Config) -> Seq<char> {
    match cfg.decideur_token {
        Some(t) => t@,
        None => cfg.agent_token@,
    }
}

/// The production blocks, as texts.
pub open spec fn production_cidrs_view(cfg: Config) -> Seq<Seq<char>> {
    cfg.production_cidrs@.map_values(|s: String| s@)
}

impl Config {
    /// The token expected from the Décideur.
    pub fn decideur_token(&self) -> (r: &str)
        ensures
            r@ == spec_decideur_token(*self),
    {
        match &self.decideur_token {
            Some(t) => t.as_str(),
            None => self.agent_token.as_str(),
        }
    }
}

/// Dry run unless configured otherwise.
pub fn default_dry_run() -> (r: bool)
    ensures
        r,
{
    true
}

/// 60 s of detection timeout unless configured otherwise.
pub fn default_detection_timeout() -> (r: u64)
    ensures
        r == 60,
{
    60
}

/// Two successful phases make a successful run unless configured otherwise.
pub fn default_min_phases_ok() -> (r: u8)
    ensures
        r == 2,
{
    2
}

/// The agent listens on port 8005 unless configured otherwise.
pub fn default_port() -> (r: u16)
    ensures
        r == 8005,
{
    8005
}

/// The default of the checks that are on unless configured otherwise.
pub fn default_true() -> (r: bool)
    ensures
        r,
{
    true
}

/// Launches are allowed from 8 h unless configured otherwise.
pub fn default_launch_start() -> (r: u32)
    ensures
        r == 8,
{
    8
}

/// Launches are allowed until 22 h unless configured otherwise.
pub fn default_launch_end() -> (r: u32)
    ensures
        r == 22,
{
    22
}

/// A whole run is capped at 900 s unless configured otherwise.
pub fn default_global_max() -> (r: u64)
    ensures
        r == 900,
{
    900
}

/// The dry-run setting that the environment variable `v` asks for: `1`, or
/// `true` in any ASCII case.
pub fn dry_run_override(v: &str) -> (r: bool)
    ensures
        r == (v@ == "1"@ || eq_ignore_ascii_case(v@, "true"@)),
{
    str_eq(v, "1") || str_eq_ignore_ascii_case(v, "true")
}

} // verus!
