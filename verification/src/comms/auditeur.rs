//! The client of the Auditeur, which journals every event of a simulation;
//! an event it does not take is kept in a local backup file.

use crate::comms::http::{HttpOutcome, endpoint, spec_succeeded};
use crate::text::{decimal, push_decimal};
use vstd::prelude::*;
use vstd::string::*;

verus! {

/// Where and how the Auditeur is reached, and where events are kept when it
/// does not take them.
#[derive(Debug)]
pub struct AuditeurClient {
    pub url: String,
    pub token: String,
    pub backup_path: String,
    pub dry_run: bool,
}

/// The type of the event that reports `status` for phase `phase`.
pub open spec fn spec_phase_event_type(phase: u8, status: Seq<char>) -> Seq<char> {
    "PHASE"@ + decimal(phase as nat) + "_"@ + status
}

/// The type of the event that reports `status` for phase `phase`:
/// `PHASE<n>_<status>`.
pub fn phase_event_type(phase: u8, status: &str) -> (r: String)
    ensures
        r@ == spec_phase_event_type(phase, status@),
{
    let mut r = String::from_str("PHASE");
    push_decimal(&mut r, phase as u64);
    r.append("_");
    r.append(status);
    r
}

impl AuditeurClient {
    pub fn new(url: String, token: String, backup_path: String, dry_run: bool) -> (r: Self)
        ensures
            r.url@ == url@,
            r.token@ == token@,
            r.backup_path@ == backup_path@,
            r.dry_run == dry_run,
    {
        AuditeurClient { url, token, backup_path, dry_run }
    }

    /// The endpoint of events.
    pub fn events_endpoint(&self) -> (r: String)
        ensures
            r@ == self.url@ + "/events"@,
    {
        endpoint(self.url.as_str(), "/events")
    }

    /// An event goes to the local backup unless the Auditeur took it with a
    /// 2xx answer.
    pub fn needs_backup(&self, outcome: &HttpOutcome) -> (r: bool)
        ensures
            r == !spec_succeeded(*outcome),
    {
        !outcome.succeeded()
    }
}

} // verus!
