//! The client of the Décideur, with which each simulation is announced by a
//! handshake.

use crate::clock::{format_rfc3339_at, rfc3339_at};
use crate::comms::http::{HttpOutcome, endpoint, error_of, required_exchange, required_exchange_result};
use vstd::string::*;
use vstd::prelude::*;

verus! {

/// Where and how the Décideur is reached.
#[derive(Debug)]
pub struct DecideurClient {
    pub url: String,
    pub token: String,
    pub dry_run: bool,
}

/// The body of a handshake: the simulation, the attack and its target (a VM),
/// and the window in which it runs.
#[derive(Debug)]
pub struct HandshakeRequest {
    pub simulation_id: String,
    pub simulation_token: String,
    pub attack_type: String,
    pub target_type: String,
    pub target_value: String,
    pub expected_start: String,
    pub expected_end: String,
}

impl DecideurClient {
    /// The body of the handshake of a simulation read at the time `now_secs`
    /// s and `now_nanos` ns after the Unix epoch: the window starts then and
    /// ends `max_duration_secs` later, both written in RFC 3339. `None` where
    /// chrono holds no such time.
    pub fn handshake_request(
        simulation_id: &str,
        simulation_token: &str,
        attack_type: &str,
        target_value: &str,
        max_duration_secs: u64,
        now_secs: i64,
        now_nanos: u32,
    ) -> (r: Option<HandshakeRequest>)
        requires
            now_secs + max_duration_secs <= i64::MAX,
        ensures
            r is Some <==> rfc3339_at(now_secs, now_nanos) is Some && rfc3339_at(
                (now_secs + max_duration_secs) as i64,
                now_nanos,
            ) is Some,
            r matches Some(q) ==> {
                &&& q.simulation_id@ == simulation_id@
                &&& q.simulation_token@ == simulation_token@
                &&& q.attack_type@ == attack_type@
                &&& q.target_type@ == "vm"@
                &&& q.target_value@ == target_value@
                &&& rfc3339_at(now_secs, now_nanos) == Some(q.expected_start@)
                &&& rfc3339_at((now_secs + max_duration_secs) as i64, now_nanos) == Some(
                    q.expected_end@,
                )
            },
    {
        let end_secs: i64 = ((now_secs as i128) + (max_duration_secs as i128)) as i64;
        let start = match format_rfc3339_at(now_secs, now_nanos) {
            Some(t) => t,
            None => return None,
        };
        let end = match format_rfc3339_at(end_secs, now_nanos) {
            Some(t) => t,
            None => return None,
        };
        Some(
            HandshakeRequest {
                simulation_id: String::from_str(simulation_id),
                simulation_token: String::from_str(simulation_token),
                attack_type: String::from_str(attack_type),
                target_type: String::from_str("vm"),
                target_value: String::from_str(target_value),
                expected_start: start,
                expected_end: end,
            },
        )
    }

    pub fn new(url: String, token: String, dry_run: bool) -> (r: Self)
        ensures
            r.url@ == url@,
            r.token@ == token@,
            r.dry_run == dry_run,
    {
        DecideurClient { url, token, dry_run }
    }

    /// The endpoint of the handshake.
    pub fn handshake_endpoint(&self) -> (r: String)
        ensures
            r@ == self.url@ + "/simulation/handshake"@,
    {
        endpoint(self.url.as_str(), "/simulation/handshake")
    }

    /// The reading of a handshake: it must succeed, except in dry runs.
    pub fn handshake_result(&self, outcome: HttpOutcome) -> (r: Result<(), String>)
        ensures
            error_of(r) == required_exchange(
                outcome,
                self.dry_run,
                "Handshake refusé: HTTP "@,
                "Erreur handshake Décideur: "@,
            ),
    {
        required_exchange_result(
            outcome,
            self.dry_run,
            "Handshake refusé: HTTP ",
            "Erreur handshake Décideur: ",
        )
    }
}

} // verus!
