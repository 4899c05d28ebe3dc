//! The client of the Analyseur, which is switched into simulation mode for
//! the internal traffic of phase 2.

use crate::comms::http::{HttpOutcome, endpoint, error_of, required_exchange, required_exchange_result};
use vstd::prelude::*;

verus! {

/// Where and how the Analyseur is reached.
#[derive(Debug)]
pub struct AnalyseurClient {
    pub url: String,
    pub token: String,
    pub dry_run: bool,
}

impl AnalyseurClient {
    pub fn new(url: String, token: String, dry_run: bool) -> (r: Self)
        ensures
            r.url@ == url@,
            r.token@ == token@,
            r.dry_run == dry_run,
    {
        AnalyseurClient { url, token, dry_run }
    }

    /// The endpoint of `SIM_START` / `SIM_END`.
    pub fn mode_endpoint(&self) -> (r: String)
        ensures
            r@ == self.url@ + "/simulation/mode"@,
    {
        endpoint(self.url.as_str(), "/simulation/mode")
    }

    /// The reading of a mode switch: it must succeed, except in dry runs.
    pub fn mode_result(&self, outcome: HttpOutcome) -> (r: Result<(), String>)
        ensures
            error_of(r) == required_exchange(
                outcome,
                self.dry_run,
                "Analyseur mode refusé: HTTP "@,
                "Erreur Analyseur: "@,
            ),
    {
        required_exchange_result(
            outcome,
            self.dry_run,
            "Analyseur mode refusé: HTTP ",
            "Erreur Analyseur: ",
        )
    }
}

} // verus!
