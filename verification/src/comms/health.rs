//! C7 and C15: the health of the data centre, read from the Décideur and
//! the Analyseur.

use crate::comms::http::{HttpOutcome, endpoint, error_of, is_success};
use crate::config::Config;
use vstd::prelude::*;
use vstd::string::*;

verus! {

/// The health checks are made only outside dry runs, where enforced.
pub open spec fn spec_health_checks_skipped(cfg: Config) -> bool {
    cfg.dry_run || !cfg.enforce_health_checks
}

/// Whether the health checks are skipped.
pub fn health_checks_skipped(cfg: &Config) -> (r: bool)
    ensures
        r == spec_health_checks_skipped(*cfg),
{
    cfg.dry_run || !cfg.enforce_health_checks
}

/// The agents to ask, in order, with the health endpoint of each: the
/// Décideur, then the Analyseur; none where the checks are skipped.
pub fn health_targets(cfg: &Config) -> (r: Vec<(String, String)>)
    ensures
        spec_health_checks_skipped(*cfg) ==> r.len() == 0,
        !spec_health_checks_skipped(*cfg) ==> r.len() == 2 && r@[0].0@ == "decideur"@ && r@[0].1@
            == cfg.decideur_url@ + "/health"@ && r@[1].0@ == "analyseur"@ && r@[1].1@
            == cfg.analyseur_url@ + "/health"@,
{
    let mut r: Vec<(String, String)> = Vec::new();
    if health_checks_skipped(cfg) {
        return r;
    }
    r.push((String::from_str("decideur"), endpoint(cfg.decideur_url.as_str(), "/health")));
    r.push((String::from_str("analyseur"), endpoint(cfg.analyseur_url.as_str(), "/health")));
    r
}

/// The error that the health answer `o` of the agent `name` reports, if any.
pub open spec fn health_error(name: Seq<char>, o: HttpOutcome) -> Option<Seq<char>> {
    match o {
        HttpOutcome::Failed(e) => Some("C7: "@ + name + " injoignable: "@ + e@),
        HttpOutcome::Status { code, text } => if is_success(code) {
            None
        } else {
            Some("C7: "@ + name + " état non nominal HTTP "@ + text@)
        },
    }
}

/// The reading of the health answer of the agent `name`.
pub fn health_verdict(name: &str, outcome: &HttpOutcome) -> (r: Result<(), String>)
    ensures
        error_of(r) == health_error(name@, *outcome),
{
    match outcome {
        HttpOutcome::Failed(e) => {
            let mut m = String::from_str("C7: ");
            m.append(name);
            m.append(" injoignable: ");
            m.append(e.as_str());
            Err(m)
        },
        HttpOutcome::Status { code, text } => {
            if 200 <= *code && *code <= 299 {
                Ok(())
            } else {
                let mut m = String::from_str("C7: ");
                m.append(name);
                m.append(" état non nominal HTTP ");
                m.append(text.as_str());
                Err(m)
            }
        },
    }
}

/// The agents asked for their health, in order, with their endpoints.
pub open spec fn spec_health_targets(cfg: Config) -> Seq<(Seq<char>, Seq<char>)> {
    if spec_health_checks_skipped(cfg) {
        seq![]
    } else {
        seq![
            ("decideur"@, cfg.decideur_url@ + "/health"@),
            ("analyseur"@, cfg.analyseur_url@ + "/health"@),
        ]
    }
}

/// What the health check does next.
#[derive(Debug)]
pub enum HealthNext {
    /// Ask the agent `name` at `url` (with the agent token).
    Ask { name: String, url: String },
    /// The check is over, with this result.
    Done(Result<(), String>),
}

/// The next move of the health check once `asked` agents were asked, the
/// last of them answering `last`: it stops at the first unhealthy answer with
/// its error, else asks the next agent, else ends healthy.
pub fn health_next(cfg: &Config, asked: usize, last: Option<&HttpOutcome>) -> (r: HealthNext)
    requires
        asked <= spec_health_targets(*cfg).len(),
        last is Some <==> asked > 0,
    ensures
        ({
            let t = spec_health_targets(*cfg);
            if last is Some && health_error(t[asked - 1].0, *last->0) is Some {
                r matches HealthNext::Done(Err(e)) && e@ == health_error(t[asked - 1].0, *last->0)->0
            } else if asked < t.len() {
                r matches HealthNext::Ask { name, url } && name@ == t[asked as int].0 && url@
                    == t[asked as int].1
            } else {
                r matches HealthNext::Done(Ok(_))
            }
        }),
{
    let targets = health_targets(cfg);
    let ghost t = spec_health_targets(*cfg);
    assert(targets.len() == t.len());
    assert(forall|k: int| 0 <= k < t.len() ==> targets@[k].0@ == t[k].0 && targets@[k].1@ == t[k].1);
    if let Some(o) = last {
        let prev = &targets[asked - 1];
        if let Err(e) = health_verdict(prev.0.as_str(), o) {
            return HealthNext::Done(Err(e));
        }
    }
    if asked < targets.len() {
        let next = &targets[asked];
        HealthNext::Ask { name: next.0.clone(), url: next.1.clone() }
    } else {
        HealthNext::Done(Ok(()))
    }
}

/// An agent counts as healthy only when it answers its health endpoint
/// with a status from 200 to 299; an agent that cannot be reached never
/// does. Any other answer is reported with the status as displayed.
pub proof fn law_healthy_only_on_2xx(name: Seq<char>, code: u16, text: String, e: String)
    ensures
        health_error(name, HttpOutcome::Status { code, text }) is None <==> 200 <= code && code
            <= 299,
        !(200 <= code && code <= 299) ==> health_error(name, HttpOutcome::Status { code, text })
            == Some("C7: "@ + name + " état non nominal HTTP "@ + text@),
        health_error(name, HttpOutcome::Failed(e)) is Some,
{
}

} // verus!
