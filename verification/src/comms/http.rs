//! What an HTTP exchange with another agent came to.

use vstd::prelude::*;
use vstd::string::*;

verus! {

/// The end of an HTTP request: a response with its status, or a failure to
/// get one.
#[derive(Debug)]
pub enum HttpOutcome {
    /// A response; `text` is the status as displayed (code and reason).
    Status { code: u16, text: String },
    /// No response; the text says why.
    Failed(String),
}

/// A status code in the 2xx class.
pub open spec fn is_success(code: u16) -> bool {
    200 <= code <= 299
}

/// A status code in the 4xx class.
pub open spec fn is_client_error(code: u16) -> bool {
    400 <= code <= 499
}

/// Whether the request got a 2xx response.
pub open spec fn spec_succeeded(o: HttpOutcome) -> bool {
    match o {
        HttpOutcome::Status { code, .. } => is_success(code),
        HttpOutcome::Failed(_) => false,
    }
}

impl HttpOutcome {
    /// Whether the request got a 2xx response.
    pub fn succeeded(&self) -> (r: bool)
        ensures
            r == spec_succeeded(*self),
    {
        match self {
            HttpOutcome::Status { code, .. } => 200 <= *code && *code <= 299,
            HttpOutcome::Failed(_) => false,
        }
    }
}

/// An exchange that must succeed except in dry runs: the error it reports,
/// if any (`refused` is followed by the status, `failed` by the reason).
pub open spec fn required_exchange(
    o: HttpOutcome,
    dry_run: bool,
    refused: Seq<char>,
    failed: Seq<char>,
) -> Option<Seq<char>> {
    match o {
        HttpOutcome::Status { code, text } => if is_success(code) || dry_run {
            None
        } else {
            Some(refused + text@)
        },
        HttpOutcome::Failed(e) => if dry_run {
            None
        } else {
            Some(failed + e@)
        },
    }
}

/// The error that a result reports, if any.
pub open spec fn error_of(r: Result<(), String>) -> Option<Seq<char>> {
    match r {
        Ok(_) => None,
        Err(e) => Some(e@),
    }
}

/// Reads an exchange that must succeed except in dry runs.
pub fn required_exchange_result(o: HttpOutcome, dry_run: bool, refused: &str, failed: &str) -> (r:
    Result<(), String>)
    ensures
        error_of(r) == required_exchange(o, dry_run, refused@, failed@),
{
    match o {
        HttpOutcome::Status { code, text } => {
            if (200 <= code && code <= 299) || dry_run {
                Ok(())
            } else {
                let mut e = String::from_str(refused);
                e.append(text.as_str());
                Err(e)
            }
        },
        HttpOutcome::Failed(msg) => {
            if dry_run {
                Ok(())
            } else {
                let mut e = String::from_str(failed);
                e.append(msg.as_str());
                Err(e)
            }
        },
    }
}

/// `base` followed by `path`.
pub fn endpoint(base: &str, path: &str) -> (r: String)
    ensures
        r@ == base@ + path@,
{
    let mut r = String::from_str(base);
    r.append(path);
    r
}

} // verus!
