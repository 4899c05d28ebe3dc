//! Authentication of the callers by the `X-Agent-Token` header.

use crate::text::str_eq;
use vstd::prelude::*;

verus! {

/// Who calls a route.
#[derive(Debug, Clone, Copy, PartialEq, Eq, Structural)]
pub enum CallerRole {
    Auditeur,
    Decideur,
}

/// The refusals and acceptances that the routes answer with.
#[derive(Debug, Clone, Copy, PartialEq, Eq, Structural)]
pub enum ApiStatus {
    /// 202: the launch was accepted.
    Accepted,
    /// 403: the caller is not authorised.
    Forbidden,
    /// 404: no such simulation.
    NotFound,
    /// 409: a simulation is already running.
    Conflict,
}

impl ApiStatus {
    /// The HTTP status code.
    pub fn code(self) -> (r: u16)
        ensures
            r == match self {
                ApiStatus::Accepted => 202u16,
                ApiStatus::Forbidden => 403u16,
                ApiStatus::NotFound => 404u16,
                ApiStatus::Conflict => 409u16,
            },
    {
        match self {
            ApiStatus::Accepted => 202,
            ApiStatus::Forbidden => 403,
            ApiStatus::NotFound => 404,
            ApiStatus::Conflict => 409,
        }
    }
}

/// A header byte that may stand in header text: visible ASCII or a tab.
pub open spec fn is_visible_ascii(b: u8) -> bool {
    (32 <= b && b < 127) || b == 9
}

/// The text of a header value: its bytes read as ASCII, where all are
/// visible ASCII or tabs (what `HeaderValue::to_str` accepts).
pub open spec fn header_text(bytes: Seq<u8>) -> Option<Seq<char>> {
    if forall|i: int| 0 <= i < bytes.len() ==> is_visible_ascii(#[trigger] bytes[i]) {
        Some(bytes.map_values(|b: u8| b as char))
    } else {
        None
    }
}

/// The token that a request presents: the header's text, or empty when the
/// header is not text.
pub open spec fn presented_token(bytes: Seq<u8>) -> Seq<char> {
    match header_text(bytes) {
        Some(t) => t,
        None => Seq::empty(),
    }
}

/// Whether the `X-Agent-Token` header (its bytes, if present) carries the
/// expected token.
pub open spec fn token_accepted(header: Option<Seq<u8>>, expected: Seq<char>) -> bool {
    match header {
        Some(b) => presented_token(b) == expected,
        None => false,
    }
}

/// The view of an optional header.
pub open spec fn header_view(h: Option<&Vec<u8>>) -> Option<Seq<u8>> {
    match h {
        Some(b) => Some(b@),
        None => None,
    }
}

/// The text of a header value, if it is text.
pub fn header_value_text(bytes: &Vec<u8>) -> (r: Option<String>)
    ensures
        match header_text(bytes@) {
            Some(t) => r matches Some(s) && s@ == t,
            None => r is None,
        },
{
    let mut s = String::new();
    let mut i: usize = 0;
    while i < bytes.len()
        invariant
            i <= bytes.len(),
            forall|k: int| 0 <= k < i ==> is_visible_ascii(#[trigger] bytes@[k]),
            s@ == bytes@.take(i as int).map_values(|b: u8| b as char),
        decreases bytes.len() - i,
    {
        let b = bytes[i];
        if !((32 <= b && b < 127) || b == 9) {
            return None;
        }
        crate::text::push_char(&mut s, b as char);
        i = i + 1;
        assert(s@ =~= bytes@.take(i as int).map_values(|b: u8| b as char));
    }
    assert(bytes@.take(bytes.len() as int) =~= bytes@);
    Some(s)
}

/// Whether the caller presented the expected token; refused with 403
/// otherwise. The role plays no part in the check.
pub fn check_token(header: Option<&Vec<u8>>, expected: &str, role: CallerRole) -> (r: Result<
    (),
    ApiStatus,
>)
    ensures
        token_accepted(header_view(header), expected@) ==> r is Ok,
        !token_accepted(header_view(header), expected@) ==> r == Err::<(), ApiStatus>(
            ApiStatus::Forbidden,
        ),
{
    match header {
        Some(b) => {
            let token = match header_value_text(b) {
                Some(t) => t,
                None => String::new(),
            };
            if str_eq(token.as_str(), expected) {
                Ok(())
            } else {
                Err(ApiStatus::Forbidden)
            }
        },
        None => Err(ApiStatus::Forbidden),
    }
}

/// The check of a route that the Auditeur calls.
pub fn check_auditeur(header: Option<&Vec<u8>>, token: &str) -> (r: Result<(), ApiStatus>)
    ensures
        token_accepted(header_view(header), token@) ==> r is Ok,
        !token_accepted(header_view(header), token@) ==> r == Err::<(), ApiStatus>(
            ApiStatus::Forbidden,
        ),
{
    check_token(header, token, CallerRole::Auditeur)
}

/// The check of a route that the Décideur calls.
pub fn check_decideur(header: Option<&Vec<u8>>, token: &str) -> (r: Result<(), ApiStatus>)
    ensures
        token_accepted(header_view(header), token@) ==> r is Ok,
        !token_accepted(header_view(header), token@) ==> r == Err::<(), ApiStatus>(
            ApiStatus::Forbidden,
        ),
{
    check_token(header, token, CallerRole::Decideur)
}

} // verus!
