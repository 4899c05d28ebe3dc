//! Identifiers of requests, simulations and simulation tokens.

use crate::clock::{UtcFields, utc_now_fields};
use crate::text::{decimal, hex_padded, push_char, push_hex_padded, push_zero_padded, zero_padded};
use vstd::prelude::*;
use vstd::string::*;

verus! {

/// The suffix that makes identifiers unique: a clock reading `nanos` mixed
/// with the sequence number `n` (multiplied by 0x9E3779B9, wrapping).
pub open spec fn spec_unique_suffix(nanos: u64, n: u64) -> u64 {
    nanos ^ (((n as nat * 0x9E37_79B9nat) % 0x1_0000_0000_0000_0000nat) as u64)
}

/// Mixes a clock reading with a sequence number.
pub fn unique_suffix(nanos: u64, n: u64) -> (r: u64)
    ensures
        r == spec_unique_suffix(nanos, n),
{
    nanos ^ n.wrapping_mul(0x9E37_79B9)
}

/// A request identifier: `req-` and the suffix in 16 hexadecimal digits.
pub fn new_request_id(suffix: u64) -> (r: String)
    ensures
        r@ == "req-"@ + hex_padded(suffix as nat, 16),
{
    let mut r = String::from_str("req-");
    push_hex_padded(&mut r, suffix, 16);
    r
}

/// A simulation token: `SIM-TOKEN-` and the suffix in 16 hexadecimal digits.
pub fn new_simulation_token(suffix: u64) -> (r: String)
    ensures
        r@ == "SIM-TOKEN-"@ + hex_padded(suffix as nat, 16),
{
    let mut r = String::from_str("SIM-TOKEN-");
    push_hex_padded(&mut r, suffix, 16);
    r
}

/// A year as `%Y` writes it: four digits from 0 to 9999, else a sign and at
/// least four digits.
pub open spec fn year_text(y: i32) -> Seq<char> {
    if 0 <= y <= 9999 {
        zero_padded(y as nat, 4)
    } else if y > 9999 {
        seq!['+'] + zero_padded(y as nat, 4)
    } else {
        seq!['-'] + zero_padded((-y) as nat, 4)
    }
}

/// The identifier of a simulation started at `f` (UTC):
/// `SIM-YYYYMMDD-HHMMSS`, a leap second written 60.
pub open spec fn simulation_id_text(f: UtcFields) -> Seq<char> {
    "SIM-"@ + year_text(f.year) + zero_padded(f.month as nat, 2) + zero_padded(f.day as nat, 2)
        + "-"@ + zero_padded(f.hour as nat, 2) + zero_padded(f.minute as nat, 2) + zero_padded(
        (f.second + f.nanosecond / 1_000_000_000) as nat,
        2,
    )
}

/// The identifier of a simulation started at `f`.
pub fn format_simulation_id(f: &UtcFields) -> (r: String)
    requires
        f.second < 60,
        f.nanosecond < 2_000_000_000,
    ensures
        r@ == simulation_id_text(*f),
{
    let mut r = String::from_str("SIM-");
    let y = f.year;
    if 0 <= y && y <= 9999 {
        push_zero_padded(&mut r, y as u64, 4);
    } else if y > 9999 {
        push_char(&mut r, '+');
        push_zero_padded(&mut r, y as u64, 4);
    } else {
        push_char(&mut r, '-');
        let a: i64 = -(y as i64);
        push_zero_padded(&mut r, a as u64, 4);
    }
    push_zero_padded(&mut r, f.month as u64, 2);
    push_zero_padded(&mut r, f.day as u64, 2);
    r.append("-");
    push_zero_padded(&mut r, f.hour as u64, 2);
    push_zero_padded(&mut r, f.minute as u64, 2);
    push_zero_padded(&mut r, (f.second + f.nanosecond / 1_000_000_000) as u64, 2);
    r
}

/// The identifier of a simulation starting now (UTC).
pub fn new_simulation_id() -> (r: String)
    ensures
        exists|f: UtcFields| r@ == simulation_id_text(f),
{
    let f = utc_now_fields();
    format_simulation_id(&f)
}

} // verus!
