//! Textual IP addresses and CIDR blocks, read as the standard library's
//! `IpAddr` parser and `u8` parser read them.

use crate::text::{chars_of, lemma_split_on_nonempty, split_on, split_range};
use vstd::prelude::*;

verus! {

/// A parsed IP address. The checks of this crate read the value of IPv4
/// addresses only; of an IPv6 address they use no more than its family.
#[derive(Clone, Copy, Debug, PartialEq, Eq)]
pub enum IpAddress {
    V4(u32),
    V6,
}

pub open spec fn is_digit(c: char) -> bool {
    48 <= c as u32 <= 57
}

pub open spec fn is_hex(c: char) -> bool {
    ||| 48 <= c as u32 <= 57
    ||| 65 <= c as u32 <= 70
    ||| 97 <= c as u32 <= 102
}

pub open spec fn all_digits(s: Seq<char>) -> bool {
    forall|i: int| 0 <= i < s.len() ==> is_digit(#[trigger] s[i])
}

/// The number written by the decimal digits `s`.
pub open spec fn digits_value(s: Seq<char>) -> nat
    decreases s.len(),
{
    if s.len() == 0 {
        0
    } else {
        digits_value(s.drop_last()) * 10 + ((s.last() as u32) - 48) as nat
    }
}

/// One field of a dotted quad: one to three digits, no leading zero unless
/// the field is `0`, at most 255.
pub open spec fn octet(f: Seq<char>) -> Option<u8> {
    if 1 <= f.len() <= 3 && all_digits(f) && !(f.len() > 1 && f[0] == '0') && digits_value(f)
        <= 255 {
        Some(digits_value(f) as u8)
    } else {
        None
    }
}

/// The value of a dotted-quad IPv4 address, most significant octet first.
pub open spec fn parse_ipv4(s: Seq<char>) -> Option<u32> {
    let f = split_on(s, '.');
    if f.len() == 4 && octet(f[0]) is Some && octet(f[1]) is Some && octet(f[2]) is Some && octet(
        f[3],
    ) is Some {
        Some(
            (octet(f[0])->0 as nat * 16777216 + octet(f[1])->0 as nat * 65536 + octet(f[2])->0 as nat
                * 256 + octet(f[3])->0 as nat) as u32,
        )
    } else {
        None
    }
}

/// One to four hexadecimal digits.
pub open spec fn is_hex_group(f: Seq<char>) -> bool {
    1 <= f.len() <= 4 && forall|i: int| 0 <= i < f.len() ==> is_hex(#[trigger] f[i])
}

/// The number of 16-bit units that a `:`-separated list of groups denotes;
/// where `allow_v4`, its last item may be a dotted quad, which counts two.
/// An empty list denotes none.
pub open spec fn group_list_units(x: Seq<char>, allow_v4: bool) -> Option<nat> {
    if x.len() == 0 {
        Some(0)
    } else {
        let f = split_on(x, ':');
        if forall|k: int| 0 <= k < f.len() ==> is_hex_group(#[trigger] f[k]) {
            Some(f.len())
        } else if allow_v4 && (forall|k: int| 0 <= k < f.len() - 1 ==> is_hex_group(#[trigger] f[k]))
            && parse_ipv4(f.last()) is Some {
            Some(f.len() + 1)
        } else {
            None
        }
    }
}

/// `::` starts at position `i` of `s`.
pub open spec fn double_colon_at(s: Seq<char>, i: int) -> bool {
    0 <= i && i + 1 < s.len() && s[i] == ':' && s[i + 1] == ':'
}

/// A textual IPv6 address: eight units, or a `::` (its first occurrence)
/// between a list of groups and a list that may end in a dotted quad, the
/// two together holding at most seven units.
pub open spec fn valid_ipv6(s: Seq<char>) -> bool {
    if exists|i: int| double_colon_at(s, i) {
        exists|i: int|
            #![trigger double_colon_at(s, i)]
            double_colon_at(s, i) && (forall|j: int| 0 <= j < i ==> !double_colon_at(s, j))
                && group_list_units(s.take(i), false) is Some && group_list_units(
                s.skip(i + 2),
                true,
            ) is Some && group_list_units(s.take(i), false)->0 + group_list_units(
                s.skip(i + 2),
                true,
            )->0 <= 7
    } else {
        group_list_units(s, true) == Some(8nat)
    }
}

/// The address written by `s`, IPv4 first.
pub open spec fn parse_ip(s: Seq<char>) -> Option<IpAddress> {
    match parse_ipv4(s) {
        Some(a) => Some(IpAddress::V4(a)),
        None => if valid_ipv6(s) {
            Some(IpAddress::V6)
        } else {
            None
        },
    }
}

/// What `u8::from_str` gives: an optional `+`, then decimal digits whose
/// value is at most 255.
pub open spec fn parse_u8(s: Seq<char>) -> Option<u8> {
    let d = if s.len() > 0 && s[0] == '+' {
        s.drop_first()
    } else {
        s
    };
    if d.len() > 0 && all_digits(d) && digits_value(d) <= 255 {
        Some(digits_value(d) as u8)
    } else {
        None
    }
}

/// The network mask of a prefix length from 1 on.
pub open spec fn v4_mask(prefix: u8) -> u32 {
    if prefix >= 32 {
        0xffff_ffffu32
    } else {
        (0xffff_ffffu32 << ((32 - prefix) as u32)) as u32
    }
}

/// Whether `ip` falls in the block `cidr`. A text that is not two pieces
/// around one `/` lets every address through; an unreadable network or
/// prefix lets none through; an address is never inside a block of the other
/// family; two IPv6 values are not compared (the block holds the address).
pub open spec fn cidr_contains(ip: IpAddress, cidr: Seq<char>) -> bool {
    let parts = split_on(cidr, '/');
    if parts.len() != 2 {
        true
    } else {
        match parse_ip(parts[0]) {
            None => false,
            Some(net) => match parse_u8(parts[1]) {
                None => false,
                Some(p) => match (ip, net) {
                    (IpAddress::V4(a), IpAddress::V4(n)) => a & v4_mask(p) == n & v4_mask(p),
                    (IpAddress::V6, IpAddress::V6) => true,
                    _ => false,
                },
            },
        }
    }
}

/// The IPv4 comparison against `cidr` would shift a 32-bit mask by 32 (a
/// prefix of 0), which overflows.
pub open spec fn cidr_mask_overflows(ip: IpAddress, cidr: Seq<char>) -> bool {
    let parts = split_on(cidr, '/');
    &&& parts.len() == 2
    &&& ip is V4
    &&& parse_ip(parts[0]) matches Some(IpAddress::V4(_))
    &&& parse_u8(parts[1]) == Some(0u8)
}

/// A prefix of a run of digits denotes no more than the whole run.
pub proof fn lemma_digits_value_prefix(s: Seq<char>, k: int)
    requires
        0 <= k <= s.len(),
        all_digits(s),
    ensures
        digits_value(s.take(k)) <= digits_value(s),
    decreases s.len(),
{
    if k < s.len() {
        assert(s.drop_last().take(k) =~= s.take(k));
        lemma_digits_value_prefix(s.drop_last(), k);
    } else {
        assert(s.take(k) =~= s);
    }
}

/// Whether `c` is an ASCII decimal digit.
pub fn is_digit_char(c: char) -> (r: bool)
    ensures
        r == is_digit(c),
{
    let v = c as u32;
    48 <= v && v <= 57
}

/// Whether `c` is an ASCII hexadecimal digit.
pub fn is_hex_char(c: char) -> (r: bool)
    ensures
        r == is_hex(c),
{
    let v = c as u32;
    (48 <= v && v <= 57) || (65 <= v && v <= 70) || (97 <= v && v <= 102)
}

/// The value of the digits `v[lo..hi]` when they are all digits and denote at
/// most 255.
fn small_digits_value(v: &Vec<char>, lo: usize, hi: usize) -> (r: Option<u8>)
    requires
        lo <= hi <= v.len(),
    ensures
        r is Some <==> (all_digits(v@.subrange(lo as int, hi as int)) && digits_value(
            v@.subrange(lo as int, hi as int),
        ) <= 255),
        r matches Some(x) ==> x == digits_value(v@.subrange(lo as int, hi as int)),
{
    let ghost s = v@.subrange(lo as int, hi as int);
    let mut val: u32 = 0;
    let mut i: usize = lo;
    assert(s.take(0) =~= Seq::<char>::empty());
    while i < hi
        invariant
            lo <= i <= hi <= v.len(),
            s == v@.subrange(lo as int, hi as int),
            all_digits(s.take(i - lo)),
            val == digits_value(s.take(i - lo)),
            val <= 255,
        decreases hi - i,
    {
        let c = v[i];
        assert(s.take(i - lo + 1).drop_last() =~= s.take(i - lo));
        assert(s.take(i - lo + 1).last() == c);
        if !is_digit_char(c) {
            assert(!is_digit(s[i - lo]));
            return None;
        }
        let next = val * 10 + ((c as u32) - 48);
        assert(all_digits(s.take(i - lo + 1)));
        if next > 255 {
            proof {
                if all_digits(s) {
                    lemma_digits_value_prefix(s, i - lo + 1);
                    assert(s.take(i - lo + 1).take(i - lo + 1) =~= s.take(i - lo + 1));
                }
            }
            return None;
        }
        val = next;
        i = i + 1;
    }
    assert(s.take(hi - lo) =~= s);
    Some(val as u8)
}

/// One field of a dotted quad.
pub fn parse_octet(f: &Vec<char>) -> (r: Option<u8>)
    ensures
        r == octet(f@),
{
    let n = f.len();
    if n < 1 || n > 3 {
        return None;
    }
    if n > 1 && f[0] == '0' {
        return None;
    }
    assert(f@.subrange(0, n as int) =~= f@);
    small_digits_value(f, 0, n)
}

/// The IPv4 address written by `v[lo..hi]`.
pub fn parse_ipv4_range(v: &Vec<char>, lo: usize, hi: usize) -> (r: Option<u32>)
    requires
        lo <= hi <= v.len(),
    ensures
        r == parse_ipv4(v@.subrange(lo as int, hi as int)),
{
    let f = split_range(v, lo, hi, '.');
    if f.len() != 4 {
        return None;
    }
    let a = parse_octet(&f[0]);
    let b = parse_octet(&f[1]);
    let c = parse_octet(&f[2]);
    let d = parse_octet(&f[3]);
    match (a, b, c, d) {
        (Some(a), Some(b), Some(c), Some(d)) => {
            Some((a as u32) * 16777216 + (b as u32) * 65536 + (c as u32) * 256 + (d as u32))
        },
        _ => None,
    }
}

/// Whether `f` is one to four hexadecimal digits.
pub fn is_hex_group_vec(f: &Vec<char>) -> (r: bool)
    ensures
        r == is_hex_group(f@),
{
    let n = f.len();
    if n < 1 || n > 4 {
        return false;
    }
    let mut i: usize = 0;
    while i < n
        invariant
            n == f.len(),
            i <= n,
            forall|k: int| 0 <= k < i ==> is_hex(#[trigger] f@[k]),
        decreases n - i,
    {
        if !is_hex_char(f[i]) {
            return false;
        }
        i = i + 1;
    }
    true
}

/// `group_list_units` of `v[lo..hi]`.
fn group_list_units_range(v: &Vec<char>, lo: usize, hi: usize, allow_v4: bool) -> (r: Option<
    u128,
>)
    requires
        lo <= hi <= v.len(),
    ensures
        r matches Some(n) ==> group_list_units(v@.subrange(lo as int, hi as int), allow_v4) == Some(
            n as nat,
        ),
        r is None ==> group_list_units(v@.subrange(lo as int, hi as int), allow_v4) is None,
{
    let ghost s = v@.subrange(lo as int, hi as int);
    if lo == hi {
        return Some(0);
    }
    let f = split_range(v, lo, hi, ':');
    let ghost sf = split_on(s, ':');
    proof {
        lemma_split_on_nonempty(s, ':');
    }
    let n = f.len();
    let mut i: usize = 0;
    while i < n && is_hex_group_vec(&f[i])
        invariant
            n == f.len(),
            n == sf.len(),
            n >= 1,
            sf == split_on(s, ':'),
            forall|k: int| 0 <= k < n ==> #[trigger] f[k]@ == sf[k],
            i <= n,
            forall|k: int| 0 <= k < i ==> is_hex_group(#[trigger] sf[k]),
        decreases n - i,
    {
        i = i + 1;
    }
    if i == n {
        return Some(n as u128);
    }
    assert(!is_hex_group(sf[i as int]));
    if allow_v4 && i == n - 1 {
        let last = &f[n - 1];
        assert(last@.subrange(0, last.len() as int) =~= last@);
        let p = parse_ipv4_range(last, 0, last.len());
        if p.is_some() {
            return Some(n as u128 + 1);
        }
    }
    None
}

/// Whether `v[lo..hi]` is a textual IPv6 address.
pub fn valid_ipv6_range(v: &Vec<char>, lo: usize, hi: usize) -> (r: bool)
    requires
        lo <= hi <= v.len(),
    ensures
        r == valid_ipv6(v@.subrange(lo as int, hi as int)),
{
    let ghost s = v@.subrange(lo as int, hi as int);
    let mut i: usize = lo;
    while i < hi && hi - i > 1 && !(v[i] == ':' && v[i + 1] == ':')
        invariant
            lo <= i <= hi <= v.len(),
            s == v@.subrange(lo as int, hi as int),
            forall|j: int| 0 <= j < i - lo ==> !double_colon_at(s, j),
        decreases hi - i,
    {
        i = i + 1;
    }
    if i < hi && hi - i > 1 {
        let k = i - lo;
        assert(double_colon_at(s, k as int));
        assert(s.take(k as int) =~= v@.subrange(lo as int, i as int));
        assert(s.skip(k + 2) =~= v@.subrange(i + 2, hi as int));
        let a = group_list_units_range(v, lo, i, false);
        let b = group_list_units_range(v, i + 2, hi, true);
        let ok = match (a, b) {
            (Some(a), Some(b)) => a <= 7 && b <= 7 - a,
            _ => false,
        };
        proof {
            if !ok {
                assert forall|w: int|
                    #![trigger double_colon_at(s, w)]
                    double_colon_at(s, w) && (forall|j: int| 0 <= j < w ==> !double_colon_at(s, j))
                        implies !(group_list_units(s.take(w), false) is Some && group_list_units(
                    s.skip(w + 2),
                    true,
                ) is Some && group_list_units(s.take(w), false)->0 + group_list_units(
                    s.skip(w + 2),
                    true,
                )->0 <= 7) by {
                    assert(w == k);
                }
            }
        }
        ok
    } else {
        assert forall|j: int| !double_colon_at(s, j) by {
            if 0 <= j < i - lo {
            }
        }
        let u = group_list_units_range(v, lo, hi, true);
        match u {
            Some(n) => n == 8,
            None => false,
        }
    }
}

/// The address written by `v[lo..hi]`.
pub fn parse_ip_range(v: &Vec<char>, lo: usize, hi: usize) -> (r: Option<IpAddress>)
    requires
        lo <= hi <= v.len(),
    ensures
        r == parse_ip(v@.subrange(lo as int, hi as int)),
{
    match parse_ipv4_range(v, lo, hi) {
        Some(a) => Some(IpAddress::V4(a)),
        None => {
            if valid_ipv6_range(v, lo, hi) {
                Some(IpAddress::V6)
            } else {
                None
            }
        },
    }
}

/// The address written by `s` (`IpAddr::from_str`).
pub fn parse_ip_str(s: &str) -> (r: Option<IpAddress>)
    ensures
        r == parse_ip(s@),
{
    let v = chars_of(s);
    assert(v@.subrange(0, v.len() as int) =~= s@);
    parse_ip_range(&v, 0, v.len())
}

/// `u8::from_str` on `v[lo..hi]`.
pub fn parse_u8_range(v: &Vec<char>, lo: usize, hi: usize) -> (r: Option<u8>)
    requires
        lo <= hi <= v.len(),
    ensures
        r == parse_u8(v@.subrange(lo as int, hi as int)),
{
    let ghost s = v@.subrange(lo as int, hi as int);
    let start = if lo < hi && v[lo] == '+' {
        lo + 1
    } else {
        lo
    };
    assert(start > lo ==> s.drop_first() =~= v@.subrange(start as int, hi as int));
    assert(start == lo ==> s =~= v@.subrange(start as int, hi as int));
    if start == hi {
        return None;
    }
    small_digits_value(v, start, hi)
}

/// The mask of a prefix length `p` keeps exactly the `p` leading bits: two
/// IPv4 addresses agree under it exactly when their first `p` bits agree (all
/// 32 bits from a prefix of 32 on).
pub proof fn law_v4_mask_keeps_leading_bits(p: u8, a: u32, n: u32)
    requires
        1 <= p,
    ensures
        p < 32 ==> ((a & v4_mask(p) == n & v4_mask(p)) <==> (a >> ((32 - p) as u32)) == (n >> ((
            32 - p) as u32))),
        p >= 32 ==> ((a & v4_mask(p) == n & v4_mask(p)) <==> a == n),
{
    if p < 32 {
        let sh: u32 = (32 - p) as u32;
        assert(v4_mask(p) == (0xffff_ffffu32 << sh) as u32);
        let mk: u32 = v4_mask(p);
        assert(((a & mk) == (n & mk)) <==> ((a >> sh) == (n >> sh))) by (bit_vector)
            requires
                1 <= sh < 32,
                mk == (0xffff_ffffu32 << sh) as u32,
        ;
    } else {
        let mk: u32 = v4_mask(p);
        assert(mk == 0xffff_ffffu32);
        assert(((a & mk) == (n & mk)) <==> a == n) by (bit_vector)
            requires
                mk == 0xffff_ffffu32,
        ;
    }
}

/// An IPv4 address lies in the IPv4 block `net/p` (for a readable prefix
/// from 1 on) exactly when its first `p` bits are those of the network.
pub proof fn law_cidr_contains_leading_bits(a: u32, cidr: Seq<char>, n: u32, p: u8)
    requires
        split_on(cidr, '/').len() == 2,
        parse_ip(split_on(cidr, '/')[0]) == Some(IpAddress::V4(n)),
        parse_u8(split_on(cidr, '/')[1]) == Some(p),
        1 <= p,
    ensures
        p < 32 ==> (cidr_contains(IpAddress::V4(a), cidr) <==> (a >> ((32 - p) as u32)) == (n >> ((
            32 - p) as u32))),
        p >= 32 ==> (cidr_contains(IpAddress::V4(a), cidr) <==> a == n),
{
    law_v4_mask_keeps_leading_bits(p, a, n);
}

} // verus!
