//! Expiration instants derived from resolved media URLs.

use vstd::prelude::*;
use vstd::string::StringSliceAdditionalSpecFns;

use crate::pattern::{find_marker_digits, marker_digits};

verus! {

/// Whether `c` is one of the ASCII digits `0` to `9`.
pub open spec fn is_digit(c: char) -> bool {
    '0' <= c && c <= '9'
}

/// The value of a digit character.
pub open spec fn digit_value(c: char) -> int {
    c as int - '0' as int
}

/// The number that a string of digits spells in base ten.
pub open spec fn decimal_value(s: Seq<char>) -> int
    decreases s.len(),
{
    if s.len() == 0 {
        0
    } else {
        decimal_value(s.drop_last()) * 10 + digit_value(s.last())
    }
}

/// The digits that an unsigned number's text holds: all of it, or what follows one leading `+`.
pub open spec fn unsigned_body(s: Seq<char>) -> Seq<char> {
    if s.len() > 0 && s[0] == '+' {
        s.drop_first()
    } else {
        s
    }
}

/// What reading `s` as a `u64` in base ten gives: `None` unless `s` is a
/// nonempty run of ASCII digits, after at most one leading `+`, whose value
/// fits in 64 bits.
pub open spec fn parse_u64_spec(s: Seq<char>) -> Option<u64> {
    let body = unsigned_body(s);
    if body.len() > 0 && (forall|i: int| 0 <= i < body.len() ==> is_digit(#[trigger] body[i]))
        && decimal_value(body) <= u64::MAX {
        Some(decimal_value(body) as u64)
    } else {
        None
    }
}

/// A number's digits never spell less than a prefix of them does.
proof fn lemma_prefix_value_le(s: Seq<char>, k: int)
    requires
        0 <= k <= s.len(),
        forall|i: int| 0 <= i < s.len() ==> is_digit(#[trigger] s[i]),
    ensures
        decimal_value(s.subrange(0, k)) <= decimal_value(s),
    decreases s.len(),
{
    if k < s.len() {
        let t = s.drop_last();
        assert forall|i: int| 0 <= i < t.len() implies is_digit(#[trigger] t[i]) by {
            assert(t[i] == s[i]);
        }
        lemma_prefix_value_le(t, k);
        assert(t.subrange(0, k) =~= s.subrange(0, k));
        lemma_decimal_value_nonneg(t);
    } else {
        assert(s.subrange(0, k) =~= s);
    }
}

proof fn lemma_decimal_value_nonneg(s: Seq<char>)
    requires
        forall|i: int| 0 <= i < s.len() ==> is_digit(#[trigger] s[i]),
    ensures
        decimal_value(s) >= 0,
    decreases s.len(),
{
    if s.len() > 0 {
        let t = s.drop_last();
        assert forall|i: int| 0 <= i < t.len() implies is_digit(#[trigger] t[i]) by {
            assert(t[i] == s[i]);
        }
        lemma_decimal_value_nonneg(t);
    }
}

/// Reads an unsigned 64-bit number written in base ten.
pub fn parse_u64(s: &str) -> (r: Option<u64>)
    ensures
        r == parse_u64_spec(s@),
{
    broadcast use vstd::string::is_ascii_spec_bytes;

    let ghost body = unsigned_body(s@);
    if !s.is_ascii() {
        proof {
            if body.len() > 0 && (forall|i: int| 0 <= i < body.len() ==> is_digit(#[trigger] body[i])) {
                assert forall|i: int| 0 <= i < s@.len() implies '\0' <= #[trigger] s@[i] <= '\u{7f}' by {
                    if s@[0] == '+' {
                        if i > 0 {
                            assert(s@[i] == body[i - 1]);
                        }
                    } else {
                        assert(s@[i] == body[i]);
                    }
                }
            }
        }
        return None;
    }
    let bytes = s.as_bytes();
    let n = bytes.len();
    assert(n == s@.len());
    let mut start: usize = 0;
    if n > 0 && bytes[0] == 43u8 {
        start = 1;
    }
    proof {
        if n > 0 {
            assert(bytes@[0] == s@[0] as u8);
            assert((s@[0] == '+') == (bytes@[0] == 43u8));
        }
        assert(body =~= s@.subrange(start as int, n as int));
    }
    if start >= n {
        return None;
    }
    let mut value: u64 = 0;
    let mut i: usize = start;
    while i < n
        invariant
            n == s@.len(),
            n == bytes@.len(),
            s.is_ascii(),
            bytes@ == s.spec_bytes(),
            start <= i <= n,
            start < n,
            body == s@.subrange(start as int, n as int),
            body == unsigned_body(s@),
            forall|k: int| 0 <= k < i - start ==> is_digit(#[trigger] body[k]),
            value == decimal_value(body.subrange(0, i - start)),
        decreases n - i,
    {
        let b = bytes[i];
        let ghost c = body[i - start];
        assert(c == s@[i as int]);
        assert(b == c as u8);
        if b < 48u8 || b > 57u8 {
            assert(!is_digit(body[i - start]));
            assert(!(forall|k: int| 0 <= k < body.len() ==> is_digit(#[trigger] body[k])));
            return None;
        }
        assert(is_digit(c) && digit_value(c) == b - 48);
        let d = (b - 48u8) as u64;
        proof {
            let prefix = body.subrange(0, i - start + 1);
            assert(prefix.drop_last() =~= body.subrange(0, i - start));
            assert(prefix.last() == c);
        }
        if value > (u64::MAX - d) / 10 {
            proof {
                let prefix = body.subrange(0, i - start + 1);
                assert(decimal_value(prefix) > u64::MAX) by (nonlinear_arith)
                    requires
                        decimal_value(prefix) == value * 10 + d,
                        value > (u64::MAX - d) / 10,
                        0 <= d <= 9,
                ;
                if forall|k: int| 0 <= k < body.len() ==> is_digit(#[trigger] body[k]) {
                    lemma_prefix_value_le(body, i - start + 1);
                    assert(decimal_value(body) > u64::MAX);
                }
            }
            return None;
        }
        assert(value * 10 + d <= u64::MAX) by (nonlinear_arith)
            requires
                value <= (u64::MAX - d) / 10,
                0 <= d <= 9,
        ;
        value = value * 10 + d;
        i = i + 1;
    }
    proof {
        assert(body.subrange(0, n - start) =~= body);
    }
    Some(value)
}

} // verus!

verus! {

/// How long a URL without an expiration marker stays valid, in seconds.
pub const DEFAULT_TTL_SECS: u64 = 600;

/// The instant `DEFAULT_TTL_SECS` after `now`, held at `u64::MAX` where it
/// would not fit.
pub open spec fn default_expiry(now: u64) -> u64 {
    if now as int + DEFAULT_TTL_SECS as int <= u64::MAX as int {
        (now + DEFAULT_TTL_SECS) as u64
    } else {
        u64::MAX
    }
}

/// The expiration instant that marker digits (if found) give a URL resolved at `now`.
pub open spec fn expiry_from_digits(digits: Option<Seq<char>>, now: u64) -> u64 {
    match digits {
        Some(d) => match parse_u64_spec(d) {
            Some(t) => t,
            None => default_expiry(now),
        },
        None => default_expiry(now),
    }
}

/// The epoch second that the first expiration marker of a URL names, if it
/// has one whose digits read as a `u64`.
pub open spec fn marker_seconds(url: Seq<char>) -> Option<u64> {
    match marker_digits(url) {
        Some(d) => parse_u64_spec(d),
        None => None,
    }
}

/// The instant after which a URL resolved at `now` must no longer be served.
pub open spec fn expiry_of(url: Seq<char>, now: u64) -> u64 {
    expiry_from_digits(marker_digits(url), now)
}

/// The instant `DEFAULT_TTL_SECS` after `now` (or `u64::MAX`).
pub fn default_expiry_after(now: u64) -> (r: u64)
    ensures
        r == default_expiry(now),
{
    if now <= u64::MAX - DEFAULT_TTL_SECS {
        now + DEFAULT_TTL_SECS
    } else {
        u64::MAX
    }
}

/// Derives the expiration instant from the marker digits that a URL holds:
/// the number they spell where it reads as a `u64`, else the default window.
pub fn expiry_from_marker(digits: Option<&str>, now: u64) -> (r: u64)
    ensures
        r == expiry_from_digits(
            match digits {
                Some(d) => Some(d@),
                None => None,
            },
            now,
        ),
{
    match digits {
        Some(d) => match parse_u64(d) {
            Some(t) => t,
            None => default_expiry_after(now),
        },
        None => default_expiry_after(now),
    }
}

/// The instant after which a URL resolved at `now` is expired.
pub fn expires_at(url: &str, now: u64) -> (r: u64)
    ensures
        r == expiry_of(url@, now),
        r == match marker_seconds(url@) {
            Some(t) => t,
            None => default_expiry(now),
        },
{
    let digits = find_marker_digits(url);
    match digits {
        Some(d) => expiry_from_marker(Some(d.as_str()), now),
        None => expiry_from_marker(None, now),
    }
}

} // verus!
