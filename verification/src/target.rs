//! Derivation of the RTMP connection target from a channel's free-form
//! ingest-configuration text.
//!
//! The text is scanned for the first colon that is followed by a digit; up
//! to five digits after the colon form the port, and the maximal run of
//! non-whitespace characters after the digits is the stream key, captured
//! verbatim. A digit is deliberately an ASCII digit — nothing else can
//! spell a port value — while any Unicode white-space character ends the
//! key. The derivation is a pure function of the text: the same input
//! always yields the same target.

use vstd::prelude::*;
use vstd::string::StrSliceExecFns;
use vstd::string::StringExecFns;

use crate::decimal::spec_decimal;
use crate::decimal::decimal_string;
use crate::error::OrchestratorError;

verus! {

/// The connection target a transcoder publishes to: a port on the local
/// ingest listener and the stream key behind it.
#[derive(Debug, Clone, PartialEq, Eq)]
pub struct RtmpTarget {
    /// The port captured after the colon.
    pub port: u16,
    /// The trailing stream key, captured verbatim; possibly empty.
    pub stream_key: String,
}

/// An ASCII decimal digit.
pub open spec fn is_ascii_digit(c: char) -> bool {
    48 <= c as int <= 57
}

/// The value of an ASCII decimal digit.
pub open spec fn digit_value(c: char) -> int {
    c as int - 48
}

/// The Unicode white-space characters, any of which ends a stream key.
pub open spec fn is_space_char(c: char) -> bool {
    ||| 0x09 <= c as int <= 0x0D
    ||| c as int == 0x20
    ||| c as int == 0x85
    ||| c as int == 0xA0
    ||| c as int == 0x1680
    ||| 0x2000 <= c as int <= 0x200A
    ||| c as int == 0x2028
    ||| c as int == 0x2029
    ||| c as int == 0x202F
    ||| c as int == 0x205F
    ||| c as int == 0x3000
}

/// Whether position `i` starts a target: a colon immediately followed by a
/// digit.
pub open spec fn match_at(s: Seq<char>, i: int) -> bool {
    &&& 0 <= i
    &&& i + 1 < s.len()
    &&& s[i] == ':'
    &&& is_ascii_digit(s[i + 1])
}

/// The first position at or after `i` that starts a target.
pub open spec fn find_match_from(s: Seq<char>, i: int) -> Option<int>
    decreases s.len() - i,
{
    if i + 1 < s.len() {
        if match_at(s, i) {
            Some(i)
        } else {
            find_match_from(s, i + 1)
        }
    } else {
        None
    }
}

/// The length of the maximal run of digits starting at `i`.
pub open spec fn digit_run(s: Seq<char>, i: int) -> int
    decreases s.len() - i,
{
    if 0 <= i < s.len() && is_ascii_digit(s[i]) {
        1 + digit_run(s, i + 1)
    } else {
        0
    }
}

/// The length of the maximal run of non-whitespace characters starting at
/// `i`.
pub open spec fn nonspace_run(s: Seq<char>, i: int) -> int
    decreases s.len() - i,
{
    if 0 <= i < s.len() && !is_space_char(s[i]) {
        1 + nonspace_run(s, i + 1)
    } else {
        0
    }
}

/// The value of the `n` digits of `s` starting at `i`.
pub open spec fn digits_value(s: Seq<char>, i: int, n: int) -> int
    decreases n,
{
    if n <= 0 {
        0
    } else {
        digits_value(s, i, n - 1) * 10 + digit_value(s[i + n - 1])
    }
}

/// How many digits after the first colon form the port: the maximal digit
/// run, capped at five.
pub open spec fn port_digit_count(s: Seq<char>, i: int) -> int {
    if digit_run(s, i) < 5 {
        digit_run(s, i)
    } else {
        5
    }
}

/// What the ingest-configuration text resolves to: the port value and the
/// verbatim stream key, or nothing when no colon-digit pattern occurs or
/// the captured digits exceed a 16-bit port.
pub open spec fn spec_resolve_target(s: Seq<char>) -> Option<(int, Seq<char>)> {
    match find_match_from(s, 0) {
        Option::None => Option::None,
        Option::Some(i) => {
            let j = i + 1;
            let d = port_digit_count(s, j);
            let v = digits_value(s, j, d);
            if v <= 65535 {
                let k = j + d;
                Option::Some((v, s.subrange(k, k + nonspace_run(s, k))))
            } else {
                Option::None
            }
        },
    }
}

proof fn lemma_find_match_some(s: Seq<char>, i: int)
    requires
        find_match_from(s, i) is Some,
    ensures
        match_at(s, find_match_from(s, i)->0),
    decreases s.len() - i,
{
    if i + 1 < s.len() && !match_at(s, i) {
        lemma_find_match_some(s, i + 1);
    }
}

proof fn lemma_digit_run_nonneg(s: Seq<char>, i: int)
    ensures
        digit_run(s, i) >= 0,
    decreases s.len() - i,
{
    if 0 <= i < s.len() && is_ascii_digit(s[i]) {
        lemma_digit_run_nonneg(s, i + 1);
    }
}

proof fn lemma_nonspace_run_bound(s: Seq<char>, i: int)
    requires
        0 <= i <= s.len(),
    ensures
        0 <= nonspace_run(s, i) <= s.len() - i,
    decreases s.len() - i,
{
    if i < s.len() && !is_space_char(s[i]) {
        lemma_nonspace_run_bound(s, i + 1);
    }
}

/// Ten to the `n`.
spec fn pow10(n: int) -> int
    decreases n,
{
    if n <= 0 {
        1
    } else {
        10 * pow10(n - 1)
    }
}

/// An ASCII digit test.
fn is_digit_exec(c: char) -> (r: bool)
    ensures
        r == is_ascii_digit(c),
{
    (c as u32) >= 48 && (c as u32) <= 57
}

/// A Unicode white-space test, for the characters that end a stream key.
fn is_space_exec(c: char) -> (r: bool)
    ensures
        r == is_space_char(c),
{
    let v = c as u32;
    (v >= 0x09 && v <= 0x0D) || v == 0x20 || v == 0x85 || v == 0xA0 || v == 0x1680 || (v >= 0x2000
        && v <= 0x200A) || v == 0x2028 || v == 0x2029 || v == 0x202F || v == 0x205F || v == 0x3000
}

/// Resolves the ingest-configuration text to an RTMP target.
///
/// The first colon that is immediately followed by a digit starts the
/// match: up to five digits form the port, and everything after them up to
/// the first whitespace character is the stream key, captured verbatim.
/// Fails with `NoValidTarget` when no such pattern occurs, or when the
/// captured digits exceed 65535.
pub fn extract_rtmp_stream_details(input: &str) -> (r: Result<RtmpTarget, OrchestratorError>)
    ensures
        match r {
            Ok(t) => spec_resolve_target(input@) == Option::Some(
                (t.port as int, t.stream_key@),
            ),
            Err(e) => spec_resolve_target(input@) is None && e
                == OrchestratorError::NoValidTarget,
        },
{
    let ghost s = input@;
    let len = input.unicode_len();

    // Find the first colon-digit position.
    let mut i: usize = 0;
    let mut found: Option<usize> = None;
    while i < len && i + 1 < len
        invariant_except_break
            found is None,
        invariant
            len == s.len(),
            s == input@,
            0 <= i <= len,
            find_match_from(s, 0) == find_match_from(s, i as int),
        ensures
            match found {
                Some(m) => find_match_from(s, 0) == Option::Some(m as int),
                None => find_match_from(s, 0) is None,
            },
        decreases len - i,
    {
        let c = input.get_char(i);
        if c == ':' {
            let c2 = input.get_char(i + 1);
            if is_digit_exec(c2) {
                found = Some(i);
                assert(find_match_from(s, i as int) == Option::Some(i as int));
                break;
            }
        }
        i = i + 1;
    }

    let start = match found {
        Some(m) => m,
        None => {
            assert(find_match_from(s, 0) is None);
            return Err(OrchestratorError::NoValidTarget);
        },
    };
    assert(find_match_from(s, 0) == Option::Some(start as int));
    proof {
        lemma_find_match_some(s, 0);
        assert(match_at(s, start as int));
    }

    // Up to five digits after the colon form the port.
    let j = start + 1;
    let mut d: usize = 0;
    while d < 5 && j + d < len && is_digit_exec(input.get_char(j + d))
        invariant
            len == s.len(),
            s == input@,
            match_at(s, start as int),
            j == start + 1,
            j < len,
            0 <= d <= 5,
            j + d <= len,
            forall|k: int| j <= k < j + d ==> is_ascii_digit(#[trigger] s[k]),
            digit_run(s, j as int) == d + digit_run(s, j + d),
        decreases 5 - d,
    {
        d = d + 1;
    }
    proof {
        lemma_digit_run_nonneg(s, j + d);
        assert(port_digit_count(s, j as int) == d as int);
    }

    let mut value: u32 = 0;
    let mut k: usize = 0;
    while k < d
        invariant
            len == s.len(),
            s == input@,
            j + d <= len,
            0 <= k <= d <= 5,
            forall|q: int| j <= q < j + d ==> is_ascii_digit(#[trigger] s[q]),
            value == digits_value(s, j as int, k as int),
            value < pow10(k as int),
        decreases d - k,
    {
        let c = input.get_char(j + k);
        proof {
            assert(is_ascii_digit(s[j + k]));
            assert(pow10(0) == 1);
            assert(pow10(1) == 10);
            assert(pow10(2) == 100);
            assert(pow10(3) == 1000);
            assert(pow10(4) == 10000);
            assert(pow10(5) == 100000);
        }
        value = value * 10 + (c as u32 - 48);
        k = k + 1;
    }

    if value > 65535 {
        return Err(OrchestratorError::NoValidTarget);
    }
    let port: u16 = value as u16;

    // Everything up to the first whitespace is the stream key.
    let key_start = j + d;
    let mut key_end = key_start;
    while key_end < len && !is_space_exec(input.get_char(key_end))
        invariant
            len == s.len(),
            s == input@,
            key_start <= key_end <= len,
            nonspace_run(s, key_start as int) == (key_end - key_start) + nonspace_run(
                s,
                key_end as int,
            ),
        decreases len - key_end,
    {
        key_end = key_end + 1;
    }
    proof {
        lemma_nonspace_run_bound(s, key_end as int);
    }

    let key_slice = input.substring_char(key_start, key_end);
    let stream_key = String::from_str(key_slice);
    assert(stream_key@ == s.subrange(
        key_start as int,
        key_start + nonspace_run(s, key_start as int),
    ));

    Ok(RtmpTarget { port, stream_key })
}

/// The textual form of a resolved target: a colon, the port in decimal, and
/// the verbatim stream key.
pub open spec fn spec_rtmp_detail(port: int, key: Seq<char>) -> Seq<char> {
    seq![':'] + spec_decimal(port) + key
}

/// Renders a target in the form the transcoder sink and the companion-bot
/// arguments embed: a colon, the port, and the stream key.
pub fn rtmp_detail_string(target: &RtmpTarget) -> (r: String)
    ensures
        r@ == spec_rtmp_detail(target.port as int, target.stream_key@),
{
    proof {
        reveal_strlit(":");
    }
    let mut r = String::from_str(":");
    assert(r@ =~= seq![':']);
    let port_digits = decimal_string(target.port as u32);
    r.append(port_digits.as_str());
    r.append(target.stream_key.as_str());
    assert(r@ =~= spec_rtmp_detail(target.port as int, target.stream_key@));
    r
}

} // verus!
