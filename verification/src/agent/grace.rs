//! The grace period a terminating agent grants its worker: a default of
//! three seconds, overridable by a configuration value that arrives as a
//! plain string and is parsed exactly the way std parses an unsigned
//! decimal integer.

use vstd::prelude::*;
use vstd::string::StringSliceAdditionalSpecFns;
use vstd::utf8::encode_utf8;

verus! {

/// The number of seconds a terminating agent waits for its worker when no
/// override is given.
pub const DEFAULT_GRACE_PERIOD_SECONDS: u64 = 3;

/// The environment variable that can override the grace period; it is read
/// once per termination, outside the library, and its value arrives here
/// as a plain string.
pub const GRACE_PERIOD_ENV_VAR: &'static str = "AGENT_GRACE_PERIOD_SECONDS";

/// Whether the byte is one of the ASCII digits `0` through `9`.
pub open spec fn is_ascii_digit(b: u8) -> bool {
    0x30 <= b && b <= 0x39
}

/// Whether every byte of the sequence is an ASCII digit.
pub open spec fn all_ascii_digits(s: Seq<u8>) -> bool {
    forall|i: int| 0 <= i < s.len() ==> is_ascii_digit(#[trigger] s[i])
}

/// The numeric value of a digit string, most significant digit first.
pub open spec fn decimal_value(s: Seq<u8>) -> int
    decreases s.len(),
{
    if s.len() == 0 {
        0
    } else {
        decimal_value(s.drop_last()) * 10 + (s.last() - 0x30)
    }
}

/// The digit part of a decimal string: everything after one optional
/// leading plus sign.
pub open spec fn decimal_body(s: Seq<u8>) -> Seq<u8> {
    if s.len() > 0 && s[0] == 0x2b {
        s.subrange(1, s.len() as int)
    } else {
        s
    }
}

/// Whether std's parse of a u64 accepts the string: an optional leading
/// plus sign, then at least one ASCII digit, with a value that fits.
pub open spec fn parses_as_u64(s: Seq<u8>) -> bool {
    &&& decimal_body(s).len() > 0
    &&& all_ascii_digits(decimal_body(s))
    &&& decimal_value(decimal_body(s)) <= u64::MAX
}

/// The seconds granted to a terminating agent's worker, given the raw
/// override value if one was present: a parseable override wins, anything
/// else falls back to the default.
pub open spec fn grace_of(raw: Option<String>) -> u64 {
    match raw {
        Option::None => DEFAULT_GRACE_PERIOD_SECONDS,
        Option::Some(s) => if parses_as_u64(encode_utf8(s@)) {
            decimal_value(decimal_body(encode_utf8(s@))) as u64
        } else {
            DEFAULT_GRACE_PERIOD_SECONDS
        },
    }
}

/// A digit string's value is never negative.
proof fn lemma_decimal_value_nonneg(s: Seq<u8>)
    requires
        all_ascii_digits(s),
    ensures
        decimal_value(s) >= 0,
    decreases s.len(),
{
    if s.len() > 0 {
        assert(all_ascii_digits(s.drop_last()));
        lemma_decimal_value_nonneg(s.drop_last());
    }
}

/// A prefix of a digit string never has a larger value than the whole.
proof fn lemma_decimal_prefix_le(s: Seq<u8>, k: int)
    requires
        all_ascii_digits(s),
        0 <= k <= s.len(),
    ensures
        decimal_value(s.subrange(0, k)) <= decimal_value(s),
    decreases s.len() - k,
{
    if k == s.len() {
        assert(s.subrange(0, k) =~= s);
    } else {
        let p = s.subrange(0, k);
        let q = s.subrange(0, k + 1);
        assert(q.drop_last() =~= p);
        assert(all_ascii_digits(p));
        lemma_decimal_value_nonneg(p);
        assert(decimal_value(q) == decimal_value(p) * 10 + (s[k] - 0x30));
        lemma_decimal_prefix_le(s, k + 1);
    }
}

/// Parses a decimal u64 exactly as std's parse of an unsigned integer
/// does: an optional leading plus sign, then one or more ASCII digits;
/// anything else, or a value over u64::MAX, is rejected.
pub fn parse_u64_decimal(s: &str) -> (r: Option<u64>)
    ensures
        parses_as_u64(s.spec_bytes()) ==> r == Some(
            decimal_value(decimal_body(s.spec_bytes())) as u64,
        ),
        !parses_as_u64(s.spec_bytes()) ==> r is None,
{
    let bytes = s.as_bytes();
    let n = bytes.len();
    let start: usize = if n > 0 && bytes[0] == 0x2b {
        1
    } else {
        0
    };
    if n == start {
        return None;
    }
    let ghost body = decimal_body(bytes@);
    proof {
        assert(bytes@.subrange(0, n as int) =~= bytes@);
        assert(body =~= bytes@.subrange(start as int, n as int));
    }
    let mut acc: u64 = 0;
    let mut i: usize = start;
    while i < n
        invariant
            start <= i <= n,
            n == bytes@.len(),
            bytes@ == s.spec_bytes(),
            body == decimal_body(bytes@),
            body =~= bytes@.subrange(start as int, n as int),
            all_ascii_digits(bytes@.subrange(start as int, i as int)),
            acc == decimal_value(bytes@.subrange(start as int, i as int)),
        decreases n - i,
    {
        let b = bytes[i];
        if b < 0x30 || b > 0x39 {
            proof {
                assert(body[i - start] == bytes@[i as int]);
                assert(!is_ascii_digit(body[i - start]));
            }
            return None;
        }
        let d: u64 = (b - 0x30) as u64;
        let ghost prefix = bytes@.subrange(start as int, i as int);
        let ghost extended = bytes@.subrange(start as int, i as int + 1);
        proof {
            assert(extended.drop_last() =~= prefix);
            assert(extended.last() == bytes@[i as int]);
            assert(decimal_value(extended) == decimal_value(prefix) * 10 + (b - 0x30));
            assert(all_ascii_digits(extended));
        }
        let next = match acc.checked_mul(10) {
            Some(x) => x.checked_add(d),
            None => None,
        };
        match next {
            Some(x) => {
                acc = x;
            },
            None => {
                proof {
                    if all_ascii_digits(body) {
                        assert(body.subrange(0, i - start + 1) =~= extended);
                        lemma_decimal_prefix_le(body, i - start + 1);
                        assert(decimal_value(body) > u64::MAX);
                    }
                }
                return None;
            },
        }
        i += 1;
    }
    proof {
        assert(bytes@.subrange(start as int, i as int) =~= body);
    }
    Some(acc)
}

/// The number of seconds a terminating agent grants its worker: the
/// override value, when present and parseable, else the default.
pub fn grace_period_seconds(raw: Option<String>) -> (r: u64)
    ensures
        r == grace_of(raw),
{
    match raw {
        Option::None => DEFAULT_GRACE_PERIOD_SECONDS,
        Option::Some(s) => match parse_u64_decimal(s.as_str()) {
            Option::Some(v) => v,
            Option::None => DEFAULT_GRACE_PERIOD_SECONDS,
        },
    }
}

} // verus!
