//! Exporter configuration.
//!
//! The raw option strings (from the environment or from the command line)
//! are turned into a `Config` here, with the documented defaults: query
//! rate 300 seconds (and never below 300), port `"9184"`, adjustment off.

use vstd::prelude::*;

verus! {

/// Minimum and default query rate, in seconds.
pub const MIN_QUERY_RATE: u64 = 300;

/// Exporter configuration.
///
/// * `sensor_ip` - address of the sensor to query
/// * `query_rate` - seconds between polls (at least 300)
/// * `port` - network port the exporter serves on
/// * `adjust` - whether humidity and temperature are recalibrated
pub struct Config {
    pub sensor_ip: String,
    pub query_rate: u64,
    pub port: String,
    pub adjust: bool,
}

/// A decimal digit.
pub open spec fn is_dec_digit(c: char) -> bool {
    '0' <= c && c <= '9'
}

/// Numeric value of a digit character.
pub open spec fn digit_val(c: char) -> int {
    c as int - '0' as int
}

/// Every character of `s` is a decimal digit.
pub open spec fn all_digits(s: Seq<char>) -> bool {
    forall|i: int| 0 <= i < s.len() ==> is_dec_digit(s[i])
}

/// The number denoted by a digit string, most significant digit first.
pub open spec fn digits_to_nat(s: Seq<char>) -> int
    decreases s.len(),
{
    if s.len() == 0 {
        0
    } else {
        digits_to_nat(s.drop_last()) * 10 + digit_val(s.last())
    }
}

/// The digits of an unsigned decimal literal: an optional leading `+` is
/// dropped, as `str::parse::<u64>` drops it.
pub open spec fn unsigned_body(s: Seq<char>) -> Seq<char> {
    if s.len() > 0 && s[0] == '+' {
        s.skip(1)
    } else {
        s
    }
}

/// `s` denotes a `u64`: nonempty digits after the optional sign, value in
/// range.
pub open spec fn valid_u64_string(s: Seq<char>) -> bool {
    let b = unsigned_body(s);
    b.len() > 0 && all_digits(b) && digits_to_nat(b) <= u64::MAX as int
}

proof fn lemma_digits_nonneg(s: Seq<char>)
    requires
        all_digits(s),
    ensures
        digits_to_nat(s) >= 0,
    decreases s.len(),
{
    if s.len() > 0 {
        assert(all_digits(s.drop_last()));
        lemma_digits_nonneg(s.drop_last());
    }
}

/// Appending digits never shrinks the denoted value.
proof fn lemma_digits_prefix_le(s: Seq<char>, j: int, k: int)
    requires
        all_digits(s),
        0 <= j <= k <= s.len(),
    ensures
        digits_to_nat(s.subrange(0, j)) <= digits_to_nat(s.subrange(0, k)),
    decreases k - j,
{
    if j < k {
        let p = s.subrange(0, k);
        assert(all_digits(p));
        assert(p.drop_last() =~= s.subrange(0, k - 1));
        lemma_digits_nonneg(s.subrange(0, k - 1));
        lemma_digits_prefix_le(s, j, k - 1);
    }
}

/// Parses an unsigned decimal integer exactly as `str::parse::<u64>` does
/// for the plain and `+`-signed forms: `Some` on a nonempty all-digit body
/// whose value fits, `None` otherwise.
pub fn parse_u64(s: &str) -> (r: Option<u64>)
    ensures
        r is Some <==> valid_u64_string(s@),
        r is Some ==> r->0 == digits_to_nat(unsigned_body(s@)),
{
    let n = s.unicode_len();
    let start: usize = if n > 0 && s.get_char(0) == '+' {
        1
    } else {
        0
    };
    let ghost body = unsigned_body(s@);
    proof {
        assert(body =~= s@.subrange(start as int, n as int));
    }
    if start == n {
        return None;
    }
    let mut acc: u64 = 0;
    let mut i: usize = start;
    while i < n
        invariant
            start <= i <= n,
            n == s@.len(),
            body == unsigned_body(s@),
            body == s@.subrange(start as int, n as int),
            all_digits(s@.subrange(start as int, i as int)),
            acc == digits_to_nat(s@.subrange(start as int, i as int)),
        decreases n - i,
    {
        let c = s.get_char(i);
        if !('0' <= c && c <= '9') {
            proof {
                assert(body[i - start] == c);
                assert(!is_dec_digit(body[i - start]));
                assert(!all_digits(body));
            }
            return None;
        }
        let d: u64 = (c as u32 as u64) - ('0' as u32 as u64);
        let ghost prefix = s@.subrange(start as int, i as int);
        let ghost next_prefix = s@.subrange(start as int, i + 1);
        proof {
            assert(next_prefix.drop_last() =~= prefix);
        }
        let step = match acc.checked_mul(10) {
            Some(m) => m.checked_add(d),
            None => None,
        };
        match step {
            Some(v) => {
                acc = v;
            },
            None => {
                // The value denoted so far already exceeds u64::MAX, and
                // further digits only grow it.
                proof {
                    assert(next_prefix.last() == c);
                    assert(digit_val(c) == d as int);
                    assert(digits_to_nat(next_prefix) == acc * 10 + d);
                    assert(acc * 10 + d > u64::MAX as int);
                    if all_digits(body) {
                        assert(is_dec_digit(next_prefix[i - start]));
                        lemma_digits_prefix_le(body, i + 1 - start, n as int - start as int);
                        assert(body.subrange(0, i + 1 - start) =~= next_prefix);
                        assert(body.subrange(0, n as int - start as int) =~= body);
                        assert(digits_to_nat(body) > u64::MAX as int);
                    }
                    assert(!valid_u64_string(s@));
                }
                return None;
            },
        }
        i = i + 1;
    }
    Some(acc)
}

/// Parses a boolean exactly as `str::parse::<bool>` does: only the exact
/// strings `"true"` and `"false"` are accepted.
pub fn parse_bool(s: &str) -> (r: Option<bool>)
    ensures
        r == (if s@ == "true"@ {
            Some(true)
        } else if s@ == "false"@ {
            Some(false)
        } else {
            None::<bool>
        }),
{
    let own = String::from_str(s);
    if own.eq(&String::from_str("true")) {
        Some(true)
    } else if own.eq(&String::from_str("false")) {
        Some(false)
    } else {
        None
    }
}

/// The clamped query rate: never below the 300-second floor.
pub open spec fn clamped_rate(r: int) -> int {
    if r < MIN_QUERY_RATE as int {
        MIN_QUERY_RATE as int
    } else {
        r
    }
}

/// Clamps a requested query rate to the 300-second floor.
pub fn clamp_query_rate(rate: u64) -> (r: u64)
    ensures
        r as int == clamped_rate(rate as int),
        r >= MIN_QUERY_RATE,
{
    if rate < MIN_QUERY_RATE {
        MIN_QUERY_RATE
    } else {
        rate
    }
}

/// The effective query rate for an optional raw rate string: a missing or
/// unparsable string falls back to 300 seconds, and the result is clamped
/// to the 300-second floor.
pub open spec fn effective_rate(raw: Option<Seq<char>>) -> int {
    match raw {
        Some(s) => if valid_u64_string(s) {
            clamped_rate(digits_to_nat(unsigned_body(s)))
        } else {
            MIN_QUERY_RATE as int
        },
        None => MIN_QUERY_RATE as int,
    }
}

/// The effective adjust flag for an optional raw flag string: only the
/// exact string `"true"` turns adjustment on.
pub open spec fn effective_adjust(raw: Option<Seq<char>>) -> bool {
    raw == Some("true"@)
}

fn rate_from_raw(rate: Option<String>) -> (r: u64)
    ensures
        r as int == effective_rate(match rate {
            Some(s) => Some(s@),
            None => None,
        }),
{
    let requested: u64 = match rate {
        Some(s) => match parse_u64(s.as_str()) {
            Some(v) => v,
            None => MIN_QUERY_RATE,
        },
        None => MIN_QUERY_RATE,
    };
    clamp_query_rate(requested)
}

fn adjust_from_raw(adjust: Option<String>) -> (r: bool)
    ensures
        r == effective_adjust(match adjust {
            Some(s) => Some(s@),
            None => None,
        }),
{
    match adjust {
        Some(s) => match parse_bool(s.as_str()) {
            Some(v) => v,
            None => false,
        },
        None => false,
    }
}

fn port_from_raw(port: Option<String>) -> (r: String)
    ensures
        r@ == (match port {
            Some(p) => p@,
            None => "9184"@,
        }),
{
    match port {
        Some(p) => p,
        None => String::from_str("9184"),
    }
}

/// Builds the configuration from raw environment values: the sensor address
/// is required, the others default (rate 300, port `"9184"`, adjust off).
pub fn config_from_env(
    sensor_ip: String,
    query_rate: Option<String>,
    port: Option<String>,
    adjust: Option<String>,
) -> (c: Config)
    ensures
        c.sensor_ip == sensor_ip,
        c.query_rate as int == effective_rate(match query_rate {
            Some(s) => Some(s@),
            None => None,
        }),
        c.query_rate >= MIN_QUERY_RATE,
        c.port@ == (match port {
            Some(p) => p@,
            None => "9184"@,
        }),
        c.adjust == effective_adjust(match adjust {
            Some(s) => Some(s@),
            None => None,
        }),
{
    Config {
        sensor_ip,
        query_rate: rate_from_raw(query_rate),
        port: port_from_raw(port),
        adjust: adjust_from_raw(adjust),
    }
}

/// Builds the configuration from raw command-line values, with the same
/// defaults as `config_from_env`; `None` exactly when no sensor address was
/// given.
pub fn config_from_args(
    rate: Option<String>,
    sensor: Option<String>,
    port: Option<String>,
    adjust: Option<String>,
) -> (c: Option<Config>)
    ensures
        c is Some <==> sensor is Some,
        c is Some ==> {
            let cfg = c->0;
            &&& cfg.sensor_ip == sensor->0
            &&& cfg.query_rate as int == effective_rate(match rate {
                Some(s) => Some(s@),
                None => None,
            })
            &&& cfg.query_rate >= MIN_QUERY_RATE
            &&& cfg.port@ == (match port {
                Some(p) => p@,
                None => "9184"@,
            })
            &&& cfg.adjust == effective_adjust(match adjust {
                Some(s) => Some(s@),
                None => None,
            })
        },
{
    match sensor {
        Some(ip) => Some(config_from_env(ip, rate, port, adjust)),
        None => None,
    }
}

} // verus!
