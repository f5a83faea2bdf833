//! How often something recurs: every span of time, or never.

use crate::text::{chars_of, extend, lit, same, string_of};
use vstd::prelude::*;

verus! {

/// A span of time: whole seconds and the nanoseconds beyond them.
#[derive(Clone, Copy, Debug, PartialEq, Eq, Structural)]
pub struct Span {
    pub secs: u64,
    pub nanos: u32,
}

/// How often something recurs.
#[derive(Clone, Copy, Debug, PartialEq, Eq, Structural)]
pub enum Frequency {
    Every(Span),
    Never,
}

/// Every `n` days.
pub open spec fn days(n: u64) -> Frequency {
    Frequency::Every(Span { secs: (86400 * n) as u64, nanos: 0 })
}

/// What `humantime::parse_duration` gives for a value: the span, or its
/// error's text.
pub uninterp spec fn humantime_parse(value: Seq<char>) -> Result<Span, Seq<char>>;

/// What `humantime::format_duration` displays for a span.
pub uninterp spec fn humantime_format(secs: u64, nanos: u32) -> Seq<char>;

/// The number of ASCII digits in a value.
pub open spec fn digit_count(value: Seq<char>) -> nat
    decreases value.len(),
{
    if value.len() == 0 {
        0
    } else {
        digit_count(value.drop_last()) + if '0' <= value.last() && value.last() <= '9' {
            1nat
        } else {
            0nat
        }
    }
}

/// The zeros that open a value ahead of another digit: the leading zeros
/// of its first number, which change nothing humantime computes.
pub open spec fn leading_zeros(value: Seq<char>) -> nat
    decreases value.len(),
{
    if value.len() >= 2 && value[0] == '0' && '0' <= value[1] && value[1] <= '9' {
        1 + leading_zeros(value.drop_first())
    } else {
        0
    }
}

/// The digits of a value that count toward its size: all of them but its
/// leading zeros.
pub open spec fn significant_digits(value: Seq<char>) -> nat {
    digit_count(value.skip(leading_zeros(value) as int))
}

/// The most digits a duration value may hold beyond its leading zeros.
/// humantime sums the spans of a value with checked arithmetic, but hands
/// an exact billion nanoseconds to `Duration::new` to carry, which panics
/// when the seconds are then exactly `u64::MAX`; reaching that sum and that billion together takes
/// more than sixteen digits (the seconds alone need a twelve-digit count
/// of years, and no four more digits, fractions included, bring both the
/// seconds and the nanoseconds to those values).
pub open spec fn max_duration_digits() -> nat {
    16
}

/// `humantime::parse_duration(value)`: the span a human-readable duration
/// names, or the text of its error; its nanoseconds, from
/// `Duration::subsec_nanos`, are below one second. The contract names the
/// result as a function of the value. Values with more than sixteen digits
/// beyond their leading zeros are left out: on some of them humantime
/// panics.
#[verifier::external_body]
fn parse_duration(value: &str) -> (r: Result<Span, String>)
    requires
        significant_digits(value@) <= max_duration_digits(),
    ensures
        r matches Ok(d) ==> (humantime_parse(value@) matches Ok(x) && x == d),
        r matches Ok(d) ==> d.nanos < 1_000_000_000,
        r matches Err(e) ==> (humantime_parse(value@) matches Err(x) && x == e@),
{
    match humantime::parse_duration(value) {
        Ok(d) => Ok(Span { secs: d.as_secs(), nanos: d.subsec_nanos() }),
        Err(e) => Err(e.to_string()),
    }
}

/// `humantime::format_duration` of the span, displayed. The contract names
/// the result as a function of the span.
#[verifier::external_body]
fn format_duration(secs: u64, nanos: u32) -> (r: String)
    requires
        nanos < 1_000_000_000,
    ensures
        r@ == humantime_format(secs, nanos),
{
    humantime::format_duration(std::time::Duration::new(secs, nanos)).to_string()
}

/// What a frequency value names: `never`, or a duration humantime reads;
/// anything else is unsupported, a value with more digits than a duration
/// may hold among it.
pub open spec fn frequency_of(value: Seq<char>) -> Result<Frequency, Seq<char>> {
    if value == "never"@ {
        Ok(Frequency::Never)
    } else if significant_digits(value) > max_duration_digits() {
        Err("unsupported update check frequency '"@ + value + "': too many digits"@)
    } else {
        match humantime_parse(value) {
            Ok(d) => Ok(Frequency::Every(d)),
            Err(e) => Err("unsupported update check frequency '"@ + value + "': "@ + e),
        }
    }
}

fn count_significant_digits(value: &str) -> (n: usize)
    ensures
        n == significant_digits(value@),
{
    let v = chars_of(value);
    let mut k: usize = 0;
    assert(v@.skip(0) =~= v@);
    while v.len() - k >= 2 && v[k] == '0' && '0' <= v[k + 1] && v[k + 1] <= '9'
        invariant
            k <= v.len(),
            leading_zeros(v@) == k + leading_zeros(v@.skip(k as int)),
        decreases v.len() - k,
    {
        assert(v@.skip(k as int).drop_first() =~= v@.skip(k + 1));
        k += 1;
    }
    assert(leading_zeros(v@.skip(k as int)) == 0);
    let mut n: usize = 0;
    let mut i: usize = k;
    assert(v@.skip(k as int).take(0) =~= Seq::<char>::empty());
    while i < v.len()
        invariant
            k <= i <= v.len(),
            leading_zeros(v@) == k,
            n == digit_count(v@.skip(k as int).take(i - k)),
            n <= i,
        decreases v.len() - i,
    {
        assert(v@.skip(k as int).take(i + 1 - k).drop_last() =~= v@.skip(k as int).take(i - k));
        assert(v@.skip(k as int).take(i + 1 - k).last() == v@[i as int]);
        if '0' <= v[i] && v[i] <= '9' {
            n += 1;
        }
        i += 1;
    }
    assert(v@.skip(k as int).take(v.len() - k) =~= v@.skip(k as int));
    n
}

impl Frequency {
    /// Every `days` days.
    pub fn from_days(days_count: u64) -> (r: Frequency)
        requires
            days_count <= u64::MAX / 86400,
        ensures
            r == days(days_count),
    {
        Frequency::Every(Span { secs: 86400 * days_count, nanos: 0 })
    }

    /// The span between recurrences, if it recurs.
    pub fn interval(self) -> (r: Option<Span>)
        ensures
            match self {
                Frequency::Every(s) => r == Some(s),
                Frequency::Never => r is None,
            },
    {
        match self {
            Frequency::Every(s) => Some(s),
            Frequency::Never => None,
        }
    }

    /// The frequency a value names.
    pub fn parse(value: &str) -> (r: Result<Frequency, String>)
        ensures
            match frequency_of(value@) {
                Ok(f) => r == Ok::<Frequency, String>(f),
                Err(e) => r matches Err(m) && m@ == e,
            },
            r matches Ok(Frequency::Every(s)) ==> s.nanos < 1_000_000_000,
    {
        if same(&chars_of(value), &lit("never")) {
            return Ok(Frequency::Never);
        }
        if count_significant_digits(value) > 16 {
            let mut m = lit("unsupported update check frequency '");
            extend(&mut m, &chars_of(value));
            extend(&mut m, &lit("': too many digits"));
            return Err(string_of(&m));
        }
        match parse_duration(value) {
            Ok(d) => Ok(Frequency::Every(d)),
            Err(e) => {
                let mut m = lit("unsupported update check frequency '");
                extend(&mut m, &chars_of(value));
                extend(&mut m, &lit("': "));
                extend(&mut m, &chars_of(e.as_str()));
                Err(string_of(&m))
            },
        }
    }

    /// How the frequency is written: `never`, or the span as humantime
    /// formats it.
    pub fn display(&self) -> (r: String)
        requires
            self matches Frequency::Every(s) ==> s.nanos < 1_000_000_000,
        ensures
            match self {
                Frequency::Never => r@ == "never"@,
                Frequency::Every(s) => r@ == humantime_format(s.secs, s.nanos),
            },
    {
        match self {
            Frequency::Never => string_of(&lit("never")),
            Frequency::Every(s) => format_duration(s.secs, s.nanos),
        }
    }
}

} // verus!
