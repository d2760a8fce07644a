use vstd::prelude::*;

verus! {

/// A moment in time as chrono counts it: whole seconds since 1970-01-01T00:00:00Z, and the
/// nanoseconds past that second (1_000_000_000 or more only within a leap second).
#[derive(PartialEq, Eq, Structural, Clone, Copy, Debug)]
pub struct Moment {
    pub secs: i64,
    pub nanos: u32,
}

/// The moment that an RFC 3339 date and time names, or `None` where the text is not one.
pub uninterp spec fn rfc3339_moment(s: Seq<char>) -> Option<Moment>;

/// Relies on chrono's `DateTime::parse_from_rfc3339`, read back through `timestamp` and
/// `timestamp_subsec_nanos`: the parsed moment, which depends on the text alone.
#[verifier::external_body]
pub(crate) fn parse_rfc3339(s: &str) -> (r: Option<Moment>)
    ensures
        r == rfc3339_moment(s@),
{
    match chrono::DateTime::parse_from_rfc3339(s) {
        Ok(d) => Some(Moment { secs: d.timestamp(), nanos: d.timestamp_subsec_nanos() }),
        Err(_) => None,
    }
}

/// Relies on chrono's `Utc::now`, read back through `timestamp` and `timestamp_subsec_nanos`:
/// the current time, of which nothing is known.
#[verifier::external_body]
pub(crate) fn now() -> (r: Moment) {
    let t = chrono::Utc::now();
    Moment { secs: t.timestamp(), nanos: t.timestamp_subsec_nanos() }
}

/// The second of the day, counted from midnight.
pub open spec fn second_of_day(secs: i64) -> int {
    (secs as int) % 86400
}

/// Whole seconds from `from` to `to`, rounded toward zero, as chrono's `signed_duration_since`
/// followed by `num_seconds` gives them. A leap second at either end counts as the second that
/// it extends.
pub open spec fn elapsed_seconds(from: Moment, to: Moment) -> int {
    let tf = second_of_day(from.secs);
    let tt = second_of_day(to.secs);
    let leap: int = if tt > tf && from.nanos >= 1_000_000_000 {
        1
    } else if tt < tf && to.nanos >= 1_000_000_000 {
        -1
    } else {
        0
    };
    let frac = to.nanos - from.nanos;
    let secs = to.secs - from.secs + leap + frac / 1_000_000_000;
    let nanos = frac % 1_000_000_000;
    if secs < 0 && nanos > 0 {
        secs + 1
    } else {
        secs
    }
}

/// Division that rounds toward zero.
pub open spec fn div_toward_zero(x: int, d: int) -> int {
    if x >= 0 {
        x / d
    } else {
        -((-x) / d)
    }
}

/// Whole days from `from` to `to`, rounded toward zero.
pub open spec fn elapsed_days(from: Moment, to: Moment) -> int {
    div_toward_zero(elapsed_seconds(from, to), 86400)
}

/// The second of the day of `secs`.
fn day_second(secs: i64) -> (r: i64)
    ensures
        r == second_of_day(secs),
        0 <= r < 86400,
{
    let r = secs % 86400;
    if r < 0 {
        r + 86400
    } else {
        r
    }
}

/// Whole days from `from` to `to`, rounded toward zero.
pub fn days_between(from: Moment, to: Moment) -> (r: i64)
    ensures
        r == elapsed_days(from, to),
{
    let tf = day_second(from.secs);
    let tt = day_second(to.secs);
    let leap: i128 = if tt > tf && from.nanos >= 1_000_000_000 {
        1
    } else if tt < tf && to.nanos >= 1_000_000_000 {
        -1
    } else {
        0
    };
    let frac: i128 = to.nanos as i128 - from.nanos as i128;
    // Split `frac` into whole seconds and the nanoseconds left, which are never negative.
    let mut carry: i128 = 0;
    let mut rest: i128 = frac;
    while rest < 0
        invariant
            -4_294_967_296 < frac < 4_294_967_296,
            frac == carry * 1_000_000_000 + rest,
            -5 <= carry <= 0,
        decreases carry + 5,
    {
        rest = rest + 1_000_000_000;
        carry = carry - 1;
    }
    while rest >= 1_000_000_000
        invariant
            -4_294_967_296 < frac < 4_294_967_296,
            frac == carry * 1_000_000_000 + rest,
            -5 <= carry <= 5,
            0 <= rest,
        decreases 5 - carry,
    {
        rest = rest - 1_000_000_000;
        carry = carry + 1;
    }
    proof {
        vstd::arithmetic::div_mod::lemma_fundamental_div_mod_converse(
            frac as int,
            1_000_000_000,
            carry as int,
            rest as int,
        );
    }
    let secs: i128 = to.secs as i128 - from.secs as i128 + leap + carry;
    let whole: i128 = if secs < 0 && rest > 0 {
        secs + 1
    } else {
        secs
    };
    let days: i128 = if whole >= 0 {
        whole / 86400
    } else {
        -((-whole) / 86400)
    };
    proof {
        assert(-20_000_000_000_000_000_000 <= whole <= 20_000_000_000_000_000_000);
        assert(days * 86400 <= 20_000_000_000_000_000_000 + 86400 && days * 86400
            >= -20_000_000_000_000_000_000 - 86400) by (nonlinear_arith)
            requires
                -20_000_000_000_000_000_000 <= whole <= 20_000_000_000_000_000_000,
                days == (if whole >= 0 {
                    whole / 86400
                } else {
                    -((-whole) / 86400)
                }),
        ;
    }
    days as i64
}

} // verus!
