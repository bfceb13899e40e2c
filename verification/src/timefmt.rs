//! Rendering of unix timestamps as ISO 8601 text for status reports.
//!
//! The civil-date arithmetic (days to year, month and day, with full
//! Gregorian leap-year handling) and the fixed-width digit rendering are
//! both verified down to the exact character sequence produced.  The
//! supported range runs from the epoch to the end of the algorithm's
//! documented domain in the year 2100.

use vstd::prelude::*;
use vstd::string::StringExecFns;

verus! {

/// One second past the last instant of the supported rendering domain.
pub const ISO_RANGE_END: i64 = 4102444800;

/// The Gregorian leap-year rule.
pub open spec fn spec_is_leap_year(year: int) -> bool {
    (year % 4 == 0 && year % 100 != 0) || (year % 400 == 0)
}

/// Days in `year`.
pub open spec fn spec_days_in_year(year: int) -> int {
    if spec_is_leap_year(year) {
        366
    } else {
        365
    }
}

/// Days in `month` (1 to 12) of a year with the given leap flag.
pub open spec fn spec_days_in_month(month: int, leap: bool) -> int {
    if month == 2 {
        if leap {
            29
        } else {
            28
        }
    } else if month == 4 || month == 6 || month == 9 || month == 11 {
        30
    } else {
        31
    }
}

/// Resolve a day count into a year: starting from `year`, walk forward
/// while the remaining days cover a whole year.  Returns the final year
/// and the zero-based day within it.
pub open spec fn spec_year_split(days: int, year: int) -> (int, int)
    decreases days,
{
    if days < spec_days_in_year(year) || days < 0 {
        (year, days)
    } else {
        spec_year_split(days - spec_days_in_year(year), year + 1)
    }
}

/// Resolve a zero-based day of the year into a month (1 to 12) and a
/// one-based day of the month.
pub open spec fn spec_month_split(days: int, month: int, leap: bool) -> (int, int)
    decreases 13 - month,
{
    if month >= 12 || days < spec_days_in_month(month, leap) {
        (month, days + 1)
    } else {
        spec_month_split(days - spec_days_in_month(month, leap), month + 1, leap)
    }
}

/// Total days in months `month` to 12 of a year with the given leap flag.
pub open spec fn spec_days_from_month(month: int, leap: bool) -> int
    decreases 13 - month,
{
    if month > 12 {
        0
    } else {
        spec_days_in_month(month, leap) + spec_days_from_month(month + 1, leap)
    }
}

/// The year, month, day, hour, minute and second that `ts` seconds past
/// the epoch fall on.
pub open spec fn spec_civil_from_unix(ts: int) -> (int, int, int, int, int, int) {
    let days = ts / 86400;
    let tod = ts % 86400;
    let ys = spec_year_split(days, 1970);
    let leap = spec_is_leap_year(ys.0);
    let ms = spec_month_split(ys.1, 1, leap);
    (ys.0, ms.0, ms.1, tod / 3600, (tod % 3600) / 60, tod % 60)
}

/// The decimal digit character for `d` (0 to 9).
pub open spec fn spec_digit(d: int) -> char {
    if d == 0 {
        '0'
    } else if d == 1 {
        '1'
    } else if d == 2 {
        '2'
    } else if d == 3 {
        '3'
    } else if d == 4 {
        '4'
    } else if d == 5 {
        '5'
    } else if d == 6 {
        '6'
    } else if d == 7 {
        '7'
    } else if d == 8 {
        '8'
    } else {
        '9'
    }
}

/// `n` rendered as exactly two decimal digits.
pub open spec fn spec_pad2(n: int) -> Seq<char> {
    seq![spec_digit(n / 10 % 10), spec_digit(n % 10)]
}

/// `n` rendered as exactly four decimal digits.
pub open spec fn spec_pad4(n: int) -> Seq<char> {
    seq![
        spec_digit(n / 1000 % 10),
        spec_digit(n / 100 % 10),
        spec_digit(n / 10 % 10),
        spec_digit(n % 10),
    ]
}

/// The fixed `.000000+00:00` tail of every rendered timestamp.
pub open spec fn spec_iso_suffix() -> Seq<char> {
    seq!['.', '0', '0', '0', '0', '0', '0', '+', '0', '0', ':', '0', '0']
}

/// The full ISO 8601 rendering of `ts`:
/// `YYYY-MM-DDTHH:MM:SS.000000+00:00`.
pub open spec fn spec_iso_string(ts: int) -> Seq<char> {
    let c = spec_civil_from_unix(ts);
    spec_pad4(c.0) + seq!['-'] + spec_pad2(c.1) + seq!['-'] + spec_pad2(c.2) + seq!['T'] + spec_pad2(
        c.3,
    ) + seq![':'] + spec_pad2(c.4) + seq![':'] + spec_pad2(c.5) + spec_iso_suffix()
}

/// Whether `year` is a Gregorian leap year.
pub fn is_leap_year(year: i64) -> (b: bool)
    requires
        year >= 0,
    ensures
        b == spec_is_leap_year(year as int),
{
    (year % 4 == 0 && year % 100 != 0) || (year % 400 == 0)
}

/// Append the digit character for `d` to `s`.
fn append_digit(s: &mut String, d: i64)
    requires
        0 <= d <= 9,
    ensures
        final(s)@ == old(s)@ + seq![spec_digit(d as int)],
{
    proof {
        reveal_strlit("0");
        reveal_strlit("1");
        reveal_strlit("2");
        reveal_strlit("3");
        reveal_strlit("4");
        reveal_strlit("5");
        reveal_strlit("6");
        reveal_strlit("7");
        reveal_strlit("8");
        reveal_strlit("9");
    }
    if d == 0 {
        s.append("0");
        proof {
            assert(final(s)@ =~= old(s)@ + seq![spec_digit(d as int)]);
        }
    } else if d == 1 {
        s.append("1");
        proof {
            assert(final(s)@ =~= old(s)@ + seq![spec_digit(d as int)]);
        }
    } else if d == 2 {
        s.append("2");
        proof {
            assert(final(s)@ =~= old(s)@ + seq![spec_digit(d as int)]);
        }
    } else if d == 3 {
        s.append("3");
        proof {
            assert(final(s)@ =~= old(s)@ + seq![spec_digit(d as int)]);
        }
    } else if d == 4 {
        s.append("4");
        proof {
            assert(final(s)@ =~= old(s)@ + seq![spec_digit(d as int)]);
        }
    } else if d == 5 {
        s.append("5");
        proof {
            assert(final(s)@ =~= old(s)@ + seq![spec_digit(d as int)]);
        }
    } else if d == 6 {
        s.append("6");
        proof {
            assert(final(s)@ =~= old(s)@ + seq![spec_digit(d as int)]);
        }
    } else if d == 7 {
        s.append("7");
        proof {
            assert(final(s)@ =~= old(s)@ + seq![spec_digit(d as int)]);
        }
    } else if d == 8 {
        s.append("8");
        proof {
            assert(final(s)@ =~= old(s)@ + seq![spec_digit(d as int)]);
        }
    } else {
        s.append("9");
        proof {
            assert(final(s)@ =~= old(s)@ + seq![spec_digit(d as int)]);
        }
    }
}

/// Append `n` as exactly two decimal digits.
fn append_pad2(s: &mut String, n: i64)
    requires
        0 <= n <= 99,
    ensures
        final(s)@ == old(s)@ + spec_pad2(n as int),
{
    append_digit(s, n / 10);
    append_digit(s, n % 10);
    proof {
        assert(final(s)@ =~= old(s)@ + spec_pad2(n as int));
    }
}

/// Append `n` as exactly four decimal digits.
fn append_pad4(s: &mut String, n: i64)
    requires
        0 <= n <= 9999,
    ensures
        final(s)@ == old(s)@ + spec_pad4(n as int),
{
    append_digit(s, n / 1000);
    append_digit(s, n / 100 % 10);
    append_digit(s, n / 10 % 10);
    append_digit(s, n % 10);
    proof {
        assert(final(s)@ =~= old(s)@ + spec_pad4(n as int));
    }
}

/// Render a unix timestamp as `YYYY-MM-DDTHH:MM:SS.000000+00:00`, or
/// report `None` for the zero timestamp, which stands for "never".
pub fn unix_timestamp_to_iso(timestamp: i64) -> (r: Option<String>)
    requires
        0 <= timestamp < ISO_RANGE_END,
    ensures
        (r is None) <==> timestamp == 0,
        r is Some ==> r->Some_0@ == spec_iso_string(timestamp as int),
{
    if timestamp == 0 {
        return None;
    }
    let days_total: i64 = timestamp / 86400;
    let tod: i64 = timestamp % 86400;
    let mut days: i64 = days_total;
    let mut year: i64 = 1970;
    loop
        invariant
            spec_year_split(days_total as int, 1970) == spec_year_split(days as int, year as int),
            0 <= days <= days_total,
            days_total < 47482,
            1970 <= year,
            365 * (year - 1970) <= days_total - days,
        ensures
            spec_year_split(days_total as int, 1970) == (year as int, days as int),
            0 <= days,
            days < spec_days_in_year(year as int),
            1970 <= year,
            365 * (year - 1970) <= days_total - days,
        decreases days,
    {
        let diy: i64 = if is_leap_year(year) {
            366
        } else {
            365
        };
        if days < diy {
            break;
        }
        days = days - diy;
        year = year + 1;
    }
    // `days_total < 47482` bounds the year by 2100, so four digits
    // always suffice.
    assert(year <= 2100);
    let leap = is_leap_year(year);
    let ghost day_of_year: int = days as int;
    proof {
        reveal_with_fuel(spec_days_from_month, 14);
        assert(spec_days_from_month(1, leap) == spec_days_in_year(year as int));
    }
    let mut month: i64 = 1;
    loop
        invariant
            spec_month_split(day_of_year, 1, leap) == spec_month_split(
                days as int,
                month as int,
                leap,
            ),
            1 <= month <= 12,
            0 <= days,
            days < spec_days_from_month(month as int, leap),
        ensures
            spec_month_split(day_of_year, 1, leap) == (month as int, days as int + 1),
            1 <= month <= 12,
            0 <= days <= 30,
        decreases 13 - month,
    {
        let dim: i64 = if month == 2 {
            if leap {
                29
            } else {
                28
            }
        } else if month == 4 || month == 6 || month == 9 || month == 11 {
            30
        } else {
            31
        };
        if days < dim {
            break;
        }
        if month == 12 {
            proof {
                // The invariant caps `days` below the remaining-month
                // total, which for December alone is 31.
                assert(spec_days_from_month(13int, leap) == 0);
            }
            break;
        }
        days = days - dim;
        month = month + 1;
    }
    let day: i64 = days + 1;
    let hour: i64 = tod / 3600;
    let minute: i64 = (tod % 3600) / 60;
    let second: i64 = tod % 60;
    let mut out = String::new();
    append_pad4(&mut out, year);
    proof {
        reveal_strlit("-");
        reveal_strlit("T");
        reveal_strlit(":");
        reveal_strlit(".000000+00:00");
    }
    out.append("-");
    append_pad2(&mut out, month);
    out.append("-");
    append_pad2(&mut out, day);
    out.append("T");
    append_pad2(&mut out, hour);
    out.append(":");
    append_pad2(&mut out, minute);
    out.append(":");
    append_pad2(&mut out, second);
    out.append(".000000+00:00");
    proof {
        assert("-"@ =~= seq!['-']);
        assert("T"@ =~= seq!['T']);
        assert(":"@ =~= seq![':']);
        assert(".000000+00:00"@ =~= spec_iso_suffix());
        assert(out@ =~= spec_iso_string(timestamp as int));
    }
    Some(out)
}

} // verus!
