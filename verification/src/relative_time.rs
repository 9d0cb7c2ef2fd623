//! Relative-time labels ("3 minutes ago") for picker rows.

use vstd::prelude::*;
use vstd::string::*;
use crate::text::{decimal, u64_to_string};

verus! {

/// Seconds in each calendar unit used by the labels.
pub const MINUTE_SECS: i64 = 60;
pub const HOUR_SECS: i64 = 3_600;
pub const DAY_SECS: i64 = 86_400;
pub const WEEK_SECS: i64 = 604_800;
pub const MONTH_SECS: i64 = 2_592_000;
pub const YEAR_SECS: i64 = 31_536_000;

/// The unit a label for `elapsed` (at least a minute) is expressed in, with its size in seconds.
pub open spec fn unit_for(elapsed: int) -> (int, Seq<char>) {
    if elapsed < HOUR_SECS {
        (MINUTE_SECS as int, "minute"@)
    } else if elapsed < DAY_SECS {
        (HOUR_SECS as int, "hour"@)
    } else if elapsed < WEEK_SECS {
        (DAY_SECS as int, "day"@)
    } else if elapsed < MONTH_SECS {
        (WEEK_SECS as int, "week"@)
    } else if elapsed < YEAR_SECS {
        (MONTH_SECS as int, "month"@)
    } else {
        (YEAR_SECS as int, "year"@)
    }
}

/// The label for `elapsed` seconds: `just now` under a minute, otherwise the
/// largest unit that fits, counted down to a whole number, pluralised unless
/// the count is one: `{n} {unit}{s} ago`.
pub open spec fn humanize_spec(elapsed: int) -> Seq<char> {
    if elapsed < MINUTE_SECS {
        "just now"@
    } else {
        let (size, unit) = unit_for(elapsed);
        let n = elapsed / size;
        decimal(n as nat) + " "@ + unit + (if n == 1 { ""@ } else { "s"@ }) + " ago"@
    }
}

/// Human-readable age for `elapsed_secs` seconds (negative ages read as `just now`).
pub fn humanize(elapsed_secs: i64) -> (s: String)
    ensures
        s@ == humanize_spec(elapsed_secs as int),
{
    if elapsed_secs < MINUTE_SECS {
        return String::from_str("just now");
    }
    let (size, unit): (i64, &str) = if elapsed_secs < HOUR_SECS {
        (MINUTE_SECS, "minute")
    } else if elapsed_secs < DAY_SECS {
        (HOUR_SECS, "hour")
    } else if elapsed_secs < WEEK_SECS {
        (DAY_SECS, "day")
    } else if elapsed_secs < MONTH_SECS {
        (WEEK_SECS, "week")
    } else if elapsed_secs < YEAR_SECS {
        (MONTH_SECS, "month")
    } else {
        (YEAR_SECS, "year")
    };
    let n = elapsed_secs / size;
    let n_u: u64 = n as u64;
    let mut s = u64_to_string(n_u);
    s.append(" ");
    s.append(unit);
    if n != 1 {
        s.append("s");
    } else {
        s.append("");
    }
    s.append(" ago");
    s
}

/// `humanize` for an optional age; an unknown age reads `never`.
pub fn humanize_option(elapsed: Option<i64>) -> (s: String)
    ensures
        s@ == match elapsed {
            Some(n) => humanize_spec(n as int),
            None => "never"@,
        },
{
    match elapsed {
        Some(n) => humanize(n),
        None => String::from_str("never"),
    }
}

} // verus!
