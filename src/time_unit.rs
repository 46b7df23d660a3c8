use vstd::prelude::*;

use crate::error::ParseError;
use crate::text::str_equals;

verus! {

/// Granularity of a time series, from a quarter of an hour up to a year.
#[derive(Debug, Clone, Copy, PartialEq, Eq, Structural)]
pub enum TimeUnit {
    QuarterOfAnHour,
    Hour,
    Day,
    Week,
    Month,
    Year,
}

/// The token that the service uses for each granularity.
pub open spec fn wire_token(u: TimeUnit) -> Seq<char> {
    match u {
        TimeUnit::QuarterOfAnHour => "QUARTER_OF_AN_HOUR"@,
        TimeUnit::Hour => "HOUR"@,
        TimeUnit::Day => "DAY"@,
        TimeUnit::Week => "WEEK"@,
        TimeUnit::Month => "MONTH"@,
        TimeUnit::Year => "YEAR"@,
    }
}

/// The granularity that a token names, if any: an exact, case-sensitive match.
pub open spec fn time_unit_of(s: Seq<char>) -> Option<TimeUnit> {
    if s == "QUARTER_OF_AN_HOUR"@ {
        Some(TimeUnit::QuarterOfAnHour)
    } else if s == "HOUR"@ {
        Some(TimeUnit::Hour)
    } else if s == "DAY"@ {
        Some(TimeUnit::Day)
    } else if s == "WEEK"@ {
        Some(TimeUnit::Week)
    } else if s == "MONTH"@ {
        Some(TimeUnit::Month)
    } else if s == "YEAR"@ {
        Some(TimeUnit::Year)
    } else {
        None
    }
}

/// Reading back the token of a granularity gives that granularity.
pub proof fn lemma_wire_token_round_trip(u: TimeUnit)
    ensures
        time_unit_of(wire_token(u)) == Some(u),
{
    reveal_strlit("QUARTER_OF_AN_HOUR");
    reveal_strlit("HOUR");
    reveal_strlit("DAY");
    reveal_strlit("WEEK");
    reveal_strlit("MONTH");
    reveal_strlit("YEAR");
    let q = "QUARTER_OF_AN_HOUR"@;
    let h = "HOUR"@;
    let d = "DAY"@;
    let w = "WEEK"@;
    let m = "MONTH"@;
    let y = "YEAR"@;
    assert(q.len() == 18 && h.len() == 4 && d.len() == 3 && w.len() == 4 && m.len() == 5
        && y.len() == 4);
    assert(h[0] == 'H' && w[0] == 'W' && y[0] == 'Y');
    assert(h != q && d != q && d != h && w != q && w != h && w != d);
    assert(m != q && m != h && m != d && m != w);
    assert(y != q && y != h && y != d && y != w && y != m);
}

impl TimeUnit {
    /// The token sent to the service for this granularity.
    pub fn to_param(&self) -> (r: &'static str)
        ensures
            r@ == wire_token(*self),
    {
        match self {
            TimeUnit::QuarterOfAnHour => "QUARTER_OF_AN_HOUR",
            TimeUnit::Hour => "HOUR",
            TimeUnit::Day => "DAY",
            TimeUnit::Week => "WEEK",
            TimeUnit::Month => "MONTH",
            TimeUnit::Year => "YEAR",
        }
    }

    /// Reads a granularity from the token the service sent; any other text fails.
    pub fn from_const(s: &str) -> (r: Result<TimeUnit, ParseError>)
        ensures
            r == match time_unit_of(s@) {
                Some(u) => Ok::<TimeUnit, ParseError>(u),
                None => Err(ParseError::UnknownTimeUnit),
            },
    {
        if str_equals(s, "QUARTER_OF_AN_HOUR") {
            Ok(TimeUnit::QuarterOfAnHour)
        } else if str_equals(s, "HOUR") {
            Ok(TimeUnit::Hour)
        } else if str_equals(s, "DAY") {
            Ok(TimeUnit::Day)
        } else if str_equals(s, "WEEK") {
            Ok(TimeUnit::Week)
        } else if str_equals(s, "MONTH") {
            Ok(TimeUnit::Month)
        } else if str_equals(s, "YEAR") {
            Ok(TimeUnit::Year)
        } else {
            Err(ParseError::UnknownTimeUnit)
        }
    }
}

} // verus!
