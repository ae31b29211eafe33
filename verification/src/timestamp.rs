//! UTC publication instants as plain calendar fields, and their rendering in
//! the formats the conventions and the renderer use.

use vstd::prelude::*;
use vstd::string::StringExecFns;
use chrono::{Datelike, TimeZone, Timelike};

use crate::text::{dec_rep, fmt_pad2, fmt_pad4, fmt_u64, pad2_rep, pad4_rep};

verus! {

/// A UTC instant, broken down to the calendar fields the pipeline reads.
#[derive(Clone, Copy, Debug, PartialEq, Eq, Structural)]
pub struct Timestamp {
    pub year: i32,
    pub month: u8,
    pub day: u8,
    pub hour: u8,
    pub minute: u8,
}

impl Timestamp {
    /// Field ranges of a calendar timestamp.
    pub open spec fn wf(self) -> bool {
        &&& 1 <= self.month <= 12
        &&& 1 <= self.day <= 31
        &&& self.hour <= 23
        &&& self.minute <= 59
    }
}

/// The year number in chrono's `%Y` form: zero-padded to at least four
/// digits, and carrying an explicit sign outside `0..=9999`.
pub open spec fn year_rep(y: int) -> Seq<char> {
    if y < 0 {
        seq!['-'] + pad4_rep((-y) as nat)
    } else if y > 9999 {
        seq!['+'] + dec_rep(y as nat)
    } else {
        pad4_rep(y as nat)
    }
}

/// `%Y-%m-%d`.
pub open spec fn date_rep(t: Timestamp) -> Seq<char> {
    year_rep(t.year as int) + seq!['-'] + pad2_rep(t.month as nat) + seq!['-'] + pad2_rep(
        t.day as nat,
    )
}

/// `%Y-%m-%d %H:%M`.
pub open spec fn datetime_rep(t: Timestamp) -> Seq<char> {
    date_rep(t) + seq![' '] + pad2_rep(t.hour as nat) + seq![':'] + pad2_rep(t.minute as nat)
}

/// Renders the year as `year_rep` describes.
pub fn fmt_year(y: i32) -> (s: String)
    ensures
        s@ == year_rep(y as int),
{
    if y >= 0 && y <= 9999 {
        fmt_pad4(y as u64)
    } else if y > 9999 {
        proof {
            reveal_strlit("+");
        }
        let mut s = "+".to_owned();
        let t = fmt_u64(y as u64);
        s.append(t.as_str());
        proof {
            assert(s@ =~= year_rep(y as int));
        }
        s
    } else {
        proof {
            reveal_strlit("-");
        }
        let mut s = "-".to_owned();
        let m: i64 = -(y as i64);
        let t = fmt_pad4(m as u64);
        s.append(t.as_str());
        proof {
            assert(s@ =~= year_rep(y as int));
        }
        s
    }
}

/// Renders `%Y-%m-%d`.
pub fn fmt_date(t: &Timestamp) -> (s: String)
    ensures
        s@ == date_rep(*t),
{
    proof {
        reveal_strlit("-");
    }
    let mut s = fmt_year(t.year);
    s.append("-");
    let m = fmt_pad2(t.month as u64);
    s.append(m.as_str());
    s.append("-");
    let d = fmt_pad2(t.day as u64);
    s.append(d.as_str());
    proof {
        assert(s@ =~= date_rep(*t));
    }
    s
}

/// Renders `%Y-%m-%d %H:%M`.
pub fn fmt_datetime(t: &Timestamp) -> (s: String)
    ensures
        s@ == datetime_rep(*t),
{
    proof {
        reveal_strlit(" ");
        reveal_strlit(":");
    }
    let mut s = fmt_date(t);
    s.append(" ");
    let h = fmt_pad2(t.hour as u64);
    s.append(h.as_str());
    s.append(":");
    let mi = fmt_pad2(t.minute as u64);
    s.append(mi.as_str());
    proof {
        assert(s@ =~= datetime_rep(*t));
    }
    s
}

/// The UTC calendar fields denoted by a count of seconds since the Unix
/// epoch, or `None` where that count is outside the representable range.
pub uninterp spec fn civil_of_epoch(secs: int) -> Option<(int, int, int, int, int)>;

/// Relies on chrono's `TimeZone::timestamp_opt` on `Utc` and on the
/// `Datelike` / `Timelike` accessors: the UTC calendar fields of an epoch
/// second count are a function of that count alone; `timestamp_opt` returns
/// `None` exactly on an out-of-range count; the accessors document months
/// 1-12, days 1-31, hours 0-23 and minutes 0-59.
#[verifier::external_body]
pub(crate) fn timestamp_from_epoch(secs: i64) -> (r: Option<Timestamp>)
    ensures
        match r {
            Some(t) => {
                &&& civil_of_epoch(secs as int) == Some(
                    (t.year as int, t.month as int, t.day as int, t.hour as int, t.minute as int),
                )
                &&& t.wf()
            },
            None => civil_of_epoch(secs as int) is None,
        },
{
    match chrono::Utc.timestamp_opt(secs, 0) {
        chrono::LocalResult::Single(dt) => Some(
            Timestamp {
                year: dt.year(),
                month: dt.month() as u8,
                day: dt.day() as u8,
                hour: dt.hour() as u8,
                minute: dt.minute() as u8,
            },
        ),
        _ => None,
    }
}

} // verus!
