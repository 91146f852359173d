//! The moment at which data was captured, and the label that says how long
//! ago that was.

use crate::decimal::{decimal, push_decimal};
use vstd::prelude::*;
use vstd::string::*;

verus! {

/// Quotient of `a` by a positive `b`, rounded towards zero.
pub open spec fn trunc_div(a: int, b: int) -> int
    recommends
        b > 0,
{
    if a >= 0 {
        a / b
    } else {
        -((-a) / b)
    }
}

/// Remainder of `a` by a positive `b` that goes with [`trunc_div`]: it has
/// the sign of `a`.
pub open spec fn trunc_rem(a: int, b: int) -> int
    recommends
        b > 0,
{
    if a >= 0 {
        a % b
    } else {
        -((-a) % b)
    }
}

/// The seconds left over once the whole minutes of `elapsed` are taken out.
pub open spec fn seconds_part(elapsed: int) -> int {
    trunc_rem(elapsed, 60)
}

/// The minutes left over once the whole hours of `elapsed` are taken out.
pub open spec fn minutes_part(elapsed: int) -> int {
    trunc_rem(trunc_div(elapsed, 60), 60)
}

/// The whole hours in `elapsed`.
pub open spec fn hours_part(elapsed: int) -> int {
    trunc_div(elapsed, 3600)
}

/// The three parts make up the whole: hours, minutes and seconds add up to
/// `elapsed`, minutes and seconds stay below 60 in size, and no part has
/// the opposite sign of `elapsed`.
pub proof fn lemma_parts_make_up_elapsed(elapsed: int)
    ensures
        elapsed == 3600 * hours_part(elapsed) + 60 * minutes_part(elapsed) + seconds_part(elapsed),
        -60 < minutes_part(elapsed) < 60,
        -60 < seconds_part(elapsed) < 60,
        elapsed >= 0 ==> hours_part(elapsed) >= 0 && minutes_part(elapsed) >= 0 && seconds_part(
            elapsed,
        ) >= 0,
        elapsed <= 0 ==> hours_part(elapsed) <= 0 && minutes_part(elapsed) <= 0 && seconds_part(
            elapsed,
        ) <= 0,
{
}

/// The label for data that is `elapsed` seconds old. Anything up to five
/// seconds old, and anything from the future, is "Just now".
pub open spec fn age_label(elapsed: int) -> Seq<char> {
    if elapsed >= 3600 {
        decimal((elapsed / 3600) as nat) + "h "@ + decimal((elapsed / 60 % 60) as nat) + "m "@
            + decimal((elapsed % 60) as nat) + "s ago"@
    } else if elapsed >= 60 {
        decimal((elapsed / 60) as nat) + "m "@ + decimal((elapsed % 60) as nat) + "s ago"@
    } else if elapsed > 5 {
        decimal(elapsed as nat) + "s ago"@
    } else {
        "Just now"@
    }
}

/// A point in time, held as whole seconds since the Unix epoch (UTC).
#[derive(Debug, Clone, Copy, PartialEq, Eq, Structural)]
pub struct Timestamp {
    pub utc: i64,
}

/// The system clock, read with `chrono::Utc::now` and cut to whole seconds
/// since the Unix epoch by `DateTime::timestamp`. Nothing is claimed of the
/// value: two readings may differ in either direction. `Utc::now` panics
/// where the system clock stands before the epoch.
#[verifier::external_body]
fn unix_seconds_now() -> i64 {
    chrono::Utc::now().timestamp()
}

impl Timestamp {
    /// The seconds from `self` to `dt`; negative where `dt` is earlier.
    pub open spec fn elapsed(self, dt: i64) -> int {
        dt - self.utc
    }

    /// The moment `utc` seconds after the Unix epoch.
    pub fn new(utc: i64) -> (ts: Self)
        ensures
            ts.utc == utc,
    {
        Self { utc }
    }

    /// The current time of the system clock.
    pub fn now() -> Self {
        Self { utc: unix_seconds_now() }
    }

    /// Splits the time from `self` to `dt` into seconds, minutes and hours,
    /// in that order. All three carry the sign of the difference.
    pub fn get_smh(&self, dt: i64) -> (smh: (i64, i64, i64))
        ensures
            smh.0 == seconds_part(self.elapsed(dt)),
            smh.1 == minutes_part(self.elapsed(dt)),
            smh.2 == hours_part(self.elapsed(dt)),
    {
        let diff: i128 = dt as i128 - self.utc as i128;
        let s: i128 = diff % 60;
        let m: i128 = diff / 60 % 60;
        let h: i128 = diff / 3600;
        (s as i64, m as i64, h as i64)
    }

    /// The age of `self` as seen at `dt`, in words.
    pub fn to_string_with_dt(&self, dt: i64) -> (label: String)
        ensures
            label@ == age_label(self.elapsed(dt)),
    {
        let (s, m, h) = self.get_smh(dt);
        let mut label = String::new();
        if h > 0 {
            push_decimal(&mut label, h as u64);
            label.append("h ");
            push_decimal(&mut label, m as u64);
            label.append("m ");
            push_decimal(&mut label, s as u64);
            label.append("s ago");
        } else if h == 0 && m > 0 {
            push_decimal(&mut label, m as u64);
            label.append("m ");
            push_decimal(&mut label, s as u64);
            label.append("s ago");
        } else if h == 0 && m == 0 && s > 5 {
            push_decimal(&mut label, s as u64);
            label.append("s ago");
        } else {
            label.append("Just now");
        }
        label
    }

    /// The age of `self` as seen now, by the system clock.
    pub fn to_string(&self) -> (label: String)
        ensures
            exists|dt: i64| label@ == age_label(self.elapsed(dt)),
    {
        let now: i64 = unix_seconds_now();
        self.to_string_with_dt(now)
    }
}

} // verus!
