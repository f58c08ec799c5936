//! Moments in time, as the seconds and nanoseconds since the Unix epoch,
//! and how the pages word them.

use chrono::DateTime;
use vstd::prelude::*;
use vstd::string::*;

verus! {

/// Whether `chrono` has a date and time for `secs` seconds and `nanos`
/// nanoseconds since the Unix epoch.
pub uninterp spec fn representable(secs: i64, nanos: u32) -> bool;

/// The whole days from the second moment to the first, as `chrono` counts
/// them; negative where the first moment is the earlier one.
pub uninterp spec fn days_between(secs: i64, nanos: u32, since_secs: i64, since_nanos: u32) -> i64;

/// The date of a moment as `chrono` writes it for `%Y %B %e`: the year,
/// the month's English name, and the day of the month.
pub uninterp spec fn date_text(secs: i64, nanos: u32) -> Seq<char>;

/// The date and time of a moment as `chrono` writes a `NaiveDateTime`:
/// the date, a space, and the time of day in UTC.
pub uninterp spec fn date_time_text(secs: i64, nanos: u32) -> Seq<char>;

/// Calls `chrono::DateTime::from_timestamp`. Trusted: whether it returns
/// a date and time depends on the two numbers alone.
#[verifier::external_body]
fn chrono_accepts(secs: i64, nanos: u32) -> (yes: bool)
    ensures
        yes == representable(secs, nanos),
{
    DateTime::from_timestamp(secs, nanos).is_some()
}

/// Calls `-` on two `chrono::DateTime` and `TimeDelta::num_days` on the
/// difference. Trusted: the count depends on the two moments alone.
#[verifier::external_body]
fn chrono_days(secs: i64, nanos: u32, since_secs: i64, since_nanos: u32) -> (days: i64)
    requires
        representable(secs, nanos),
        representable(since_secs, since_nanos),
    ensures
        days == days_between(secs, nanos, since_secs, since_nanos),
{
    let moment = DateTime::from_timestamp(secs, nanos).unwrap();
    let since = DateTime::from_timestamp(since_secs, since_nanos).unwrap();
    (moment - since).num_days()
}

/// Calls `chrono::DateTime::format` with `%Y %B %e`. Trusted: the text
/// depends on the moment alone.
#[verifier::external_body]
fn chrono_date(secs: i64, nanos: u32) -> (text: String)
    requires
        representable(secs, nanos),
    ensures
        text@ == date_text(secs, nanos),
{
    DateTime::from_timestamp(secs, nanos).unwrap().format("%Y %B %e").to_string()
}

/// Calls `chrono::DateTime::naive_utc` and the `Display` of the
/// `NaiveDateTime`. Trusted: the text depends on the moment alone.
#[verifier::external_body]
fn chrono_date_time(secs: i64, nanos: u32) -> (text: String)
    requires
        representable(secs, nanos),
    ensures
        text@ == date_time_text(secs, nanos),
{
    DateTime::from_timestamp(secs, nanos).unwrap().naive_utc().to_string()
}

/// A moment that `chrono` has a date and time for.
#[derive(Clone, Copy, Debug, PartialEq, Eq)]
pub struct Timestamp {
    secs: i64,
    nanos: u32,
}

impl View for Timestamp {
    type V = (i64, u32);

    /// The seconds and the nanoseconds since the Unix epoch.
    closed spec fn view(&self) -> (i64, u32) {
        (self.secs, self.nanos)
    }
}

impl DeepView for Timestamp {
    type V = (i64, u32);

    open spec fn deep_view(&self) -> (i64, u32) {
        self@
    }
}

impl Timestamp {
    #[verifier::type_invariant]
    spec fn has_date(self) -> bool {
        representable(self.secs, self.nanos)
    }

    /// The moment `secs` seconds and `nanos` nanoseconds after the Unix
    /// epoch, if `chrono` has a date and time for it.
    pub fn new(secs: i64, nanos: u32) -> (moment: Option<Timestamp>)
        ensures
            moment is Some <==> representable(secs, nanos),
            moment matches Some(m) ==> m@ == (secs, nanos),
    {
        if chrono_accepts(secs, nanos) {
            Some(Timestamp { secs, nanos })
        } else {
            None
        }
    }

    /// The whole seconds since the Unix epoch.
    pub fn secs(&self) -> (secs: i64)
        ensures
            secs == self@.0,
    {
        self.secs
    }

    /// The nanoseconds past the whole second.
    pub fn nanos(&self) -> (nanos: u32)
        ensures
            nanos == self@.1,
    {
        self.nanos
    }

    /// The whole days from `since` to this moment; negative where this
    /// moment is the earlier one.
    pub fn days_since(&self, since: &Timestamp) -> (days: i64)
        ensures
            days == days_between(self@.0, self@.1, since@.0, since@.1),
    {
        proof {
            use_type_invariant(self);
            use_type_invariant(since);
        }
        chrono_days(self.secs, self.nanos, since.secs, since.nanos)
    }

    /// The date and the time of day of this moment, in UTC.
    pub fn date_time(&self) -> (text: String)
        ensures
            text@ == date_time_text(self@.0, self@.1),
    {
        proof {
            use_type_invariant(self);
        }
        chrono_date_time(self.secs, self.nanos)
    }

    /// The date of this moment: year, month by name, day of the month.
    pub fn date(&self) -> (text: String)
        ensures
            text@ == date_text(self@.0, self@.1),
    {
        proof {
            use_type_invariant(self);
        }
        chrono_date(self.secs, self.nanos)
    }
}

/// The decimal digit `d`.
pub open spec fn digit(d: int) -> char {
    "0123456789"@[d]
}

/// The decimal numeral of `n`, without leading zeros.
pub open spec fn decimal(n: nat) -> Seq<char>
    decreases n,
{
    if n < 10 {
        seq![digit(n as int)]
    } else {
        decimal(n / 10).push(digit((n % 10) as int))
    }
}

/// How a distance of `days` whole days from now reads: `today`,
/// `tomorrow`, `yesterday`, `in 3 days`, `3 days ago`.
pub open spec fn days_text(days: int) -> Seq<char> {
    if days > 1 {
        "in "@ + decimal(days as nat) + " days"@
    } else if days == 1 {
        "tomorrow"@
    } else if days == 0 {
        "today"@
    } else if days == -1 {
        "yesterday"@
    } else {
        decimal((-days) as nat) + " days ago"@
    }
}

/// The numeral of one decimal digit.
fn digit_numeral(d: u64) -> (text: &'static str)
    requires
        d < 10,
    ensures
        text@ == seq![digit(d as int)],
{
    proof {
        reveal_strlit("0123456789");
        reveal_strlit("0");
        reveal_strlit("1");
        reveal_strlit("2");
        reveal_strlit("3");
        reveal_strlit("4");
        reveal_strlit("5");
        reveal_strlit("6");
        reveal_strlit("7");
        reveal_strlit("8");
        reveal_strlit("9");
    }
    let text = if d == 0 {
        "0"
    } else if d == 1 {
        "1"
    } else if d == 2 {
        "2"
    } else if d == 3 {
        "3"
    } else if d == 4 {
        "4"
    } else if d == 5 {
        "5"
    } else if d == 6 {
        "6"
    } else if d == 7 {
        "7"
    } else if d == 8 {
        "8"
    } else {
        "9"
    };
    assert(text@ =~= seq![digit(d as int)]);
    text
}

/// The decimal numeral of `n`, without leading zeros.
pub fn numeral(n: u64) -> (text: String)
    ensures
        text@ == decimal(n as nat),
    decreases n,
{
    if n < 10 {
        String::from_str(digit_numeral(n))
    } else {
        let mut text = numeral(n / 10);
        text.append(digit_numeral(n % 10));
        text
    }
}

/// How a distance of `days` whole days from now reads.
pub fn days_text_of(days: i64) -> (text: String)
    ensures
        text@ == days_text(days as int),
{
    if days > 1 {
        let mut text = String::from_str("in ");
        text.append(numeral(days as u64).as_str());
        text.append(" days");
        text
    } else if days == 1 {
        String::from_str("tomorrow")
    } else if days == 0 {
        String::from_str("today")
    } else if days == -1 {
        String::from_str("yesterday")
    } else {
        let magnitude: u64 = ((-(days + 1)) as u64) + 1;
        let mut text = numeral(magnitude);
        text.append(" days ago");
        text
    }
}

/// How the moment `t` reads at the moment `now`, by the whole days
/// between them.
pub fn days_ago(t: &Timestamp, now: &Timestamp) -> (text: String)
    ensures
        text@ == days_text(days_between(t@.0, t@.1, now@.0, now@.1) as int),
{
    days_text_of(t.days_since(now))
}

} // verus!
