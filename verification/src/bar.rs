//! Daily price bars and the instants they are stamped with.

use crate::amount::Amount;
use crate::error::MetricsError;
use chrono::DateTime;
use vstd::prelude::*;

verus! {

/// Whether `chrono` can hold the instant `secs` seconds after the Unix epoch
/// as a UTC date and time.
pub uninterp spec fn utc_representable(secs: int) -> bool;

/// The calendar date, in UTC, of the instant `secs` seconds after the Unix
/// epoch, as `chrono` writes it: year, month and day, separated by hyphens.
pub uninterp spec fn utc_date_text(secs: int) -> Seq<char>;

/// The date, hour and minute, in UTC, of the instant `secs` seconds after the
/// Unix epoch, as `chrono` writes them for the pattern `%Y-%m-%d %H:%M`.
pub uninterp spec fn utc_minute_text(secs: int) -> Seq<char>;

/// An instant, in whole seconds since the Unix epoch, that has a calendar
/// date. Its view is the number of seconds.
#[derive(Clone, Copy, Debug, PartialEq, Eq, Structural)]
pub struct Timestamp {
    secs: i64,
}

impl View for Timestamp {
    type V = int;

    closed spec fn view(&self) -> int {
        self.secs as int
    }
}

impl Timestamp {
    #[verifier::type_invariant]
    spec fn well_formed(self) -> bool {
        utc_representable(self@)
    }

    /// The instant `secs` seconds after the Unix epoch, or nothing where the
    /// calendar does not reach that far.
    pub fn new(secs: i64) -> (r: Option<Timestamp>)
        ensures
            r is Some <==> utc_representable(secs as int),
            r matches Some(t) ==> t@ == secs,
    {
        if utc_in_range(secs) {
            Some(Timestamp { secs })
        } else {
            None
        }
    }

    /// Seconds since the Unix epoch.
    pub fn secs(&self) -> (r: i64)
        ensures
            r == self@,
    {
        self.secs
    }

    /// The calendar date in UTC, as `YYYY-MM-DD`.
    pub fn date_text(&self) -> (r: String)
        ensures
            r@ == utc_date_text(self@),
    {
        proof {
            use_type_invariant(self);
        }
        match utc_date(self.secs) {
            Some(text) => text,
            None => vstd::pervasive::unreached(),
        }
    }

    /// The date, hour and minute in UTC, as `YYYY-MM-DD HH:MM`.
    pub fn minute_text(&self) -> (r: String)
        ensures
            r@ == utc_minute_text(self@),
    {
        proof {
            use_type_invariant(self);
        }
        match utc_minute(self.secs) {
            Some(text) => text,
            None => vstd::pervasive::unreached(),
        }
    }
}

/// Trusted: `chrono::DateTime::from_timestamp`, asked only whether it
/// accepts `secs` with no fraction of a second. The contract names the
/// answer.
#[verifier::external_body]
fn utc_in_range(secs: i64) -> (r: bool)
    ensures
        r == utc_representable(secs as int),
{
    DateTime::from_timestamp(secs, 0).is_some()
}

/// Trusted: `chrono::DateTime::date_naive` and the `Display` of the date it
/// gives, for the instant that `DateTime::from_timestamp` makes of `secs`.
/// The contract says that a text comes back exactly for the instants
/// `chrono` can hold, and names it.
#[verifier::external_body]
fn utc_date(secs: i64) -> (r: Option<String>)
    ensures
        r is Some <==> utc_representable(secs as int),
        r matches Some(text) ==> text@ == utc_date_text(secs as int),
{
    match DateTime::from_timestamp(secs, 0) {
        Some(instant) => Some(instant.date_naive().to_string()),
        None => None,
    }
}

/// Trusted: `chrono::DateTime::format` with the pattern `%Y-%m-%d %H:%M`,
/// for the instant that `DateTime::from_timestamp` makes of `secs`. The
/// contract says that a text comes back exactly for the instants `chrono`
/// can hold, and names it.
#[verifier::external_body]
fn utc_minute(secs: i64) -> (r: Option<String>)
    ensures
        r is Some <==> utc_representable(secs as int),
        r matches Some(text) ==> text@ == utc_minute_text(secs as int),
{
    match DateTime::from_timestamp(secs, 0) {
        Some(instant) => Some(instant.format("%Y-%m-%d %H:%M").to_string()),
        None => None,
    }
}

/// One day of trading: when, the four prices, and how much changed hands.
#[derive(Clone, Copy, Debug, PartialEq, Eq)]
pub struct PriceBar {
    pub timestamp: Timestamp,
    pub open: Amount,
    pub high: Amount,
    pub low: Amount,
    pub close: Amount,
    /// Shares traded; some sources do not report it.
    pub volume: Option<u64>,
}

/// The closing prices of `bars`, in order.
pub open spec fn closes(bars: Seq<PriceBar>) -> Seq<Amount> {
    Seq::new(bars.len(), |i: int| bars[i].close)
}

/// The daily highs of `bars`, in order.
pub open spec fn highs(bars: Seq<PriceBar>) -> Seq<Amount> {
    Seq::new(bars.len(), |i: int| bars[i].high)
}

/// The daily lows of `bars`, in order.
pub open spec fn lows(bars: Seq<PriceBar>) -> Seq<Amount> {
    Seq::new(bars.len(), |i: int| bars[i].low)
}

/// A series is chronological when each bar is stamped strictly later than
/// the one before it, so that no two bars share an instant.
pub open spec fn chronological(bars: Seq<PriceBar>) -> bool {
    forall|i: int, j: int| 0 <= i < j < bars.len() ==> bars[i].timestamp@ < bars[j].timestamp@
}

/// Whether every bar reports a volume.
pub open spec fn volumes_present(bars: Seq<PriceBar>) -> bool {
    forall|i: int| 0 <= i < bars.len() ==> (#[trigger] bars[i]).volume is Some
}

/// Decides whether `bars` is chronological.
pub fn is_chronological(bars: &Vec<PriceBar>) -> (r: bool)
    ensures
        r == chronological(bars@),
{
    if bars.len() < 2 {
        return true;
    }
    let mut i: usize = 1;
    while i < bars.len()
        invariant
            1 <= i <= bars.len(),
            forall|a: int, b: int| 0 <= a < b < i ==> bars@[a].timestamp@ < bars@[b].timestamp@,
        decreases bars.len() - i,
    {
        if bars[i - 1].timestamp.secs() >= bars[i].timestamp.secs() {
            return false;
        }
        proof {
            assert forall|a: int, b: int| 0 <= a < b < i + 1 implies bars@[a].timestamp@
                < bars@[b].timestamp@ by {
                if b == i && a < i - 1 {
                    assert(bars@[a].timestamp@ < bars@[i - 1].timestamp@);
                }
            }
        }
        i += 1;
    }
    true
}

/// Checks that every bar reports a volume, as the quote table needs.
pub fn require_volumes(bars: &Vec<PriceBar>) -> (r: Result<(), MetricsError>)
    ensures
        r is Ok <==> volumes_present(bars@),
        r matches Err(e) ==> e == MetricsError::MissingData,
{
    let mut i: usize = 0;
    while i < bars.len()
        invariant
            i <= bars.len(),
            forall|k: int| 0 <= k < i ==> (#[trigger] bars@[k]).volume is Some,
        decreases bars.len() - i,
    {
        if bars[i].volume.is_none() {
            return Err(MetricsError::MissingData);
        }
        i += 1;
    }
    Ok(())
}

} // verus!
