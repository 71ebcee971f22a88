//! The price analysis: what is known of a series, and the lines that say it.

use crate::amount::{fixed2_text, Amount};
use crate::bar::{utc_minute_text, PriceBar, Timestamp};
use crate::change::{period_change, period_change_of};
use crate::error::MetricsError;
use crate::range::{are_ranges_of, price_ranges, ranges_of, PriceRange};
use crate::return_series::MIN_BARS_FOR_VOLATILITY;
use crate::text::texts;
use vstd::prelude::*;
use vstd::string::StringExecFns;

verus! {

/// The dispersion of the returns of a series, already written as text: the
/// statistics are floating-point work, done where the series is fetched.
#[derive(Clone, Debug, PartialEq, Eq)]
pub struct VolatilityText {
    /// The sample standard deviation of the returns.
    pub std_dev: String,
    /// The same, times the square root of the trading days in a year, as a
    /// percentage.
    pub annualized: String,
}

/// What the analysis block of a report says. Each part is absent where the
/// series is too short for it or the data was not to be had.
#[derive(Clone, Debug, PartialEq, Eq)]
pub struct Analysis {
    /// Change from the first close to the last, in percent.
    pub percent_change: Option<Amount>,
    pub volatility: Option<VolatilityText>,
    /// The intraday range and the closing range.
    pub ranges: Option<(PriceRange, PriceRange)>,
    pub next_earnings: Option<Timestamp>,
}

impl Analysis {
    /// The parts of the percentage change, where there is one.
    pub open spec fn percent_parts(self) -> Option<(int, nat)> {
        match self.percent_change {
            Some(percent) => Some(percent@),
            None => None,
        }
    }
}

/// Whether a series of `bars` bars is long enough for a volatility: one
/// return is no dispersion, so it takes three bars.
pub open spec fn volatility_defined_for(bars: nat) -> bool {
    bars >= MIN_BARS_FOR_VOLATILITY
}

/// The earnings date a report shows: the first of those fetched, and none
/// where the fetch failed or brought nothing.
pub open spec fn next_earnings_of(fetched: Option<Vec<Timestamp>>) -> Option<Timestamp> {
    match fetched {
        Some(dates) => if dates@.len() > 0 {
            Some(dates@[0])
        } else {
            None
        },
        None => None,
    }
}

/// The volatility a report of `bars` bars shows: the one it is given, where
/// the series is long enough for it.
pub open spec fn kept_volatility(bars: nat, volatility: Option<VolatilityText>) -> Option<
    VolatilityText,
> {
    if volatility_defined_for(bars) {
        volatility
    } else {
        None
    }
}

/// Whether a series of `bars` bars is long enough for a volatility.
pub fn volatility_defined(bars: usize) -> (r: bool)
    ensures
        r == volatility_defined_for(bars as nat),
{
    bars >= MIN_BARS_FOR_VOLATILITY
}

/// The earnings date a report shows. A failed fetch, given as `None`, is
/// taken as no earnings data.
pub fn next_earnings(fetched: &Option<Vec<Timestamp>>) -> (r: Option<Timestamp>)
    ensures
        r == next_earnings_of(*fetched),
{
    match fetched {
        Some(dates) => if dates.len() > 0 {
            Some(dates[0])
        } else {
            None
        },
        None => None,
    }
}

/// Gathers the analysis of `bars`. The percentage change needs two bars and
/// fails where the first close is zero or the arithmetic overflows; a
/// volatility is kept only for three bars or more; the ranges need one bar.
pub fn analyse(
    bars: &Vec<PriceBar>,
    volatility: Option<VolatilityText>,
    fetched_earnings: &Option<Vec<Timestamp>>,
) -> (r: Result<Analysis, MetricsError>)
    ensures
        r is Err <==> period_change_of(bars@) is Err,
        r matches Err(e) ==> period_change_of(bars@) == Err::<Option<(int, nat)>, MetricsError>(e),
        r matches Ok(found) ==> {
            &&& period_change_of(bars@) == Ok::<Option<(int, nat)>, MetricsError>(
                found.percent_parts(),
            )
            &&& found.percent_change is None <==> bars@.len() < 2
            &&& found.volatility == kept_volatility(bars@.len(), volatility)
            &&& found.ranges == ranges_of(bars@)
            &&& are_ranges_of(bars@, found.ranges)
            &&& found.next_earnings == next_earnings_of(*fetched_earnings)
        },
{
    let percent_change = period_change(bars)?;
    let volatility = if volatility_defined(bars.len()) {
        volatility
    } else {
        None
    };
    Ok(
        Analysis {
            percent_change,
            volatility,
            ranges: price_ranges(bars),
            next_earnings: next_earnings(fetched_earnings),
        },
    )
}

/// The line that gives the change over the period.
pub open spec fn change_line_of(percent: (int, nat)) -> Seq<char> {
    "pct change over period: "@ + fixed2_text(percent)
}

/// The line that gives the standard deviation of the returns.
pub open spec fn std_dev_line_of(volatility: VolatilityText) -> Seq<char> {
    "std dev of returns: "@ + volatility.std_dev@
}

/// The line that gives the annualised volatility.
pub open spec fn annualized_line_of(volatility: VolatilityText) -> Seq<char> {
    "annualized volatility: "@ + volatility.annualized@
}

/// A line that gives a range under `label`: its low, a dash, its high, both
/// to two decimals.
pub open spec fn range_line_of(label: Seq<char>, range: PriceRange) -> Seq<char> {
    label + fixed2_text(range.low@) + " - "@ + fixed2_text(range.high@)
}

/// The line that gives the next earnings date.
pub open spec fn earnings_line_of(secs: int) -> Seq<char> {
    "earnings date: "@ + utc_minute_text(secs)
}

/// The lines of the analysis block, in the order change, volatility, ranges,
/// earnings date; a part that is absent has no line.
pub open spec fn analysis_lines_of(
    percent_change: Option<(int, nat)>,
    volatility: Option<VolatilityText>,
    ranges: Option<(PriceRange, PriceRange)>,
    next_earnings: Option<Timestamp>,
) -> Seq<Seq<char>> {
    (match percent_change {
        Some(percent) => seq![change_line_of(percent)],
        None => Seq::empty(),
    }) + (match volatility {
        Some(volatility) => seq![std_dev_line_of(volatility), annualized_line_of(volatility)],
        None => Seq::empty(),
    }) + (match ranges {
        Some((intraday, closing)) => seq![
            range_line_of("intraday range: "@, intraday),
            range_line_of("closing range: "@, closing),
        ],
        None => Seq::empty(),
    }) + (match next_earnings {
        Some(date) => seq![earnings_line_of(date@)],
        None => Seq::empty(),
    })
}

/// Writes a range under `label`.
pub fn range_line(label: &str, range: &PriceRange) -> (r: String)
    ensures
        r@ == range_line_of(label@, *range),
{
    let mut line = String::from_str(label);
    line.append(range.low.to_fixed2().as_str());
    line.append(" - ");
    line.append(range.high.to_fixed2().as_str());
    line
}

/// Writes the analysis block, one line per entry.
pub fn analysis_lines(found: &Analysis) -> (r: Vec<String>)
    ensures
        texts(r@) == analysis_lines_of(
            found.percent_parts(),
            found.volatility,
            found.ranges,
            found.next_earnings,
        ),
{
    let mut lines: Vec<String> = Vec::new();
    let ghost mut sofar: Seq<Seq<char>> = Seq::empty();
    assert(texts(lines@) =~= sofar);
    if let Some(percent) = &found.percent_change {
        let mut line = String::from_str("pct change over period: ");
        line.append(percent.to_fixed2().as_str());
        lines.push(line);
        proof {
            sofar = sofar + seq![change_line_of(percent@)];
        }
    }
    assert(texts(lines@) =~= sofar);
    if let Some(volatility) = &found.volatility {
        let mut line = String::from_str("std dev of returns: ");
        line.append(volatility.std_dev.as_str());
        lines.push(line);
        let mut line = String::from_str("annualized volatility: ");
        line.append(volatility.annualized.as_str());
        lines.push(line);
        proof {
            sofar = sofar + seq![std_dev_line_of(*volatility), annualized_line_of(*volatility)];
        }
    }
    assert(texts(lines@) =~= sofar);
    if let Some((intraday, closing)) = &found.ranges {
        lines.push(range_line("intraday range: ", intraday));
        lines.push(range_line("closing range: ", closing));
        proof {
            sofar = sofar + seq![
                range_line_of("intraday range: "@, *intraday),
                range_line_of("closing range: "@, *closing),
            ];
        }
    }
    assert(texts(lines@) =~= sofar);
    if let Some(date) = &found.next_earnings {
        let mut line = String::from_str("earnings date: ");
        line.append(date.minute_text().as_str());
        lines.push(line);
        proof {
            sofar = sofar + seq![earnings_line_of(date@)];
        }
    }
    assert(texts(lines@) =~= sofar);
    assert(sofar =~= analysis_lines_of(
        found.percent_parts(),
        found.volatility,
        found.ranges,
        found.next_earnings,
    ));
    lines
}

} // verus!
