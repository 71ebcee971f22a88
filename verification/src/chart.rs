//! What a chart of the closing prices is drawn from. Drawing it is left to
//! whoever has a canvas.

use crate::amount::{decimal_mul, decimal_product, Amount};
use crate::bar::{closes, PriceBar};
use crate::change::settle;
use crate::error::MetricsError;
use crate::range::{price_ranges, ranges_of, PriceRange};
use vstd::prelude::*;

verus! {

/// The closes of a series against their position in it, and the bounds of
/// the vertical axis.
#[derive(Clone, Debug, PartialEq, Eq)]
pub struct ChartData {
    /// The closing prices; the horizontal axis is the index, not the date.
    pub closes: Vec<Amount>,
    /// The lower bound of the vertical axis.
    pub lower: Amount,
    /// The upper bound of the vertical axis.
    pub upper: Amount,
}

/// The factor that puts the lower bound one percent under the lowest close.
pub open spec fn lower_factor() -> (int, nat) {
    (99, 2)
}

/// The factor that puts the upper bound one percent over the highest close.
pub open spec fn upper_factor() -> (int, nat) {
    (101, 2)
}

/// The bounds of the vertical axis for a closing range: its low times 0.99
/// and its high times 1.01, as the decimal arithmetic gives them; an
/// overflow where either product does not fit.
pub open spec fn axis_bounds_of(closing: PriceRange) -> Result<
    ((int, nat), (int, nat)),
    MetricsError,
> {
    match decimal_product(closing.low@, lower_factor()) {
        None => Err(MetricsError::Overflow),
        Some(lower) => match decimal_product(closing.high@, upper_factor()) {
            None => Err(MetricsError::Overflow),
            Some(upper) => Ok((lower, upper)),
        },
    }
}

/// The bounds of the vertical axis for a closing range.
pub fn axis_bounds(closing: &PriceRange) -> (r: Result<(Amount, Amount), MetricsError>)
    ensures
        r matches Ok((lower, upper)) ==> axis_bounds_of(*closing) == Ok::<
            ((int, nat), (int, nat)),
            MetricsError,
        >((lower@, upper@)),
        r matches Err(e) ==> axis_bounds_of(*closing) == Err::<
            ((int, nat), (int, nat)),
            MetricsError,
        >(e),
{
    let down = match Amount::new(99, 2) {
        Some(factor) => factor,
        None => vstd::pervasive::unreached(),
    };
    let up = match Amount::new(101, 2) {
        Some(factor) => factor,
        None => vstd::pervasive::unreached(),
    };
    let lower = settle(decimal_mul(closing.low, down))?;
    let upper = settle(decimal_mul(closing.high, up))?;
    Ok((lower, upper))
}

/// The closing prices of `bars`, in order.
pub fn closing_prices(bars: &Vec<PriceBar>) -> (r: Vec<Amount>)
    ensures
        r@ == closes(bars@),
{
    let mut prices: Vec<Amount> = Vec::new();
    let mut i: usize = 0;
    while i < bars.len()
        invariant
            i <= bars@.len(),
            prices@ == closes(bars@).take(i as int),
        decreases bars.len() - i,
    {
        prices.push(bars[i].close);
        assert(prices@ =~= closes(bars@).take(i + 1));
        i += 1;
    }
    assert(closes(bars@).take(bars@.len() as int) =~= closes(bars@));
    prices
}

/// The bounds of the vertical axis for a series with at least one bar: those
/// of its closing range.
pub open spec fn chart_bounds_of(bars: Seq<PriceBar>) -> Result<
    ((int, nat), (int, nat)),
    MetricsError,
> {
    axis_bounds_of((ranges_of(bars)->0).1)
}

/// What the chart of `bars` is drawn from; nothing for a series without
/// bars. Fails with an overflow where a bound of the axis does not fit.
pub fn chart_data(bars: &Vec<PriceBar>) -> (r: Result<Option<ChartData>, MetricsError>)
    ensures
        r matches Ok(None) <==> bars@.len() == 0,
        r matches Ok(Some(data)) ==> {
            &&& data.closes@ == closes(bars@)
            &&& chart_bounds_of(bars@) == Ok::<((int, nat), (int, nat)), MetricsError>(
                (data.lower@, data.upper@),
            )
        },
        r matches Err(e) ==> chart_bounds_of(bars@) == Err::<
            ((int, nat), (int, nat)),
            MetricsError,
        >(e),
{
    match price_ranges(bars) {
        None => Ok(None),
        Some((_, closing)) => {
            let (lower, upper) = axis_bounds(&closing)?;
            Ok(Some(ChartData { closes: closing_prices(bars), lower, upper }))
        },
    }
}

} // verus!
