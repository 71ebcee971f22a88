//! Percentage change between two closes, in exact decimal arithmetic.

use crate::amount::{
    decimal_difference, decimal_div, decimal_mul, decimal_product, decimal_quotient, decimal_sub,
    Amount,
};
use crate::bar::PriceBar;
use crate::error::MetricsError;
use vstd::prelude::*;

verus! {

/// `100 * (last - first) / first`, each step as the decimal arithmetic gives
/// it: a zero `first` is a division by zero, and a step whose result does not
/// fit is an overflow.
pub open spec fn percent_change_of(first: (int, nat), last: (int, nat)) -> Result<
    (int, nat),
    MetricsError,
> {
    if first.0 == 0 {
        Err(MetricsError::DivisionByZero)
    } else {
        match decimal_difference(last, first) {
            None => Err(MetricsError::Overflow),
            Some(moved) => match decimal_product((100, 0), moved) {
                None => Err(MetricsError::Overflow),
                Some(scaled) => match decimal_quotient(scaled, first) {
                    None => Err(MetricsError::Overflow),
                    Some(percent) => Ok(percent),
                },
            },
        }
    }
}

/// The change over a whole series: from its first close to its last, and
/// nothing where the series has fewer than two bars.
pub open spec fn period_change_of(bars: Seq<PriceBar>) -> Result<Option<(int, nat)>, MetricsError> {
    if bars.len() < 2 {
        Ok(None)
    } else {
        match percent_change_of(bars[0].close@, bars[bars.len() - 1].close@) {
            Ok(percent) => Ok(Some(percent)),
            Err(e) => Err(e),
        }
    }
}

/// Turns one step of decimal arithmetic into a result: a missing value is an
/// overflow.
pub fn settle(step: Option<Amount>) -> (r: Result<Amount, MetricsError>)
    ensures
        r == match step {
            Some(value) => Ok::<Amount, MetricsError>(value),
            None => Err(MetricsError::Overflow),
        },
{
    match step {
        Some(value) => Ok(value),
        None => Err(MetricsError::Overflow),
    }
}

/// The percentage by which `last` differs from `first`.
pub fn percent_change(first: Amount, last: Amount) -> (r: Result<Amount, MetricsError>)
    ensures
        r is Err <==> percent_change_of(first@, last@) is Err,
        r matches Ok(percent) ==> percent_change_of(first@, last@) == Ok::<
            (int, nat),
            MetricsError,
        >(percent@),
        r matches Err(e) ==> percent_change_of(first@, last@) == Err::<(int, nat), MetricsError>(e),
        first.units() == 0 ==> r == Err::<Amount, MetricsError>(MetricsError::DivisionByZero),
{
    if first.is_zero() {
        return Err(MetricsError::DivisionByZero);
    }
    let moved = settle(decimal_sub(last, first))?;
    let scaled = settle(decimal_mul(Amount::hundred(), moved))?;
    settle(decimal_div(scaled, first))
}

/// The percentage change from the first close of `bars` to the last; nothing
/// where there are fewer than two bars.
pub fn period_change(bars: &Vec<PriceBar>) -> (r: Result<Option<Amount>, MetricsError>)
    ensures
        r is Err <==> period_change_of(bars@) is Err,
        r matches Err(e) ==> period_change_of(bars@) == Err::<Option<(int, nat)>, MetricsError>(e),
        r matches Ok(change) ==> {
            &&& change is None <==> bars@.len() < 2
            &&& change matches Some(percent) ==> period_change_of(bars@) == Ok::<
                Option<(int, nat)>,
                MetricsError,
            >(Some(percent@))
        },
{
    if bars.len() < 2 {
        return Ok(None);
    }
    match percent_change(bars[0].close, bars[bars.len() - 1].close) {
        Ok(percent) => Ok(Some(percent)),
        Err(e) => Err(e),
    }
}

} // verus!
