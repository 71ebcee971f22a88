//! The pairs of closes from which period returns are taken.

use crate::amount::Amount;
use crate::bar::PriceBar;
use crate::error::MetricsError;
use vstd::prelude::*;

verus! {

/// Trading days in a year, by which a daily volatility is annualised.
pub const TRADING_DAYS_PER_YEAR: u32 = 252;

/// The fewest bars from which a dispersion of returns can be estimated.
pub const MIN_BARS_FOR_VOLATILITY: usize = 3;

/// Two consecutive closes. The simple return over the period between them is
/// `(current - previous) / previous`.
#[derive(Clone, Copy, Debug, PartialEq, Eq)]
pub struct ClosePair {
    pub previous: Amount,
    pub current: Amount,
}

/// How many returns a series of `bars` bars has: one fewer than bars, and
/// none for an empty series.
pub open spec fn return_count(bars: nat) -> nat {
    if bars == 0 {
        0
    } else {
        (bars - 1) as nat
    }
}

/// Whether a close that some return is measured against is zero. The last
/// close of a series is never such a reference.
pub open spec fn has_zero_reference(bars: Seq<PriceBar>) -> bool {
    exists|i: int| 0 <= i < bars.len() - 1 && (#[trigger] bars[i]).close.units() == 0
}

/// The pair behind the `i`-th return: the close of bar `i` and of the next.
pub open spec fn pair_at(bars: Seq<PriceBar>, i: int) -> ClosePair {
    ClosePair { previous: bars[i].close, current: bars[i + 1].close }
}

/// For each return of the series, in order, the two closes it is taken from.
/// Fails with `DivisionByZero` exactly when a reference close is zero.
pub fn return_pairs(bars: &Vec<PriceBar>) -> (r: Result<Vec<ClosePair>, MetricsError>)
    ensures
        r is Err <==> has_zero_reference(bars@),
        r matches Err(e) ==> e == MetricsError::DivisionByZero,
        r matches Ok(pairs) ==> {
            &&& pairs@.len() == return_count(bars@.len())
            &&& forall|i: int| 0 <= i < pairs@.len() ==> #[trigger] pairs@[i] == pair_at(bars@, i)
            &&& forall|i: int|
                0 <= i < pairs@.len() ==> (#[trigger] pairs@[i]).previous.units() != 0
        },
{
    let mut pairs: Vec<ClosePair> = Vec::new();
    let mut i: usize = 1;
    while i < bars.len()
        invariant
            1 <= i,
            bars@.len() == 0 ==> i == 1,
            bars@.len() > 0 ==> i <= bars@.len(),
            pairs@.len() == i - 1,
            forall|k: int| 0 <= k < pairs@.len() ==> #[trigger] pairs@[k] == pair_at(bars@, k),
            forall|k: int| 0 <= k < i - 1 ==> (#[trigger] bars@[k]).close.units() != 0,
        decreases bars.len() - i,
    {
        let previous = bars[i - 1].close;
        if previous.is_zero() {
            return Err(MetricsError::DivisionByZero);
        }
        pairs.push(ClosePair { previous, current: bars[i].close });
        i += 1;
    }
    Ok(pairs)
}

/// Where every close of a series denotes the same number, and that number is
/// not zero, the pairs exist and no pair moves: in each the current close
/// equals the previous one, so each return is exactly zero.
pub proof fn lemma_constant_closes_do_not_move(bars: Seq<PriceBar>, pairs: Seq<ClosePair>)
    requires
        forall|i: int| 0 <= i < bars.len() ==> (#[trigger] bars[i]).close.units()
            == bars[0].close.units(),
        bars.len() > 0 ==> bars[0].close.units() != 0,
        pairs.len() == return_count(bars.len()),
        forall|i: int| 0 <= i < pairs.len() ==> #[trigger] pairs[i] == pair_at(bars, i),
    ensures
        !has_zero_reference(bars),
        forall|i: int| 0 <= i < pairs.len() ==> (#[trigger] pairs[i]).current.units()
            == pairs[i].previous.units(),
{
    assert forall|i: int| 0 <= i < pairs.len() implies (#[trigger] pairs[i]).current.units()
        == pairs[i].previous.units() by {
        assert(pairs[i] == pair_at(bars, i));
        assert(bars[i].close.units() == bars[0].close.units());
        assert(bars[i + 1].close.units() == bars[0].close.units());
    }
}

} // verus!
