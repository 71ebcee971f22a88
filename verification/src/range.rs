//! The span of prices a series covers.

use crate::amount::Amount;
use crate::bar::{closes, highs, lows, PriceBar};
use vstd::prelude::*;

verus! {

/// The lowest and the highest of a set of prices.
#[derive(Clone, Copy, Debug, PartialEq, Eq)]
pub struct PriceRange {
    pub low: Amount,
    pub high: Amount,
}

/// Among the first `n` prices of `s`, the one at `i` is the lowest, and the
/// earliest of those that denote that number.
pub open spec fn lowest_among(s: Seq<Amount>, n: int, i: int) -> bool {
    &&& 0 <= i < n <= s.len()
    &&& forall|j: int| 0 <= j < n ==> s[i].units() <= (#[trigger] s[j]).units()
    &&& forall|j: int| 0 <= j < i ==> s[i].units() < (#[trigger] s[j]).units()
}

/// Among the first `n` prices of `s`, the one at `i` is the highest, and the
/// earliest of those that denote that number.
pub open spec fn highest_among(s: Seq<Amount>, n: int, i: int) -> bool {
    &&& 0 <= i < n <= s.len()
    &&& forall|j: int| 0 <= j < n ==> (#[trigger] s[j]).units() <= s[i].units()
    &&& forall|j: int| 0 <= j < i ==> (#[trigger] s[j]).units() < s[i].units()
}

/// `x` is the lowest price of `s`; where several prices denote the lowest
/// number, `x` is the first of them.
pub open spec fn is_lowest(s: Seq<Amount>, x: Amount) -> bool {
    exists|i: int| lowest_among(s, s.len() as int, i) && s[i] == x
}

/// `x` is the highest price of `s`; where several prices denote the highest
/// number, `x` is the first of them.
pub open spec fn is_highest(s: Seq<Amount>, x: Amount) -> bool {
    exists|i: int| highest_among(s, s.len() as int, i) && s[i] == x
}

/// Whether some low of `bars` does not exceed some high of `bars`. It holds
/// of every series with at least one bar whose low is not above its high.
pub open spec fn spans_overlap(bars: Seq<PriceBar>) -> bool {
    exists|i: int, j: int|
        0 <= i < bars.len() && 0 <= j < bars.len() && (#[trigger] bars[i]).low.units() <= (
        #[trigger] bars[j]).high.units()
}

/// A sequence has one lowest price only.
pub proof fn lemma_lowest_unique(s: Seq<Amount>, x: Amount, y: Amount)
    requires
        is_lowest(s, x),
        is_lowest(s, y),
    ensures
        x == y,
{
    let i = choose|i: int| lowest_among(s, s.len() as int, i) && s[i] == x;
    let j = choose|j: int| lowest_among(s, s.len() as int, j) && s[j] == y;
    if i < j {
        assert(s[j].units() < s[i].units());
        assert(s[i].units() <= s[j].units());
    } else if j < i {
        assert(s[i].units() < s[j].units());
        assert(s[j].units() <= s[i].units());
    }
}

/// A sequence has one highest price only.
pub proof fn lemma_highest_unique(s: Seq<Amount>, x: Amount, y: Amount)
    requires
        is_highest(s, x),
        is_highest(s, y),
    ensures
        x == y,
{
    let i = choose|i: int| highest_among(s, s.len() as int, i) && s[i] == x;
    let j = choose|j: int| highest_among(s, s.len() as int, j) && s[j] == y;
    if i < j {
        assert(s[i].units() < s[j].units());
        assert(s[j].units() <= s[i].units());
    } else if j < i {
        assert(s[j].units() < s[i].units());
        assert(s[i].units() <= s[j].units());
    }
}

/// The lowest of a sequence of prices never exceeds its highest.
pub proof fn lemma_low_not_above_high(s: Seq<Amount>, low: Amount, high: Amount)
    requires
        is_lowest(s, low),
        is_highest(s, high),
    ensures
        low.units() <= high.units(),
{
    let i = choose|i: int| lowest_among(s, s.len() as int, i) && s[i] == low;
    let j = choose|j: int| highest_among(s, s.len() as int, j) && s[j] == high;
    assert(s[i].units() <= s[j].units());
}

/// The lowest low of a series does not exceed its highest high exactly when
/// some low of the series does not exceed some high of it.
pub proof fn lemma_intraday_ordered(bars: Seq<PriceBar>, low: Amount, high: Amount)
    requires
        is_lowest(lows(bars), low),
        is_highest(highs(bars), high),
    ensures
        low.units() <= high.units() <==> spans_overlap(bars),
{
    let l = lows(bars);
    let h = highs(bars);
    let i = choose|i: int| lowest_among(l, l.len() as int, i) && l[i] == low;
    let j = choose|j: int| highest_among(h, h.len() as int, j) && h[j] == high;
    if low.units() <= high.units() {
        assert(bars[i].low.units() <= bars[j].high.units());
    }
    if spans_overlap(bars) {
        let (a, b) = choose|a: int, b: int|
            0 <= a < bars.len() && 0 <= b < bars.len() && (#[trigger] bars[a]).low.units() <= (
            #[trigger] bars[b]).high.units();
        assert(l[i].units() <= l[a].units());
        assert(h[b].units() <= h[j].units());
    }
}

/// The closing range of a series lies within its intraday range wherever every
/// close lies between the low and the high of its own bar.
pub proof fn lemma_closing_within_intraday(
    bars: Seq<PriceBar>,
    intraday: PriceRange,
    closing: PriceRange,
)
    requires
        is_lowest(lows(bars), intraday.low),
        is_highest(highs(bars), intraday.high),
        is_lowest(closes(bars), closing.low),
        is_highest(closes(bars), closing.high),
        forall|k: int|
            0 <= k < bars.len() ==> (#[trigger] bars[k]).low.units() <= bars[k].close.units()
                <= bars[k].high.units(),
    ensures
        intraday.low.units() <= closing.low.units() <= closing.high.units()
            <= intraday.high.units(),
{
    let l = lows(bars);
    let h = highs(bars);
    let c = closes(bars);
    let li = choose|i: int| lowest_among(l, l.len() as int, i) && l[i] == intraday.low;
    let hi = choose|i: int| highest_among(h, h.len() as int, i) && h[i] == intraday.high;
    let cl = choose|i: int| lowest_among(c, c.len() as int, i) && c[i] == closing.low;
    let ch = choose|i: int| highest_among(c, c.len() as int, i) && c[i] == closing.high;
    assert(l[li].units() <= l[cl].units());
    assert(bars[cl].low.units() <= bars[cl].close.units());
    assert(c[cl].units() <= c[ch].units());
    assert(h[ch].units() <= h[hi].units());
    assert(bars[ch].close.units() <= bars[ch].high.units());
}

/// Whether `ranges` is what a series has for ranges: nothing for a series
/// without bars, and otherwise the intraday range, over each bar's low and
/// high, with the closing range, over the closes.
pub open spec fn are_ranges_of(
    bars: Seq<PriceBar>,
    ranges: Option<(PriceRange, PriceRange)>,
) -> bool {
    &&& ranges is None <==> bars.len() == 0
    &&& ranges matches Some((intraday, closing)) ==> {
        &&& is_lowest(lows(bars), intraday.low)
        &&& is_highest(highs(bars), intraday.high)
        &&& is_lowest(closes(bars), closing.low)
        &&& is_highest(closes(bars), closing.high)
    }
}

/// A series has one pair of ranges only.
pub proof fn lemma_ranges_unique(
    bars: Seq<PriceBar>,
    a: Option<(PriceRange, PriceRange)>,
    b: Option<(PriceRange, PriceRange)>,
)
    requires
        are_ranges_of(bars, a),
        are_ranges_of(bars, b),
    ensures
        a == b,
{
    if bars.len() > 0 {
        let (ai, ac) = a->0;
        let (bi, bc) = b->0;
        lemma_lowest_unique(lows(bars), ai.low, bi.low);
        lemma_highest_unique(highs(bars), ai.high, bi.high);
        lemma_lowest_unique(closes(bars), ac.low, bc.low);
        lemma_highest_unique(closes(bars), ac.high, bc.high);
    }
}

/// The ranges of a series: the one value of which [`are_ranges_of`] holds.
pub open spec fn ranges_of(bars: Seq<PriceBar>) -> Option<(PriceRange, PriceRange)> {
    choose|ranges: Option<(PriceRange, PriceRange)>| are_ranges_of(bars, ranges)
}

/// Any `n` prices, `n` at least one, have a lowest among them.
pub proof fn lemma_lowest_exists(s: Seq<Amount>, n: int)
    requires
        1 <= n <= s.len(),
    ensures
        exists|i: int| lowest_among(s, n, i),
    decreases n,
{
    if n == 1 {
        assert(lowest_among(s, n, 0));
    } else {
        let m = n - 1;
        lemma_lowest_exists(s, m);
        let i = choose|i: int| lowest_among(s, m, i);
        if s[m].units() < s[i].units() {
            assert(lowest_among(s, n, m));
        } else {
            assert(lowest_among(s, n, i));
        }
    }
}

/// Any `n` prices, `n` at least one, have a highest among them.
pub proof fn lemma_highest_exists(s: Seq<Amount>, n: int)
    requires
        1 <= n <= s.len(),
    ensures
        exists|i: int| highest_among(s, n, i),
    decreases n,
{
    if n == 1 {
        assert(highest_among(s, n, 0));
    } else {
        let m = n - 1;
        lemma_highest_exists(s, m);
        let i = choose|i: int| highest_among(s, m, i);
        if s[i].units() < s[m].units() {
            assert(highest_among(s, n, m));
        } else {
            assert(highest_among(s, n, i));
        }
    }
}

/// Every series has its ranges: [`ranges_of`] is what [`are_ranges_of`]
/// describes.
pub proof fn lemma_ranges_defined(bars: Seq<PriceBar>)
    ensures
        are_ranges_of(bars, ranges_of(bars)),
{
    if bars.len() == 0 {
        let nothing: Option<(PriceRange, PriceRange)> = None;
        assert(are_ranges_of(bars, nothing));
    } else {
        let l = lows(bars);
        let h = highs(bars);
        let c = closes(bars);
        let n = bars.len() as int;
        lemma_lowest_exists(l, n);
        lemma_highest_exists(h, n);
        lemma_lowest_exists(c, n);
        lemma_highest_exists(c, n);
        let li = choose|i: int| lowest_among(l, n, i);
        let hi = choose|i: int| highest_among(h, n, i);
        let cl = choose|i: int| lowest_among(c, n, i);
        let ch = choose|i: int| highest_among(c, n, i);
        let found = Some(
            (PriceRange { low: l[li], high: h[hi] }, PriceRange { low: c[cl], high: c[ch] }),
        );
        assert(is_lowest(l, l[li]));
        assert(is_highest(h, h[hi]));
        assert(is_lowest(c, c[cl]));
        assert(is_highest(c, c[ch]));
        assert(are_ranges_of(bars, found));
    }
}

/// The intraday range, over each bar's low and high, and the closing range,
/// over the closes; nothing for a series without bars.
pub fn price_ranges(bars: &Vec<PriceBar>) -> (r: Option<(PriceRange, PriceRange)>)
    ensures
        are_ranges_of(bars@, r),
        r == ranges_of(bars@),
        r matches Some((intraday, closing)) ==> {
            &&& closing.low.units() <= closing.high.units()
            &&& intraday.low.units() <= intraday.high.units() <==> spans_overlap(bars@)
        },
{
    if bars.len() == 0 {
        proof {
            let nothing: Option<(PriceRange, PriceRange)> = None;
            assert(are_ranges_of(bars@, nothing));
            lemma_ranges_unique(bars@, nothing, ranges_of(bars@));
        }
        return None;
    }
    let ghost l = lows(bars@);
    let ghost h = highs(bars@);
    let ghost c = closes(bars@);
    let mut low: Amount = bars[0].low;
    let mut high: Amount = bars[0].high;
    let mut close_low: Amount = bars[0].close;
    let mut close_high: Amount = bars[0].close;
    let ghost mut li: int = 0;
    let ghost mut hi: int = 0;
    let ghost mut cl: int = 0;
    let ghost mut ch: int = 0;
    let mut n: usize = 1;
    while n < bars.len()
        invariant
            1 <= n <= bars.len(),
            l == lows(bars@),
            h == highs(bars@),
            c == closes(bars@),
            lowest_among(l, n as int, li) && l[li] == low,
            highest_among(h, n as int, hi) && h[hi] == high,
            lowest_among(c, n as int, cl) && c[cl] == close_low,
            highest_among(c, n as int, ch) && c[ch] == close_high,
        decreases bars.len() - n,
    {
        let bar = &bars[n];
        if bar.low.less_than(&low) {
            low = bar.low;
            proof {
                li = n as int;
            }
        }
        if high.less_than(&bar.high) {
            high = bar.high;
            proof {
                hi = n as int;
            }
        }
        if bar.close.less_than(&close_low) {
            close_low = bar.close;
            proof {
                cl = n as int;
            }
        }
        if close_high.less_than(&bar.close) {
            close_high = bar.close;
            proof {
                ch = n as int;
            }
        }
        n += 1;
    }
    let intraday = PriceRange { low, high };
    let closing = PriceRange { low: close_low, high: close_high };
    proof {
        lemma_low_not_above_high(c, close_low, close_high);
        lemma_intraday_ordered(bars@, low, high);
        assert(are_ranges_of(bars@, Some((intraday, closing))));
        lemma_ranges_unique(bars@, Some((intraday, closing)), ranges_of(bars@));
    }
    Some((intraday, closing))
}

} // verus!
