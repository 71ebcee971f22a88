//! The quote table: one row per bar, with the return over the day before.

use crate::amount::fixed2_text;
use crate::bar::{utc_date_text, volumes_present, PriceBar};
use crate::text::{
    group_thousands, grouped_text, row_fits, sharp_table_text, table_begin, table_finish,
    table_push, table_rows, texts,
};
use vstd::prelude::*;
use vstd::string::StringExecFns;

verus! {

/// A number that was rounded to text elsewhere, together with its sign: what
/// is left of a floating-point value once it has been formatted.
#[derive(Clone, Debug, PartialEq, Eq)]
pub struct SignedText {
    /// Whether the number is below zero.
    pub negative: bool,
    /// The number as text; a negative one starts with its minus sign.
    pub text: String,
}

/// The text of a signed value in a column: a blank stands where a
/// non-negative value has no minus sign, so that the digits line up.
pub open spec fn aligned(value: SignedText) -> Seq<char> {
    if value.negative {
        value.text@
    } else {
        " "@ + value.text@
    }
}

/// The return cell of row `index`: blank in the first row, which has no bar
/// before it, and otherwise the return that ends at that bar.
pub open spec fn return_cell_of(day_returns: Seq<SignedText>, index: int) -> Seq<char> {
    if index == 0 {
        Seq::empty()
    } else {
        aligned(day_returns[index - 1])
    }
}

/// The column titles.
pub open spec fn quote_header() -> Seq<Seq<char>> {
    seq!["Date"@, "Volume"@, "Open"@, "High"@, "Low"@, "Close"@, "Return %"@]
}

/// The cells of one bar: its date, its volume grouped in thousands, its four
/// prices to two decimals, and the return cell it is given.
pub open spec fn quote_row_of(bar: PriceBar, return_cell: Seq<char>) -> Seq<Seq<char>> {
    seq![
        utc_date_text(bar.timestamp@),
        grouped_text(bar.volume->0 as int),
        fixed2_text(bar.open@),
        fixed2_text(bar.high@),
        fixed2_text(bar.low@),
        fixed2_text(bar.close@),
        return_cell,
    ]
}

/// The rows of the quote table: the titles, then one row per bar in order.
pub open spec fn quote_rows_of(bars: Seq<PriceBar>, day_returns: Seq<SignedText>) -> Seq<
    Seq<Seq<char>>,
> {
    Seq::new(
        bars.len() + 1,
        |k: int|
            if k == 0 {
                quote_header()
            } else {
                quote_row_of(bars[k - 1], return_cell_of(day_returns, k - 1))
            },
    )
}

/// Writes a signed value for a column of such values.
pub fn align(value: &SignedText) -> (r: String)
    ensures
        r@ == aligned(*value),
{
    if value.negative {
        value.text.clone()
    } else {
        String::from_str(" ").concat(value.text.as_str())
    }
}

/// The return cell of row `index` of the quote table.
pub fn return_cell(day_returns: &Vec<SignedText>, index: usize) -> (r: String)
    requires
        index <= day_returns@.len(),
    ensures
        r@ == return_cell_of(day_returns@, index as int),
{
    if index == 0 {
        String::new()
    } else {
        align(&day_returns[index - 1])
    }
}

/// The titles of the quote table, as cells.
pub fn header_cells() -> (r: Vec<String>)
    ensures
        texts(r@) == quote_header(),
{
    let mut cells: Vec<String> = Vec::new();
    cells.push(String::from_str("Date"));
    cells.push(String::from_str("Volume"));
    cells.push(String::from_str("Open"));
    cells.push(String::from_str("High"));
    cells.push(String::from_str("Low"));
    cells.push(String::from_str("Close"));
    cells.push(String::from_str("Return %"));
    assert(texts(cells@) =~= quote_header());
    cells
}

/// The cells of one bar of the quote table.
pub fn quote_row(bar: &PriceBar, return_cell: String) -> (r: Vec<String>)
    requires
        bar.volume is Some,
    ensures
        texts(r@) == quote_row_of(*bar, return_cell@),
{
    let volume: u64 = match bar.volume {
        Some(v) => v,
        None => vstd::pervasive::unreached(),
    };
    let ghost cell = return_cell@;
    let mut cells: Vec<String> = Vec::new();
    cells.push(bar.timestamp.date_text());
    cells.push(group_thousands(volume));
    cells.push(bar.open.to_fixed2());
    cells.push(bar.high.to_fixed2());
    cells.push(bar.low.to_fixed2());
    cells.push(bar.close.to_fixed2());
    cells.push(return_cell);
    assert(texts(cells@) =~= quote_row_of(*bar, cell));
    cells
}

/// Draws the quote table of `bars`. `day_returns` holds, for each bar but the
/// first, the percentage return that ends at it.
pub fn quote_table(bars: &Vec<PriceBar>, day_returns: &Vec<SignedText>) -> (r: String)
    requires
        volumes_present(bars@),
        bars@.len() <= day_returns@.len() + 1,
    ensures
        r@ == sharp_table_text(quote_rows_of(bars@, day_returns@)),
{
    let ghost rows = quote_rows_of(bars@, day_returns@);
    let mut builder = table_begin();
    table_push(&mut builder, header_cells());
    assert(table_rows(builder) =~= rows.take(1));
    let mut i: usize = 0;
    while i < bars.len()
        invariant
            i <= bars@.len(),
            bars@.len() <= day_returns@.len() + 1,
            volumes_present(bars@),
            rows == quote_rows_of(bars@, day_returns@),
            table_rows(builder) == rows.take(i + 1),
        decreases bars.len() - i,
    {
        let cell = return_cell(day_returns, i);
        let row = quote_row(&bars[i], cell);
        proof {
            assert(rows.take(i + 1)[0] == quote_header());
            assert(texts(row@).len() == 7);
            assert(row_fits(table_rows(builder), row@.len()));
        }
        table_push(&mut builder, row);
        assert(table_rows(builder) =~= rows.take(i + 2));
        i += 1;
    }
    assert(rows.take((bars@.len() + 1) as int) =~= rows);
    table_finish(builder)
}

} // verus!
