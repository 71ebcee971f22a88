//! The cash-flow table: free cash flow by reporting year.

use crate::bar::{utc_date_text, Timestamp};
use crate::text::{
    group_thousands_signed, grouped_signed_text, row_fits, sharp_table_text, table_begin,
    table_finish, table_push, table_rows, texts,
};
use vstd::prelude::*;
use vstd::string::StringExecFns;

verus! {

/// One reporting year of a cash-flow statement. Either field may be absent.
#[derive(Clone, Copy, Debug, PartialEq, Eq)]
pub struct CashFlowRow {
    /// The day the reporting period ended.
    pub period_end: Option<Timestamp>,
    /// Free cash flow over the period, in whole units of currency.
    pub free_cash_flow: Option<i64>,
}

/// The column titles.
pub open spec fn cash_flow_header() -> Seq<Seq<char>> {
    seq!["Year End"@, "Free Cash Flow"@]
}

/// The cells of one year: the date its period ended and its free cash flow
/// grouped in thousands; nothing where either is absent.
pub open spec fn cash_flow_cells_of(row: CashFlowRow) -> Option<Seq<Seq<char>>> {
    match (row.period_end, row.free_cash_flow) {
        (Some(end), Some(flow)) => Some(
            seq![utc_date_text(end@), grouped_signed_text(flow as int)],
        ),
        _ => None,
    }
}

/// The rows of the cash-flow table: the titles, then one row for each year
/// that has both fields, in order.
pub open spec fn cash_flow_rows_of(rows: Seq<CashFlowRow>) -> Seq<Seq<Seq<char>>> {
    seq![cash_flow_header()] + rows.filter_map(|row: CashFlowRow| cash_flow_cells_of(row))
}

/// The cells of one year of the cash-flow table, or nothing where the year
/// lacks its date or its free cash flow.
pub fn cash_flow_cells(row: &CashFlowRow) -> (r: Option<Vec<String>>)
    ensures
        r is Some <==> row.period_end is Some && row.free_cash_flow is Some,
        r matches Some(cells) ==> cash_flow_cells_of(*row) == Some(texts(cells@)),
        r is None ==> cash_flow_cells_of(*row) is None,
{
    match (row.period_end, row.free_cash_flow) {
        (Some(end), Some(flow)) => {
            let mut cells: Vec<String> = Vec::new();
            cells.push(end.date_text());
            cells.push(group_thousands_signed(flow));
            assert(texts(cells@) =~= seq![utc_date_text(end@), grouped_signed_text(flow as int)]);
            Some(cells)
        },
        _ => None,
    }
}

/// Draws the cash-flow table of `rows`, leaving out the years that lack a
/// field.
pub fn cash_flow_table(rows: &Vec<CashFlowRow>) -> (r: String)
    ensures
        r@ == sharp_table_text(cash_flow_rows_of(rows@)),
{
    let ghost pick = |row: CashFlowRow| cash_flow_cells_of(row);
    let mut header: Vec<String> = Vec::new();
    header.push(String::from_str("Year End"));
    header.push(String::from_str("Free Cash Flow"));
    assert(texts(header@) =~= cash_flow_header());
    let mut builder = table_begin();
    table_push(&mut builder, header);
    assert(rows@.take(0).filter_map(pick) =~= Seq::empty());
    assert(table_rows(builder) =~= seq![cash_flow_header()] + rows@.take(0).filter_map(pick));
    let mut i: usize = 0;
    while i < rows.len()
        invariant
            i <= rows@.len(),
            pick == |row: CashFlowRow| cash_flow_cells_of(row),
            table_rows(builder) == seq![cash_flow_header()] + rows@.take(i as int).filter_map(
                pick,
            ),
        decreases rows.len() - i,
    {
        proof {
            rows@.lemma_filter_map_take_succ(pick, i as int);
            assert(table_rows(builder)[0] == cash_flow_header());
        }
        match cash_flow_cells(&rows[i]) {
            Some(cells) => {
                assert(texts(cells@).len() == 2);
                assert(row_fits(table_rows(builder), cells@.len()));
                table_push(&mut builder, cells);
            },
            None => {},
        }
        assert(table_rows(builder) =~= seq![cash_flow_header()] + rows@.take(
            i as int + 1,
        ).filter_map(pick));
        i += 1;
    }
    assert(rows@.take(rows@.len() as int) =~= rows@);
    table_finish(builder)
}

} // verus!
