//! The text engines the report is written with: digit grouping and the
//! bordered table. Both belong to other crates; this module gives them
//! contracts and nothing more.

use num_format::{Locale, ToFormattedString};
use tabled::builder::Builder;
use tabled::settings::Style;
use vstd::prelude::*;

verus! {

/// The texts of a row of cells.
pub open spec fn texts(cells: Seq<String>) -> Seq<Seq<char>> {
    Seq::new(cells.len(), |i: int| cells[i]@)
}

/// The digits of `n` as `num_format` groups them for the English locale,
/// in threes from the right.
pub uninterp spec fn grouped_text(n: int) -> Seq<char>;

/// The digits of a signed `n` as `num_format` groups them for the English
/// locale, behind a minus sign where `n` is negative.
pub uninterp spec fn grouped_signed_text(n: int) -> Seq<char>;

/// The rows a table builder of `tabled` has been given so far, each as the
/// texts of its cells.
pub uninterp spec fn table_rows(builder: Builder) -> Seq<Seq<Seq<char>>>;

/// The text `tabled` draws for a table of `rows` in its sharp style, with
/// box-drawing borders and a rule under the first row.
pub uninterp spec fn sharp_table_text(rows: Seq<Seq<Seq<char>>>) -> Seq<char>;

/// Whether a row of `width` cells fits the rows already in `rows`: any row
/// fits an empty table, and afterwards every row is as wide as the first.
pub open spec fn row_fits(rows: Seq<Seq<Seq<char>>>, width: nat) -> bool {
    rows.len() > 0 ==> rows[0].len() == width
}

#[verifier::external_type_specification]
#[verifier::external_body]
pub struct ExBuilder(Builder);

/// Trusted: `num_format::ToFormattedString::to_formatted_string` on a `u64`,
/// with `Locale::en`. The contract only names the text.
#[verifier::external_body]
pub(crate) fn group_thousands(n: u64) -> (r: String)
    ensures
        r@ == grouped_text(n as int),
{
    n.to_formatted_string(&Locale::en)
}

/// Trusted: `num_format::ToFormattedString::to_formatted_string` on an
/// `i64`, with `Locale::en`. The contract only names the text.
#[verifier::external_body]
pub(crate) fn group_thousands_signed(n: i64) -> (r: String)
    ensures
        r@ == grouped_signed_text(n as int),
{
    n.to_formatted_string(&Locale::en)
}

/// Trusted: `tabled::builder::Builder::default`, which starts a table
/// without rows.
#[verifier::external_body]
pub(crate) fn table_begin() -> (builder: Builder)
    ensures
        table_rows(builder) == Seq::<Seq<Seq<char>>>::empty(),
{
    Builder::default()
}

/// Trusted: `tabled::builder::Builder::push_record`. Given a row as wide as
/// those before it, the builder keeps it as its last row and leaves the
/// others as they were. (A row of another width makes the builder pad rows
/// with empty cells; the precondition keeps that case out.)
#[verifier::external_body]
pub(crate) fn table_push(builder: &mut Builder, row: Vec<String>)
    requires
        row_fits(table_rows(*old(builder)), row@.len()),
    ensures
        table_rows(*final(builder)) == table_rows(*old(builder)).push(texts(row@)),
{
    builder.push_record(row);
}

/// Trusted: `tabled::builder::Builder::build`, then `Table::with` the style
/// `Style::sharp()`, then the `Display` of the table. The contract only
/// names the text, as a function of the rows.
#[verifier::external_body]
pub(crate) fn table_finish(builder: Builder) -> (r: String)
    ensures
        r@ == sharp_table_text(table_rows(builder)),
{
    builder.build().with(Style::sharp()).to_string()
}

} // verus!
