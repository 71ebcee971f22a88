//! Putting a report together: which sections it has, in which order, and
//! the one text they make.

use crate::bar::{require_volumes, volumes_present, PriceBar, Timestamp};
use crate::cash_flow::{cash_flow_rows_of, cash_flow_table, CashFlowRow};
use crate::change::period_change_of;
use crate::error::MetricsError;
use crate::quote_table::{quote_rows_of, quote_table, SignedText};
use crate::range::ranges_of;
use crate::summary::{
    analyse, analysis_lines, analysis_lines_of, kept_volatility, next_earnings_of, VolatilityText,
};
use crate::text::{sharp_table_text, texts};
use vstd::prelude::*;
use vstd::string::StringExecFns;

verus! {

/// The optional sections of a report.
#[derive(Clone, Copy, Debug, PartialEq, Eq)]
pub struct ReportConfig {
    /// Start with the company's name, where it is known.
    pub include_header: bool,
    /// Show the price chart, where one was drawn.
    pub include_chart: bool,
    /// End with the cash-flow table.
    pub include_cashflow: bool,
}

impl ReportConfig {
    /// A report without optional sections: the quote table and the analysis.
    pub fn new() -> (r: ReportConfig)
        ensures
            r == (ReportConfig {
                include_header: false,
                include_chart: false,
                include_cashflow: false,
            }),
    {
        ReportConfig { include_header: false, include_chart: false, include_cashflow: false }
    }

    /// The same report, with the company's name or without.
    pub fn with_header(self, shown: bool) -> (r: ReportConfig)
        ensures
            r == (ReportConfig { include_header: shown, ..self }),
    {
        ReportConfig { include_header: shown, ..self }
    }

    /// The same report, with the price chart or without.
    pub fn with_chart(self, shown: bool) -> (r: ReportConfig)
        ensures
            r == (ReportConfig { include_chart: shown, ..self }),
    {
        ReportConfig { include_chart: shown, ..self }
    }

    /// The same report, with the cash-flow table or without.
    pub fn with_cashflow(self, shown: bool) -> (r: ReportConfig)
        ensures
            r == (ReportConfig { include_cashflow: shown, ..self }),
    {
        ReportConfig { include_cashflow: shown, ..self }
    }
}

/// The finished sections of a report, each already text.
#[derive(Clone, Debug, PartialEq, Eq)]
pub struct ReportParts {
    pub header: Option<String>,
    pub quote_table: String,
    pub chart: Option<String>,
    /// The lines of the price analysis.
    pub analysis: Vec<String>,
    pub cash_flow_table: Option<String>,
}

/// All that a report is made from.
#[derive(Clone, Debug, PartialEq, Eq)]
pub struct ReportData {
    /// The company's name, where the metadata was to be had.
    pub company: Option<String>,
    pub bars: Vec<PriceBar>,
    /// For each bar but the first, the percentage return that ends at it.
    pub day_returns: Vec<SignedText>,
    pub volatility: Option<VolatilityText>,
    /// The earnings dates, or nothing where fetching them failed.
    pub fetched_earnings: Option<Vec<Timestamp>>,
    /// The price chart, drawn elsewhere.
    pub chart: Option<String>,
    pub cash_flows: Vec<CashFlowRow>,
}

/// A section that is shown only if it is wanted and there: one block, or
/// none.
pub open spec fn optional_block(wanted: bool, block: Option<String>) -> Seq<Seq<char>> {
    match block {
        Some(text) => if wanted {
            seq![text@]
        } else {
            Seq::empty()
        },
        None => Seq::empty(),
    }
}

/// The blocks of a report in order: header, quote table, a blank line,
/// chart, the analysis lines, cash-flow table.
pub open spec fn blocks_of(config: ReportConfig, parts: ReportParts) -> Seq<Seq<char>> {
    optional_block(config.include_header, parts.header) + seq![
        parts.quote_table@,
        Seq::<char>::empty(),
    ] + optional_block(config.include_chart, parts.chart) + texts(parts.analysis@)
        + optional_block(config.include_cashflow, parts.cash_flow_table)
}

/// The blocks as one text, each ended by a line feed.
pub open spec fn joined(blocks: Seq<Seq<char>>) -> Seq<char>
    decreases blocks.len(),
{
    if blocks.len() == 0 {
        Seq::empty()
    } else {
        joined(blocks.drop_last()) + blocks.last() + "\n"@
    }
}

/// Why no report can be made of `data`, if anything: a bar without volume
/// comes first, then whatever keeps the change over the period from being
/// computed.
pub open spec fn report_failure_of(data: ReportData) -> Option<MetricsError> {
    if !volumes_present(data.bars@) {
        Some(MetricsError::MissingData)
    } else {
        match period_change_of(data.bars@) {
            Err(e) => Some(e),
            Ok(_) => None,
        }
    }
}

/// The text of the report of `data`, where one can be made.
pub open spec fn report_text_of(config: ReportConfig, data: ReportData) -> Seq<char> {
    joined(
        optional_block(config.include_header, data.company) + seq![
            sharp_table_text(quote_rows_of(data.bars@, data.day_returns@)),
            Seq::<char>::empty(),
        ] + optional_block(config.include_chart, data.chart) + analysis_lines_of(
            period_change_of(data.bars@)->Ok_0,
            kept_volatility(data.bars@.len(), data.volatility),
            ranges_of(data.bars@),
            next_earnings_of(data.fetched_earnings),
        ) + (if config.include_cashflow {
            seq![sharp_table_text(cash_flow_rows_of(data.cash_flows@))]
        } else {
            Seq::empty()
        }),
    )
}

/// Adds `block` to `blocks` if it is wanted and there.
fn push_optional(blocks: &mut Vec<String>, wanted: bool, block: Option<String>)
    ensures
        texts(final(blocks)@) == texts(old(blocks)@) + optional_block(wanted, block),
{
    match block {
        Some(text) => {
            if wanted {
                blocks.push(text);
                assert(texts(blocks@) =~= texts(old(blocks)@) + seq![text@]);
            } else {
                assert(texts(blocks@) =~= texts(old(blocks)@) + Seq::empty());
            }
        },
        None => {
            assert(texts(blocks@) =~= texts(old(blocks)@) + Seq::empty());
        },
    }
}

/// Lays the sections out in the order of the report, leaving out those that
/// are not wanted or not there.
pub fn compose(config: &ReportConfig, parts: ReportParts) -> (r: Vec<String>)
    ensures
        texts(r@) == blocks_of(*config, parts),
{
    let ReportParts { header, quote_table, chart, analysis, cash_flow_table } = parts;
    let mut analysis = analysis;
    let mut blocks: Vec<String> = Vec::new();
    assert(texts(blocks@) =~= Seq::empty());
    push_optional(&mut blocks, config.include_header, header);
    let ghost head = texts(blocks@);
    assert(head =~= optional_block(config.include_header, header));
    blocks.push(quote_table);
    blocks.push(String::new());
    assert(texts(blocks@) =~= head + seq![quote_table@, Seq::<char>::empty()]);
    push_optional(&mut blocks, config.include_chart, chart);
    let ghost upper = texts(blocks@);
    let ghost lines = analysis@;
    blocks.append(&mut analysis);
    assert(texts(blocks@) =~= upper + texts(lines));
    push_optional(&mut blocks, config.include_cashflow, cash_flow_table);
    blocks
}

/// Writes the blocks as one text, each on lines of its own.
pub fn render(blocks: &Vec<String>) -> (r: String)
    ensures
        r@ == joined(texts(blocks@)),
{
    let mut text = String::new();
    let mut i: usize = 0;
    while i < blocks.len()
        invariant
            i <= blocks@.len(),
            text@ == joined(texts(blocks@).take(i as int)),
        decreases blocks.len() - i,
    {
        proof {
            let upto = texts(blocks@).take(i + 1);
            assert(upto.drop_last() =~= texts(blocks@).take(i as int));
            assert(upto.last() == blocks@[i as int]@);
        }
        text.append(blocks[i].as_str());
        text.append("\n");
        i += 1;
    }
    assert(texts(blocks@).take(blocks@.len() as int) =~= texts(blocks@));
    text
}

/// Makes the report of `data`: checks that every bar has its volume, draws
/// the tables, gathers the analysis, and lays the sections out as `config`
/// asks.
pub fn build_report(config: &ReportConfig, data: ReportData) -> (r: Result<String, MetricsError>)
    requires
        data.bars@.len() <= data.day_returns@.len() + 1,
    ensures
        r matches Ok(text) ==> report_failure_of(data) is None && text@ == report_text_of(
            *config,
            data,
        ),
        r matches Err(e) ==> report_failure_of(data) == Some(e),
{
    let ReportData { company, bars, day_returns, volatility, fetched_earnings, chart, cash_flows } =
        data;
    require_volumes(&bars)?;
    let found = analyse(&bars, volatility, &fetched_earnings)?;
    let parts = ReportParts {
        header: company,
        quote_table: quote_table(&bars, &day_returns),
        chart,
        analysis: analysis_lines(&found),
        cash_flow_table: if config.include_cashflow {
            Some(cash_flow_table(&cash_flows))
        } else {
            None
        },
    };
    let blocks = compose(config, parts);
    assert(texts(blocks@) =~= blocks_of(*config, parts));
    Ok(render(&blocks))
}

} // verus!
