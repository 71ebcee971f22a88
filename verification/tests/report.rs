use quote_report::amount::Amount;
use quote_report::bar::{PriceBar, Timestamp};
use quote_report::cash_flow::{cash_flow_cells, cash_flow_table, CashFlowRow};
use quote_report::error::MetricsError;
use quote_report::quote_table::{
    align, header_cells, quote_row, quote_table, return_cell, SignedText,
};
use quote_report::range::PriceRange;
use quote_report::report::{
    build_report, compose, render, ReportConfig, ReportData, ReportParts,
};
use quote_report::summary::{
    analyse, analysis_lines, next_earnings, range_line, volatility_defined, Analysis,
    VolatilityText,
};

const DAY: i64 = 86_400;
const JAN_2_2024: i64 = 1_704_153_600;

fn cents(n: i128) -> Amount {
    Amount::new(n, 2).expect("amount in range")
}

fn at(secs: i64) -> Timestamp {
    Timestamp::new(secs).expect("timestamp in range")
}

fn day_bar(day: i64, volume: u64, open: i128, high: i128, low: i128, close: i128) -> PriceBar {
    PriceBar {
        timestamp: at(JAN_2_2024 + day * DAY),
        open: cents(open),
        high: cents(high),
        low: cents(low),
        close: cents(close),
        volume: Some(volume),
    }
}

fn three_bars() -> Vec<PriceBar> {
    vec![
        day_bar(0, 1_234_567, 9_900, 10_500, 9_500, 10_000),
        day_bar(1, 987, 10_050, 11_200, 10_000, 11_000),
        day_bar(2, 25_000_000, 10_900, 11_000, 9_850, 9_900),
    ]
}

fn percent_text(percent: f64) -> SignedText {
    SignedText { negative: percent < 0.0, text: format!("{:.2}", percent) }
}

fn plain() -> ReportConfig {
    ReportConfig { include_header: false, include_chart: false, include_cashflow: false }
}

fn everything() -> ReportConfig {
    ReportConfig { include_header: true, include_chart: true, include_cashflow: true }
}

fn volatility() -> VolatilityText {
    VolatilityText { std_dev: "0.1414".to_string(), annualized: "224.50".to_string() }
}

fn data(bars: Vec<PriceBar>, day_returns: Vec<SignedText>) -> ReportData {
    ReportData {
        company: Some("Example Corp".to_string()),
        bars,
        day_returns,
        volatility: Some(volatility()),
        fetched_earnings: Some(vec![at(JAN_2_2024 + 30 * DAY + 21 * 3600)]),
        chart: Some("chart".to_string()),
        cash_flows: vec![CashFlowRow {
            period_end: Some(at(JAN_2_2024 - 2 * DAY)),
            free_cash_flow: Some(1_500),
        }],
    }
}

const QUOTE_TABLE: &str = "\
┌────────────┬────────────┬────────┬────────┬────────┬────────┬──────────┐
│ Date       │ Volume     │ Open   │ High   │ Low    │ Close  │ Return % │
├────────────┼────────────┼────────┼────────┼────────┼────────┼──────────┤
│ 2024-01-02 │ 1,234,567  │ 99.00  │ 105.00 │ 95.00  │ 100.00 │          │
│ 2024-01-03 │ 987        │ 100.50 │ 112.00 │ 100.00 │ 110.00 │  10.00   │
│ 2024-01-04 │ 25,000,000 │ 109.00 │ 110.00 │ 98.50  │ 99.00  │ -10.00   │
└────────────┴────────────┴────────┴────────┴────────┴────────┴──────────┘";

const CASH_FLOW_TABLE: &str = "\
┌────────────┬────────────────┐
│ Year End   │ Free Cash Flow │
├────────────┼────────────────┤
│ 2023-12-31 │ 1,500          │
└────────────┴────────────────┘";

#[test]
fn negative_return_has_no_leading_space() {
    assert_eq!(align(&percent_text(-1.235)), "-1.24");
    assert_eq!(align(&percent_text(-0.004)), "-0.00");
}

#[test]
fn non_negative_return_has_a_leading_space() {
    assert_eq!(align(&percent_text(1.235)), " 1.24");
    assert_eq!(align(&percent_text(0.0)), " 0.00");
    assert_eq!(align(&percent_text(1.23)), " 1.23");
}

#[test]
fn return_cell_of_the_first_row_is_blank() {
    let returns = vec![percent_text(10.0), percent_text(-10.0)];
    assert_eq!(return_cell(&returns, 0), "");
    assert_eq!(return_cell(&Vec::new(), 0), "");
}

#[test]
fn return_cell_of_a_later_row_is_the_return_before_it() {
    let returns = vec![percent_text(10.0), percent_text(-10.0)];
    assert_eq!(return_cell(&returns, 1), " 10.00");
    assert_eq!(return_cell(&returns, 2), "-10.00");
}

#[test]
fn header_cells_are_the_seven_titles() {
    assert_eq!(
        header_cells(),
        vec!["Date", "Volume", "Open", "High", "Low", "Close", "Return %"]
    );
}

#[test]
fn quote_row_formats_each_field() {
    let bar = day_bar(0, 1_234_567, 9_900, 10_500, 9_500, 10_000);
    assert_eq!(
        quote_row(&bar, " 1.23".to_string()),
        vec!["2024-01-02", "1,234,567", "99.00", "105.00", "95.00", "100.00", " 1.23"]
    );
}

#[test]
fn quote_row_groups_volume_in_thousands() {
    let cell = |volume: u64| quote_row(&day_bar(0, volume, 1, 1, 1, 1), String::new())[1].clone();
    assert_eq!(cell(0), "0");
    assert_eq!(cell(999), "999");
    assert_eq!(cell(1_000), "1,000");
    assert_eq!(cell(u64::MAX), "18,446,744,073,709,551,615");
}

#[test]
fn quote_table_has_a_row_per_bar() {
    let returns = vec![percent_text(10.0), percent_text(-10.0)];
    assert_eq!(quote_table(&three_bars(), &returns), QUOTE_TABLE);
}

#[test]
fn quote_table_of_no_bars_is_the_header_alone() {
    let expected = "\
┌──────┬────────┬──────┬──────┬─────┬───────┬──────────┐
│ Date │ Volume │ Open │ High │ Low │ Close │ Return % │
├──────┼────────┼──────┼──────┼─────┼───────┼──────────┤";
    assert_eq!(quote_table(&Vec::new(), &Vec::new()), expected);
}

#[test]
fn cash_flow_cells_need_both_fields() {
    let end = Some(at(JAN_2_2024));
    assert_eq!(
        cash_flow_cells(&CashFlowRow { period_end: end, free_cash_flow: Some(-2_500_000) }),
        Some(vec!["2024-01-02".to_string(), "-2,500,000".to_string()])
    );
    assert_eq!(cash_flow_cells(&CashFlowRow { period_end: end, free_cash_flow: None }), None);
    assert_eq!(cash_flow_cells(&CashFlowRow { period_end: None, free_cash_flow: Some(1) }), None);
    assert_eq!(cash_flow_cells(&CashFlowRow { period_end: None, free_cash_flow: None }), None);
}

#[test]
fn cash_flow_table_skips_incomplete_rows() {
    let rows = vec![
        CashFlowRow { period_end: None, free_cash_flow: Some(7) },
        CashFlowRow { period_end: Some(at(JAN_2_2024 - 2 * DAY)), free_cash_flow: Some(1_500) },
        CashFlowRow { period_end: Some(at(JAN_2_2024)), free_cash_flow: None },
    ];
    assert_eq!(cash_flow_table(&rows), CASH_FLOW_TABLE);
}

#[test]
fn volatility_needs_three_bars() {
    assert!(!volatility_defined(0));
    assert!(!volatility_defined(2));
    assert!(volatility_defined(3));
    assert!(volatility_defined(250));
}

#[test]
fn next_earnings_is_the_first_date_fetched() {
    let dates = vec![at(JAN_2_2024 + DAY), at(JAN_2_2024)];
    assert_eq!(next_earnings(&Some(dates)), Some(at(JAN_2_2024 + DAY)));
}

#[test]
fn failed_or_empty_earnings_fetch_gives_no_date() {
    assert_eq!(next_earnings(&None), None);
    assert_eq!(next_earnings(&Some(Vec::new())), None);
}

#[test]
fn single_bar_has_neither_change_nor_volatility() {
    let bars = vec![day_bar(0, 10, 10_000, 10_500, 9_500, 10_000)];
    let found = analyse(&bars, Some(volatility()), &None).unwrap();
    assert_eq!(found.percent_change, None);
    assert_eq!(found.volatility, None);
    assert_eq!(
        analysis_lines(&found),
        vec!["intraday range: 95.00 - 105.00", "closing range: 100.00 - 100.00"]
    );
}

#[test]
fn two_bars_have_a_change_but_no_volatility() {
    let bars = three_bars()[..2].to_vec();
    let found = analyse(&bars, Some(volatility()), &None).unwrap();
    assert_eq!(found.percent_change.map(|p| p.to_fixed2()), Some("10.00".to_string()));
    assert_eq!(found.volatility, None);
}

#[test]
fn three_bars_have_every_line() {
    let earnings = Some(vec![at(JAN_2_2024 + 30 * DAY + 21 * 3600)]);
    let found = analyse(&three_bars(), Some(volatility()), &earnings).unwrap();
    assert_eq!(
        analysis_lines(&found),
        vec![
            "pct change over period: -1.00",
            "std dev of returns: 0.1414",
            "annualized volatility: 224.50",
            "intraday range: 95.00 - 112.00",
            "closing range: 99.00 - 110.00",
            "earnings date: 2024-02-01 21:00",
        ]
    );
}

#[test]
fn empty_series_has_no_analysis_lines() {
    let found = analyse(&Vec::new(), None, &None).unwrap();
    assert_eq!(
        found,
        Analysis { percent_change: None, volatility: None, ranges: None, next_earnings: None }
    );
    assert!(analysis_lines(&found).is_empty());
}

#[test]
fn analyse_fails_where_the_change_cannot_be_computed() {
    let mut bars = three_bars();
    bars[0].close = cents(0);
    assert_eq!(analyse(&bars, None, &None), Err(MetricsError::DivisionByZero));
}

#[test]
fn range_line_gives_low_then_high() {
    let range = PriceRange { low: cents(-150), high: cents(12_345) };
    assert_eq!(range_line("span: ", &range), "span: -1.50 - 123.45");
}

#[test]
fn compose_puts_the_sections_in_order() {
    let parts = ReportParts {
        header: Some("header".to_string()),
        quote_table: "table".to_string(),
        chart: Some("chart".to_string()),
        analysis: vec!["one".to_string(), "two".to_string()],
        cash_flow_table: Some("cash".to_string()),
    };
    assert_eq!(
        compose(&everything(), parts),
        vec!["header", "table", "", "chart", "one", "two", "cash"]
    );
}

#[test]
fn compose_leaves_out_what_is_not_wanted() {
    let parts = ReportParts {
        header: Some("header".to_string()),
        quote_table: "table".to_string(),
        chart: Some("chart".to_string()),
        analysis: vec!["one".to_string()],
        cash_flow_table: Some("cash".to_string()),
    };
    assert_eq!(compose(&plain(), parts), vec!["table", "", "one"]);
}

#[test]
fn compose_leaves_out_what_is_not_there() {
    let parts = ReportParts {
        header: None,
        quote_table: "table".to_string(),
        chart: None,
        analysis: Vec::new(),
        cash_flow_table: None,
    };
    assert_eq!(compose(&everything(), parts), vec!["table", ""]);
}

#[test]
fn render_ends_each_block_with_a_line_feed() {
    assert_eq!(render(&Vec::new()), "");
    assert_eq!(render(&vec!["a".to_string(), String::new(), "b\nc".to_string()]), "a\n\nb\nc\n");
}

#[test]
fn build_report_with_every_section() {
    let returns = vec![percent_text(10.0), percent_text(-10.0)];
    let report = build_report(&everything(), data(three_bars(), returns)).unwrap();
    let expected = format!(
        "Example Corp\n{}\n\nchart\n{}\n{}\n",
        QUOTE_TABLE,
        "pct change over period: -1.00\n\
         std dev of returns: 0.1414\n\
         annualized volatility: 224.50\n\
         intraday range: 95.00 - 112.00\n\
         closing range: 99.00 - 110.00\n\
         earnings date: 2024-02-01 21:00",
        CASH_FLOW_TABLE
    );
    assert_eq!(report, expected);
}

#[test]
fn build_report_without_optional_sections() {
    let returns = vec![percent_text(10.0), percent_text(-10.0)];
    let mut input = data(three_bars(), returns);
    input.fetched_earnings = None;
    input.volatility = None;
    let report = build_report(&plain(), input).unwrap();
    let expected = format!(
        "{}\n\n{}\n",
        QUOTE_TABLE,
        "pct change over period: -1.00\n\
         intraday range: 95.00 - 112.00\n\
         closing range: 99.00 - 110.00"
    );
    assert_eq!(report, expected);
}

#[test]
fn build_report_fails_on_a_missing_volume() {
    let mut bars = three_bars();
    bars[2].volume = None;
    bars[0].close = cents(0);
    let returns = vec![percent_text(10.0), percent_text(-10.0)];
    assert_eq!(build_report(&plain(), data(bars, returns)), Err(MetricsError::MissingData));
}

#[test]
fn build_report_fails_on_a_zero_first_close() {
    let mut bars = three_bars();
    bars[0].close = cents(0);
    let returns = vec![percent_text(10.0), percent_text(-10.0)];
    assert_eq!(build_report(&plain(), data(bars, returns)), Err(MetricsError::DivisionByZero));
}

#[test]
fn new_config_has_no_optional_section() {
    assert_eq!(ReportConfig::new(), plain());
}

#[test]
fn config_builders_switch_one_section_each() {
    let config = ReportConfig::new().with_header(true);
    assert_eq!(
        config,
        ReportConfig { include_header: true, include_chart: false, include_cashflow: false }
    );
    let config = config.with_chart(true).with_header(false);
    assert_eq!(
        config,
        ReportConfig { include_header: false, include_chart: true, include_cashflow: false }
    );
    let all = ReportConfig::new().with_header(true).with_chart(true).with_cashflow(true);
    assert_eq!(all, everything());
    assert_eq!(everything().with_cashflow(false).with_chart(false).with_header(false), plain());
}
