use financial_analysis::amounts::SCALE;
use financial_analysis::financial_analysis::{
    check_current_ratio, check_debt_equity, check_dividends, check_earnings_growth,
    check_market_cap, check_pb, check_pe, check_working_capital, AnalysisConfig, RuleOutcome,
};
use financial_analysis::stock_data_fetching::{
    CompanyFinancials, CompanyInformation, CompanyQuote,
};

fn rules_config() -> AnalysisConfig {
    AnalysisConfig {
        pe_limits: [5 * SCALE, 25 * SCALE],
        pb_limits: [0, 3 * SCALE],
        earnings_growth_5y_min: SCALE / 20,
        dividend_per_share_min: SCALE / 2,
        dividend_growth_5y_min: SCALE / 100,
        current_ratio_min: 2 * SCALE,
        debt_equity_max: SCALE,
        market_cap_min: 1000 * SCALE,
        nor_aaa_10y_bond_yield: 3 * SCALE / 100,
        us_aaa_10y_bond_yield: 4 * SCALE / 100,
    }
}

fn rules_financials() -> CompanyFinancials {
    CompanyFinancials {
        pb_ratio: None,
        ps_ratio: None,
        pe_ratio: None,
        dividend_per_share: None,
        dividend_per_share_5_yr_avg: None,
        dividend_growth_5_yr_avg: None,
        earnings_per_share: None,
        earnings_growth: None,
        earnings_growth_5_yr_avg: None,
        book_value_per_share: None,
        tangible_book_value_per_share: None,
        total_debt_to_total_equity: None,
        long_term_debt_to_equity: None,
        current_ratio: None,
        quick_ratio: None,
        return_on_avg_equity: None,
        return_on_avg_equity_5_yr: None,
        return_on_avg_assets_5_yr: None,
        return_on_investments: None,
        return_on_investments_5_yr: None,
        net_profit_margin: None,
        net_profit_margin_5_yr_avg: None,
        net_profit_margin_growth_5_yr_avg: None,
        total_current_assets: None,
        total_current_liabilities: None,
        total_current_long_term_debt: None,
    }
}

fn rules_information(industry: &str) -> CompanyInformation {
    CompanyInformation {
        name: "Example Corp".to_string(),
        ticker: "EXMP".to_string(),
        exchange: "US".to_string(),
        currency: "USD".to_string(),
        country: "US".to_string(),
        industry: industry.to_string(),
        market_cap: 50_000 * SCALE,
        shares_outstanding: 10 * SCALE,
        ipo: "2000-01-01".to_string(),
        weburl: "https://example.invalid".to_string(),
        finnhub_industry: industry.to_string(),
    }
}

fn rules_quote(current: i64) -> CompanyQuote {
    CompanyQuote {
        c: current,
        h: current,
        l: current,
        o: current,
        pc: current,
        t: 1_700_000_000,
    }
}

#[test]
fn pe_inside_range_passes() {
    let cfg = rules_config();
    let mut fin = rules_financials();
    fin.pe_ratio = Some(12 * SCALE);
    assert_eq!(check_pe(&fin, &cfg), RuleOutcome::Pass);
}

#[test]
fn pe_bounds_are_inclusive() {
    let cfg = rules_config();
    let mut fin = rules_financials();
    fin.pe_ratio = Some(5 * SCALE);
    assert_eq!(check_pe(&fin, &cfg), RuleOutcome::Pass);
    fin.pe_ratio = Some(25 * SCALE);
    assert_eq!(check_pe(&fin, &cfg), RuleOutcome::Pass);
}

#[test]
fn pe_outside_range_fails() {
    let cfg = rules_config();
    let mut fin = rules_financials();
    fin.pe_ratio = Some(5 * SCALE - 1);
    assert_eq!(check_pe(&fin, &cfg), RuleOutcome::Fail);
    fin.pe_ratio = Some(25 * SCALE + 1);
    assert_eq!(check_pe(&fin, &cfg), RuleOutcome::Fail);
}

#[test]
fn pe_missing_is_indeterminate() {
    let cfg = rules_config();
    let fin = rules_financials();
    assert_eq!(check_pe(&fin, &cfg), RuleOutcome::Indeterminate);
}

#[test]
fn pb_technology_upper_bound_is_five_times() {
    let cfg = rules_config();
    let industry = "Technology".to_string();
    let mut fin = rules_financials();
    // Effective upper bound is 15.0: a price/book of 14.9 is accepted.
    fin.pb_ratio = Some(149_000);
    assert_eq!(check_pb(&fin, &industry, &cfg), RuleOutcome::Pass);
    // 15.1 is above even the widened bound.
    fin.pb_ratio = Some(151_000);
    assert_eq!(check_pb(&fin, &industry, &cfg), RuleOutcome::Fail);
}

#[test]
fn pb_other_industry_keeps_configured_bound() {
    let cfg = rules_config();
    let industry = "Utilities".to_string();
    let mut fin = rules_financials();
    fin.pb_ratio = Some(149_000);
    assert_eq!(check_pb(&fin, &industry, &cfg), RuleOutcome::Fail);
    fin.pb_ratio = Some(3 * SCALE);
    assert_eq!(check_pb(&fin, &industry, &cfg), RuleOutcome::Pass);
}

#[test]
fn pb_missing_is_indeterminate() {
    let cfg = rules_config();
    let industry = "Technology".to_string();
    let fin = rules_financials();
    assert_eq!(check_pb(&fin, &industry, &cfg), RuleOutcome::Indeterminate);
}

#[test]
fn working_capital_example_passes() {
    // Current assets 100, liabilities 40, current long-term debt 10,
    // shares outstanding 10, price 6.0: per-share working capital is
    // (100 - 40) / 10 = 6.0, at least (2/3) * 6.0 = 4.0.
    let mut fin = rules_financials();
    fin.total_current_assets = Some(100 * SCALE);
    fin.total_current_liabilities = Some(40 * SCALE);
    fin.total_current_long_term_debt = Some(10 * SCALE);
    let mut info = rules_information("Utilities");
    info.shares_outstanding = 10 * SCALE;
    let quote = rules_quote(6 * SCALE);
    assert_eq!(check_working_capital(&fin, &info, &quote), RuleOutcome::Pass);
}

#[test]
fn working_capital_boundary_and_failure() {
    let mut fin = rules_financials();
    fin.total_current_assets = Some(100 * SCALE);
    fin.total_current_liabilities = Some(40 * SCALE);
    fin.total_current_long_term_debt = Some(10 * SCALE);
    let mut info = rules_information("Utilities");
    info.shares_outstanding = 10 * SCALE;
    // Per-share working capital is 6.0; a price of exactly 9.0 makes the
    // two-thirds bound exactly 6.0, which still passes.
    assert_eq!(
        check_working_capital(&fin, &info, &rules_quote(9 * SCALE)),
        RuleOutcome::Pass
    );
    // One fixed-point unit above 9.0 tips the bound over.
    assert_eq!(
        check_working_capital(&fin, &info, &rules_quote(9 * SCALE + 1)),
        RuleOutcome::Fail
    );
}

#[test]
fn working_capital_negative_fails() {
    let mut fin = rules_financials();
    fin.total_current_assets = Some(40 * SCALE);
    fin.total_current_liabilities = Some(100 * SCALE);
    fin.total_current_long_term_debt = Some(10 * SCALE);
    let info = rules_information("Utilities");
    let quote = rules_quote(0);
    assert_eq!(check_working_capital(&fin, &info, &quote), RuleOutcome::Fail);
}

#[test]
fn working_capital_missing_line_item_is_indeterminate() {
    let mut fin = rules_financials();
    fin.total_current_assets = Some(100 * SCALE);
    fin.total_current_liabilities = Some(40 * SCALE);
    let info = rules_information("Utilities");
    let quote = rules_quote(6 * SCALE);
    assert_eq!(
        check_working_capital(&fin, &info, &quote),
        RuleOutcome::Indeterminate
    );
}

#[test]
fn dividends_thresholds() {
    let cfg = rules_config();
    let mut fin = rules_financials();
    fin.dividend_per_share = Some(SCALE / 2);
    fin.dividend_per_share_5_yr_avg = Some(SCALE / 2);
    fin.dividend_growth_5_yr_avg = Some(SCALE / 100);
    assert_eq!(check_dividends(&fin, &cfg), RuleOutcome::Pass);
    fin.dividend_growth_5_yr_avg = Some(SCALE / 100 - 1);
    assert_eq!(check_dividends(&fin, &cfg), RuleOutcome::Fail);
    fin.dividend_growth_5_yr_avg = None;
    assert_eq!(check_dividends(&fin, &cfg), RuleOutcome::Indeterminate);
}

#[test]
fn earnings_growth_needs_nonnegative_current_growth() {
    let cfg = rules_config();
    let mut fin = rules_financials();
    fin.earnings_growth = Some(0);
    fin.earnings_growth_5_yr_avg = Some(SCALE / 20);
    assert_eq!(check_earnings_growth(&fin, &cfg), RuleOutcome::Pass);
    fin.earnings_growth = Some(-1);
    assert_eq!(check_earnings_growth(&fin, &cfg), RuleOutcome::Fail);
    fin.earnings_growth = None;
    assert_eq!(check_earnings_growth(&fin, &cfg), RuleOutcome::Indeterminate);
}

#[test]
fn debt_equity_maximum_is_inclusive() {
    let cfg = rules_config();
    let mut fin = rules_financials();
    fin.total_debt_to_total_equity = Some(SCALE);
    assert_eq!(check_debt_equity(&fin, &cfg), RuleOutcome::Pass);
    fin.total_debt_to_total_equity = Some(SCALE + 1);
    assert_eq!(check_debt_equity(&fin, &cfg), RuleOutcome::Fail);
    fin.total_debt_to_total_equity = None;
    assert_eq!(check_debt_equity(&fin, &cfg), RuleOutcome::Indeterminate);
}

#[test]
fn market_cap_gate_threshold() {
    let cfg = rules_config();
    let mut info = rules_information("Utilities");
    info.market_cap = 1000 * SCALE;
    assert!(check_market_cap(&info, &cfg));
    info.market_cap = 1000 * SCALE - 1;
    assert!(!check_market_cap(&info, &cfg));
}

#[test]
fn current_ratio_threshold() {
    let cfg = rules_config();
    let mut fin = rules_financials();
    fin.current_ratio = Some(2 * SCALE);
    assert_eq!(check_current_ratio(&fin, &cfg), RuleOutcome::Pass);
    fin.current_ratio = Some(2 * SCALE - 1);
    assert_eq!(check_current_ratio(&fin, &cfg), RuleOutcome::Fail);
    fin.current_ratio = None;
    assert_eq!(check_current_ratio(&fin, &cfg), RuleOutcome::Indeterminate);
}
