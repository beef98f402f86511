//! Plain records for the data the pipeline fetches, and the verified
//! extraction of those records from upstream responses.
//!
//! The HTTP transport and the JSON decoding live outside the crate; they hand
//! the functions here plain values (strings, optional fixed-point amounts) in
//! the exact shape the provider's endpoints return, and the functions here
//! decide what those responses mean: which listing entries become stocks,
//! which responses are malformed, and which financial fields are present.

use vstd::prelude::*;

use crate::amounts::{amount_in_range, opt_amount_in_range, percent_to_ratio, percent_to_ratio_spec};

verus! {

/// How fetching one resource for one symbol can fail.
/// `Network`: the transport could not reach the provider.
/// `UpstreamShape`: the response did not have the expected structure.
#[derive(Clone, Copy, Debug, PartialEq, Eq, Structural)]
pub enum FetchError {
    Network,
    UpstreamShape,
}

/// Connection settings for the data provider.
pub struct DataFetchConfig {
    pub finnhub_api_key: String,
    pub max_api_calls_per_minute: u32,
    pub considered_exchanges: Vec<String>,
}

/// One tradable symbol on an exchange.
#[derive(Clone, Debug, PartialEq, Eq)]
pub struct StockInfo {
    pub symbol: String,
    pub currency: String,
    pub description: String,
}

/// One element of the provider's exchange listing, as decoded from the
/// response: each field is absent when the corresponding key was.
#[derive(Debug)]
pub struct ListingEntry {
    pub entry_type: Option<String>,
    pub symbol: Option<String>,
    pub currency: Option<String>,
    pub description: Option<String>,
}

/// A listing entry that announces a common stock.
pub open spec fn is_common_stock(e: ListingEntry) -> bool {
    e.entry_type matches Some(t) && t@ == "Common Stock"@
}

/// A listing entry has the shape the extraction relies on: the type tag is
/// present, and an entry kept as a common stock carries all three fields.
pub open spec fn listing_entry_wf(e: ListingEntry) -> bool {
    &&& e.entry_type is Some
    &&& is_common_stock(e) ==> e.symbol is Some && e.currency is Some && e.description is Some
}

/// The stock record a well-formed common-stock entry stands for.
pub open spec fn stock_of_entry(e: ListingEntry) -> StockInfo {
    StockInfo {
        symbol: e.symbol->0,
        currency: e.currency->0,
        description: e.description->0,
    }
}

/// The stocks extracted from a listing: the common-stock entries, in order.
pub open spec fn extracted_stocks(entries: Seq<ListingEntry>) -> Seq<StockInfo>
    decreases entries.len(),
{
    if entries.len() == 0 {
        Seq::empty()
    } else {
        let rest = extracted_stocks(entries.drop_last());
        if is_common_stock(entries.last()) {
            rest.push(stock_of_entry(entries.last()))
        } else {
            rest
        }
    }
}

/// Turns a decoded exchange listing into the list of its common stocks,
/// keeping their order. Fails with `UpstreamShape` exactly when some entry
/// lacks the type tag, or a common-stock entry lacks one of its fields.
pub fn extract_stock_list_from_exchange(entries: &Vec<ListingEntry>) -> (r: Result<
    Vec<StockInfo>,
    FetchError,
>)
    ensures
        r is Err <==> exists|k: int|
            0 <= k < entries@.len() && !listing_entry_wf(entries@[k]),
        r matches Err(e) ==> e == FetchError::UpstreamShape,
        r matches Ok(stocks) ==> stocks@ == extracted_stocks(entries@),
{
    let common: String = "Common Stock".to_owned();
    let mut stocks: Vec<StockInfo> = Vec::new();
    let mut i: usize = 0;
    while i < entries.len()
        invariant
            0 <= i <= entries@.len(),
            common@ == "Common Stock"@,
            forall|k: int| 0 <= k < i ==> listing_entry_wf(entries@[k]),
            stocks@ == extracted_stocks(entries@.take(i as int)),
        decreases entries@.len() - i,
    {
        let e = &entries[i];
        match &e.entry_type {
            None => {
                return Err(FetchError::UpstreamShape);
            },
            Some(t) => {
                if *t == common {
                    match (&e.symbol, &e.currency, &e.description) {
                        (Some(symbol), Some(currency), Some(description)) => {
                            stocks.push(
                                StockInfo {
                                    symbol: symbol.clone(),
                                    currency: currency.clone(),
                                    description: description.clone(),
                                },
                            );
                        },
                        _ => {
                            return Err(FetchError::UpstreamShape);
                        },
                    }
                }
            },
        }
        proof {
            assert(entries@.take(i + 1).drop_last() =~= entries@.take(i as int));
            assert(entries@.take(i + 1).last() == entries@[i as int]);
        }
        i = i + 1;
    }
    proof {
        assert(entries@.take(entries@.len() as int) =~= entries@);
    }
    Ok(stocks)
}

/// The provider's price snapshot for one symbol, as decoded from the
/// response: each field is absent when the corresponding key was.
#[derive(Clone, Copy, Debug)]
pub struct RawQuote {
    pub c: Option<i64>,
    pub h: Option<i64>,
    pub l: Option<i64>,
    pub o: Option<i64>,
    pub pc: Option<i64>,
    pub t: Option<i128>,
}

impl RawQuote {
    /// Every present price is an in-range amount.
    pub open spec fn wf(self) -> bool {
        &&& opt_amount_in_range(self.c)
        &&& opt_amount_in_range(self.h)
        &&& opt_amount_in_range(self.l)
        &&& opt_amount_in_range(self.o)
        &&& opt_amount_in_range(self.pc)
    }
}

/// The latest price snapshot for one symbol: current, high, low, open and
/// previous-close price, and the provider's timestamp.
#[derive(Clone, Copy, Debug, PartialEq, Eq, Structural)]
pub struct CompanyQuote {
    pub c: i64,
    pub h: i64,
    pub l: i64,
    pub o: i64,
    pub pc: i64,
    pub t: i128,
}

/// The quote a complete raw snapshot stands for.
pub open spec fn quote_of_raw(raw: RawQuote) -> CompanyQuote {
    CompanyQuote {
        c: raw.c->0,
        h: raw.h->0,
        l: raw.l->0,
        o: raw.o->0,
        pc: raw.pc->0,
        t: raw.t->0,
    }
}

impl CompanyQuote {
    /// Every price is an in-range amount.
    pub open spec fn wf(self) -> bool {
        &&& amount_in_range(self.c as int)
        &&& amount_in_range(self.h as int)
        &&& amount_in_range(self.l as int)
        &&& amount_in_range(self.o as int)
        &&& amount_in_range(self.pc as int)
    }

    /// Accepts a decoded quote response. Fails with `UpstreamShape` exactly
    /// when some field of the snapshot is missing.
    pub fn from_fields(raw: &RawQuote) -> (r: Result<CompanyQuote, FetchError>)
        requires
            raw.wf(),
        ensures
            r is Ok <==> (raw.c is Some && raw.h is Some && raw.l is Some && raw.o is Some
                && raw.pc is Some && raw.t is Some),
            r matches Err(e) ==> e == FetchError::UpstreamShape,
            r matches Ok(q) ==> q == quote_of_raw(*raw) && q.wf(),
    {
        match (raw.c, raw.h, raw.l, raw.o, raw.pc, raw.t) {
            (Some(c), Some(h), Some(l), Some(o), Some(pc), Some(t)) => Ok(
                CompanyQuote { c, h, l, o, pc, t },
            ),
            _ => Err(FetchError::UpstreamShape),
        }
    }
}

/// The provider's company profile for one symbol, as decoded from the
/// response: each field is absent when the corresponding key was.
#[derive(Debug)]
pub struct RawProfile {
    pub name: Option<String>,
    pub ticker: Option<String>,
    pub exchange: Option<String>,
    pub currency: Option<String>,
    pub country: Option<String>,
    pub finnhub_industry: Option<String>,
    pub market_cap: Option<i64>,
    pub shares_outstanding: Option<i64>,
    pub ipo: Option<String>,
    pub weburl: Option<String>,
}

impl RawProfile {
    /// Present numeric fields are in-range amounts.
    pub open spec fn wf(self) -> bool {
        &&& opt_amount_in_range(self.market_cap)
        &&& opt_amount_in_range(self.shares_outstanding)
    }
}

/// A company profile: identity, classification, market capitalization (in
/// millions) and shares outstanding (in millions). The industry comes from
/// the provider's industry classification, recorded in both fields.
#[derive(Clone, Debug)]
pub struct CompanyInformation {
    pub name: String,
    pub ticker: String,
    pub exchange: String,
    pub currency: String,
    pub country: String,
    pub industry: String,
    pub market_cap: i64,
    pub shares_outstanding: i64,
    pub ipo: String,
    pub weburl: String,
    pub finnhub_industry: String,
}

/// The profile a complete raw response stands for.
pub open spec fn information_of_raw(raw: RawProfile) -> CompanyInformation {
    CompanyInformation {
        name: raw.name->0,
        ticker: raw.ticker->0,
        exchange: raw.exchange->0,
        currency: raw.currency->0,
        country: raw.country->0,
        industry: raw.finnhub_industry->0,
        market_cap: raw.market_cap->0,
        shares_outstanding: raw.shares_outstanding->0,
        ipo: raw.ipo->0,
        weburl: raw.weburl->0,
        finnhub_industry: raw.finnhub_industry->0,
    }
}

impl CompanyInformation {
    /// The numeric fields are in-range amounts.
    pub open spec fn wf(self) -> bool {
        &&& amount_in_range(self.market_cap as int)
        &&& amount_in_range(self.shares_outstanding as int)
    }

    /// Accepts a decoded profile response. Fails with `UpstreamShape` exactly
    /// when some field of the profile is missing.
    pub fn from_fields(raw: RawProfile) -> (r: Result<CompanyInformation, FetchError>)
        requires
            raw.wf(),
        ensures
            r is Ok <==> (raw.name is Some && raw.ticker is Some && raw.exchange is Some
                && raw.currency is Some && raw.country is Some && raw.finnhub_industry is Some
                && raw.market_cap is Some && raw.shares_outstanding is Some && raw.ipo is Some
                && raw.weburl is Some),
            r matches Err(e) ==> e == FetchError::UpstreamShape,
            r matches Ok(info) ==> info == information_of_raw(raw) && info.wf(),
    {
        match raw {
            RawProfile {
                name: Some(name),
                ticker: Some(ticker),
                exchange: Some(exchange),
                currency: Some(currency),
                country: Some(country),
                finnhub_industry: Some(finnhub_industry),
                market_cap: Some(market_cap),
                shares_outstanding: Some(shares_outstanding),
                ipo: Some(ipo),
                weburl: Some(weburl),
            } => Ok(
                CompanyInformation {
                    name,
                    ticker,
                    exchange,
                    currency,
                    country,
                    industry: finnhub_industry.clone(),
                    market_cap,
                    shares_outstanding,
                    ipo,
                    weburl,
                    finnhub_industry,
                },
            ),
            _ => Err(FetchError::UpstreamShape),
        }
    }
}

/// The flat map of named annual ratios the provider's metric endpoint
/// returns, decoded to fixed-point amounts: an absent metric is `None`,
/// never zero. Debt-to-total-equity is still the reported percentage here.
#[derive(Clone, Copy, Debug)]
pub struct MetricReport {
    pub pb_ratio: Option<i64>,
    pub ps_ratio: Option<i64>,
    pub pe_ratio: Option<i64>,
    pub dividend_per_share: Option<i64>,
    pub dividend_per_share_5_yr_avg: Option<i64>,
    pub dividend_growth_5_yr_avg: Option<i64>,
    pub earnings_per_share: Option<i64>,
    pub earnings_growth: Option<i64>,
    pub earnings_growth_5_yr_avg: Option<i64>,
    pub book_value_per_share: Option<i64>,
    pub tangible_book_value_per_share: Option<i64>,
    pub total_debt_to_total_equity: Option<i64>,
    pub long_term_debt_to_equity: Option<i64>,
    pub current_ratio: Option<i64>,
    pub quick_ratio: Option<i64>,
    pub return_on_avg_equity: Option<i64>,
    pub return_on_avg_equity_5_yr: Option<i64>,
    pub return_on_avg_assets_5_yr: Option<i64>,
    pub return_on_investments: Option<i64>,
    pub return_on_investments_5_yr: Option<i64>,
    pub net_profit_margin: Option<i64>,
    pub net_profit_margin_5_yr_avg: Option<i64>,
    pub net_profit_margin_growth_5_yr_avg: Option<i64>,
}

impl MetricReport {
    /// Every present metric is an in-range amount.
    pub open spec fn wf(self) -> bool {
        &&& opt_amount_in_range(self.pb_ratio)
        &&& opt_amount_in_range(self.ps_ratio)
        &&& opt_amount_in_range(self.pe_ratio)
        &&& opt_amount_in_range(self.dividend_per_share)
        &&& opt_amount_in_range(self.dividend_per_share_5_yr_avg)
        &&& opt_amount_in_range(self.dividend_growth_5_yr_avg)
        &&& opt_amount_in_range(self.earnings_per_share)
        &&& opt_amount_in_range(self.earnings_growth)
        &&& opt_amount_in_range(self.earnings_growth_5_yr_avg)
        &&& opt_amount_in_range(self.book_value_per_share)
        &&& opt_amount_in_range(self.tangible_book_value_per_share)
        &&& opt_amount_in_range(self.total_debt_to_total_equity)
        &&& opt_amount_in_range(self.long_term_debt_to_equity)
        &&& opt_amount_in_range(self.current_ratio)
        &&& opt_amount_in_range(self.quick_ratio)
        &&& opt_amount_in_range(self.return_on_avg_equity)
        &&& opt_amount_in_range(self.return_on_avg_equity_5_yr)
        &&& opt_amount_in_range(self.return_on_avg_assets_5_yr)
        &&& opt_amount_in_range(self.return_on_investments)
        &&& opt_amount_in_range(self.return_on_investments_5_yr)
        &&& opt_amount_in_range(self.net_profit_margin)
        &&& opt_amount_in_range(self.net_profit_margin_5_yr_avg)
        &&& opt_amount_in_range(self.net_profit_margin_growth_5_yr_avg)
    }
}

/// One line of the reported annual balance sheet, as decoded from the
/// response. The value is in raw currency units, not yet in millions.
#[derive(Clone, Debug)]
pub struct BalanceSheetEntry {
    pub label: Option<String>,
    pub concept: Option<String>,
    pub value: Option<u64>,
}

/// The line item holding total current assets.
pub open spec fn matches_current_assets(e: BalanceSheetEntry) -> bool {
    e.label matches Some(l) && l@ == "Total current assets"@
}

/// The line item holding total current liabilities.
pub open spec fn matches_current_liabilities(e: BalanceSheetEntry) -> bool {
    e.label matches Some(l) && l@ == "Total current liabilities"@
}

/// The line item holding long-term debt due within one year, matched by its
/// concept identifier as well as its label.
pub open spec fn matches_current_long_term_debt(e: BalanceSheetEntry) -> bool {
    &&& e.label matches Some(l) && l@ == "Term debt"@
    &&& e.concept matches Some(c) && c@ == "us-gaap_LongTermDebtCurrent"@
}

/// A balance-sheet line has the shape the scan relies on: label and concept
/// are present, and a line the scan extracts carries its value.
pub open spec fn balance_entry_wf(e: BalanceSheetEntry) -> bool {
    &&& e.label is Some
    &&& e.concept is Some
    &&& matches_current_assets(e) ==> e.value is Some
    &&& matches_current_liabilities(e) ==> e.value is Some
    &&& matches_current_long_term_debt(e) ==> e.value is Some
}

/// A raw currency figure converted to fixed-point millions: with amounts
/// scaled by 10^4 and a million raw units per million, that is division by
/// one hundred.
pub open spec fn line_amount(v: u64) -> i64 {
    (v / 100) as i64
}

/// The three line items extracted from the first `n` balance-sheet lines;
/// a later matching line overrides an earlier one, and a line item that
/// never occurs stays absent.
pub open spec fn scan_balance(entries: Seq<BalanceSheetEntry>, n: int) -> (
    Option<i64>,
    Option<i64>,
    Option<i64>,
)
    decreases n,
{
    if n <= 0 {
        (None, None, None)
    } else {
        let prev = scan_balance(entries, n - 1);
        let e = entries[n - 1];
        (
            if matches_current_assets(e) {
                Some(line_amount(e.value->0))
            } else {
                prev.0
            },
            if matches_current_liabilities(e) {
                Some(line_amount(e.value->0))
            } else {
                prev.1
            },
            if matches_current_long_term_debt(e) {
                Some(line_amount(e.value->0))
            } else {
                prev.2
            },
        )
    }
}

/// Fundamental ratios and balance-sheet line items for one symbol. All
/// figures are annual, fixed-point amounts; a field the data source did not
/// report is `None`, never zero. Debt-to-total-equity is a plain ratio here.
#[derive(Clone, Copy, Debug, PartialEq, Eq, Structural)]
pub struct CompanyFinancials {
    pub pb_ratio: Option<i64>,
    pub ps_ratio: Option<i64>,
    pub pe_ratio: Option<i64>,
    pub dividend_per_share: Option<i64>,
    pub dividend_per_share_5_yr_avg: Option<i64>,
    pub dividend_growth_5_yr_avg: Option<i64>,
    pub earnings_per_share: Option<i64>,
    pub earnings_growth: Option<i64>,
    pub earnings_growth_5_yr_avg: Option<i64>,
    pub book_value_per_share: Option<i64>,
    pub tangible_book_value_per_share: Option<i64>,
    pub total_debt_to_total_equity: Option<i64>,
    pub long_term_debt_to_equity: Option<i64>,
    pub current_ratio: Option<i64>,
    pub quick_ratio: Option<i64>,
    pub return_on_avg_equity: Option<i64>,
    pub return_on_avg_equity_5_yr: Option<i64>,
    pub return_on_avg_assets_5_yr: Option<i64>,
    pub return_on_investments: Option<i64>,
    pub return_on_investments_5_yr: Option<i64>,
    pub net_profit_margin: Option<i64>,
    pub net_profit_margin_5_yr_avg: Option<i64>,
    pub net_profit_margin_growth_5_yr_avg: Option<i64>,
    pub total_current_assets: Option<i64>,
    pub total_current_liabilities: Option<i64>,
    pub total_current_long_term_debt: Option<i64>,
}

/// The financials a metric report and a balance sheet stand for: the metrics
/// carried over (debt-to-total-equity converted from a percentage to a
/// ratio), the three line items taken from the balance-sheet scan.
pub open spec fn financials_of_report(m: MetricReport, bs: Seq<BalanceSheetEntry>) -> CompanyFinancials {
    let scanned = scan_balance(bs, bs.len() as int);
    CompanyFinancials {
        pb_ratio: m.pb_ratio,
        ps_ratio: m.ps_ratio,
        pe_ratio: m.pe_ratio,
        dividend_per_share: m.dividend_per_share,
        dividend_per_share_5_yr_avg: m.dividend_per_share_5_yr_avg,
        dividend_growth_5_yr_avg: m.dividend_growth_5_yr_avg,
        earnings_per_share: m.earnings_per_share,
        earnings_growth: m.earnings_growth,
        earnings_growth_5_yr_avg: m.earnings_growth_5_yr_avg,
        book_value_per_share: m.book_value_per_share,
        tangible_book_value_per_share: m.tangible_book_value_per_share,
        total_debt_to_total_equity: match m.total_debt_to_total_equity {
            None => None,
            Some(x) => Some(percent_to_ratio_spec(x as int) as i64),
        },
        long_term_debt_to_equity: m.long_term_debt_to_equity,
        current_ratio: m.current_ratio,
        quick_ratio: m.quick_ratio,
        return_on_avg_equity: m.return_on_avg_equity,
        return_on_avg_equity_5_yr: m.return_on_avg_equity_5_yr,
        return_on_avg_assets_5_yr: m.return_on_avg_assets_5_yr,
        return_on_investments: m.return_on_investments,
        return_on_investments_5_yr: m.return_on_investments_5_yr,
        net_profit_margin: m.net_profit_margin,
        net_profit_margin_5_yr_avg: m.net_profit_margin_5_yr_avg,
        net_profit_margin_growth_5_yr_avg: m.net_profit_margin_growth_5_yr_avg,
        total_current_assets: scanned.0,
        total_current_liabilities: scanned.1,
        total_current_long_term_debt: scanned.2,
    }
}

impl CompanyFinancials {
    /// Every present figure is an in-range amount.
    pub open spec fn wf(self) -> bool {
        &&& opt_amount_in_range(self.pb_ratio)
        &&& opt_amount_in_range(self.ps_ratio)
        &&& opt_amount_in_range(self.pe_ratio)
        &&& opt_amount_in_range(self.dividend_per_share)
        &&& opt_amount_in_range(self.dividend_per_share_5_yr_avg)
        &&& opt_amount_in_range(self.dividend_growth_5_yr_avg)
        &&& opt_amount_in_range(self.earnings_per_share)
        &&& opt_amount_in_range(self.earnings_growth)
        &&& opt_amount_in_range(self.earnings_growth_5_yr_avg)
        &&& opt_amount_in_range(self.book_value_per_share)
        &&& opt_amount_in_range(self.tangible_book_value_per_share)
        &&& opt_amount_in_range(self.total_debt_to_total_equity)
        &&& opt_amount_in_range(self.long_term_debt_to_equity)
        &&& opt_amount_in_range(self.current_ratio)
        &&& opt_amount_in_range(self.quick_ratio)
        &&& opt_amount_in_range(self.return_on_avg_equity)
        &&& opt_amount_in_range(self.return_on_avg_equity_5_yr)
        &&& opt_amount_in_range(self.return_on_avg_assets_5_yr)
        &&& opt_amount_in_range(self.return_on_investments)
        &&& opt_amount_in_range(self.return_on_investments_5_yr)
        &&& opt_amount_in_range(self.net_profit_margin)
        &&& opt_amount_in_range(self.net_profit_margin_5_yr_avg)
        &&& opt_amount_in_range(self.net_profit_margin_growth_5_yr_avg)
        &&& opt_amount_in_range(self.total_current_assets)
        &&& opt_amount_in_range(self.total_current_liabilities)
        &&& opt_amount_in_range(self.total_current_long_term_debt)
    }

    /// Builds the financials for one symbol from the decoded metric report
    /// and the decoded balance sheet. A missing balance sheet, or a line with
    /// the wrong shape, fails with `UpstreamShape`; a line item that never
    /// occurs leaves its field absent rather than zero, so the rules that
    /// need it report missing data instead of evaluating against zero.
    pub fn from_report(metrics: &MetricReport, balance_sheet: &Option<Vec<BalanceSheetEntry>>) -> (r:
        Result<CompanyFinancials, FetchError>)
        requires
            metrics.wf(),
        ensures
            r is Err <==> (balance_sheet is None || exists|k: int|
                0 <= k < balance_sheet->0@.len() && !balance_entry_wf(balance_sheet->0@[k])),
            r matches Err(e) ==> e == FetchError::UpstreamShape,
            r matches Ok(f) ==> f == financials_of_report(*metrics, balance_sheet->0@) && f.wf(),
    {
        let bs: &Vec<BalanceSheetEntry> = match balance_sheet {
            None => {
                return Err(FetchError::UpstreamShape);
            },
            Some(b) => b,
        };
        let assets_label: String = "Total current assets".to_owned();
        let liabilities_label: String = "Total current liabilities".to_owned();
        let term_debt_label: String = "Term debt".to_owned();
        let term_debt_concept: String = "us-gaap_LongTermDebtCurrent".to_owned();
        let mut total_current_assets: Option<i64> = None;
        let mut total_current_liabilities: Option<i64> = None;
        let mut total_current_long_term_debt: Option<i64> = None;
        let mut i: usize = 0;
        while i < bs.len()
            invariant
                0 <= i <= bs@.len(),
                *balance_sheet == Some(*bs),
                assets_label@ == "Total current assets"@,
                liabilities_label@ == "Total current liabilities"@,
                term_debt_label@ == "Term debt"@,
                term_debt_concept@ == "us-gaap_LongTermDebtCurrent"@,
                forall|k: int| 0 <= k < i ==> balance_entry_wf(bs@[k]),
                (total_current_assets, total_current_liabilities, total_current_long_term_debt)
                    == scan_balance(bs@, i as int),
                opt_amount_in_range(total_current_assets),
                opt_amount_in_range(total_current_liabilities),
                opt_amount_in_range(total_current_long_term_debt),
            decreases bs@.len() - i,
        {
            let e = &bs[i];
            let label = match &e.label {
                None => {
                    proof {
                        assert(!balance_entry_wf(bs@[i as int]));
                    }
                    return Err(FetchError::UpstreamShape);
                },
                Some(l) => l,
            };
            if *label == assets_label {
                match e.value {
                    None => {
                        proof {
                            assert(!balance_entry_wf(bs@[i as int]));
                        }
                        return Err(FetchError::UpstreamShape);
                    },
                    Some(v) => {
                        total_current_assets = Some((v / 100) as i64);
                    },
                }
            }
            if *label == liabilities_label {
                match e.value {
                    None => {
                        proof {
                            assert(!balance_entry_wf(bs@[i as int]));
                        }
                        return Err(FetchError::UpstreamShape);
                    },
                    Some(v) => {
                        total_current_liabilities = Some((v / 100) as i64);
                    },
                }
            }
            let concept = match &e.concept {
                None => {
                    proof {
                        assert(!balance_entry_wf(bs@[i as int]));
                    }
                    return Err(FetchError::UpstreamShape);
                },
                Some(c) => c,
            };
            if *label == term_debt_label && *concept == term_debt_concept {
                match e.value {
                    None => {
                        proof {
                            assert(!balance_entry_wf(bs@[i as int]));
                        }
                        return Err(FetchError::UpstreamShape);
                    },
                    Some(v) => {
                        total_current_long_term_debt = Some((v / 100) as i64);
                    },
                }
            }
            i = i + 1;
        }
        let total_debt_to_total_equity: Option<i64> = match metrics.total_debt_to_total_equity {
            None => None,
            Some(x) => Some(percent_to_ratio(x)),
        };
        Ok(
            CompanyFinancials {
                pb_ratio: metrics.pb_ratio,
                ps_ratio: metrics.ps_ratio,
                pe_ratio: metrics.pe_ratio,
                dividend_per_share: metrics.dividend_per_share,
                dividend_per_share_5_yr_avg: metrics.dividend_per_share_5_yr_avg,
                dividend_growth_5_yr_avg: metrics.dividend_growth_5_yr_avg,
                earnings_per_share: metrics.earnings_per_share,
                earnings_growth: metrics.earnings_growth,
                earnings_growth_5_yr_avg: metrics.earnings_growth_5_yr_avg,
                book_value_per_share: metrics.book_value_per_share,
                tangible_book_value_per_share: metrics.tangible_book_value_per_share,
                total_debt_to_total_equity,
                long_term_debt_to_equity: metrics.long_term_debt_to_equity,
                current_ratio: metrics.current_ratio,
                quick_ratio: metrics.quick_ratio,
                return_on_avg_equity: metrics.return_on_avg_equity,
                return_on_avg_equity_5_yr: metrics.return_on_avg_equity_5_yr,
                return_on_avg_assets_5_yr: metrics.return_on_avg_assets_5_yr,
                return_on_investments: metrics.return_on_investments,
                return_on_investments_5_yr: metrics.return_on_investments_5_yr,
                net_profit_margin: metrics.net_profit_margin,
                net_profit_margin_5_yr_avg: metrics.net_profit_margin_5_yr_avg,
                net_profit_margin_growth_5_yr_avg: metrics.net_profit_margin_growth_5_yr_avg,
                total_current_assets,
                total_current_liabilities,
                total_current_long_term_debt,
            },
        )
    }
}

/// The three per-symbol resources, fetched in this order.
#[derive(Clone, Copy, Debug, PartialEq, Eq, Structural)]
pub enum FetchResource {
    Financials,
    Information,
    Quote,
}

/// Where one symbol's screening pipeline stands. A symbol fetches its three
/// resources, then evaluates, then is done; a fetch failure ends it early.
#[derive(Clone, Copy, Debug, PartialEq, Eq, Structural)]
pub enum FetchPhase {
    Fetching(FetchResource),
    Evaluating,
    Complete,
}

/// How far along the pipeline a phase is. Every transition strictly
/// increases this rank, so no symbol ever re-enters an earlier phase.
pub open spec fn phase_rank(p: FetchPhase) -> int {
    match p {
        FetchPhase::Fetching(FetchResource::Financials) => 0,
        FetchPhase::Fetching(FetchResource::Information) => 1,
        FetchPhase::Fetching(FetchResource::Quote) => 2,
        FetchPhase::Evaluating => 3,
        FetchPhase::Complete => 4,
    }
}

/// The phase that follows a successful fetch.
pub open spec fn phase_after_fetch(r: FetchResource) -> FetchPhase {
    match r {
        FetchResource::Financials => FetchPhase::Fetching(FetchResource::Information),
        FetchResource::Information => FetchPhase::Fetching(FetchResource::Quote),
        FetchResource::Quote => FetchPhase::Evaluating,
    }
}

/// Drives the pipeline for one symbol: which resource to request next, how
/// many requests were issued, and whether a fetch failed. Every request the
/// plan records costs exactly one rate-limiter slot, so a well-formed plan
/// bounds what one symbol can consume. The caller performs the actual
/// network round trips and reports each one back.
pub struct FetchPlan {
    phase: FetchPhase,
    requests_issued: u32,
    failure: Option<FetchError>,
}

impl FetchPlan {
    /// Where the pipeline stands.
    pub closed spec fn phase(self) -> FetchPhase {
        self.phase
    }

    /// Requests issued for this symbol so far.
    pub closed spec fn requests_issued(self) -> nat {
        self.requests_issued as nat
    }

    /// The failure that ended the pipeline early, if any.
    pub closed spec fn failure(self) -> Option<FetchError> {
        self.failure
    }

    /// The request count always matches the phase, a failure only stands
    /// once the plan is complete, and no symbol ever issues more than three
    /// requests.
    pub closed spec fn wf(self) -> bool {
        &&& (self.phase matches FetchPhase::Fetching(r) ==> self.requests_issued == phase_rank(
            self.phase,
        ) && self.failure is None)
        &&& (self.phase is Evaluating ==> self.requests_issued == 3 && self.failure is None)
        &&& self.requests_issued <= 3
    }

    /// A fresh plan: nothing fetched, nothing failed.
    pub fn new() -> (r: Self)
        ensures
            r.wf(),
            r.phase() == FetchPhase::Fetching(FetchResource::Financials),
            r.requests_issued() == 0,
            r.failure() is None,
    {
        FetchPlan {
            phase: FetchPhase::Fetching(FetchResource::Financials),
            requests_issued: 0,
            failure: None,
        }
    }

    /// The resource to request next, if the plan is still fetching.
    pub fn next_resource(&self) -> (r: Option<FetchResource>)
        ensures
            r == (match self.phase() {
                FetchPhase::Fetching(res) => Some(res),
                _ => None::<FetchResource>,
            }),
    {
        match self.phase {
            FetchPhase::Fetching(res) => Some(res),
            _ => None,
        }
    }

    /// Records that the pending resource was fetched: one more request was
    /// issued, and the pipeline moves strictly forward.
    pub fn record_success(&mut self)
        requires
            old(self).wf(),
            old(self).phase() matches FetchPhase::Fetching(_),
        ensures
            final(self).wf(),
            final(self).requests_issued() == old(self).requests_issued() + 1,
            final(self).failure() is None,
            old(self).phase() matches FetchPhase::Fetching(res) ==> final(self).phase()
                == phase_after_fetch(res),
            phase_rank(final(self).phase()) > phase_rank(old(self).phase()),
    {
        match self.phase {
            FetchPhase::Fetching(res) => {
                self.requests_issued = self.requests_issued + 1;
                self.phase = match res {
                    FetchResource::Financials => FetchPhase::Fetching(FetchResource::Information),
                    FetchResource::Information => FetchPhase::Fetching(FetchResource::Quote),
                    FetchResource::Quote => FetchPhase::Evaluating,
                };
            },
            _ => {},
        }
    }

    /// Records that the pending request failed: the request still counted
    /// against the budget, and the pipeline ends here. No retry: a failed
    /// symbol never fetches again, and never holds up another symbol.
    pub fn record_failure(&mut self, err: FetchError)
        requires
            old(self).wf(),
            old(self).phase() matches FetchPhase::Fetching(_),
        ensures
            final(self).wf(),
            final(self).requests_issued() == old(self).requests_issued() + 1,
            final(self).phase() == FetchPhase::Complete,
            final(self).failure() == Some(err),
            phase_rank(final(self).phase()) > phase_rank(old(self).phase()),
    {
        self.requests_issued = self.requests_issued + 1;
        self.phase = FetchPhase::Complete;
        self.failure = Some(err);
    }

    /// Records that the fetched data was evaluated: the pipeline is done and
    /// issued exactly one request per resource.
    pub fn record_evaluated(&mut self)
        requires
            old(self).wf(),
            old(self).phase() is Evaluating,
        ensures
            final(self).wf(),
            final(self).phase() == FetchPhase::Complete,
            final(self).requests_issued() == 3,
            final(self).failure() is None,
            phase_rank(final(self).phase()) > phase_rank(old(self).phase()),
    {
        self.phase = FetchPhase::Complete;
    }

    /// Whether the three resources are fetched and evaluation is pending.
    pub fn ready_to_evaluate(&self) -> (r: bool)
        ensures
            r <==> self.phase() is Evaluating,
    {
        match self.phase {
            FetchPhase::Evaluating => true,
            _ => false,
        }
    }

    /// The failure that ended the pipeline early, if any.
    pub fn failure_of(&self) -> (r: Option<FetchError>)
        ensures
            r == self.failure(),
    {
        self.failure
    }
}

/// One symbol never issues more than three requests: at most one per
/// resource, however its pipeline ends.
pub proof fn law_requests_per_symbol_bounded(p: FetchPlan)
    requires
        p.wf(),
    ensures
        p.requests_issued() <= 3,
{
}

} // verus!
