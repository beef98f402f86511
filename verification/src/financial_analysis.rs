//! The screening engine: thresholds, the per-rule checks, the per-symbol
//! verdict, and the aggregation and partitioning of outcomes.
//!
//! Every rule is a pure threshold comparison on fixed-point amounts. A rule
//! whose source field was not reported returns `Indeterminate`, never `Pass`
//! or `Fail`. The aggregate verdict gates on exactly four rules
//! (price/earnings, price/book, debt/equity, working capital); the dividend
//! and earnings-growth rules are evaluated and reported but deliberately do
//! not move the aggregate.

use vstd::prelude::*;

use crate::amounts::{amount_in_range, SCALE};
use crate::stock_data_fetching::{
    CompanyFinancials, CompanyInformation, CompanyQuote, DataFetchConfig, FetchError, StockInfo,
};

verus! {

/// Screening thresholds. Paired fields are inclusive `[minimum, maximum]`
/// ranges; all values are fixed-point amounts (see the `amounts` module).
pub struct AnalysisConfig {
    pub pe_limits: [i64; 2],
    pub pb_limits: [i64; 2],
    pub earnings_growth_5y_min: i64,
    pub dividend_per_share_min: i64,
    pub dividend_growth_5y_min: i64,
    pub current_ratio_min: i64,
    pub debt_equity_max: i64,
    pub market_cap_min: i64,
    pub nor_aaa_10y_bond_yield: i64,
    pub us_aaa_10y_bond_yield: i64,
}

impl AnalysisConfig {
    /// Every threshold is an in-range amount.
    pub open spec fn wf(self) -> bool {
        &&& amount_in_range(self.pe_limits[0] as int)
        &&& amount_in_range(self.pe_limits[1] as int)
        &&& amount_in_range(self.pb_limits[0] as int)
        &&& amount_in_range(self.pb_limits[1] as int)
        &&& amount_in_range(self.earnings_growth_5y_min as int)
        &&& amount_in_range(self.dividend_per_share_min as int)
        &&& amount_in_range(self.dividend_growth_5y_min as int)
        &&& amount_in_range(self.current_ratio_min as int)
        &&& amount_in_range(self.debt_equity_max as int)
        &&& amount_in_range(self.market_cap_min as int)
        &&& amount_in_range(self.nor_aaa_10y_bond_yield as int)
        &&& amount_in_range(self.us_aaa_10y_bond_yield as int)
    }
}

/// The outcome of one screening rule. `Indeterminate` means a financial field
/// the rule needs was not reported by the data source: distinct from `Fail`.
#[derive(Clone, Copy, Debug, PartialEq, Eq, Structural)]
pub enum RuleOutcome {
    Pass,
    Fail,
    Indeterminate,
}

/// The price/earnings rule: within the inclusive configured range.
pub open spec fn pe_rule(pe: Option<i64>, lo: int, hi: int) -> RuleOutcome {
    match pe {
        None => RuleOutcome::Indeterminate,
        Some(x) => if lo <= x && x <= hi {
            RuleOutcome::Pass
        } else {
            RuleOutcome::Fail
        },
    }
}

/// Checks the price/earnings ratio against the configured inclusive range;
/// a missing ratio is indeterminate.
pub fn check_pe(financials: &CompanyFinancials, analysis_config: &AnalysisConfig) -> (r:
    RuleOutcome)
    ensures
        r == pe_rule(
            financials.pe_ratio,
            analysis_config.pe_limits[0] as int,
            analysis_config.pe_limits[1] as int,
        ),
{
    match financials.pe_ratio {
        None => RuleOutcome::Indeterminate,
        Some(x) => {
            if analysis_config.pe_limits[0] <= x && x <= analysis_config.pe_limits[1] {
                RuleOutcome::Pass
            } else {
                RuleOutcome::Fail
            }
        },
    }
}

/// The dividend rule: per-share and five-year-average per-share dividends at
/// least the configured minimum, and five-year dividend growth at least its
/// configured minimum.
pub open spec fn dividends_rule(
    dividend_per_share: Option<i64>,
    dividend_per_share_5_yr_avg: Option<i64>,
    dividend_growth_5_yr_avg: Option<i64>,
    per_share_min: int,
    growth_min: int,
) -> RuleOutcome {
    match (dividend_per_share, dividend_per_share_5_yr_avg, dividend_growth_5_yr_avg) {
        (Some(dps), Some(dps5), Some(growth5)) => if dps >= per_share_min && dps5 >= per_share_min
            && growth5 >= growth_min {
            RuleOutcome::Pass
        } else {
            RuleOutcome::Fail
        },
        _ => RuleOutcome::Indeterminate,
    }
}

/// Checks the dividend history; any missing dividend figure is indeterminate.
pub fn check_dividends(financials: &CompanyFinancials, analysis_config: &AnalysisConfig) -> (r:
    RuleOutcome)
    ensures
        r == dividends_rule(
            financials.dividend_per_share,
            financials.dividend_per_share_5_yr_avg,
            financials.dividend_growth_5_yr_avg,
            analysis_config.dividend_per_share_min as int,
            analysis_config.dividend_growth_5y_min as int,
        ),
{
    match (
        financials.dividend_per_share,
        financials.dividend_per_share_5_yr_avg,
        financials.dividend_growth_5_yr_avg,
    ) {
        (Some(dps), Some(dps5), Some(growth5)) => {
            if dps >= analysis_config.dividend_per_share_min && dps5
                >= analysis_config.dividend_per_share_min && growth5
                >= analysis_config.dividend_growth_5y_min {
                RuleOutcome::Pass
            } else {
                RuleOutcome::Fail
            }
        },
        _ => RuleOutcome::Indeterminate,
    }
}

/// The earnings-growth rule: current growth non-negative and five-year
/// average growth at least the configured minimum.
pub open spec fn earnings_growth_rule(
    earnings_growth: Option<i64>,
    earnings_growth_5_yr_avg: Option<i64>,
    growth_5y_min: int,
) -> RuleOutcome {
    match (earnings_growth, earnings_growth_5_yr_avg) {
        (Some(growth), Some(growth5)) => if growth >= 0 && growth5 >= growth_5y_min {
            RuleOutcome::Pass
        } else {
            RuleOutcome::Fail
        },
        _ => RuleOutcome::Indeterminate,
    }
}

/// Checks earnings growth; a missing growth figure is indeterminate.
pub fn check_earnings_growth(
    financials: &CompanyFinancials,
    analysis_config: &AnalysisConfig,
) -> (r: RuleOutcome)
    ensures
        r == earnings_growth_rule(
            financials.earnings_growth,
            financials.earnings_growth_5_yr_avg,
            analysis_config.earnings_growth_5y_min as int,
        ),
{
    match (financials.earnings_growth, financials.earnings_growth_5_yr_avg) {
        (Some(growth), Some(growth5)) => {
            if growth >= 0 && growth5 >= analysis_config.earnings_growth_5y_min {
                RuleOutcome::Pass
            } else {
                RuleOutcome::Fail
            }
        },
        _ => RuleOutcome::Indeterminate,
    }
}

/// The price/book upper bound in effect for an industry: technology
/// companies get five times the configured bound. The reported limits stay
/// the unmodified configured values; only the comparison uses this bound.
pub open spec fn effective_pb_upper(hi: int, industry: Seq<char>) -> int {
    if industry == "Technology"@ {
        5 * hi
    } else {
        hi
    }
}

/// The price/book rule: within the inclusive configured range, with the
/// upper bound adjusted for the industry.
pub open spec fn pb_rule(pb: Option<i64>, lo: int, hi: int, industry: Seq<char>) -> RuleOutcome {
    match pb {
        None => RuleOutcome::Indeterminate,
        Some(x) => if lo <= x && x <= effective_pb_upper(hi, industry) {
            RuleOutcome::Pass
        } else {
            RuleOutcome::Fail
        },
    }
}

/// Checks the price/book ratio against the configured inclusive range; for
/// the technology industry the upper bound is five times the configured one.
/// A missing ratio is indeterminate.
pub fn check_pb(
    financials: &CompanyFinancials,
    industry: &String,
    analysis_config: &AnalysisConfig,
) -> (r: RuleOutcome)
    requires
        analysis_config.wf(),
    ensures
        r == pb_rule(
            financials.pb_ratio,
            analysis_config.pb_limits[0] as int,
            analysis_config.pb_limits[1] as int,
            industry@,
        ),
{
    match financials.pb_ratio {
        None => RuleOutcome::Indeterminate,
        Some(x) => {
            let technology: String = "Technology".to_owned();
            let hi = analysis_config.pb_limits[1];
            let upper: i64 = if *industry == technology {
                5 * hi
            } else {
                hi
            };
            if analysis_config.pb_limits[0] <= x && x <= upper {
                RuleOutcome::Pass
            } else {
                RuleOutcome::Fail
            }
        },
    }
}

/// The debt/equity rule: at most the configured maximum.
pub open spec fn debt_equity_rule(debt_equity: Option<i64>, max: int) -> RuleOutcome {
    match debt_equity {
        None => RuleOutcome::Indeterminate,
        Some(x) => if x <= max {
            RuleOutcome::Pass
        } else {
            RuleOutcome::Fail
        },
    }
}

/// Checks the debt/equity ratio; a missing ratio is indeterminate.
pub fn check_debt_equity(financials: &CompanyFinancials, analysis_config: &AnalysisConfig) -> (r:
    RuleOutcome)
    ensures
        r == debt_equity_rule(
            financials.total_debt_to_total_equity,
            analysis_config.debt_equity_max as int,
        ),
{
    match financials.total_debt_to_total_equity {
        None => RuleOutcome::Indeterminate,
        Some(x) => {
            if x <= analysis_config.debt_equity_max {
                RuleOutcome::Pass
            } else {
                RuleOutcome::Fail
            }
        },
    }
}

/// The working-capital pass condition, stated without division: with a
/// positive share count, per-share working capital `(assets - liabilities) /
/// shares` is non-negative and at least two thirds of the current price
/// exactly when `assets >= liabilities` and `3 * SCALE * (assets -
/// liabilities) >= 2 * price * shares` (the factor `SCALE` restores the
/// price's fixed-point scale, which cancels in the other quotient).
pub open spec fn working_capital_passes(
    assets: int,
    liabilities: int,
    shares: int,
    price: int,
) -> bool {
    &&& shares >= 1
    &&& assets - liabilities >= 0
    &&& 3 * SCALE * (assets - liabilities) >= 2 * price * shares
}

/// The working-capital rule. The long-term-debt line item is extracted and
/// required to be present, but the pass condition reads assets and
/// liabilities only.
pub open spec fn working_capital_rule(
    assets: Option<i64>,
    liabilities: Option<i64>,
    current_long_term_debt: Option<i64>,
    shares: int,
    price: int,
) -> RuleOutcome {
    match (assets, liabilities, current_long_term_debt) {
        (Some(a), Some(l), Some(_d)) => if working_capital_passes(a as int, l as int, shares, price) {
            RuleOutcome::Pass
        } else {
            RuleOutcome::Fail
        },
        _ => RuleOutcome::Indeterminate,
    }
}

/// Checks per-share working capital against two thirds of the current price;
/// any missing balance-sheet line item is indeterminate.
pub fn check_working_capital(
    financials: &CompanyFinancials,
    information: &CompanyInformation,
    quote: &CompanyQuote,
) -> (r: RuleOutcome)
    requires
        financials.wf(),
        information.wf(),
        quote.wf(),
    ensures
        r == working_capital_rule(
            financials.total_current_assets,
            financials.total_current_liabilities,
            financials.total_current_long_term_debt,
            information.shares_outstanding as int,
            quote.c as int,
        ),
{
    match (
        financials.total_current_assets,
        financials.total_current_liabilities,
        financials.total_current_long_term_debt,
    ) {
        (Some(assets), Some(liabilities), Some(_debt)) => {
            let shares = information.shares_outstanding;
            let price = quote.c;
            proof {
                crate::amounts::lemma_amount_product_bounded(price as int, shares as int);
                assert((2 * (price as int)) * (shares as int) == 2 * ((price as int) * (
                shares as int))) by (nonlinear_arith);
            }
            let working_capital: i128 = assets as i128 - liabilities as i128;
            let lhs: i128 = 3 * (SCALE as i128) * working_capital;
            let rhs: i128 = 2 * ((price as i128) * (shares as i128));
            if shares >= 1 && working_capital >= 0 && lhs >= rhs {
                RuleOutcome::Pass
            } else {
                RuleOutcome::Fail
            }
        },
        _ => RuleOutcome::Indeterminate,
    }
}

/// The market-capitalization gate: at least the configured minimum. The
/// profile always carries a market cap, so this rule is never indeterminate.
pub open spec fn market_cap_passes(market_cap: int, market_cap_min: int) -> bool {
    market_cap >= market_cap_min
}

/// Checks the market capitalization against the configured minimum.
pub fn check_market_cap(
    information: &CompanyInformation,
    analysis_config: &AnalysisConfig,
) -> (r: bool)
    ensures
        r == market_cap_passes(
            information.market_cap as int,
            analysis_config.market_cap_min as int,
        ),
{
    information.market_cap >= analysis_config.market_cap_min
}

/// The current-ratio rule: at least the configured minimum.
pub open spec fn current_ratio_rule(current_ratio: Option<i64>, min: int) -> RuleOutcome {
    match current_ratio {
        None => RuleOutcome::Indeterminate,
        Some(x) => if x >= min {
            RuleOutcome::Pass
        } else {
            RuleOutcome::Fail
        },
    }
}

/// Checks the current ratio; a missing ratio is indeterminate. Reported for
/// diagnostics; not part of the per-symbol verdict.
pub fn check_current_ratio(financials: &CompanyFinancials, analysis_config: &AnalysisConfig) -> (r:
    RuleOutcome)
    ensures
        r == current_ratio_rule(financials.current_ratio, analysis_config.current_ratio_min as int),
{
    match financials.current_ratio {
        None => RuleOutcome::Indeterminate,
        Some(x) => {
            if x >= analysis_config.current_ratio_min {
                RuleOutcome::Pass
            } else {
                RuleOutcome::Fail
            }
        },
    }
}

/// The aggregate decision: the conjunction of exactly the price/earnings,
/// price/book, debt/equity and working-capital outcomes. An indeterminate
/// outcome does not pass, and no other rule takes part.
pub open spec fn aggregate_of(
    pe: RuleOutcome,
    pb: RuleOutcome,
    debt_equity: RuleOutcome,
    working_capital: RuleOutcome,
) -> bool {
    &&& pe is Pass
    &&& pb is Pass
    &&& debt_equity is Pass
    &&& working_capital is Pass
}

/// The outcome of evaluating one symbol. `TooSmall` is the upfront
/// market-capitalization gate: evaluation stopped before any other rule ran,
/// so no per-rule outcome exists for such a symbol.
#[derive(Clone, Copy, Debug, PartialEq, Eq, Structural)]
pub enum ScreeningVerdict {
    TooSmall,
    Evaluated {
        pe: RuleOutcome,
        dividends: RuleOutcome,
        earnings_growth: RuleOutcome,
        pb: RuleOutcome,
        debt_equity: RuleOutcome,
        working_capital: RuleOutcome,
        aggregate: bool,
    },
}

/// The verdict for one symbol's fetched data under a configuration.
pub open spec fn verdict_spec(
    financials: CompanyFinancials,
    information: CompanyInformation,
    quote: CompanyQuote,
    cfg: AnalysisConfig,
) -> ScreeningVerdict {
    if !market_cap_passes(information.market_cap as int, cfg.market_cap_min as int) {
        ScreeningVerdict::TooSmall
    } else {
        let pe = pe_rule(financials.pe_ratio, cfg.pe_limits[0] as int, cfg.pe_limits[1] as int);
        let pb = pb_rule(
            financials.pb_ratio,
            cfg.pb_limits[0] as int,
            cfg.pb_limits[1] as int,
            information.industry@,
        );
        let debt_equity = debt_equity_rule(
            financials.total_debt_to_total_equity,
            cfg.debt_equity_max as int,
        );
        let working_capital = working_capital_rule(
            financials.total_current_assets,
            financials.total_current_liabilities,
            financials.total_current_long_term_debt,
            information.shares_outstanding as int,
            quote.c as int,
        );
        ScreeningVerdict::Evaluated {
            pe,
            dividends: dividends_rule(
                financials.dividend_per_share,
                financials.dividend_per_share_5_yr_avg,
                financials.dividend_growth_5_yr_avg,
                cfg.dividend_per_share_min as int,
                cfg.dividend_growth_5y_min as int,
            ),
            earnings_growth: earnings_growth_rule(
                financials.earnings_growth,
                financials.earnings_growth_5_yr_avg,
                cfg.earnings_growth_5y_min as int,
            ),
            pb,
            debt_equity,
            working_capital,
            aggregate: aggregate_of(pe, pb, debt_equity, working_capital),
        }
    }
}

/// Whether a verdict qualifies the symbol.
pub open spec fn verdict_qualifies(v: ScreeningVerdict) -> bool {
    v matches ScreeningVerdict::Evaluated { aggregate, .. } && aggregate
}

/// Drives evaluation for every symbol of a run: the two configurations,
/// loaded once at startup and immutable for the run. The rate limiter is the
/// run's only synchronized state and is shared separately, so independent
/// symbols never serialize on the analyzer.
pub struct StockAnalyzer {
    pub data_fetch_config: DataFetchConfig,
    pub analysis_config: AnalysisConfig,
}

impl StockAnalyzer {
    /// Packs the two configurations for a run.
    pub fn new(data_fetch_config: DataFetchConfig, analysis_config: AnalysisConfig) -> (r: Self)
        ensures
            r.data_fetch_config == data_fetch_config,
            r.analysis_config == analysis_config,
    {
        StockAnalyzer { data_fetch_config, analysis_config }
    }

    /// Evaluates one symbol's fetched data. The market-capitalization gate
    /// runs first: a symbol below the configured minimum is reported as too
    /// small, and no other rule's outcome is produced for it. Otherwise every
    /// rule is evaluated, and the aggregate is the conjunction of exactly the
    /// price/earnings, price/book, debt/equity and working-capital outcomes.
    pub fn check_stock(
        &self,
        financials: &CompanyFinancials,
        information: &CompanyInformation,
        quote: &CompanyQuote,
    ) -> (v: ScreeningVerdict)
        requires
            self.analysis_config.wf(),
            financials.wf(),
            information.wf(),
            quote.wf(),
        ensures
            v == verdict_spec(*financials, *information, *quote, self.analysis_config),
            v is TooSmall <==> information.market_cap < self.analysis_config.market_cap_min,
            v matches ScreeningVerdict::Evaluated {
                pe,
                pb,
                debt_equity,
                working_capital,
                aggregate,
                ..
            } ==> aggregate == (pe is Pass && pb is Pass && debt_equity is Pass
                && working_capital is Pass),
    {
        if !check_market_cap(information, &self.analysis_config) {
            return ScreeningVerdict::TooSmall;
        }
        let pe = check_pe(financials, &self.analysis_config);
        let dividends = check_dividends(financials, &self.analysis_config);
        let earnings_growth = check_earnings_growth(financials, &self.analysis_config);
        let pb = check_pb(financials, &information.industry, &self.analysis_config);
        let debt_equity = check_debt_equity(financials, &self.analysis_config);
        let working_capital = check_working_capital(financials, information, quote);
        let aggregate = matches!(pe, RuleOutcome::Pass) && matches!(pb, RuleOutcome::Pass)
            && matches!(debt_equity, RuleOutcome::Pass) && matches!(
            working_capital,
            RuleOutcome::Pass,
        );
        ScreeningVerdict::Evaluated {
            pe,
            dividends,
            earnings_growth,
            pb,
            debt_equity,
            working_capital,
            aggregate,
        }
    }

    /// Turns the result of one symbol's fetch into that symbol's outcome:
    /// a fetch failure becomes an error outcome for this symbol alone, and
    /// fetched data is evaluated. Every symbol gets exactly one outcome.
    pub fn screen_fetched(
        &self,
        fetched: Result<(CompanyFinancials, CompanyInformation, CompanyQuote), FetchError>,
    ) -> (out: SymbolOutcome)
        requires
            self.analysis_config.wf(),
            fetched matches Ok(d) ==> d.0.wf() && d.1.wf() && d.2.wf(),
        ensures
            fetched matches Err(e) ==> out == SymbolOutcome::Error(e),
            fetched matches Ok(d) ==> out == outcome_of_verdict(
                verdict_spec(d.0, d.1, d.2, self.analysis_config),
            ),
    {
        match fetched {
            Err(e) => SymbolOutcome::Error(e),
            Ok((financials, information, quote)) => {
                let verdict = self.check_stock(&financials, &information, &quote);
                match verdict {
                    ScreeningVerdict::Evaluated { aggregate: true, .. } => SymbolOutcome::Qualified,
                    _ => SymbolOutcome::Disqualified(verdict),
                }
            },
        }
    }
}

/// The final word on one symbol. A symbol that errors or is disqualified
/// keeps its reason for diagnostics; the three outcomes are disjoint.
#[derive(Clone, Copy, Debug, PartialEq, Eq, Structural)]
pub enum SymbolOutcome {
    Qualified,
    Disqualified(ScreeningVerdict),
    Error(FetchError),
}

/// The outcome a verdict stands for: qualified exactly when the aggregate
/// passed, otherwise disqualified with the verdict kept as the reason.
pub open spec fn outcome_of_verdict(v: ScreeningVerdict) -> SymbolOutcome {
    if verdict_qualifies(v) {
        SymbolOutcome::Qualified
    } else {
        SymbolOutcome::Disqualified(v)
    }
}

/// The entries of a result list on one side of the partition: those whose
/// symbol qualified (`qualified` true), or the rest (`qualified` false),
/// keeping their order.
pub open spec fn outcome_part(
    results: Seq<(StockInfo, SymbolOutcome)>,
    qualified: bool,
) -> Seq<(StockInfo, SymbolOutcome)>
    decreases results.len(),
{
    if results.len() == 0 {
        Seq::empty()
    } else {
        let rest = outcome_part(results.drop_last(), qualified);
        if (results.last().1 is Qualified) == qualified {
            rest.push(results.last())
        } else {
            rest
        }
    }
}

/// Splits collected per-symbol results into the qualifying entries and the
/// rest (disqualified and errored symbols both land there, with their
/// reasons). Every entry lands on exactly one side, in its original order.
pub fn partition_outcomes(results: Vec<(StockInfo, SymbolOutcome)>) -> (parts: (
    Vec<(StockInfo, SymbolOutcome)>,
    Vec<(StockInfo, SymbolOutcome)>,
))
    ensures
        parts.0@ == outcome_part(results@, true),
        parts.1@ == outcome_part(results@, false),
        parts.0@.len() + parts.1@.len() == results@.len(),
{
    let ghost all: Seq<(StockInfo, SymbolOutcome)> = results@;
    let mut remaining = results;
    let mut qualifying: Vec<(StockInfo, SymbolOutcome)> = Vec::new();
    let mut rejected: Vec<(StockInfo, SymbolOutcome)> = Vec::new();
    let ghost mut taken: int = 0;
    while remaining.len() > 0
        invariant
            0 <= taken <= all.len(),
            remaining@ =~= all.skip(taken),
            qualifying@ == outcome_part(all.take(taken), true),
            rejected@ == outcome_part(all.take(taken), false),
            qualifying@.len() + rejected@.len() == taken,
        decreases remaining@.len(),
    {
        let entry = remaining.remove(0);
        proof {
            assert(entry == all[taken]);
            assert(remaining@ =~= all.skip(taken + 1));
            assert(all.take(taken + 1).drop_last() =~= all.take(taken));
            assert(all.take(taken + 1).last() == all[taken]);
        }
        match entry.1 {
            SymbolOutcome::Qualified => {
                qualifying.push(entry);
            },
            _ => {
                rejected.push(entry);
            },
        }
        proof {
            taken = taken + 1;
        }
    }
    proof {
        assert(all.take(taken) =~= all);
    }
    (qualifying, rejected)
}

/// Every collected entry lands on exactly one side of the partition: no
/// symbol's outcome is lost, whatever it was.
pub proof fn lemma_outcome_parts_cover(results: Seq<(StockInfo, SymbolOutcome)>)
    ensures
        outcome_part(results, true).len() + outcome_part(results, false).len() == results.len(),
    decreases results.len(),
{
    if results.len() > 0 {
        lemma_outcome_parts_cover(results.drop_last());
    }
}

/// Splitting off one side of the partition distributes over concatenation.
pub proof fn lemma_outcome_part_add(
    a: Seq<(StockInfo, SymbolOutcome)>,
    b: Seq<(StockInfo, SymbolOutcome)>,
    qualified: bool,
)
    ensures
        outcome_part(a + b, qualified) == outcome_part(a, qualified) + outcome_part(b, qualified),
    decreases b.len(),
{
    if b.len() == 0 {
        assert(a + b =~= a);
        assert(outcome_part(b, qualified) == Seq::<(StockInfo, SymbolOutcome)>::empty());
        assert(outcome_part(a, qualified) + outcome_part(b, qualified) =~= outcome_part(
            a,
            qualified,
        ));
    } else {
        lemma_outcome_part_add(a, b.drop_last(), qualified);
        assert((a + b).drop_last() =~= a + b.drop_last());
        assert((a + b).last() == b.last());
        if (b.last().1 is Qualified) == qualified {
            assert(outcome_part(a, qualified) + outcome_part(b.drop_last(), qualified).push(
                b.last(),
            ) =~= (outcome_part(a, qualified) + outcome_part(b.drop_last(), qualified)).push(
                b.last(),
            ));
        }
    }
}

/// Batch isolation: in two runs over the same symbols whose results agree
/// everywhere but at position `j`, where the second run's fetch failed, the
/// second run's qualifying entries are exactly the other entries' qualifying
/// results, unchanged from the first run. One symbol's failure neither
/// removes nor alters any other symbol's outcome.
pub proof fn law_batch_isolation(
    rs1: Seq<(StockInfo, SymbolOutcome)>,
    rs2: Seq<(StockInfo, SymbolOutcome)>,
    j: int,
)
    requires
        rs1.len() == rs2.len(),
        0 <= j < rs1.len(),
        forall|i: int| 0 <= i < rs1.len() && i != j ==> rs1[i] == rs2[i],
        rs2[j].1 is Error,
    ensures
        outcome_part(rs2, true) == outcome_part(rs1.take(j), true) + outcome_part(
            rs1.skip(j + 1),
            true,
        ),
{
    let front = rs2.take(j);
    let middle = seq![rs2[j]];
    let back = rs2.skip(j + 1);
    assert(rs2 =~= (front + middle) + back);
    lemma_outcome_part_add(front + middle, back, true);
    lemma_outcome_part_add(front, middle, true);
    assert(middle.drop_last() =~= Seq::<(StockInfo, SymbolOutcome)>::empty());
    assert(outcome_part(Seq::<(StockInfo, SymbolOutcome)>::empty(), true) == Seq::<
        (StockInfo, SymbolOutcome),
    >::empty());
    assert(outcome_part(middle, true) =~= Seq::<(StockInfo, SymbolOutcome)>::empty());
    assert(outcome_part(front, true) + outcome_part(middle, true) =~= outcome_part(front, true));
    assert(front =~= rs1.take(j));
    assert(back =~= rs1.skip(j + 1));
}

/// The aggregate verdict reads exactly the price/earnings, price/book,
/// debt/equity and working-capital outcomes: two financial records that
/// agree on the fields those four rules use qualify identically, however
/// their dividend and earnings-growth figures differ.
pub proof fn law_aggregate_ignores_advisory_rules(
    f1: CompanyFinancials,
    f2: CompanyFinancials,
    information: CompanyInformation,
    quote: CompanyQuote,
    cfg: AnalysisConfig,
)
    requires
        f1.pe_ratio == f2.pe_ratio,
        f1.pb_ratio == f2.pb_ratio,
        f1.total_debt_to_total_equity == f2.total_debt_to_total_equity,
        f1.total_current_assets == f2.total_current_assets,
        f1.total_current_liabilities == f2.total_current_liabilities,
        f1.total_current_long_term_debt == f2.total_current_long_term_debt,
    ensures
        verdict_qualifies(verdict_spec(f1, information, quote, cfg)) == verdict_qualifies(
            verdict_spec(f2, information, quote, cfg),
        ),
        outcome_of_verdict(verdict_spec(f1, information, quote, cfg)) is Qualified
            <==> outcome_of_verdict(verdict_spec(f2, information, quote, cfg)) is Qualified,
{
}

} // verus!
