//! Routing a model-issued tool call to its handler: defensive argument
//! parsing, per-tool clamping and defaults, immediate replies for unknown
//! tools and rejected inputs, and the conversion of handler failures into
//! inline text.  The handlers themselves are external data collaborators;
//! the dispatcher only decides.

use vstd::prelude::*;

use crate::json::{Json, json_of, parse_json, spec_get};
use crate::summarize::spec_text_or;
use crate::text::{spec_match_at, str_eq};

verus! {

/// A routed, clamped tool invocation for a data collaborator.
pub enum ToolQuery {
    StockQuote { code: String },
    KlineData { code: String, period: String, count: u64 },
    TechnicalIndicators { code: String, period: String },
    FundFlow { code: String },
    MarketNews { count: u32 },
    EconomicData { indicator: String },
    GlobalIndexes,
    FinancialCalendar,
    SearchStocks { keyword: String, page_size: u32 },
    SearchBoards { keyword: String, page_size: u32 },
    BatchQuotes { codes: Vec<String> },
    StockNews { keyword: String },
    StockNotices { code: String },
    IndustryReport { code: Option<String> },
}

/// What the dispatcher decides for one call: invoke a collaborator, or
/// answer immediately with the given result text.
pub enum ToolAction {
    Invoke(ToolQuery),
    Reply(String),
}

/// The argument document: parsed argument text, or an empty object when
/// the text is not JSON.
pub open spec fn spec_args_of(arguments: Seq<char>) -> Json {
    match json_of(arguments) {
        Some(d) => d,
        None => Json::Null,
    }
}

/// An unsigned argument with a default, clamped to a maximum.
pub open spec fn spec_clamped_u64(args: Json, key: Seq<char>, default: u64, max: u64) -> u64 {
    let v = match crate::json::spec_get_u64(args, key) {
        Some(n) => n,
        None => default,
    };
    if v > max {
        max
    } else {
        v
    }
}

fn get_clamped_u64(args: &Json, key: &str, default: u64, max: u64) -> (r: u64)
    ensures
        r == spec_clamped_u64(*args, key@, default, max),
{
    let v = match args.get_u64(key) {
        Some(n) => n,
        None => default,
    };
    if v > max {
        max
    } else {
        v
    }
}

fn get_string_or(args: &Json, key: &str, default: &str) -> (r: String)
    ensures
        r@ == spec_text_or(*args, key@, default@),
{
    let mut out = String::new();
    match args.get_text(key) {
        Some(s) => {
            let piece = s.clone();
            out.append(piece.as_str());
        },
        None => {
            out.append(default);
        },
    }
    out
}

/// The string elements of a sequence of values, in order.
pub open spec fn spec_text_elems(items: Seq<Json>) -> Seq<Seq<char>>
    decreases items.len(),
{
    if items.len() == 0 {
        Seq::empty()
    } else {
        match items.last() {
            Json::Text(s) => spec_text_elems(items.drop_last()).push(s@),
            _ => spec_text_elems(items.drop_last()),
        }
    }
}

proof fn lemma_text_elems_push(items: Seq<Json>, x: Json)
    ensures
        spec_text_elems(items.push(x)) == match x {
            Json::Text(s) => spec_text_elems(items).push(s@),
            _ => spec_text_elems(items),
        },
{
    assert(items.push(x).drop_last() =~= items);
    assert(items.push(x).last() == x);
}

/// The code-array argument: its string elements, first `max` of them.
pub open spec fn spec_codes_of(args: Json, max: int) -> Seq<Seq<char>> {
    match spec_get(args, "codes"@) {
        Some(Json::Arr(items)) => {
            let all = spec_text_elems(items@);
            all.take(vstd::math::min(max, all.len() as int))
        },
        _ => Seq::empty(),
    }
}

/// The views of a vector of strings.
pub open spec fn spec_views_of(v: Seq<String>) -> Seq<Seq<char>>
    decreases v.len(),
{
    if v.len() == 0 {
        Seq::empty()
    } else {
        spec_views_of(v.drop_last()).push(v.last()@)
    }
}

proof fn lemma_views_push(v: Seq<String>, x: String)
    ensures
        spec_views_of(v.push(x)) == spec_views_of(v).push(x@),
{
    assert(v.push(x).drop_last() =~= v);
    assert(v.push(x).last() == x);
}

/// The views of a list are as many as its strings.
proof fn lemma_views_len(v: Seq<String>)
    ensures
        spec_views_of(v).len() == v.len(),
    decreases v.len(),
{
    if v.len() > 0 {
        lemma_views_len(v.drop_last());
    }
}

/// A prefix of the views is the views of the prefix.
proof fn lemma_views_take(v: Seq<String>, k: int)
    requires
        0 <= k <= v.len(),
    ensures
        spec_views_of(v).take(k) == spec_views_of(v.take(k)),
    decreases v.len(),
{
    lemma_views_len(v);
    if v.len() > 0 {
        if k == v.len() {
            assert(v.take(k) =~= v);
            assert(spec_views_of(v).take(k) =~= spec_views_of(v));
        } else {
            lemma_views_take(v.drop_last(), k);
            lemma_views_len(v.drop_last());
            assert(v.drop_last().take(k) =~= v.take(k));
            assert(spec_views_of(v).take(k) =~= spec_views_of(v.drop_last()).take(k));
        }
    } else {
        assert(v.take(0) =~= v);
        assert(spec_views_of(v).take(0) =~= spec_views_of(v));
    }
}

fn collect_codes(args: &Json, max: usize) -> (r: Vec<String>)
    ensures
        spec_views_of(r@) == spec_codes_of(*args, max as int),
{
    let mut out: Vec<String> = Vec::new();
    match args.get("codes") {
        Some(v) => match v {
            Json::Arr(items) => {
                let n = items.len();
                let mut i: usize = 0;
                proof {
                    assert(items@.take(0) =~= Seq::<Json>::empty());
                    assert(spec_views_of(out@) =~= spec_text_elems(items@.take(0)));
                }
                while i < n
                    invariant
                        i <= n,
                        n == items@.len(),
                        spec_views_of(out@) == spec_text_elems(items@.take(i as int)),
                    decreases n - i,
                {
                    let ghost pre = out@;
                    match items[i].as_text() {
                        Some(s) => {
                            out.push(s.clone());
                            proof {
                                assert(out@.drop_last() =~= pre);
                                assert(spec_views_of(out@) == spec_views_of(pre).push(
                                    out@.last()@,
                                ));
                            }
                        },
                        None => {},
                    }
                    proof {
                        assert(items@.take(i + 1) =~= items@.take(i as int).push(
                            items@[i as int],
                        ));
                        lemma_text_elems_push(items@.take(i as int), items@[i as int]);
                    }
                    i += 1;
                }
                proof {
                    assert(items@.take(n as int) =~= items@);
                    lemma_views_len(out@);
                }
                let ghost all = spec_text_elems(items@);
                let ghost full = out@;
                if out.len() > max {
                    out.truncate(max);
                    proof {
                        assert(out@ =~= full.take(max as int));
                        lemma_views_take(full, max as int);
                        assert(spec_views_of(out@) == all.take(max as int));
                        assert(vstd::math::min(max as int, all.len() as int) == max as int);
                    }
                } else {
                    proof {
                        assert(all.take(vstd::math::min(max as int, all.len() as int)) =~= all);
                    }
                }
                out
            },
            _ => out,
        },
        None => out,
    }
}

/// The exact reply for a tool name outside the catalog.
pub open spec fn spec_unknown_reply(name: Seq<char>) -> Seq<char> {
    "未知工具: "@ + name
}

/// The unknown-tool reply carries the unknown-tool marker.
pub proof fn lemma_unknown_reply_has_marker(name: Seq<char>)
    ensures
        spec_match_at(spec_unknown_reply(name), "未知工具"@, 0),
{
    reveal_strlit("未知工具: ");
    reveal_strlit("未知工具");
    assert(spec_unknown_reply(name).subrange(0, 4) =~= "未知工具"@);
}

fn unknown_reply(name: &str) -> (r: String)
    ensures
        r@ == spec_unknown_reply(name@),
{
    let mut out = String::new();
    out.append("未知工具: ");
    out.append(name);
    out
}

/// Routes one diagnosis-catalog call: parses the argument text
/// defensively (malformed text acts as an empty document), applies the
/// per-tool defaults and clamps, and answers unknown names directly.
pub fn plan_tool(name: &str, arguments: &str) -> (r: ToolAction)
    ensures
        spec_plan_tool(name@, arguments@, r),
{
    let args = match parse_json(arguments) {
        Some(d) => d,
        None => Json::Null,
    };
    if str_eq(name, "get_stock_quote") {
        ToolAction::Invoke(ToolQuery::StockQuote { code: get_string_or(&args, "code", "") })
    } else if str_eq(name, "get_kline_data") {
        ToolAction::Invoke(
            ToolQuery::KlineData {
                code: get_string_or(&args, "code", ""),
                period: get_string_or(&args, "period", "day"),
                count: get_clamped_u64(&args, "count", 60, 120),
            },
        )
    } else if str_eq(name, "get_technical_indicators") {
        ToolAction::Invoke(
            ToolQuery::TechnicalIndicators {
                code: get_string_or(&args, "code", ""),
                period: get_string_or(&args, "period", "day"),
            },
        )
    } else if str_eq(name, "get_fund_flow") {
        ToolAction::Invoke(ToolQuery::FundFlow { code: get_string_or(&args, "code", "") })
    } else {
        ToolAction::Reply(unknown_reply(name))
    }
}

/// Whether a name is one of the diagnosis tools.
pub open spec fn spec_is_diagnose_route(name: Seq<char>) -> bool {
    ||| name == "get_stock_quote"@
    ||| name == "get_kline_data"@
    ||| name == "get_technical_indicators"@
    ||| name == "get_fund_flow"@
}

/// Routes one picking-catalog call.  The picking dispatcher also accepts
/// the diagnosis tool names; any other name is answered directly with the
/// unknown-tool reply.  The screener routes reject an empty keyword, and
/// an empty screener credential, with an inline error document instead of
/// a call.
#[verifier::rlimit(100)]
pub fn plan_pick_tool(name: &str, arguments: &str, qgqp_b_id: &str) -> (r: ToolAction)
    ensures
        spec_plan_pick_tool(name@, arguments@, qgqp_b_id@, r),
{
    let args = match parse_json(arguments) {
        Some(d) => d,
        None => Json::Null,
    };
    if str_eq(name, "get_market_news") {
        ToolAction::Invoke(
            ToolQuery::MarketNews { count: get_clamped_u64(&args, "count", 30, 60) as u32 },
        )
    } else if str_eq(name, "get_economic_data") {
        ToolAction::Invoke(
            ToolQuery::EconomicData { indicator: get_string_or(&args, "indicator", "all") },
        )
    } else if str_eq(name, "get_global_indexes") {
        ToolAction::Invoke(ToolQuery::GlobalIndexes)
    } else if str_eq(name, "get_financial_calendar") {
        ToolAction::Invoke(ToolQuery::FinancialCalendar)
    } else if str_eq(name, "search_stocks_by_condition") {
        let keyword = get_string_or(&args, "keyword", "");
        if keyword.as_str().unicode_len() == 0 {
            ToolAction::Reply(String::from_str("{\"error\":\"请提供选股条件关键词\"}"))
        } else if qgqp_b_id.unicode_len() == 0 {
            ToolAction::Reply(
                String::from_str(
                    "{\"error\":\"未配置东财用户标识(qgqp_b_id)，请在设置中配置后重试\",\"keyword\":\"\"}",
                ),
            )
        } else {
            ToolAction::Invoke(
                ToolQuery::SearchStocks {
                    keyword,
                    page_size: get_clamped_u64(&args, "page_size", 20, 50) as u32,
                },
            )
        }
    } else if str_eq(name, "search_concept_boards") {
        let keyword = get_string_or(&args, "keyword", "");
        if keyword.as_str().unicode_len() == 0 {
            ToolAction::Reply(String::from_str("{\"error\":\"请提供板块查询条件\"}"))
        } else if qgqp_b_id.unicode_len() == 0 {
            ToolAction::Reply(
                String::from_str(
                    "{\"error\":\"未配置东财用户标识(qgqp_b_id)，请在设置中配置后重试\",\"keyword\":\"\"}",
                ),
            )
        } else {
            ToolAction::Invoke(
                ToolQuery::SearchBoards {
                    keyword,
                    page_size: get_clamped_u64(&args, "page_size", 20, 50) as u32,
                },
            )
        }
    } else if str_eq(name, "batch_get_stock_quotes") {
        let codes = collect_codes(&args, 20);
        if codes.len() == 0 {
            proof {
                lemma_views_len(codes@);
            }
            ToolAction::Reply(String::from_str("{\"error\":\"未提供股票代码\"}"))
        } else {
            proof {
                lemma_views_len(codes@);
            }
            ToolAction::Invoke(ToolQuery::BatchQuotes { codes })
        }
    } else if str_eq(name, "search_stock_news") {
        let keyword = get_string_or(&args, "keyword", "");
        if keyword.as_str().unicode_len() == 0 {
            ToolAction::Reply(String::from_str("{\"error\":\"请提供搜索关键词\"}"))
        } else {
            ToolAction::Invoke(ToolQuery::StockNews { keyword })
        }
    } else if str_eq(name, "get_stock_notices") {
        let code = get_string_or(&args, "code", "");
        if code.as_str().unicode_len() == 0 {
            ToolAction::Reply(String::from_str("{\"error\":\"请提供股票代码\"}"))
        } else {
            ToolAction::Invoke(ToolQuery::StockNotices { code })
        }
    } else if str_eq(name, "get_industry_report") {
        let code = match args.get_text("code") {
            Some(s) => Some(s.clone()),
            None => None,
        };
        ToolAction::Invoke(ToolQuery::IndustryReport { code })
    } else if str_eq(name, "get_stock_quote") || str_eq(name, "get_kline_data") || str_eq(
        name,
        "get_technical_indicators",
    ) || str_eq(name, "get_fund_flow") {
        plan_tool(name, arguments)
    } else {
        ToolAction::Reply(unknown_reply(name))
    }
}

/// The routed query a diagnosis name maps to, for the given arguments.
pub open spec fn plan_tool_routes(name: Seq<char>, arguments: Seq<char>, q: ToolQuery) -> bool {
    let args = spec_args_of(arguments);
    if name == "get_stock_quote"@ {
        q matches ToolQuery::StockQuote { code } && code@ == spec_text_or(args, "code"@, ""@)
    } else if name == "get_kline_data"@ {
        q matches ToolQuery::KlineData { code, period, count } && code@ == spec_text_or(
            args,
            "code"@,
            ""@,
        ) && period@ == spec_text_or(args, "period"@, "day"@) && count == spec_clamped_u64(
            args,
            "count"@,
            60,
            120,
        )
    } else if name == "get_technical_indicators"@ {
        q matches ToolQuery::TechnicalIndicators { code, period } && code@ == spec_text_or(
            args,
            "code"@,
            ""@,
        ) && period@ == spec_text_or(args, "period"@, "day"@)
    } else if name == "get_fund_flow"@ {
        q matches ToolQuery::FundFlow { code } && code@ == spec_text_or(args, "code"@, ""@)
    } else {
        false
    }
}


/// What `plan_tool` decides, branch for branch.
pub open spec fn spec_plan_tool(name: Seq<char>, arguments: Seq<char>, r: ToolAction) -> bool {
    if spec_is_diagnose_route(name) {
        r matches ToolAction::Invoke(q) && plan_tool_routes(name, arguments, q)
    } else {
        r matches ToolAction::Reply(t) && t@ == spec_unknown_reply(name)
    }
}

/// What `plan_pick_tool` decides, branch for branch.
pub open spec fn spec_plan_pick_tool(
    name: Seq<char>,
    arguments: Seq<char>,
    qgqp_b_id: Seq<char>,
    r: ToolAction,
) -> bool {
    let args = spec_args_of(arguments);
    if name == "get_market_news"@ {
        r matches ToolAction::Invoke(ToolQuery::MarketNews { count }) && count as u64
            == spec_clamped_u64(args, "count"@, 30, 60)
    } else if name == "get_economic_data"@ {
        r matches ToolAction::Invoke(ToolQuery::EconomicData { indicator }) && indicator@
            == spec_text_or(args, "indicator"@, "all"@)
    } else if name == "get_global_indexes"@ {
        r matches ToolAction::Invoke(ToolQuery::GlobalIndexes)
    } else if name == "get_financial_calendar"@ {
        r matches ToolAction::Invoke(ToolQuery::FinancialCalendar)
    } else if name == "search_stocks_by_condition"@ {
        let kw = spec_text_or(args, "keyword"@, ""@);
        if kw.len() == 0 {
            r matches ToolAction::Reply(t) && t@ == "{\"error\":\"请提供选股条件关键词\"}"@
        } else if qgqp_b_id.len() == 0 {
            r matches ToolAction::Reply(t) && t@
                == "{\"error\":\"未配置东财用户标识(qgqp_b_id)，请在设置中配置后重试\",\"keyword\":\"\"}"@
        } else {
            r matches ToolAction::Invoke(ToolQuery::SearchStocks { keyword, page_size })
                && keyword@ == kw && page_size as u64 == spec_clamped_u64(
                args,
                "page_size"@,
                20,
                50,
            )
        }
    } else if name == "search_concept_boards"@ {
        let kw = spec_text_or(args, "keyword"@, ""@);
        if kw.len() == 0 {
            r matches ToolAction::Reply(t) && t@ == "{\"error\":\"请提供板块查询条件\"}"@
        } else if qgqp_b_id.len() == 0 {
            r matches ToolAction::Reply(t) && t@
                == "{\"error\":\"未配置东财用户标识(qgqp_b_id)，请在设置中配置后重试\",\"keyword\":\"\"}"@
        } else {
            r matches ToolAction::Invoke(ToolQuery::SearchBoards { keyword, page_size })
                && keyword@ == kw && page_size as u64 == spec_clamped_u64(
                args,
                "page_size"@,
                20,
                50,
            )
        }
    } else if name == "batch_get_stock_quotes"@ {
        let codes = spec_codes_of(args, 20);
        if codes.len() == 0 {
            r matches ToolAction::Reply(t) && t@ == "{\"error\":\"未提供股票代码\"}"@
        } else {
            r matches ToolAction::Invoke(ToolQuery::BatchQuotes { codes: cs }) && spec_views_of(
                cs@,
            ) == codes
        }
    } else if name == "search_stock_news"@ {
        let kw = spec_text_or(args, "keyword"@, ""@);
        if kw.len() == 0 {
            r matches ToolAction::Reply(t) && t@ == "{\"error\":\"请提供搜索关键词\"}"@
        } else {
            r matches ToolAction::Invoke(ToolQuery::StockNews { keyword }) && keyword@ == kw
        }
    } else if name == "get_stock_notices"@ {
        let c = spec_text_or(args, "code"@, ""@);
        if c.len() == 0 {
            r matches ToolAction::Reply(t) && t@ == "{\"error\":\"请提供股票代码\"}"@
        } else {
            r matches ToolAction::Invoke(ToolQuery::StockNotices { code }) && code@ == c
        }
    } else if name == "get_industry_report"@ {
        r matches ToolAction::Invoke(ToolQuery::IndustryReport { code }) && (match spec_get(
            args,
            "code"@,
        ) {
            Some(Json::Text(s)) => code matches Some(c) && c@ == s@,
            _ => code is None,
        })
    } else if spec_is_diagnose_route(name) {
        r matches ToolAction::Invoke(q) && plan_tool_routes(name, arguments, q)
    } else {
        r matches ToolAction::Reply(t) && t@ == spec_unknown_reply(name)
    }
}

/// Converts a handler outcome into the dispatch result: success passes
/// through, a failure becomes inline text the model can read.
pub fn dispatch_outcome(outcome: Result<String, String>) -> (r: String)
    ensures
        match outcome {
            Ok(s) => r@ == s@,
            Err(e) => r@ == "工具调用失败: "@ + e@,
        },
{
    match outcome {
        Ok(s) => s,
        Err(e) => {
            let mut out = String::new();
            out.append("工具调用失败: ");
            out.append(e.as_str());
            out
        },
    }
}

} // verus!
