//! Compact, per-tool summaries of raw tool results, for progress display.
//! Malformed result text falls back to a null document, so every field
//! access yields its default instead of failing.

use vstd::prelude::*;


use crate::json::{Json, json_of, parse_json, spec_get, spec_get_text, spec_get_u64};
use vstd::string::StringSliceAdditionalSpecFns;
use crate::text::{append_u64, spec_u64_dec, str_eq};

verus! {

/// The parsed result document, or null when the text is not JSON.
pub open spec fn spec_doc_of(result: Seq<char>) -> Json {
    match json_of(result) {
        Some(d) => d,
        None => Json::Null,
    }
}

/// A string field, or a default.
pub open spec fn spec_text_or(j: Json, key: Seq<char>, default: Seq<char>) -> Seq<char> {
    match spec_get_text(j, key) {
        Some(s) => s,
        None => default,
    }
}

/// An unsigned-number field, or zero.
pub open spec fn spec_u64_or0(j: Json, key: Seq<char>) -> u64 {
    match spec_get_u64(j, key) {
        Some(n) => n,
        None => 0,
    }
}

/// The elements of an array field, or nothing.
pub open spec fn spec_arr_of(j: Json, key: Seq<char>) -> Seq<Json> {
    match spec_get(j, key) {
        Some(Json::Arr(items)) => items@,
        _ => Seq::empty(),
    }
}

fn append_text_or(out: &mut String, j: &Json, key: &str, default: &str)
    ensures
        final(out)@ == old(out)@ + spec_text_or(*j, key@, default@),
{
    match j.get_text(key) {
        Some(s) => {
            let piece = s.clone();
            out.append(piece.as_str());
        },
        None => {
            out.append(default);
        },
    }
}

fn get_u64_or0(j: &Json, key: &str) -> (r: u64)
    ensures
        r == spec_u64_or0(*j, key@),
{
    match j.get_u64(key) {
        Some(n) => n,
        None => 0,
    }
}

// ---------------------------------------------------------------------------
// list renderings
// ---------------------------------------------------------------------------
/// Lines of the form `\n{i}. {name}({code})`, `i` counting from one.
pub open spec fn spec_name_code_lines(items: Seq<Json>) -> Seq<char>
    decreases items.len(),
{
    if items.len() == 0 {
        Seq::empty()
    } else {
        spec_name_code_lines(items.drop_last()) + "\n"@ + spec_u64_dec(items.len() as int) + ". "@
            + spec_text_or(items.last(), "name"@, ""@) + "("@ + spec_text_or(
            items.last(),
            "code"@,
            ""@,
        ) + ")"@
    }
}

proof fn lemma_name_code_push(items: Seq<Json>, x: Json)
    ensures
        spec_name_code_lines(items.push(x)) == spec_name_code_lines(items) + "\n"@ + spec_u64_dec(
            items.len() as int + 1,
        ) + ". "@ + spec_text_or(x, "name"@, ""@) + "("@ + spec_text_or(x, "code"@, ""@) + ")"@,
{
    assert(items.push(x).drop_last() =~= items);
    assert(items.push(x).last() == x);
}

fn append_name_code_lines(out: &mut String, items: &Vec<Json>, cap: usize)
    ensures
        final(out)@ == old(out)@ + spec_name_code_lines(
            items@.take(vstd::math::min(cap as int, items@.len() as int)),
        ),
{
    let n = items.len();
    let m = if n < cap {
        n
    } else {
        cap
    };
    let mut i: usize = 0;
    proof {
        assert(items@.take(0) =~= Seq::<Json>::empty());
        assert(out@ =~= old(out)@ + spec_name_code_lines(items@.take(0)));
    }
    while i < m
        invariant
            i <= m,
            m == vstd::math::min(cap as int, items@.len() as int),
            m <= items@.len(),
            out@ == old(out)@ + spec_name_code_lines(items@.take(i as int)),
        decreases m - i,
    {
        out.append("\n");
        append_u64(out, (i + 1) as u64);
        out.append(". ");
        append_text_or(out, &items[i], "name", "");
        out.append("(");
        append_text_or(out, &items[i], "code", "");
        out.append(")");
        proof {
            assert(items@.take(i + 1) =~= items@.take(i as int).push(items@[i as int]));
            lemma_name_code_push(items@.take(i as int), items@[i as int]);
            assert(out@ =~= old(out)@ + spec_name_code_lines(items@.take(i + 1)));
        }
        i += 1;
    }
}

/// Lines of the form `\n{i}. {title}`, `i` counting from one.
pub open spec fn spec_title_lines(items: Seq<Json>) -> Seq<char>
    decreases items.len(),
{
    if items.len() == 0 {
        Seq::empty()
    } else {
        spec_title_lines(items.drop_last()) + "\n"@ + spec_u64_dec(items.len() as int) + ". "@
            + spec_text_or(items.last(), "title"@, ""@)
    }
}

proof fn lemma_title_push(items: Seq<Json>, x: Json)
    ensures
        spec_title_lines(items.push(x)) == spec_title_lines(items) + "\n"@ + spec_u64_dec(
            items.len() as int + 1,
        ) + ". "@ + spec_text_or(x, "title"@, ""@),
{
    assert(items.push(x).drop_last() =~= items);
    assert(items.push(x).last() == x);
}

fn append_title_lines(out: &mut String, items: &Vec<Json>, cap: usize)
    ensures
        final(out)@ == old(out)@ + spec_title_lines(
            items@.take(vstd::math::min(cap as int, items@.len() as int)),
        ),
{
    let n = items.len();
    let m = if n < cap {
        n
    } else {
        cap
    };
    let mut i: usize = 0;
    proof {
        assert(items@.take(0) =~= Seq::<Json>::empty());
        assert(out@ =~= old(out)@ + spec_title_lines(items@.take(0)));
    }
    while i < m
        invariant
            i <= m,
            m == vstd::math::min(cap as int, items@.len() as int),
            m <= items@.len(),
            out@ == old(out)@ + spec_title_lines(items@.take(i as int)),
        decreases m - i,
    {
        out.append("\n");
        append_u64(out, (i + 1) as u64);
        out.append(". ");
        append_text_or(out, &items[i], "title", "");
        proof {
            assert(items@.take(i + 1) =~= items@.take(i as int).push(items@[i as int]));
            lemma_title_push(items@.take(i as int), items@[i as int]);
            assert(out@ =~= old(out)@ + spec_title_lines(items@.take(i + 1)));
        }
        i += 1;
    }
}

/// Lines of the form `\n{i}. [{src}] {title}`, with the bracketed field
/// named by `src_key`.
pub open spec fn spec_src_title_lines(items: Seq<Json>, src_key: Seq<char>) -> Seq<char>
    decreases items.len(),
{
    if items.len() == 0 {
        Seq::empty()
    } else {
        spec_src_title_lines(items.drop_last(), src_key) + "\n"@ + spec_u64_dec(items.len() as int)
            + ". ["@ + spec_text_or(items.last(), src_key, ""@) + "] "@ + spec_text_or(
            items.last(),
            "title"@,
            ""@,
        )
    }
}

proof fn lemma_src_title_push(items: Seq<Json>, src_key: Seq<char>, x: Json)
    ensures
        spec_src_title_lines(items.push(x), src_key) == spec_src_title_lines(items, src_key)
            + "\n"@ + spec_u64_dec(items.len() as int + 1) + ". ["@ + spec_text_or(x, src_key, ""@)
            + "] "@ + spec_text_or(x, "title"@, ""@),
{
    assert(items.push(x).drop_last() =~= items);
    assert(items.push(x).last() == x);
}

#[verifier::rlimit(100)]
fn append_src_title_lines(out: &mut String, items: &Vec<Json>, src_key: &str, cap: usize)
    ensures
        final(out)@ == old(out)@ + spec_src_title_lines(
            items@.take(vstd::math::min(cap as int, items@.len() as int)),
            src_key@,
        ),
{
    let n = items.len();
    let m = if n < cap {
        n
    } else {
        cap
    };
    let mut i: usize = 0;
    proof {
        assert(items@.take(0) =~= Seq::<Json>::empty());
        assert(out@ =~= old(out)@ + spec_src_title_lines(items@.take(0), src_key@));
    }
    while i < m
        invariant
            i <= m,
            m == vstd::math::min(cap as int, items@.len() as int),
            m <= items@.len(),
            out@ == old(out)@ + spec_src_title_lines(items@.take(i as int), src_key@),
        decreases m - i,
    {
        out.append("\n");
        append_u64(out, (i + 1) as u64);
        out.append(". [");
        append_text_or(out, &items[i], src_key, "");
        out.append("] ");
        append_text_or(out, &items[i], "title", "");
        proof {
            assert(items@.take(i + 1) =~= items@.take(i as int).push(items@[i as int]));
            lemma_src_title_push(items@.take(i as int), src_key@, items@[i as int]);
            assert(out@ =~= old(out)@ + spec_src_title_lines(items@.take(i + 1), src_key@));
        }
        i += 1;
    }
}

/// Lines of the form `\n· {name} {change_pct}` for global indexes.
pub open spec fn spec_index_lines(items: Seq<Json>) -> Seq<char>
    decreases items.len(),
{
    if items.len() == 0 {
        Seq::empty()
    } else {
        spec_index_lines(items.drop_last()) + "\n· "@ + spec_text_or(items.last(), "name"@, ""@)
            + " "@ + spec_text_or(items.last(), "change_pct"@, "0%"@)
    }
}

proof fn lemma_index_push(items: Seq<Json>, x: Json)
    ensures
        spec_index_lines(items.push(x)) == spec_index_lines(items) + "\n· "@ + spec_text_or(
            x,
            "name"@,
            ""@,
        ) + " "@ + spec_text_or(x, "change_pct"@, "0%"@),
{
    assert(items.push(x).drop_last() =~= items);
    assert(items.push(x).last() == x);
}

fn append_index_lines(out: &mut String, items: &Vec<Json>, cap: usize)
    ensures
        final(out)@ == old(out)@ + spec_index_lines(
            items@.take(vstd::math::min(cap as int, items@.len() as int)),
        ),
{
    let n = items.len();
    let m = if n < cap {
        n
    } else {
        cap
    };
    let mut i: usize = 0;
    proof {
        assert(items@.take(0) =~= Seq::<Json>::empty());
        assert(out@ =~= old(out)@ + spec_index_lines(items@.take(0)));
    }
    while i < m
        invariant
            i <= m,
            m == vstd::math::min(cap as int, items@.len() as int),
            m <= items@.len(),
            out@ == old(out)@ + spec_index_lines(items@.take(i as int)),
        decreases m - i,
    {
        out.append("\n· ");
        append_text_or(out, &items[i], "name", "");
        out.append(" ");
        append_text_or(out, &items[i], "change_pct", "0%");
        proof {
            assert(items@.take(i + 1) =~= items@.take(i as int).push(items@[i as int]));
            lemma_index_push(items@.take(i as int), items@[i as int]);
            assert(out@ =~= old(out)@ + spec_index_lines(items@.take(i + 1)));
        }
        i += 1;
    }
}

/// One batch-quote line: `\n· {name}({code}) {pct} PE:{pe} ROE:{roe} 市值:{cap}`.
pub open spec fn spec_quote_line(x: Json) -> Seq<char> {
    "\n· "@ + spec_text_or(x, "name"@, ""@) + "("@ + spec_text_or(x, "code"@, ""@) + ") "@
        + spec_text_or(x, "change_pct"@, "0%"@) + " PE:"@ + spec_text_or(x, "pe_ttm"@, "N/A"@)
        + " ROE:"@ + spec_text_or(x, "roe"@, "N/A"@) + " 市值:"@ + spec_text_or(
        x,
        "total_market_cap"@,
        ""@,
    )
}

/// The batch-quote lines, one per stock.
pub open spec fn spec_quote_lines(items: Seq<Json>) -> Seq<char>
    decreases items.len(),
{
    if items.len() == 0 {
        Seq::empty()
    } else {
        spec_quote_lines(items.drop_last()) + spec_quote_line(items.last())
    }
}

proof fn lemma_quote_push(items: Seq<Json>, x: Json)
    ensures
        spec_quote_lines(items.push(x)) == spec_quote_lines(items) + spec_quote_line(x),
{
    assert(items.push(x).drop_last() =~= items);
    assert(items.push(x).last() == x);
}

#[verifier::rlimit(60)]
fn append_quote_line(out: &mut String, j: &Json)
    ensures
        final(out)@ == old(out)@ + spec_quote_line(*j),
{
    out.append("\n· ");
    append_text_or(out, j, "name", "");
    out.append("(");
    append_text_or(out, j, "code", "");
    out.append(") ");
    append_text_or(out, j, "change_pct", "0%");
    out.append(" PE:");
    append_text_or(out, j, "pe_ttm", "N/A");
    out.append(" ROE:");
    append_text_or(out, j, "roe", "N/A");
    out.append(" 市值:");
    append_text_or(out, j, "total_market_cap", "");
    proof {
        assert(final(out)@ =~= old(out)@ + spec_quote_line(*j));
    }
}

#[verifier::rlimit(100)]
fn append_quote_lines(out: &mut String, items: &Vec<Json>, cap: usize)
    ensures
        final(out)@ == old(out)@ + spec_quote_lines(
            items@.take(vstd::math::min(cap as int, items@.len() as int)),
        ),
{
    let n = items.len();
    let m = if n < cap {
        n
    } else {
        cap
    };
    let mut i: usize = 0;
    proof {
        assert(items@.take(0) =~= Seq::<Json>::empty());
        assert(out@ =~= old(out)@ + spec_quote_lines(items@.take(0)));
    }
    while i < m
        invariant
            i <= m,
            m == vstd::math::min(cap as int, items@.len() as int),
            m <= items@.len(),
            out@ == old(out)@ + spec_quote_lines(items@.take(i as int)),
        decreases m - i,
    {
        append_quote_line(out, &items[i]);
        proof {
            assert(items@.take(i + 1) =~= items@.take(i as int).push(items@[i as int]));
            lemma_quote_push(items@.take(i as int), items@[i as int]);
            assert(out@ =~= old(out)@ + spec_quote_lines(items@.take(i + 1)));
        }
        i += 1;
    }
}

// ---------------------------------------------------------------------------
// per-tool summaries
// ---------------------------------------------------------------------------
/// The text of a number field, in its literal digits, or a default.
pub open spec fn spec_num_text_or(j: Json, key: Seq<char>, default: Seq<char>) -> Seq<char> {
    match spec_get(j, key) {
        Some(Json::Num(n)) => n.text@,
        _ => default,
    }
}

fn append_num_text_or(out: &mut String, j: &Json, key: &str, default: &str)
    ensures
        final(out)@ == old(out)@ + spec_num_text_or(*j, key@, default@),
{
    match j.get(key) {
        Some(v) => match v {
            Json::Num(n) => {
                let piece = n.text.clone();
                out.append(piece.as_str());
            },
            _ => {
                out.append(default);
            },
        },
        None => {
            out.append(default);
        },
    }
}

/// The market-news summary: a count line and the first eight headlines.
pub open spec fn spec_sum_market_news(doc: Json) -> Seq<char> {
    let total = spec_u64_or0(doc, "total"@);
    if total == 0 {
        "未获取到新闻数据"@
    } else {
        let news = spec_arr_of(doc, "news"@);
        "获取到 "@ + spec_u64_dec(total as int) + " 条新闻"@ + spec_src_title_lines(
            news.take(vstd::math::min(8, news.len() as int)),
            "source"@,
        ) + (if news.len() > 8 {
            "\n... 等共 "@ + spec_u64_dec(news.len() as int) + " 条"@
        } else {
            Seq::empty()
        })
    }
}

fn sum_market_news(doc: &Json) -> (r: String)
    ensures
        r@ == spec_sum_market_news(*doc),
{
    let total = get_u64_or0(doc, "total");
    if total == 0 {
        return String::from_str("未获取到新闻数据");
    }
    let mut out = String::new();
    out.append("获取到 ");
    append_u64(&mut out, total);
    out.append(" 条新闻");
    match doc.get("news") {
        Some(v) => match v {
            Json::Arr(items) => {
                append_src_title_lines(&mut out, items, "source", 8);
                if items.len() > 8 {
                    out.append("\n... 等共 ");
                    append_u64(&mut out, items.len() as u64);
                    out.append(" 条");
                }
            },
            _ => {},
        },
        None => {},
    }
    proof {
        assert(out@ =~= spec_sum_market_news(*doc));
    }
    out
}

/// The stock-screening summary: keyword and counts, the first ten names,
/// and the error text when the screener reported one.
pub open spec fn spec_sum_search_stocks(doc: Json) -> Seq<char> {
    let stocks = spec_arr_of(doc, "stocks"@);
    "选股条件「"@ + spec_text_or(doc, "keyword"@, ""@) + "」匹配到 "@ + spec_u64_dec(
        spec_u64_or0(doc, "total_count"@) as int,
    ) + " 只股票（返回 "@ + spec_u64_dec(spec_u64_or0(doc, "returned"@) as int) + " 只）"@
        + spec_name_code_lines(stocks.take(vstd::math::min(10, stocks.len() as int))) + (if stocks.len() > 10 {
        "\n... 等共 "@ + spec_u64_dec(stocks.len() as int) + " 只"@
    } else {
        Seq::empty()
    }) + (match spec_get_text(doc, "error"@) {
        Some(e) => "\n错误: "@ + e,
        None => Seq::empty(),
    })
}

#[verifier::rlimit(60)]
fn sum_search_stocks(doc: &Json) -> (r: String)
    ensures
        r@ == spec_sum_search_stocks(*doc),
{
    let mut out = String::new();
    out.append("选股条件「");
    append_text_or(&mut out, doc, "keyword", "");
    out.append("」匹配到 ");
    append_u64(&mut out, get_u64_or0(doc, "total_count"));
    out.append(" 只股票（返回 ");
    append_u64(&mut out, get_u64_or0(doc, "returned"));
    out.append(" 只）");
    match doc.get("stocks") {
        Some(v) => match v {
            Json::Arr(items) => {
                append_name_code_lines(&mut out, items, 10);
                if items.len() > 10 {
                    out.append("\n... 等共 ");
                    append_u64(&mut out, items.len() as u64);
                    out.append(" 只");
                }
            },
            _ => {},
        },
        None => {},
    }
    match doc.get_text("error") {
        Some(e) => {
            let piece = e.clone();
            out.append("\n错误: ");
            out.append(piece.as_str());
        },
        None => {},
    }
    proof {
        assert(out@ =~= spec_sum_search_stocks(*doc));
    }
    out
}

/// The board-search summary, shaped like the stock-screening one.
pub open spec fn spec_sum_search_boards(doc: Json) -> Seq<char> {
    let boards = spec_arr_of(doc, "boards"@);
    "板块查询「"@ + spec_text_or(doc, "keyword"@, ""@) + "」匹配到 "@ + spec_u64_dec(
        spec_u64_or0(doc, "total_count"@) as int,
    ) + " 个板块（返回 "@ + spec_u64_dec(spec_u64_or0(doc, "returned"@) as int) + " 个）"@
        + spec_name_code_lines(boards.take(vstd::math::min(10, boards.len() as int))) + (if boards.len() > 10 {
        "\n... 等共 "@ + spec_u64_dec(boards.len() as int) + " 个"@
    } else {
        Seq::empty()
    }) + (match spec_get_text(doc, "error"@) {
        Some(e) => "\n错误: "@ + e,
        None => Seq::empty(),
    })
}

#[verifier::rlimit(60)]
fn sum_search_boards(doc: &Json) -> (r: String)
    ensures
        r@ == spec_sum_search_boards(*doc),
{
    let mut out = String::new();
    out.append("板块查询「");
    append_text_or(&mut out, doc, "keyword", "");
    out.append("」匹配到 ");
    append_u64(&mut out, get_u64_or0(doc, "total_count"));
    out.append(" 个板块（返回 ");
    append_u64(&mut out, get_u64_or0(doc, "returned"));
    out.append(" 个）");
    match doc.get("boards") {
        Some(v) => match v {
            Json::Arr(items) => {
                append_name_code_lines(&mut out, items, 10);
                if items.len() > 10 {
                    out.append("\n... 等共 ");
                    append_u64(&mut out, items.len() as u64);
                    out.append(" 个");
                }
            },
            _ => {},
        },
        None => {},
    }
    match doc.get_text("error") {
        Some(e) => {
            let piece = e.clone();
            out.append("\n错误: ");
            out.append(piece.as_str());
        },
        None => {},
    }
    proof {
        assert(out@ =~= spec_sum_search_boards(*doc));
    }
    out
}

/// One macro-economy line: the label and the latest period of the series,
/// when the series is present and nonempty.
pub open spec fn spec_econ_part(doc: Json, key: Seq<char>, label: Seq<char>) -> Option<Seq<char>> {
    let arr = spec_arr_of(doc, key);
    if arr.len() > 0 {
        Some(label + ": 最新 "@ + spec_text_or(arr[0], "time"@, ""@) + " 期"@)
    } else {
        None
    }
}

/// Folding one optional part into the joined line.
pub open spec fn spec_econ_step(acc: Seq<char>, any: bool, part: Option<Seq<char>>) -> (
    Seq<char>,
    bool,
) {
    match part {
        Some(p) => (
            if any {
                acc + " | "@ + p
            } else {
                acc + p
            },
            true,
        ),
        None => (acc, any),
    }
}

/// The macro-economy summary: the available series joined by pipes, or a
/// generic label when none is available.
pub open spec fn spec_sum_econ(doc: Json) -> Seq<char> {
    let s1 = spec_econ_step(Seq::empty(), false, spec_econ_part(doc, "gdp"@, "GDP"@));
    let s2 = spec_econ_step(s1.0, s1.1, spec_econ_part(doc, "cpi"@, "CPI"@));
    let s3 = spec_econ_step(s2.0, s2.1, spec_econ_part(doc, "ppi"@, "PPI"@));
    let s4 = spec_econ_step(s3.0, s3.1, spec_econ_part(doc, "pmi"@, "PMI"@));
    if s4.1 {
        s4.0
    } else {
        "宏观经济数据"@
    }
}

fn append_econ_part(out: &mut String, any: bool, doc: &Json, key: &str, label: &str) -> (now_any:
    bool)
    ensures
        (final(out)@, now_any) == spec_econ_step(
            old(out)@,
            any,
            spec_econ_part(*doc, key@, label@),
        ),
{
    match doc.get(key) {
        Some(v) => match v {
            Json::Arr(items) => {
                if items.len() > 0 {
                    if any {
                        out.append(" | ");
                    }
                    out.append(label);
                    out.append(": 最新 ");
                    append_text_or(out, &items[0], "time", "");
                    out.append(" 期");
                    proof {
                        assert((final(out)@, true) == spec_econ_step(
                            old(out)@,
                            any,
                            spec_econ_part(*doc, key@, label@),
                        ));
                    }
                    true
                } else {
                    any
                }
            },
            _ => any,
        },
        None => any,
    }
}

fn sum_econ(doc: &Json) -> (r: String)
    ensures
        r@ == spec_sum_econ(*doc),
{
    let mut out = String::new();
    let mut any = false;
    any = append_econ_part(&mut out, any, doc, "gdp", "GDP");
    any = append_econ_part(&mut out, any, doc, "cpi", "CPI");
    any = append_econ_part(&mut out, any, doc, "ppi", "PPI");
    any = append_econ_part(&mut out, any, doc, "pmi", "PMI");
    if !any {
        return String::from_str("宏观经济数据");
    }
    out
}

/// The global-index summary: a count line and the first six index moves.
pub open spec fn spec_sum_indexes(doc: Json) -> Seq<char> {
    let indexes = spec_arr_of(doc, "indexes"@);
    "获取到 "@ + spec_u64_dec(spec_u64_or0(doc, "total"@) as int) + " 个全球指数"@
        + spec_index_lines(indexes.take(vstd::math::min(6, indexes.len() as int)))
}

fn sum_indexes(doc: &Json) -> (r: String)
    ensures
        r@ == spec_sum_indexes(*doc),
{
    let mut out = String::new();
    out.append("获取到 ");
    append_u64(&mut out, get_u64_or0(doc, "total"));
    out.append(" 个全球指数");
    match doc.get("indexes") {
        Some(v) => match v {
            Json::Arr(items) => {
                append_index_lines(&mut out, items, 6);
            },
            _ => {},
        },
        None => {},
    }
    proof {
        assert(out@ =~= spec_sum_indexes(*doc));
    }
    out
}

/// The financial-calendar summary: the event count.
pub open spec fn spec_sum_calendar(doc: Json) -> Seq<char> {
    "获取到 "@ + spec_u64_dec(spec_u64_or0(doc, "total"@) as int) + " 条财经日历事件"@
}

fn sum_calendar(doc: &Json) -> (r: String)
    ensures
        r@ == spec_sum_calendar(*doc),
{
    let mut out = String::new();
    out.append("获取到 ");
    append_u64(&mut out, get_u64_or0(doc, "total"));
    out.append(" 条财经日历事件");
    proof {
        assert(out@ =~= spec_sum_calendar(*doc));
    }
    out
}

/// The per-stock news summary: keyword, count, first five headlines.
pub open spec fn spec_sum_stock_news(doc: Json) -> Seq<char> {
    let news = spec_arr_of(doc, "news"@);
    "「"@ + spec_text_or(doc, "keyword"@, ""@) + "」相关新闻 "@ + spec_u64_dec(
        spec_u64_or0(doc, "total"@) as int,
    ) + " 条"@ + spec_title_lines(news.take(vstd::math::min(5, news.len() as int)))
}

fn sum_stock_news(doc: &Json) -> (r: String)
    ensures
        r@ == spec_sum_stock_news(*doc),
{
    let mut out = String::new();
    out.append("「");
    append_text_or(&mut out, doc, "keyword", "");
    out.append("」相关新闻 ");
    append_u64(&mut out, get_u64_or0(doc, "total"));
    out.append(" 条");
    match doc.get("news") {
        Some(v) => match v {
            Json::Arr(items) => {
                append_title_lines(&mut out, items, 5);
            },
            _ => {},
        },
        None => {},
    }
    proof {
        assert(out@ =~= spec_sum_stock_news(*doc));
    }
    out
}

/// The company-notices summary: code, count, first five titles.
pub open spec fn spec_sum_notices(doc: Json) -> Seq<char> {
    let notices = spec_arr_of(doc, "notices"@);
    spec_text_or(doc, "code"@, ""@) + " 最新公告 "@ + spec_u64_dec(
        spec_u64_or0(doc, "total"@) as int,
    ) + " 条"@ + spec_title_lines(notices.take(vstd::math::min(5, notices.len() as int)))
}

fn sum_notices(doc: &Json) -> (r: String)
    ensures
        r@ == spec_sum_notices(*doc),
{
    let mut out = String::new();
    append_text_or(&mut out, doc, "code", "");
    out.append(" 最新公告 ");
    append_u64(&mut out, get_u64_or0(doc, "total"));
    out.append(" 条");
    match doc.get("notices") {
        Some(v) => match v {
            Json::Arr(items) => {
                append_title_lines(&mut out, items, 5);
            },
            _ => {},
        },
        None => {},
    }
    proof {
        assert(out@ =~= spec_sum_notices(*doc));
    }
    out
}

/// The research-report summary: count and the first five titled entries
/// with their organizations.
pub open spec fn spec_sum_reports(doc: Json) -> Seq<char> {
    let reports = spec_arr_of(doc, "reports"@);
    "获取到 "@ + spec_u64_dec(spec_u64_or0(doc, "total"@) as int) + " 条研报"@
        + spec_src_title_lines(reports.take(vstd::math::min(5, reports.len() as int)), "org"@)
}

fn sum_reports(doc: &Json) -> (r: String)
    ensures
        r@ == spec_sum_reports(*doc),
{
    let mut out = String::new();
    out.append("获取到 ");
    append_u64(&mut out, get_u64_or0(doc, "total"));
    out.append(" 条研报");
    match doc.get("reports") {
        Some(v) => match v {
            Json::Arr(items) => {
                append_src_title_lines(&mut out, items, "org", 5);
            },
            _ => {},
        },
        None => {},
    }
    proof {
        assert(out@ =~= spec_sum_reports(*doc));
    }
    out
}

/// The batch-quote summary: count and one compact line per stock, up to
/// twenty.
pub open spec fn spec_sum_batch_quotes(doc: Json) -> Seq<char> {
    let stocks = spec_arr_of(doc, "stocks"@);
    "获取到 "@ + spec_u64_dec(spec_u64_or0(doc, "total"@) as int) + " 只股票行情"@
        + spec_quote_lines(stocks.take(vstd::math::min(20, stocks.len() as int)))
}

fn sum_batch_quotes(doc: &Json) -> (r: String)
    ensures
        r@ == spec_sum_batch_quotes(*doc),
{
    let mut out = String::new();
    out.append("获取到 ");
    append_u64(&mut out, get_u64_or0(doc, "total"));
    out.append(" 只股票行情");
    match doc.get("stocks") {
        Some(v) => match v {
            Json::Arr(items) => {
                append_quote_lines(&mut out, items, 20);
            },
            _ => {},
        },
        None => {},
    }
    proof {
        assert(out@ =~= spec_sum_batch_quotes(*doc));
    }
    out
}

/// The single-quote summary; the price keeps its literal digits.
pub open spec fn spec_sum_quote(doc: Json) -> Seq<char> {
    spec_text_or(doc, "name"@, ""@) + "("@ + spec_text_or(doc, "code"@, ""@) + ") ¥"@
        + spec_num_text_or(doc, "price"@, ""@) + " "@ + spec_text_or(doc, "change_pct"@, ""@)
        + " PE:"@ + spec_text_or(doc, "pe_ttm"@, "N/A"@) + " ROE:"@ + spec_text_or(
        doc,
        "roe"@,
        "N/A"@,
    ) + " 市值:"@ + spec_text_or(doc, "total_market_cap"@, ""@) + " 主力净流入:"@
        + spec_text_or(doc, "main_net_inflow"@, ""@)
}

#[verifier::rlimit(60)]
fn sum_quote(doc: &Json) -> (r: String)
    ensures
        r@ == spec_sum_quote(*doc),
{
    let mut out = String::new();
    append_text_or(&mut out, doc, "name", "");
    out.append("(");
    append_text_or(&mut out, doc, "code", "");
    out.append(") ¥");
    append_num_text_or(&mut out, doc, "price", "");
    out.append(" ");
    append_text_or(&mut out, doc, "change_pct", "");
    out.append(" PE:");
    append_text_or(&mut out, doc, "pe_ttm", "N/A");
    out.append(" ROE:");
    append_text_or(&mut out, doc, "roe", "N/A");
    out.append(" 市值:");
    append_text_or(&mut out, doc, "total_market_cap", "");
    out.append(" 主力净流入:");
    append_text_or(&mut out, doc, "main_net_inflow", "");
    proof {
        assert(out@ =~= spec_sum_quote(*doc));
    }
    out
}

/// The fund-flow summary: code, inflow, share.
pub open spec fn spec_sum_fund_flow(doc: Json) -> Seq<char> {
    spec_text_or(doc, "code"@, ""@) + " 主力净流入:"@ + spec_text_or(
        doc,
        "main_net_inflow"@,
        "0"@,
    ) + " 占比:"@ + spec_text_or(doc, "main_net_pct"@, "0%"@)
}

fn sum_fund_flow(doc: &Json) -> (r: String)
    ensures
        r@ == spec_sum_fund_flow(*doc),
{
    let mut out = String::new();
    append_text_or(&mut out, doc, "code", "");
    out.append(" 主力净流入:");
    append_text_or(&mut out, doc, "main_net_inflow", "0");
    out.append(" 占比:");
    append_text_or(&mut out, doc, "main_net_pct", "0%");
    proof {
        assert(out@ =~= spec_sum_fund_flow(*doc));
    }
    out
}

/// The K-line summary: code, period kind, and bar count.
pub open spec fn spec_sum_kline(doc: Json) -> Seq<char> {
    spec_text_or(doc, "code"@, ""@) + " "@ + (if spec_text_or(doc, "period"@, "day"@) == "week"@ {
        "周"@
    } else {
        "日"@
    }) + "K线 "@ + spec_u64_dec(spec_u64_or0(doc, "count"@) as int) + " 根"@
}

fn sum_kline(doc: &Json) -> (r: String)
    ensures
        r@ == spec_sum_kline(*doc),
{
    let mut out = String::new();
    append_text_or(&mut out, doc, "code", "");
    out.append(" ");
    let mut period = String::new();
    append_text_or(&mut period, doc, "period", "day");
    if str_eq(period.as_str(), "week") {
        out.append("周");
    } else {
        out.append("日");
    }
    out.append("K线 ");
    append_u64(&mut out, get_u64_or0(doc, "count"));
    out.append(" 根");
    proof {
        assert(out@ =~= spec_sum_kline(*doc));
    }
    out
}

/// The technical-indicator summary: code, alignment and volume-price
/// state, and the one-line reading.
pub open spec fn spec_sum_indicators(doc: Json) -> Seq<char> {
    spec_text_or(doc, "code"@, ""@) + " 均线:"@ + spec_text_or(doc, "ma_alignment"@, ""@)
        + " 量价:"@ + spec_text_or(doc, "volume_price_relation"@, ""@) + "\n"@ + spec_text_or(
        doc,
        "summary"@,
        ""@,
    )
}

fn sum_indicators(doc: &Json) -> (r: String)
    ensures
        r@ == spec_sum_indicators(*doc),
{
    let mut out = String::new();
    append_text_or(&mut out, doc, "code", "");
    out.append(" 均线:");
    append_text_or(&mut out, doc, "ma_alignment", "");
    out.append(" 量价:");
    append_text_or(&mut out, doc, "volume_price_relation", "");
    out.append("\n");
    append_text_or(&mut out, doc, "summary", "");
    proof {
        assert(out@ =~= spec_sum_indicators(*doc));
    }
    out
}

// ---------------------------------------------------------------------------
// the dispatcher
// ---------------------------------------------------------------------------
/// The tool names that have a bespoke summary.
pub open spec fn spec_has_bespoke_summary(name: Seq<char>) -> bool {
    ||| name == "get_market_news"@
    ||| name == "search_stocks_by_condition"@
    ||| name == "search_concept_boards"@
    ||| name == "get_economic_data"@
    ||| name == "get_global_indexes"@
    ||| name == "get_financial_calendar"@
    ||| name == "search_stock_news"@
    ||| name == "get_stock_notices"@
    ||| name == "get_industry_report"@
    ||| name == "batch_get_stock_quotes"@
    ||| name == "get_stock_quote"@
    ||| name == "get_fund_flow"@
    ||| name == "get_kline_data"@
    ||| name == "get_technical_indicators"@
}

/// The generic fallback: the tool name and the result's byte length.
pub open spec fn spec_fallback_summary(name: Seq<char>, byte_len: int) -> Seq<char> {
    "工具 "@ + name + " 返回 "@ + spec_u64_dec(byte_len) + " 字节数据"@
}

/// The summary of a tool result: a bespoke rendering for every catalog
/// tool, the generic fallback otherwise.
pub open spec fn spec_summarize(name: Seq<char>, doc: Json, byte_len: int) -> Seq<char> {
    if name == "get_market_news"@ {
        spec_sum_market_news(doc)
    } else if name == "search_stocks_by_condition"@ {
        spec_sum_search_stocks(doc)
    } else if name == "search_concept_boards"@ {
        spec_sum_search_boards(doc)
    } else if name == "get_economic_data"@ {
        spec_sum_econ(doc)
    } else if name == "get_global_indexes"@ {
        spec_sum_indexes(doc)
    } else if name == "get_financial_calendar"@ {
        spec_sum_calendar(doc)
    } else if name == "search_stock_news"@ {
        spec_sum_stock_news(doc)
    } else if name == "get_stock_notices"@ {
        spec_sum_notices(doc)
    } else if name == "get_industry_report"@ {
        spec_sum_reports(doc)
    } else if name == "batch_get_stock_quotes"@ {
        spec_sum_batch_quotes(doc)
    } else if name == "get_stock_quote"@ {
        spec_sum_quote(doc)
    } else if name == "get_fund_flow"@ {
        spec_sum_fund_flow(doc)
    } else if name == "get_kline_data"@ {
        spec_sum_kline(doc)
    } else if name == "get_technical_indicators"@ {
        spec_sum_indicators(doc)
    } else {
        spec_fallback_summary(name, byte_len)
    }
}

/// Every tool name in either catalog has a bespoke summary, so the
/// generic fallback is never taken for a name present in the catalogs.
pub proof fn lemma_summaries_cover_catalogs()
    ensures
        forall|i: int|
            0 <= i < crate::registry::spec_pick_tool_names().len()
                ==> spec_has_bespoke_summary(#[trigger] crate::registry::spec_pick_tool_names()[i]),
        forall|i: int|
            0 <= i < crate::registry::spec_tool_names().len() ==> spec_has_bespoke_summary(
                #[trigger] crate::registry::spec_tool_names()[i],
            ),
{
    assert forall|i: int|
        0 <= i < crate::registry::spec_pick_tool_names().len() implies spec_has_bespoke_summary(
        #[trigger] crate::registry::spec_pick_tool_names()[i],
    ) by {
        if i == 0 {
            assert(spec_has_bespoke_summary(crate::registry::spec_pick_tool_names()[0]));
        } else if i == 1 {
            assert(spec_has_bespoke_summary(crate::registry::spec_pick_tool_names()[1]));
        } else if i == 2 {
            assert(spec_has_bespoke_summary(crate::registry::spec_pick_tool_names()[2]));
        } else if i == 3 {
            assert(spec_has_bespoke_summary(crate::registry::spec_pick_tool_names()[3]));
        } else if i == 4 {
            assert(spec_has_bespoke_summary(crate::registry::spec_pick_tool_names()[4]));
        } else if i == 5 {
            assert(spec_has_bespoke_summary(crate::registry::spec_pick_tool_names()[5]));
        } else if i == 6 {
            assert(spec_has_bespoke_summary(crate::registry::spec_pick_tool_names()[6]));
        } else if i == 7 {
            assert(spec_has_bespoke_summary(crate::registry::spec_pick_tool_names()[7]));
        } else if i == 8 {
            assert(spec_has_bespoke_summary(crate::registry::spec_pick_tool_names()[8]));
        } else if i == 9 {
            assert(spec_has_bespoke_summary(crate::registry::spec_pick_tool_names()[9]));
        } else if i == 10 {
            assert(spec_has_bespoke_summary(crate::registry::spec_pick_tool_names()[10]));
        } else if i == 11 {
            assert(spec_has_bespoke_summary(crate::registry::spec_pick_tool_names()[11]));
        } else if i == 12 {
            assert(spec_has_bespoke_summary(crate::registry::spec_pick_tool_names()[12]));
        } else {
            assert(spec_has_bespoke_summary(crate::registry::spec_pick_tool_names()[13]));
        }
    }
    assert forall|i: int|
        0 <= i < crate::registry::spec_tool_names().len() implies spec_has_bespoke_summary(
        #[trigger] crate::registry::spec_tool_names()[i],
    ) by {
        if i == 0 {
            assert(spec_has_bespoke_summary(crate::registry::spec_tool_names()[0]));
        } else if i == 1 {
            assert(spec_has_bespoke_summary(crate::registry::spec_tool_names()[1]));
        } else if i == 2 {
            assert(spec_has_bespoke_summary(crate::registry::spec_tool_names()[2]));
        } else {
            assert(spec_has_bespoke_summary(crate::registry::spec_tool_names()[3]));
        }
    }
}

/// Summarizes a tool's raw result for progress display.  Result text that
/// is not JSON is treated as a null document, so every field access takes
/// its default instead of failing.
pub fn summarize_tool_result(tool_name: &str, result: &str) -> (r: String)
    ensures
        r@ == spec_summarize(
            tool_name@,
            spec_doc_of(result@),
            (result.spec_bytes().len() as usize) as int,
        ),
{
    let doc = match parse_json(result) {
        Some(d) => d,
        None => Json::Null,
    };
    if str_eq(tool_name, "get_market_news") {
        sum_market_news(&doc)
    } else if str_eq(tool_name, "search_stocks_by_condition") {
        sum_search_stocks(&doc)
    } else if str_eq(tool_name, "search_concept_boards") {
        sum_search_boards(&doc)
    } else if str_eq(tool_name, "get_economic_data") {
        sum_econ(&doc)
    } else if str_eq(tool_name, "get_global_indexes") {
        sum_indexes(&doc)
    } else if str_eq(tool_name, "get_financial_calendar") {
        sum_calendar(&doc)
    } else if str_eq(tool_name, "search_stock_news") {
        sum_stock_news(&doc)
    } else if str_eq(tool_name, "get_stock_notices") {
        sum_notices(&doc)
    } else if str_eq(tool_name, "get_industry_report") {
        sum_reports(&doc)
    } else if str_eq(tool_name, "batch_get_stock_quotes") {
        sum_batch_quotes(&doc)
    } else if str_eq(tool_name, "get_stock_quote") {
        sum_quote(&doc)
    } else if str_eq(tool_name, "get_fund_flow") {
        sum_fund_flow(&doc)
    } else if str_eq(tool_name, "get_kline_data") {
        sum_kline(&doc)
    } else if str_eq(tool_name, "get_technical_indicators") {
        sum_indicators(&doc)
    } else {
        let mut out = String::new();
        out.append("工具 ");
        out.append(tool_name);
        out.append(" 返回 ");
        append_u64(&mut out, result.len() as u64);
        out.append(" 字节数据");
        proof {
            assert(out@ =~= spec_fallback_summary(
                tool_name@,
                (result.spec_bytes().len() as usize) as int,
            ));
        }
        out
    }
}

} // verus!
