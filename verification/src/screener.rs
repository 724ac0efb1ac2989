//! The natural-language screener pipeline: the request body the upstream
//! endpoint takes, the decode of its response, and the result document
//! the conversation carries — for both the stock screen and the board
//! search.

use vstd::prelude::*;

use crate::decode::Malformed;
use crate::json::{Json, json_of, parse_json, spec_get};
use crate::text::{parse_i32, spec_parse_i32};
use crate::wire::{append_i64, append_key, append_num, append_quoted, spec_i64_dec, spec_key, spec_num, spec_quoted};

verus! {

/// Which screener a call goes to.
#[derive(Clone, Copy, PartialEq, Eq, Structural)]
pub enum ScreenerKind {
    Stocks,
    Boards,
}

// ---------------------------------------------------------------------------
// the upstream request body
// ---------------------------------------------------------------------------
/// The body the screener endpoint takes: the condition, the page size,
/// the caller's fingerprint, and the fixed fields of the protocol.
pub open spec fn spec_screener_request(
    keyword: Seq<char>,
    page_size: u32,
    fingerprint: Seq<char>,
    timestamp: Seq<char>,
) -> Seq<char> {
    "{"@ + spec_key("keyWord"@) + spec_quoted(keyword) + ","@ + spec_key("pageSize"@) + spec_num(
        page_size as u64,
    ) + ","@ + spec_key("pageNo"@) + "1"@ + ","@ + spec_key("fingerprint"@) + spec_quoted(
        fingerprint,
    ) + ","@ + spec_key("gids"@) + "[]"@ + ","@ + spec_key("matchWord"@) + spec_quoted(""@) + ","@
        + spec_key("timestamp"@) + spec_quoted(timestamp) + ","@ + spec_key("shareToGuba"@)
        + "false"@ + ","@ + spec_key("requestId"@) + spec_quoted(""@) + ","@ + spec_key(
        "needCorrect"@,
    ) + "true"@ + ","@ + spec_key("removedConditionIdList"@) + "[]"@ + ","@ + spec_key("xcId"@)
        + spec_quoted(""@) + ","@ + spec_key("ownSelectAll"@) + "false"@ + ","@ + spec_key(
        "dxInfo"@,
    ) + "[]"@ + ","@ + spec_key("extraCondition"@) + spec_quoted(""@) + "}"@
}

/// Builds the screener request body.
#[verifier::rlimit(100)]
#[verifier::spinoff_prover]
pub fn screener_request_body(
    keyword: &str,
    page_size: u32,
    fingerprint: &str,
    timestamp: &str,
) -> (r: String)
    ensures
        r@ == spec_screener_request(keyword@, page_size, fingerprint@, timestamp@),
{
    let mut out = String::new();
    out.append("{");
    append_key(&mut out, "keyWord");
    append_quoted(&mut out, keyword);
    out.append(",");
    append_key(&mut out, "pageSize");
    append_num(&mut out, page_size as u64);
    out.append(",");
    append_key(&mut out, "pageNo");
    out.append("1");
    out.append(",");
    append_key(&mut out, "fingerprint");
    append_quoted(&mut out, fingerprint);
    out.append(",");
    append_key(&mut out, "gids");
    out.append("[]");
    out.append(",");
    append_key(&mut out, "matchWord");
    append_quoted(&mut out, "");
    out.append(",");
    append_key(&mut out, "timestamp");
    append_quoted(&mut out, timestamp);
    out.append(",");
    append_key(&mut out, "shareToGuba");
    out.append("false");
    out.append(",");
    append_key(&mut out, "requestId");
    append_quoted(&mut out, "");
    out.append(",");
    append_key(&mut out, "needCorrect");
    out.append("true");
    out.append(",");
    append_key(&mut out, "removedConditionIdList");
    out.append("[]");
    out.append(",");
    append_key(&mut out, "xcId");
    append_quoted(&mut out, "");
    out.append(",");
    append_key(&mut out, "ownSelectAll");
    out.append("false");
    out.append(",");
    append_key(&mut out, "dxInfo");
    out.append("[]");
    out.append(",");
    append_key(&mut out, "extraCondition");
    append_quoted(&mut out, "");
    out.append("}");
    proof {
        assert(out@ =~= spec_screener_request(keyword@, page_size, fingerprint@, timestamp@));
    }
    out
}

// ---------------------------------------------------------------------------
// decoding the upstream response
// ---------------------------------------------------------------------------
/// The status code of a screener response: a number within the 32-bit
/// range, or a decimal string.
pub open spec fn spec_screener_code(doc: Json) -> Option<int> {
    match spec_get(doc, "code"@) {
        Some(Json::Num(n)) => match n.int {
            Some(v) => if i32::MIN <= v <= i32::MAX {
                Some(v as int)
            } else {
                None
            },
            None => None,
        },
        Some(Json::Text(s)) => spec_parse_i32(s@),
        _ => None,
    }
}

/// An optional message field: absent or `null` reads as nothing; a
/// string reads as itself; anything else is malformed.
pub open spec fn spec_opt_msg_ok(doc: Json, key: Seq<char>) -> bool {
    match spec_get(doc, key) {
        None => true,
        Some(v) => v is Null || v is Text,
    }
}

/// The status message: `msg`, else `message`, else empty.
pub open spec fn spec_screener_msg(doc: Json) -> Seq<char> {
    match spec_get(doc, "msg"@) {
        Some(Json::Text(s)) => s@,
        _ => match spec_get(doc, "message"@) {
            Some(Json::Text(t)) => t@,
            _ => Seq::empty(),
        },
    }
}

/// The matched rows: `data.result.dataList`; an absent or `null` `data`
/// reads as no rows; a present `data` must carry the nested array.
pub open spec fn spec_screener_rows(doc: Json) -> Option<Seq<Json>> {
    match spec_get(doc, "data"@) {
        None => Some(Seq::empty()),
        Some(Json::Null) => Some(Seq::empty()),
        Some(d) => match spec_get(d, "result"@) {
            Some(res) => match spec_get(res, "dataList"@) {
                Some(Json::Arr(items)) => Some(items@),
                _ => None,
            },
            None => None,
        },
    }
}

/// A screener response has the expected shape.
pub open spec fn spec_screener_ok(doc: Json) -> bool {
    &&& spec_screener_code(doc) is Some
    &&& spec_opt_msg_ok(doc, "msg"@)
    &&& spec_opt_msg_ok(doc, "message"@)
    &&& spec_screener_rows(doc) is Some
}

/// A decoded screener response: the status code, its message, and the
/// matched rows as value trees.
pub struct ScreenerResponse {
    pub code: i32,
    pub msg: String,
    pub rows: Vec<Json>,
}

/// The decoded response matches the document.
pub open spec fn screener_matches(r: ScreenerResponse, doc: Json) -> bool {
    &&& r.code as int == spec_screener_code(doc)->Some_0
    &&& r.msg@ == spec_screener_msg(doc)
    &&& r.rows@ == spec_screener_rows(doc)->Some_0
}

/// Decodes a screener response document; fails exactly when the status
/// code is missing or unreadable, a message field has a wrong type, or a
/// present `data` lacks the row array.
pub fn decode_screener(doc: Json) -> (r: Result<ScreenerResponse, Malformed>)
    ensures
        r is Ok <==> spec_screener_ok(doc),
        r matches Ok(resp) ==> screener_matches(resp, doc),
{
    let code: i32 = match doc.get("code") {
        Some(v) => match v {
            Json::Num(n) => match n.int {
                Some(x) => {
                    if i32::MIN as i64 <= x && x <= i32::MAX as i64 {
                        x as i32
                    } else {
                        return Err(Malformed);
                    }
                },
                None => {
                    return Err(Malformed);
                },
            },
            Json::Text(s) => match parse_i32(s.as_str()) {
                Some(x) => x,
                None => {
                    return Err(Malformed);
                },
            },
            _ => {
                return Err(Malformed);
            },
        },
        None => {
            return Err(Malformed);
        },
    };
    let mut msg = String::new();
    match doc.get("msg") {
        None => {},
        Some(v) => match v {
            Json::Null => {},
            Json::Text(s) => {
                let piece = s.clone();
                msg.append(piece.as_str());
            },
            _ => {
                return Err(Malformed);
            },
        },
    }
    let has_msg = match doc.get("msg") {
        Some(v) => match v {
            Json::Text(_) => true,
            _ => false,
        },
        None => false,
    };
    match doc.get("message") {
        None => {},
        Some(v) => match v {
            Json::Null => {},
            Json::Text(t) => {
                if !has_msg {
                    let piece = t.clone();
                    msg.append(piece.as_str());
                }
            },
            _ => {
                return Err(Malformed);
            },
        },
    }
    let rows: Vec<Json> = match extract_rows(doc) {
        Ok(rows) => rows,
        Err(e) => {
            return Err(e);
        },
    };
    Ok(ScreenerResponse { code, msg, rows })
}

/// Moves the `data.result.dataList` rows out of the document.
fn extract_rows(doc: Json) -> (r: Result<Vec<Json>, Malformed>)
    ensures
        r is Ok <==> spec_screener_rows(doc) is Some,
        r matches Ok(rows) ==> spec_screener_rows(doc) == Some(rows@),
{
    let data: Json = match doc {
        Json::Obj(mut fields) => match crate::json::find_key(&fields, "data") {
            Some(i) => fields.remove(i).1,
            None => {
                proof {
                    assert(spec_screener_rows(Json::Obj(fields)) == Some(Seq::<Json>::empty()));
                }
                return Ok(Vec::new());
            },
        },
        _ => {
            return Ok(Vec::new());
        },
    };
    let inner: Json = match data {
        Json::Null => {
            return Ok(Vec::new());
        },
        Json::Obj(mut dfields) => match crate::json::find_key(&dfields, "result") {
            Some(i) => dfields.remove(i).1,
            None => {
                return Err(Malformed);
            },
        },
        _ => {
            return Err(Malformed);
        },
    };
    let list: Json = match inner {
        Json::Obj(mut rfields) => match crate::json::find_key(&rfields, "dataList") {
            Some(i) => rfields.remove(i).1,
            None => {
                return Err(Malformed);
            },
        },
        _ => {
            return Err(Malformed);
        },
    };
    match list {
        Json::Arr(items) => Ok(items),
        _ => Err(Malformed),
    }
}

// ---------------------------------------------------------------------------
// the result document
// ---------------------------------------------------------------------------
/// One passthrough entry of a row's `values` object: nonempty strings
/// quoted, numbers with their literal digits, everything else dropped.
pub open spec fn spec_values_entry(k: Seq<char>, v: Json) -> Seq<char> {
    match v {
        Json::Text(s) => if s@.len() > 0 {
            ","@ + spec_key(k) + spec_quoted(s@)
        } else {
            Seq::empty()
        },
        Json::Num(n) => ","@ + spec_key(k) + n.text@,
        _ => Seq::empty(),
    }
}

/// The passthrough entries of a `values` object, in order.
pub open spec fn spec_values_tail(fields: Seq<(String, Json)>) -> Seq<char>
    decreases fields.len(),
{
    if fields.len() == 0 {
        Seq::empty()
    } else {
        spec_values_tail(fields.drop_last()) + spec_values_entry(
            fields.last().0@,
            fields.last().1,
        )
    }
}

proof fn lemma_values_tail_push(fields: Seq<(String, Json)>, x: (String, Json))
    ensures
        spec_values_tail(fields.push(x)) == spec_values_tail(fields) + spec_values_entry(
            x.0@,
            x.1,
        ),
{
    assert(fields.push(x).drop_last() =~= fields);
    assert(fields.push(x).last() == x);
}

/// One rendered row: the security code and short name, then the
/// passthrough values.
pub open spec fn spec_row_json(item: Json) -> Seq<char> {
    "{"@ + spec_key("code"@) + spec_quoted(
        crate::summarize::spec_text_or(item, "SECURITY_CODE"@, ""@),
    ) + ","@ + spec_key("name"@) + spec_quoted(
        crate::summarize::spec_text_or(item, "SECURITY_SHORT_NAME"@, ""@),
    ) + (match spec_get(item, "values"@) {
        Some(Json::Obj(fields)) => spec_values_tail(fields@),
        _ => Seq::empty(),
    }) + "}"@
}

/// The rendered rows, comma-joined.
pub open spec fn spec_rows_json(items: Seq<Json>) -> Seq<char>
    decreases items.len(),
{
    if items.len() == 0 {
        Seq::empty()
    } else if items.len() == 1 {
        spec_row_json(items[0])
    } else {
        spec_rows_json(items.drop_last()) + ","@ + spec_row_json(items.last())
    }
}

proof fn lemma_rows_json_push(items: Seq<Json>, x: Json)
    ensures
        spec_rows_json(items.push(x)) == if items.len() == 0 {
            spec_row_json(x)
        } else {
            spec_rows_json(items) + ","@ + spec_row_json(x)
        },
{
    assert(items.push(x).last() == x);
    if items.len() == 0 {
        assert(items.push(x)[0] == x);
    } else {
        assert(items.push(x).drop_last() =~= items);
    }
}

#[verifier::rlimit(100)]
fn append_row(out: &mut String, item: &Json)
    ensures
        final(out)@ == old(out)@ + spec_row_json(*item),
{
    out.append("{");
    append_key(out, "code");
    let mut code = String::new();
    match item.get_text("SECURITY_CODE") {
        Some(s) => {
            let piece = s.clone();
            code.append(piece.as_str());
        },
        None => {},
    }
    append_quoted(out, code.as_str());
    out.append(",");
    append_key(out, "name");
    let mut name = String::new();
    match item.get_text("SECURITY_SHORT_NAME") {
        Some(s) => {
            let piece = s.clone();
            name.append(piece.as_str());
        },
        None => {},
    }
    append_quoted(out, name.as_str());
    let ghost mid = out@;
    proof {
        reveal_strlit("");
        assert(""@ =~= Seq::<char>::empty());
        assert(mid =~= old(out)@ + "{"@ + spec_key("code"@) + spec_quoted(
            crate::summarize::spec_text_or(*item, "SECURITY_CODE"@, ""@),
        ) + ","@ + spec_key("name"@) + spec_quoted(
            crate::summarize::spec_text_or(*item, "SECURITY_SHORT_NAME"@, ""@),
        ));
    }
    match item.get("values") {
        Some(v) => match v {
            Json::Obj(fields) => {
                let n = fields.len();
                let mut i: usize = 0;
                proof {
                    assert(fields@.take(0) =~= Seq::<(String, Json)>::empty());
                    assert(out@ =~= mid + spec_values_tail(fields@.take(0)));
                }
                while i < n
                    invariant
                        i <= n,
                        n == fields@.len(),
                        out@ == mid + spec_values_tail(fields@.take(i as int)),
                    decreases n - i,
                {
                    match &fields[i].1 {
                        Json::Text(s) => {
                            if s.as_str().unicode_len() > 0 {
                                out.append(",");
                                append_key(out, fields[i].0.as_str());
                                append_quoted(out, s.as_str());
                            }
                        },
                        Json::Num(num) => {
                            out.append(",");
                            append_key(out, fields[i].0.as_str());
                            let piece = num.text.clone();
                            out.append(piece.as_str());
                        },
                        _ => {},
                    }
                    proof {
                        assert(fields@.take(i + 1) =~= fields@.take(i as int).push(
                            fields@[i as int],
                        ));
                        lemma_values_tail_push(fields@.take(i as int), fields@[i as int]);
                        assert(out@ =~= mid + spec_values_tail(fields@.take(i + 1)));
                    }
                    i += 1;
                }
                proof {
                    assert(fields@.take(n as int) =~= fields@);
                    assert(out@ =~= mid + spec_values_tail(fields@));
                }
            },
            _ => {
                proof {
                    assert(out@ =~= mid);
                }
            },
        },
        None => {
            proof {
                assert(out@ =~= mid);
            }
        },
    }
    out.append("}");
    proof {
        assert(final(out)@ =~= old(out)@ + spec_row_json(*item));
    }
}

fn append_rows(out: &mut String, rows: &Vec<Json>, cap: usize)
    ensures
        final(out)@ == old(out)@ + spec_rows_json(
            rows@.take(vstd::math::min(cap as int, rows@.len() as int)),
        ),
{
    let n = rows.len();
    let m = if n < cap {
        n
    } else {
        cap
    };
    let mut i: usize = 0;
    proof {
        assert(rows@.take(0) =~= Seq::<Json>::empty());
        assert(out@ =~= old(out)@ + spec_rows_json(rows@.take(0)));
    }
    while i < m
        invariant
            i <= m,
            m == vstd::math::min(cap as int, rows@.len() as int),
            m <= rows@.len(),
            out@ == old(out)@ + spec_rows_json(rows@.take(i as int)),
        decreases m - i,
    {
        if i > 0 {
            out.append(",");
            proof {
                reveal_strlit(",");
            }
        }
        append_row(out, &rows[i]);
        proof {
            assert(rows@.take(i + 1) =~= rows@.take(i as int).push(rows@[i as int]));
            lemma_rows_json_push(rows@.take(i as int), rows@[i as int]);
            assert(out@ =~= old(out)@ + spec_rows_json(rows@.take(i + 1)));
        }
        i += 1;
    }
}

/// The failure prefix of a screener call.
pub open spec fn spec_api_fail_prefix(kind: ScreenerKind) -> Seq<char> {
    match kind {
        ScreenerKind::Stocks => "选股API调用失败: "@,
        ScreenerKind::Boards => "板块查询API调用失败: "@,
    }
}

/// The text for a response that does not decode.
pub open spec fn spec_parse_fail_text(kind: ScreenerKind) -> Seq<char> {
    match kind {
        ScreenerKind::Stocks => "解析东财选股响应失败"@,
        ScreenerKind::Boards => "解析东财板块搜索响应失败"@,
    }
}

/// The prefix for a non-success status code.
pub open spec fn spec_code_fail_prefix(kind: ScreenerKind) -> Seq<char> {
    match kind {
        ScreenerKind::Stocks => "选股条件解析失败(code="@,
        ScreenerKind::Boards => "板块查询解析失败(code="@,
    }
}

/// The key the matched entries are listed under.
pub open spec fn spec_list_key(kind: ScreenerKind) -> Seq<char> {
    match kind {
        ScreenerKind::Stocks => "stocks"@,
        ScreenerKind::Boards => "boards"@,
    }
}

/// An inline error document with the condition it belongs to.
pub open spec fn spec_error_doc(text: Seq<char>, keyword: Seq<char>) -> Seq<char> {
    "{"@ + spec_key("error"@) + spec_quoted(text) + ","@ + spec_key("keyword"@) + spec_quoted(
        keyword,
    ) + "}"@
}

fn error_doc(text: &str, keyword: &str) -> (r: String)
    ensures
        r@ == spec_error_doc(text@, keyword@),
{
    let mut out = String::new();
    out.append("{");
    append_key(&mut out, "error");
    append_quoted(&mut out, text);
    out.append(",");
    append_key(&mut out, "keyword");
    append_quoted(&mut out, keyword);
    out.append("}");
    proof {
        assert(out@ =~= spec_error_doc(text@, keyword@));
    }
    out
}

fn api_fail_prefix_str(kind: ScreenerKind) -> (r: &'static str)
    ensures
        r@ == spec_api_fail_prefix(kind),
{
    match kind {
        ScreenerKind::Stocks => "选股API调用失败: ",
        ScreenerKind::Boards => "板块查询API调用失败: ",
    }
}

/// The inline result for a screener call that failed outright: the
/// failure reads as an error document the model can see.
pub fn render_screener_failure(kind: ScreenerKind, keyword: &str, error: &str) -> (r: String)
    ensures
        r@ == spec_error_doc(spec_api_fail_prefix(kind) + error@, keyword@),
{
    let mut text = String::new();
    text.append(api_fail_prefix_str(kind));
    text.append(error);
    error_doc(text.as_str(), keyword)
}

/// The result document for a screener response body: an error document
/// when the body does not decode or reports a non-success code, else the
/// condition, the match count, and the rendered rows, at most
/// `page_size` of them.
pub open spec fn spec_screener_output(
    kind: ScreenerKind,
    keyword: Seq<char>,
    page_size: u32,
    body: Seq<char>,
) -> Seq<char> {
    match json_of(body) {
        None => spec_error_doc(spec_parse_fail_text(kind), keyword),
        Some(doc) => if !spec_screener_ok(doc) {
            spec_error_doc(spec_parse_fail_text(kind), keyword)
        } else if spec_screener_code(doc)->Some_0 != 100 {
            spec_error_doc(
                spec_code_fail_prefix(kind) + spec_i64_dec(spec_screener_code(doc)->Some_0)
                    + "): "@ + spec_screener_msg(doc),
                keyword,
            )
        } else {
            let rows = spec_screener_rows(doc)->Some_0;
            let m = vstd::math::min(page_size as int, rows.len() as int);
            "{"@ + spec_key("keyword"@) + spec_quoted(keyword) + ","@ + spec_key("total_count"@)
                + spec_num(m as u64) + ","@ + spec_key("returned"@) + spec_num(m as u64) + ","@
                + spec_key(spec_list_key(kind)) + "["@ + spec_rows_json(rows.take(m)) + "]"@
                + "}"@
        },
    }
}

/// Renders the result document for one screener response body.
#[verifier::rlimit(100)]
pub fn render_screener_result(
    kind: ScreenerKind,
    keyword: &str,
    page_size: u32,
    body: &str,
) -> (r: String)
    ensures
        r@ == spec_screener_output(kind, keyword@, page_size, body@),
{
    let parse_fail = match kind {
        ScreenerKind::Stocks => "解析东财选股响应失败",
        ScreenerKind::Boards => "解析东财板块搜索响应失败",
    };
    let doc = match parse_json(body) {
        Some(doc) => doc,
        None => {
            return error_doc(parse_fail, keyword);
        },
    };
    let resp = match decode_screener(doc) {
        Ok(resp) => resp,
        Err(_) => {
            return error_doc(parse_fail, keyword);
        },
    };
    if resp.code != 100 {
        let mut text = String::new();
        match kind {
            ScreenerKind::Stocks => text.append("选股条件解析失败(code="),
            ScreenerKind::Boards => text.append("板块查询解析失败(code="),
        }
        append_i64(&mut text, resp.code as i64);
        text.append("): ");
        text.append(resp.msg.as_str());
        return error_doc(text.as_str(), keyword);
    }
    let mut out = String::new();
    out.append("{");
    append_key(&mut out, "keyword");
    append_quoted(&mut out, keyword);
    out.append(",");
    append_key(&mut out, "total_count");
    let n = resp.rows.len();
    let m: usize = if n < page_size as usize {
        n
    } else {
        page_size as usize
    };
    append_num(&mut out, m as u64);
    out.append(",");
    append_key(&mut out, "returned");
    append_num(&mut out, m as u64);
    out.append(",");
    match kind {
        ScreenerKind::Stocks => append_key(&mut out, "stocks"),
        ScreenerKind::Boards => append_key(&mut out, "boards"),
    }
    out.append("[");
    append_rows(&mut out, &resp.rows, page_size as usize);
    out.append("]");
    out.append("}");
    proof {
        assert(out@ =~= spec_screener_output(kind, keyword@, page_size, body@));
    }
    out
}

} // verus!
