//! Batch trading instructions: extracting the JSON array out of a model
//! answer and decoding it into per-stock instructions.

use vstd::prelude::*;

use crate::decode::{Malformed, spec_req_text, spec_req_text_ok};
use crate::json::{Json, json_of, parse_json};
use crate::text::{find_first, lemma_find_from_correct, lemma_rfind_char_correct, rfind_char, spec_find_from, spec_match_at, spec_rfind_char, spec_trim, trim_str, truncate_str, spec_truncate, match_at};

verus! {

/// A per-stock action the model proposed.
pub enum InstructionAction {
    Buy,
    Watch,
    Eliminate,
}

/// A per-stock instruction with its label and reasoning.
pub struct AIInstruction {
    pub action: InstructionAction,
    pub label: String,
    pub reason: String,
}

/// One decoded batch-instruction entry.
pub struct StockInstructionResult {
    pub code: String,
    pub action: String,
    pub label: String,
    pub reason: String,
}

/// A decoded batch-instruction answer.
pub struct BatchInstructionResponse {
    pub instructions: Vec<StockInstructionResult>,
}

/// A stored analysis record.
pub struct AIAnalysisResult {
    pub id: String,
    pub code: String,
    pub name: String,
    pub model_name: String,
    pub question: String,
    pub content: String,
    pub created_at: String,
}

// ---------------------------------------------------------------------------
// extracting the array
// ---------------------------------------------------------------------------
/// `s` with every leading repetition of `p` removed.
pub open spec fn spec_strip_prefix_all(s: Seq<char>, p: Seq<char>) -> Seq<char>
    decreases s.len(),
{
    if p.len() > 0 && spec_match_at(s, p, 0) {
        spec_strip_prefix_all(s.skip(p.len() as int), p)
    } else {
        s
    }
}

/// `s` with every trailing repetition of `p` removed.
pub open spec fn spec_strip_suffix_all(s: Seq<char>, p: Seq<char>) -> Seq<char>
    decreases s.len(),
{
    if p.len() > 0 && spec_match_at(s, p, s.len() - p.len()) {
        spec_strip_suffix_all(s.take(s.len() - p.len()), p)
    } else {
        s
    }
}

fn strip_prefix_all<'a>(s: &'a str, p: &str) -> (r: &'a str)
    requires
        p@.len() > 0,
    ensures
        r@ == spec_strip_prefix_all(s@, p@),
    decreases s@.len(),
{
    let n = s.unicode_len();
    let m = p.unicode_len();
    if m <= n && match_at(s, p, 0) {
        let rest = s.substring_char(m, n);
        proof {
            assert(rest@ =~= s@.skip(p@.len() as int));
        }
        strip_prefix_all(rest, p)
    } else {
        s
    }
}

fn strip_suffix_all<'a>(s: &'a str, p: &str) -> (r: &'a str)
    requires
        p@.len() > 0,
    ensures
        r@ == spec_strip_suffix_all(s@, p@),
    decreases s@.len(),
{
    let n = s.unicode_len();
    let m = p.unicode_len();
    if m <= n && match_at(s, p, n - m) {
        let rest = s.substring_char(0, n - m);
        proof {
            assert(rest@ =~= s@.take(s@.len() - p@.len()));
        }
        strip_suffix_all(rest, p)
    } else {
        s
    }
}

/// The bracketed array inside `t`: from the first `[` through the last
/// `]`, when both exist in that order.
pub open spec fn spec_bracketed(t: Seq<char>) -> Option<Seq<char>> {
    match (spec_find_from(t, "["@, 0), spec_rfind_char(t, ']')) {
        (Some(a), Some(b)) => if a <= b {
            Some(t.subrange(a, b + 1))
        } else {
            None
        },
        _ => None,
    }
}

/// The JSON array extracted from a model answer: the bracketed span of
/// the trimmed text, or — after stripping code-fence markers — of the
/// re-trimmed text; nothing otherwise.
pub open spec fn spec_extract_json_array(text: Seq<char>) -> Option<Seq<char>> {
    let t = spec_trim(text);
    match spec_bracketed(t) {
        Some(a) => Some(a),
        None => {
            let u = spec_trim(
                spec_strip_suffix_all(
                    spec_strip_prefix_all(spec_strip_prefix_all(t, "```json"@), "```"@),
                    "```"@,
                ),
            );
            spec_bracketed(u)
        },
    }
}

fn bracketed(t: &str) -> (r: Option<String>)
    ensures
        match r {
            Some(s) => spec_bracketed(t@) == Some(s@),
            None => spec_bracketed(t@) is None,
        },
{
    proof {
        reveal_strlit("[");
    }
    let a = match find_first(t, "[") {
        Some(a) => a,
        None => {
            return None;
        },
    };
    let b = match rfind_char(t, ']') {
        Some(b) => b,
        None => {
            return None;
        },
    };
    let n = t.unicode_len();
    proof {
        lemma_find_from_correct(t@, "["@, 0);
        lemma_rfind_char_correct(t@, ']');
        assert(b < n);
    }
    if a <= b {
        let piece = t.substring_char(a, b + 1);
        proof {
            assert(piece@ =~= t@.subrange(a as int, b + 1));
        }
        Some(String::from_str(piece))
    } else {
        None
    }
}

/// Extracts the JSON instruction array from a model answer; the error
/// reports that no array was found.
pub fn extract_json_array(text: &str) -> (r: Result<String, String>)
    ensures
        match r {
            Ok(s) => spec_extract_json_array(text@) == Some(s@),
            Err(e) => spec_extract_json_array(text@) is None && e@
                == "Cannot find JSON array in AI response"@,
        },
{
    let t = trim_str(text);
    match bracketed(t) {
        Some(s) => Ok(s),
        None => {
            proof {
                reveal_strlit("```json");
                reveal_strlit("```");
            }
            let u = trim_str(strip_suffix_all(strip_prefix_all(strip_prefix_all(t, "```json"), "```"), "```"));
            match bracketed(u) {
                Some(s) => Ok(s),
                None => Err(String::from_str("Cannot find JSON array in AI response")),
            }
        },
    }
}

/// The search condition a model answer carries between the query tags,
/// trimmed; nothing when the tags are missing or hold only whitespace.
pub open spec fn spec_extract_search_query(text: Seq<char>) -> Option<Seq<char>> {
    match spec_find_from(text, "<SEARCH_QUERY>"@, 0) {
        None => None,
        Some(s) => {
            let after = s + "<SEARCH_QUERY>"@.len();
            let rest = text.skip(after);
            match spec_find_from(rest, "</SEARCH_QUERY>"@, 0) {
                None => None,
                Some(e) => {
                    let q = spec_trim(rest.take(e));
                    if q.len() > 0 {
                        Some(q)
                    } else {
                        None
                    }
                },
            }
        },
    }
}

/// Extracts the tagged search condition from a model answer.
pub fn extract_search_query(text: &str) -> (r: Option<String>)
    ensures
        match r {
            Some(q) => spec_extract_search_query(text@) == Some(q@),
            None => spec_extract_search_query(text@) is None,
        },
{
    let n = text.unicode_len();
    let start = match find_first(text, "<SEARCH_QUERY>") {
        Some(s) => s,
        None => {
            return None;
        },
    };
    proof {
        crate::text::lemma_find_from_correct(text@, "<SEARCH_QUERY>"@, 0);
    }
    let tag_len = "<SEARCH_QUERY>".unicode_len();
    let after = start + tag_len;
    let rest = text.substring_char(after, n);
    proof {
        assert(rest@ =~= text@.skip(start + "<SEARCH_QUERY>"@.len()));
    }
    let e = match find_first(rest, "</SEARCH_QUERY>") {
        Some(e) => e,
        None => {
            return None;
        },
    };
    proof {
        crate::text::lemma_find_from_correct(rest@, "</SEARCH_QUERY>"@, 0);
    }
    let piece = rest.substring_char(0, e);
    proof {
        assert(piece@ =~= rest@.take(e as int));
    }
    let q = trim_str(piece);
    if q.unicode_len() > 0 {
        Some(String::from_str(q))
    } else {
        None
    }
}

// ---------------------------------------------------------------------------
// decoding the instructions
// ---------------------------------------------------------------------------
/// An instruction entry document: the four fields, each a string.
pub open spec fn spec_instr_ok(j: Json) -> bool {
    &&& spec_req_text_ok(j, "code"@)
    &&& spec_req_text_ok(j, "action"@)
    &&& spec_req_text_ok(j, "label"@)
    &&& spec_req_text_ok(j, "reason"@)
}

/// The decoded entry matches the document field for field.
pub open spec fn instr_matches(r: StockInstructionResult, j: Json) -> bool {
    &&& r.code@ == spec_req_text(j, "code"@)
    &&& r.action@ == spec_req_text(j, "action"@)
    &&& r.label@ == spec_req_text(j, "label"@)
    &&& r.reason@ == spec_req_text(j, "reason"@)
}

/// The extracted array text decodes: it is a JSON array whose every
/// element is a well-shaped instruction entry.
pub open spec fn spec_instrs_ok(s: Seq<char>) -> bool {
    json_of(s) matches Some(d) && d matches Json::Arr(items) && (forall|i: int|
        0 <= i < items@.len() ==> spec_instr_ok(#[trigger] items@[i]))
}

/// The decoded list matches the array element for element.
pub open spec fn instrs_match(rs: Seq<StockInstructionResult>, s: Seq<char>) -> bool {
    json_of(s) matches Some(d) && d matches Json::Arr(items) && rs.len() == items@.len() && (
    forall|i: int| 0 <= i < items@.len() ==> instr_matches(#[trigger] rs[i], items@[i]))
}

fn decode_instr(j: &Json) -> (r: Result<StockInstructionResult, Malformed>)
    ensures
        r is Ok <==> spec_instr_ok(*j),
        r matches Ok(ins) ==> instr_matches(ins, *j),
{
    let code = match crate::decode::get_req_text(j, "code") {
        Ok(s) => s,
        Err(e) => {
            return Err(e);
        },
    };
    let action = match crate::decode::get_req_text(j, "action") {
        Ok(s) => s,
        Err(e) => {
            return Err(e);
        },
    };
    let label = match crate::decode::get_req_text(j, "label") {
        Ok(s) => s,
        Err(e) => {
            return Err(e);
        },
    };
    let reason = match crate::decode::get_req_text(j, "reason") {
        Ok(s) => s,
        Err(e) => {
            return Err(e);
        },
    };
    Ok(StockInstructionResult { code, action, label, reason })
}

/// Decodes the batch answer: extracts the array span and decodes every
/// entry.  The error text distinguishes a missing array from a malformed
/// one and carries the head of the offending text.
pub fn parse_batch_instructions(content: &str) -> (r: Result<
    Vec<StockInstructionResult>,
    String,
>)
    ensures
        spec_extract_json_array(content@) is None ==> (r matches Err(e) && e@
            == "Cannot find JSON array in AI response"@),
        (spec_extract_json_array(content@) is Some && spec_instrs_ok(
            spec_extract_json_array(content@)->Some_0,
        )) ==> (r matches Ok(rs) && instrs_match(rs@, spec_extract_json_array(content@)->Some_0)),
        (spec_extract_json_array(content@) is Some && !spec_instrs_ok(
            spec_extract_json_array(content@)->Some_0,
        )) ==> (r matches Err(e) && e@ == "Instruction parse error: content: "@ + spec_truncate(
            spec_extract_json_array(content@)->Some_0,
            200,
        )),
{
    let json_str = match extract_json_array(content) {
        Ok(s) => s,
        Err(e) => {
            return Err(e);
        },
    };
    let items: Vec<Json> = match parse_json(json_str.as_str()) {
        Some(d) => match d {
            Json::Arr(items) => items,
            _ => {
                let mut e = String::new();
                e.append("Instruction parse error: content: ");
                let head = truncate_str(json_str.as_str(), 200);
                e.append(head.as_str());
                return Err(e);
            },
        },
        None => {
            let mut e = String::new();
            e.append("Instruction parse error: content: ");
            let head = truncate_str(json_str.as_str(), 200);
            e.append(head.as_str());
            return Err(e);
        },
    };
    let n = items.len();
    let mut out: Vec<StockInstructionResult> = Vec::new();
    let mut i: usize = 0;
    while i < n
        invariant
            i <= n,
            n == items@.len(),
            out@.len() == i,
            json_of(json_str@) matches Some(d) && d is Arr && d->Arr_0@ == items@,
            spec_extract_json_array(content@) == Some(json_str@),
            forall|k: int| 0 <= k < i ==> spec_instr_ok(#[trigger] items@[k]),
            forall|k: int| 0 <= k < i ==> instr_matches(#[trigger] out@[k], items@[k]),
        decreases n - i,
    {
        match decode_instr(&items[i]) {
            Ok(ins) => {
                out.push(ins);
            },
            Err(_) => {
                let mut e = String::new();
                e.append("Instruction parse error: content: ");
                let head = truncate_str(json_str.as_str(), 200);
                e.append(head.as_str());
                return Err(e);
            },
        }
        i += 1;
    }
    Ok(out)
}

} // verus!
