//! The wire form of requests to the chat-completions endpoint: messages,
//! tool calls, and the whole request body, built as exact JSON text.

use vstd::prelude::*;

use crate::orchestrator::RequestPlan;
use crate::protocol::{ChatMessage, FunctionCall, ToolCall};
use crate::registry::{ToolDefinition, spec_tool_def_json};
use crate::wire::{append_key, append_num, append_quoted, spec_key, spec_num, spec_quoted};

verus! {

/// The wire form of the function half of a tool call.
pub open spec fn spec_function_json(f: FunctionCall) -> Seq<char> {
    "{"@ + spec_key("name"@) + spec_quoted(f.name@) + ","@ + spec_key("arguments"@) + spec_quoted(
        f.arguments@,
    ) + "}"@
}

/// The wire form of one tool call.
pub open spec fn spec_tool_call_json(tc: ToolCall) -> Seq<char> {
    "{"@ + spec_key("id"@) + spec_quoted(tc.id@) + ","@ + spec_key("type"@) + spec_quoted(
        tc.call_type@,
    ) + ","@ + spec_key("function"@) + spec_function_json(tc.function) + "}"@
}

/// The comma-joined wire forms of a tool-call list.
pub open spec fn spec_tool_calls_json(s: Seq<ToolCall>) -> Seq<char>
    decreases s.len(),
{
    if s.len() == 0 {
        Seq::empty()
    } else if s.len() == 1 {
        spec_tool_call_json(s[0])
    } else {
        spec_tool_calls_json(s.drop_last()) + ","@ + spec_tool_call_json(s.last())
    }
}

proof fn lemma_tool_calls_json_push(s: Seq<ToolCall>, x: ToolCall)
    ensures
        spec_tool_calls_json(s.push(x)) == if s.len() == 0 {
            spec_tool_call_json(x)
        } else {
            spec_tool_calls_json(s) + ","@ + spec_tool_call_json(x)
        },
{
    assert(s.push(x).last() == x);
    if s.len() == 0 {
        assert(s.push(x)[0] == x);
    } else {
        assert(s.push(x).drop_last() =~= s);
    }
}

/// The wire form of one message.  Absent optional fields are left out.
pub open spec fn spec_message_json(m: ChatMessage) -> Seq<char> {
    "{"@ + spec_key("role"@) + spec_quoted(m.role@) + (match m.content {
        Some(c) => ","@ + spec_key("content"@) + spec_quoted(c@),
        None => Seq::empty(),
    }) + (match m.tool_calls {
        Some(tcs) => ","@ + spec_key("tool_calls"@) + "["@ + spec_tool_calls_json(tcs@) + "]"@,
        None => Seq::empty(),
    }) + (match m.tool_call_id {
        Some(i) => ","@ + spec_key("tool_call_id"@) + spec_quoted(i@),
        None => Seq::empty(),
    }) + (match m.name {
        Some(n) => ","@ + spec_key("name"@) + spec_quoted(n@),
        None => Seq::empty(),
    }) + "}"@
}

/// The comma-joined wire forms of a message list.
pub open spec fn spec_messages_json(s: Seq<ChatMessage>) -> Seq<char>
    decreases s.len(),
{
    if s.len() == 0 {
        Seq::empty()
    } else if s.len() == 1 {
        spec_message_json(s[0])
    } else {
        spec_messages_json(s.drop_last()) + ","@ + spec_message_json(s.last())
    }
}

proof fn lemma_messages_json_push(s: Seq<ChatMessage>, x: ChatMessage)
    ensures
        spec_messages_json(s.push(x)) == if s.len() == 0 {
            spec_message_json(x)
        } else {
            spec_messages_json(s) + ","@ + spec_message_json(x)
        },
{
    assert(s.push(x).last() == x);
    if s.len() == 0 {
        assert(s.push(x)[0] == x);
    } else {
        assert(s.push(x).drop_last() =~= s);
    }
}

/// The comma-joined wire forms of a tool-definition list.
pub open spec fn spec_tools_json(s: Seq<ToolDefinition>) -> Seq<char>
    decreases s.len(),
{
    if s.len() == 0 {
        Seq::empty()
    } else if s.len() == 1 {
        spec_tool_def_json(s[0])
    } else {
        spec_tools_json(s.drop_last()) + ","@ + spec_tool_def_json(s.last())
    }
}

proof fn lemma_tools_json_push(s: Seq<ToolDefinition>, x: ToolDefinition)
    ensures
        spec_tools_json(s.push(x)) == if s.len() == 0 {
            spec_tool_def_json(x)
        } else {
            spec_tools_json(s) + ","@ + spec_tool_def_json(x)
        },
{
    assert(s.push(x).last() == x);
    if s.len() == 0 {
        assert(s.push(x)[0] == x);
    } else {
        assert(s.push(x).drop_last() =~= s);
    }
}

fn append_function_json(out: &mut String, f: &FunctionCall)
    ensures
        final(out)@ == old(out)@ + spec_function_json(*f),
{
    out.append("{");
    append_key(out, "name");
    append_quoted(out, f.name.as_str());
    out.append(",");
    append_key(out, "arguments");
    append_quoted(out, f.arguments.as_str());
    out.append("}");
    proof {
        assert(final(out)@ =~= old(out)@ + spec_function_json(*f));
    }
}

fn append_tool_call_json(out: &mut String, tc: &ToolCall)
    ensures
        final(out)@ == old(out)@ + spec_tool_call_json(*tc),
{
    out.append("{");
    append_key(out, "id");
    append_quoted(out, tc.id.as_str());
    out.append(",");
    append_key(out, "type");
    append_quoted(out, tc.call_type.as_str());
    out.append(",");
    append_key(out, "function");
    append_function_json(out, &tc.function);
    out.append("}");
    proof {
        assert(final(out)@ =~= old(out)@ + spec_tool_call_json(*tc));
    }
}

fn append_tool_calls_json(out: &mut String, tcs: &Vec<ToolCall>)
    ensures
        final(out)@ == old(out)@ + spec_tool_calls_json(tcs@),
{
    let n = tcs.len();
    let mut i: usize = 0;
    proof {
        assert(tcs@.take(0) =~= Seq::<ToolCall>::empty());
        assert(out@ =~= old(out)@ + spec_tool_calls_json(tcs@.take(0)));
    }
    while i < n
        invariant
            i <= n,
            n == tcs@.len(),
            out@ == old(out)@ + spec_tool_calls_json(tcs@.take(i as int)),
        decreases n - i,
    {
        if i > 0 {
            out.append(",");
            proof {
                reveal_strlit(",");
            }
        }
        append_tool_call_json(out, &tcs[i]);
        proof {
            assert(tcs@.take(i + 1) =~= tcs@.take(i as int).push(tcs@[i as int]));
            lemma_tool_calls_json_push(tcs@.take(i as int), tcs@[i as int]);
            assert(out@ =~= old(out)@ + spec_tool_calls_json(tcs@.take(i + 1)));
        }
        i += 1;
    }
    proof {
        assert(tcs@.take(n as int) =~= tcs@);
    }
}

impl ChatMessage {
    /// This message in the wire form a request carries.  Optional fields
    /// that are absent do not appear.
    #[verifier::rlimit(100)]
    #[verifier::spinoff_prover]
    pub fn wire_json(&self) -> (r: String)
        ensures
            r@ == spec_message_json(*self),
    {
        let mut out = String::new();
        out.append("{");
        append_key(&mut out, "role");
        append_quoted(&mut out, self.role.as_str());
        let ghost p0 = "{"@ + spec_key("role"@) + spec_quoted(self.role@);
        proof {
            assert(out@ =~= p0);
        }
        let ghost p1 = p0 + (match &self.content {
            Some(c) => ","@ + spec_key("content"@) + spec_quoted(c@),
            None => Seq::empty(),
        });
        match &self.content {
            Some(c) => {
                out.append(",");
                append_key(&mut out, "content");
                append_quoted(&mut out, c.as_str());
                proof {
                    assert(out@ =~= p1);
                }
            },
            None => {
                proof {
                    assert(out@ =~= p1);
                }
            },
        }
        let ghost p2 = p1 + (match &self.tool_calls {
            Some(tcs) => ","@ + spec_key("tool_calls"@) + "["@ + spec_tool_calls_json(tcs@)
                + "]"@,
            None => Seq::empty(),
        });
        match &self.tool_calls {
            Some(tcs) => {
                out.append(",");
                append_key(&mut out, "tool_calls");
                out.append("[");
                append_tool_calls_json(&mut out, tcs);
                out.append("]");
                proof {
                    assert(out@ =~= p2);
                }
            },
            None => {
                proof {
                    assert(out@ =~= p2);
                }
            },
        }
        let ghost p3 = p2 + (match &self.tool_call_id {
            Some(i) => ","@ + spec_key("tool_call_id"@) + spec_quoted(i@),
            None => Seq::empty(),
        });
        match &self.tool_call_id {
            Some(i) => {
                out.append(",");
                append_key(&mut out, "tool_call_id");
                append_quoted(&mut out, i.as_str());
                proof {
                    assert(out@ =~= p3);
                }
            },
            None => {
                proof {
                    assert(out@ =~= p3);
                }
            },
        }
        let ghost p4 = p3 + (match &self.name {
            Some(n) => ","@ + spec_key("name"@) + spec_quoted(n@),
            None => Seq::empty(),
        });
        match &self.name {
            Some(n) => {
                out.append(",");
                append_key(&mut out, "name");
                append_quoted(&mut out, n.as_str());
                proof {
                    assert(out@ =~= p4);
                }
            },
            None => {
                proof {
                    assert(out@ =~= p4);
                }
            },
        }
        out.append("}");
        proof {
            assert(out@ =~= p4 + "}"@);
            assert(spec_message_json(*self) == p4 + "}"@);
        }
        out
    }
}

#[verifier::rlimit(100)]
#[verifier::spinoff_prover]
fn append_messages_json(out: &mut String, ms: &Vec<ChatMessage>)
    ensures
        final(out)@ == old(out)@ + spec_messages_json(ms@),
{
    let n = ms.len();
    let mut i: usize = 0;
    proof {
        assert(ms@.take(0) =~= Seq::<ChatMessage>::empty());
        assert(out@ =~= old(out)@ + spec_messages_json(ms@.take(0)));
    }
    while i < n
        invariant
            i <= n,
            n == ms@.len(),
            out@ == old(out)@ + spec_messages_json(ms@.take(i as int)),
        decreases n - i,
    {
        if i > 0 {
            out.append(",");
            proof {
                reveal_strlit(",");
            }
        }
        let piece = ms[i].wire_json();
        out.append(piece.as_str());
        proof {
            assert(ms@.take(i + 1) =~= ms@.take(i as int).push(ms@[i as int]));
            lemma_messages_json_push(ms@.take(i as int), ms@[i as int]);
            assert(out@ =~= old(out)@ + spec_messages_json(ms@.take(i + 1)));
        }
        i += 1;
    }
    proof {
        assert(ms@.take(n as int) =~= ms@);
    }
}

#[verifier::rlimit(100)]
#[verifier::spinoff_prover]
fn append_tools_json(out: &mut String, defs: &Vec<ToolDefinition>)
    ensures
        final(out)@ == old(out)@ + spec_tools_json(defs@),
{
    let n = defs.len();
    let mut i: usize = 0;
    proof {
        assert(defs@.take(0) =~= Seq::<ToolDefinition>::empty());
        assert(out@ =~= old(out)@ + spec_tools_json(defs@.take(0)));
    }
    while i < n
        invariant
            i <= n,
            n == defs@.len(),
            out@ == old(out)@ + spec_tools_json(defs@.take(i as int)),
        decreases n - i,
    {
        if i > 0 {
            out.append(",");
            proof {
                reveal_strlit(",");
            }
        }
        let piece = defs[i].wire_json();
        out.append(piece.as_str());
        proof {
            assert(defs@.take(i + 1) =~= defs@.take(i as int).push(defs@[i as int]));
            lemma_tools_json_push(defs@.take(i as int), defs@[i as int]);
            assert(out@ =~= old(out)@ + spec_tools_json(defs@.take(i + 1)));
        }
        i += 1;
    }
    proof {
        assert(defs@.take(n as int) =~= defs@);
    }
}

// ---------------------------------------------------------------------------
// number-literal checking and the request body
// ---------------------------------------------------------------------------
/// A tiny acceptor for decimal number literals: optional minus, integer
/// digits, optional fraction.  `state` 0 expects a sign or digit, 1 is in
/// the integer digits, 2 just crossed the dot, 3 is in the fraction.
pub open spec fn spec_num_dfa(s: Seq<char>, i: int, state: int) -> bool
    decreases s.len() - i,
{
    if i < 0 || i >= s.len() {
        state == 1 || state == 3
    } else {
        let c = s[i];
        if state == 0 {
            if c == '-' {
                spec_num_dfa(s, i + 1, 4)
            } else if '0' <= c <= '9' {
                spec_num_dfa(s, i + 1, 1)
            } else {
                false
            }
        } else if state == 4 {
            if '0' <= c <= '9' {
                spec_num_dfa(s, i + 1, 1)
            } else {
                false
            }
        } else if state == 1 {
            if '0' <= c <= '9' {
                spec_num_dfa(s, i + 1, 1)
            } else if c == '.' {
                spec_num_dfa(s, i + 1, 2)
            } else {
                false
            }
        } else if state == 2 {
            if '0' <= c <= '9' {
                spec_num_dfa(s, i + 1, 3)
            } else {
                false
            }
        } else if state == 3 {
            if '0' <= c <= '9' {
                spec_num_dfa(s, i + 1, 3)
            } else {
                false
            }
        } else {
            false
        }
    }
}

/// Whether `s` is a plain decimal number literal.
pub open spec fn spec_is_number_text(s: Seq<char>) -> bool {
    spec_num_dfa(s, 0, 0)
}

/// Checks a decimal number literal.
pub fn is_number_text(s: &str) -> (r: bool)
    ensures
        r == spec_is_number_text(s@),
{
    let n = s.unicode_len();
    let mut i: usize = 0;
    let mut state: u8 = 0;
    while i < n
        invariant
            i <= n,
            n == s@.len(),
            state == 0 || state == 1 || state == 2 || state == 3 || state == 4,
            spec_num_dfa(s@, 0, 0) == spec_num_dfa(s@, i as int, state as int),
        decreases n - i,
    {
        let c = s.get_char(i);
        if state == 0 {
            if c == '-' {
                state = 4;
            } else if '0' <= c && c <= '9' {
                state = 1;
            } else {
                return false;
            }
        } else if state == 4 {
            if '0' <= c && c <= '9' {
                state = 1;
            } else {
                return false;
            }
        } else if state == 1 {
            if '0' <= c && c <= '9' {
                state = 1;
            } else if c == '.' {
                state = 2;
            } else {
                return false;
            }
        } else if state == 2 {
            if '0' <= c && c <= '9' {
                state = 3;
            } else {
                return false;
            }
        } else {
            if '0' <= c && c <= '9' {
                state = 3;
            } else {
                return false;
            }
        }
        i += 1;
    }
    state == 1 || state == 3
}

/// The whole request body.  The temperature is carried as a decimal
/// literal and left out when the text is not one, so the body is always
/// well-formed JSON.
pub open spec fn spec_request_json(
    model: Seq<char>,
    temperature: Option<Seq<char>>,
    messages: Seq<ChatMessage>,
    plan: RequestPlan,
    tools: Option<Seq<ToolDefinition>>,
) -> Seq<char> {
    "{"@ + spec_key("model"@) + spec_quoted(model) + ","@ + spec_key("messages"@) + "["@
        + spec_messages_json(messages) + "]"@ + ","@ + spec_key("max_tokens"@) + spec_num(
        plan.max_tokens as u64,
    ) + (match temperature {
        Some(t) => if spec_is_number_text(t) {
            ","@ + spec_key("temperature"@) + t
        } else {
            Seq::empty()
        },
        None => Seq::empty(),
    }) + ","@ + spec_key("stream"@) + (if plan.stream {
        "true"@
    } else {
        "false"@
    }) + (match tools {
        Some(ds) => ","@ + spec_key("tools"@) + "["@ + spec_tools_json(ds) + "]"@,
        None => Seq::empty(),
    }) + "}"@
}

/// Builds the JSON body of one request: the model name, the whole
/// conversation, the token ceiling and sampling temperature, the stream
/// flag, and the tool catalog when the plan includes one.
#[verifier::rlimit(100)]
#[verifier::spinoff_prover]
pub fn build_request_json(
    model: &str,
    temperature: Option<&str>,
    messages: &Vec<ChatMessage>,
    plan: &RequestPlan,
    tools: Option<&Vec<ToolDefinition>>,
) -> (r: String)
    ensures
        r@ == spec_request_json(
            model@,
            match temperature {
                Some(t) => Some(t@),
                None => None,
            },
            messages@,
            *plan,
            match tools {
                Some(ds) => Some(ds@),
                None => None,
            },
        ),
{
    let mut out = String::new();
    out.append("{");
    append_key(&mut out, "model");
    append_quoted(&mut out, model);
    out.append(",");
    append_key(&mut out, "messages");
    out.append("[");
    append_messages_json(&mut out, messages);
    out.append("]");
    out.append(",");
    append_key(&mut out, "max_tokens");
    append_num(&mut out, plan.max_tokens as u64);
    match temperature {
        Some(t) => {
            if is_number_text(t) {
                out.append(",");
                append_key(&mut out, "temperature");
                out.append(t);
            }
        },
        None => {},
    }
    out.append(",");
    append_key(&mut out, "stream");
    if plan.stream {
        out.append("true");
    } else {
        out.append("false");
    }
    match tools {
        Some(ds) => {
            out.append(",");
            append_key(&mut out, "tools");
            out.append("[");
            append_tools_json(&mut out, ds);
            out.append("]");
        },
        None => {},
    }
    out.append("}");
    proof {
        assert(out@ =~= spec_request_json(
            model@,
            match temperature {
                Some(t) => Some(t@),
                None => None,
            },
            messages@,
            *plan,
            match tools {
                Some(ds) => Some(ds@),
                None => None,
            },
        ));
    }
    out
}

} // verus!
