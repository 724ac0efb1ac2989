//! The chat-completions conversation model: messages, tool calls, token
//! usage accounting, and the progress events a run emits.

use vstd::prelude::*;

verus! {

/// The function half of a tool call: a tool name and a JSON-encoded
/// argument string.
#[derive(Clone)]
pub struct FunctionCall {
    pub name: String,
    pub arguments: String,
}

/// A model-issued tool call, correlated by an opaque `id`.
#[derive(Clone)]
pub struct ToolCall {
    pub id: String,
    pub call_type: String,
    pub function: FunctionCall,
}

/// One conversation message.  `tool_call_id` and `name` are set only on
/// `tool` messages; `tool_calls` only on assistant messages that request
/// tool invocations.
pub struct ChatMessage {
    pub role: String,
    pub content: Option<String>,
    pub tool_calls: Option<Vec<ToolCall>>,
    pub tool_call_id: Option<String>,
    pub name: Option<String>,
}

/// A plain text message: the given role and content, nothing else set.
pub open spec fn is_text_msg(m: ChatMessage, role: Seq<char>, content: Seq<char>) -> bool {
    &&& m.role@ == role
    &&& m.content matches Some(c) && c@ == content
    &&& m.tool_calls is None
    &&& m.tool_call_id is None
    &&& m.name is None
}

impl ChatMessage {
    /// A `system` message with the given instructions.
    pub fn system(content: &str) -> (r: ChatMessage)
        ensures
            is_text_msg(r, "system"@, content@),
    {
        ChatMessage {
            role: String::from_str("system"),
            content: Some(String::from_str(content)),
            tool_calls: None,
            tool_call_id: None,
            name: None,
        }
    }

    /// A `user` message with the given text.
    pub fn user(content: &str) -> (r: ChatMessage)
        ensures
            is_text_msg(r, "user"@, content@),
    {
        ChatMessage {
            role: String::from_str("user"),
            content: Some(String::from_str(content)),
            tool_calls: None,
            tool_call_id: None,
            name: None,
        }
    }

    /// An `assistant` message carrying plain text.
    pub fn assistant_text(content: &str) -> (r: ChatMessage)
        ensures
            is_text_msg(r, "assistant"@, content@),
    {
        ChatMessage {
            role: String::from_str("assistant"),
            content: Some(String::from_str(content)),
            tool_calls: None,
            tool_call_id: None,
            name: None,
        }
    }

    /// An `assistant` message carrying tool calls and no text.
    pub fn assistant_tool_calls(tool_calls: Vec<ToolCall>) -> (r: ChatMessage)
        ensures
            r.role@ == "assistant"@,
            r.content is None,
            r.tool_calls == Some(tool_calls),
            r.tool_call_id is None,
            r.name is None,
    {
        ChatMessage {
            role: String::from_str("assistant"),
            content: None,
            tool_calls: Some(tool_calls),
            tool_call_id: None,
            name: None,
        }
    }

    /// An `assistant` message carrying both optional thinking text and the
    /// tool calls it accompanies.
    pub fn assistant_tool_calls_with_content(content: Option<String>, tool_calls: Vec<ToolCall>) -> (r:
        ChatMessage)
        ensures
            r.role@ == "assistant"@,
            r.content == content,
            r.tool_calls == Some(tool_calls),
            r.tool_call_id is None,
            r.name is None,
    {
        ChatMessage {
            role: String::from_str("assistant"),
            content,
            tool_calls: Some(tool_calls),
            tool_call_id: None,
            name: None,
        }
    }

    /// A `tool` message answering the call `tool_call_id` of tool `name`
    /// with `content`.
    pub fn tool_result(tool_call_id: &str, name: &str, content: &str) -> (r: ChatMessage)
        ensures
            r.role@ == "tool"@,
            r.content matches Some(c) && c@ == content@,
            r.tool_calls is None,
            r.tool_call_id matches Some(i) && i@ == tool_call_id@,
            r.name matches Some(n) && n@ == name@,
    {
        ChatMessage {
            role: String::from_str("tool"),
            content: Some(String::from_str(content)),
            tool_calls: None,
            tool_call_id: Some(String::from_str(tool_call_id)),
            name: Some(String::from_str(name)),
        }
    }
}

/// Prompt, completion and total token counters, accumulated additively
/// across rounds and the streaming phase.
#[derive(Clone, Copy, Debug, PartialEq, Eq, Structural)]
pub struct TokenUsage {
    pub prompt_tokens: u32,
    pub completion_tokens: u32,
    pub total_tokens: u32,
}

/// Addition clamped to the counter range.
pub open spec fn spec_sat_add(a: u32, b: u32) -> u32 {
    if a + b > u32::MAX {
        u32::MAX
    } else {
        (a + b) as u32
    }
}

/// The component-wise clamped sum of two usage snapshots.
pub open spec fn spec_usage_add(a: TokenUsage, b: TokenUsage) -> TokenUsage {
    TokenUsage {
        prompt_tokens: spec_sat_add(a.prompt_tokens, b.prompt_tokens),
        completion_tokens: spec_sat_add(a.completion_tokens, b.completion_tokens),
        total_tokens: spec_sat_add(a.total_tokens, b.total_tokens),
    }
}

/// The all-zero usage.
pub open spec fn spec_usage_zero() -> TokenUsage {
    TokenUsage { prompt_tokens: 0, completion_tokens: 0, total_tokens: 0 }
}

/// The clamped sum of a sequence of usage snapshots.
pub open spec fn spec_usage_total(s: Seq<TokenUsage>) -> TokenUsage
    decreases s.len(),
{
    if s.len() == 0 {
        spec_usage_zero()
    } else {
        spec_usage_add(spec_usage_total(s.drop_last()), s.last())
    }
}

/// The mathematical (unclamped) sum of one counter across snapshots.
pub open spec fn spec_sum_prompt(s: Seq<TokenUsage>) -> int
    decreases s.len(),
{
    if s.len() == 0 {
        0
    } else {
        spec_sum_prompt(s.drop_last()) + s.last().prompt_tokens
    }
}

/// The mathematical sum of the completion counter across snapshots.
pub open spec fn spec_sum_completion(s: Seq<TokenUsage>) -> int
    decreases s.len(),
{
    if s.len() == 0 {
        0
    } else {
        spec_sum_completion(s.drop_last()) + s.last().completion_tokens
    }
}

/// The mathematical sum of the total counter across snapshots.
pub open spec fn spec_sum_total(s: Seq<TokenUsage>) -> int
    decreases s.len(),
{
    if s.len() == 0 {
        0
    } else {
        spec_sum_total(s.drop_last()) + s.last().total_tokens
    }
}

/// Clamping an integer into the counter range.
pub open spec fn spec_clamp_u32(n: int) -> u32 {
    if n > u32::MAX {
        u32::MAX
    } else if n < 0 {
        0
    } else {
        n as u32
    }
}

/// Accumulating snapshots one by one yields the clamped arithmetic sum of
/// every snapshot, in every counter.  The arithmetic sum does not depend on
/// the order of accumulation, so neither does the accumulated result.
pub proof fn lemma_usage_total_is_clamped_sum(s: Seq<TokenUsage>)
    ensures
        spec_sum_prompt(s) >= 0,
        spec_sum_completion(s) >= 0,
        spec_sum_total(s) >= 0,
        spec_usage_total(s).prompt_tokens == spec_clamp_u32(spec_sum_prompt(s)),
        spec_usage_total(s).completion_tokens == spec_clamp_u32(spec_sum_completion(s)),
        spec_usage_total(s).total_tokens == spec_clamp_u32(spec_sum_total(s)),
    decreases s.len(),
{
    if s.len() > 0 {
        lemma_usage_total_is_clamped_sum(s.drop_last());
    }
}

/// Clamped addition of snapshots is commutative.
pub proof fn lemma_usage_add_comm(a: TokenUsage, b: TokenUsage)
    ensures
        spec_usage_add(a, b) == spec_usage_add(b, a),
{
}

/// Clamped addition of snapshots is associative.
pub proof fn lemma_usage_add_assoc(a: TokenUsage, b: TokenUsage, c: TokenUsage)
    ensures
        spec_usage_add(spec_usage_add(a, b), c) == spec_usage_add(a, spec_usage_add(b, c)),
{
}

impl TokenUsage {
    /// The all-zero usage.
    pub fn zero() -> (r: TokenUsage)
        ensures
            r == spec_usage_zero(),
    {
        TokenUsage { prompt_tokens: 0, completion_tokens: 0, total_tokens: 0 }
    }

    /// Adds a snapshot into the accumulator, clamping at the counter range.
    pub fn accumulate(&mut self, other: &TokenUsage)
        ensures
            *final(self) == spec_usage_add(*old(self), *other),
    {
        self.prompt_tokens = self.prompt_tokens.saturating_add(other.prompt_tokens);
        self.completion_tokens = self.completion_tokens.saturating_add(other.completion_tokens);
        self.total_tokens = self.total_tokens.saturating_add(other.total_tokens);
    }
}

/// Accumulates a snapshot into an optional accumulator, starting it when
/// absent, exactly as usage is folded across rounds.
pub fn accumulate_usage(acc: &mut Option<TokenUsage>, snapshot: &TokenUsage)
    ensures
        *final(acc) == Some(
            match *old(acc) {
                Some(u) => spec_usage_add(u, *snapshot),
                None => *snapshot,
            },
        ),
{
    match acc {
        Some(u) => {
            u.accumulate(snapshot);
            proof {
                assert(*final(acc) matches Some(x) && x == spec_usage_add(
                    old(acc)->Some_0,
                    *snapshot,
                ));
            }
        },
        None => {
            *acc = Some(*snapshot);
        },
    }
}

/// A progress event for the observer: its tag, optional text, terminal
/// flag, optional usage snapshot, and the tool concerned, if any.
pub struct AIStreamEvent {
    pub event_type: String,
    pub content: Option<String>,
    pub done: bool,
    pub usage: Option<TokenUsage>,
    pub tool_name: Option<String>,
}

/// A non-terminal event with the given tag, text, and optional tool name.
pub open spec fn is_progress_event(
    e: AIStreamEvent,
    tag: Seq<char>,
    content: Seq<char>,
    tool: Option<Seq<char>>,
) -> bool {
    &&& e.event_type@ == tag
    &&& e.content matches Some(c) && c@ == content
    &&& !e.done
    &&& e.usage is None
    &&& match tool {
        Some(t) => e.tool_name matches Some(n) && n@ == t,
        None => e.tool_name is None,
    }
}

impl AIStreamEvent {
    /// A non-terminal progress event.
    pub fn progress(event_type: &str, content: String, tool_name: Option<String>) -> (r:
        AIStreamEvent)
        ensures
            r.event_type@ == event_type@,
            r.content matches Some(c) && c@ == content@,
            !r.done,
            r.usage is None,
            r.tool_name == tool_name,
    {
        AIStreamEvent {
            event_type: String::from_str(event_type),
            content: Some(content),
            done: false,
            usage: None,
            tool_name,
        }
    }
}

} // verus!
