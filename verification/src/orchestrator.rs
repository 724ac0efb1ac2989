//! The agent run state machine.  A run seeds a conversation, drives
//! tool-calling rounds up to a budget, then switches to a streaming
//! finalization phase.  The embedding application performs each network
//! call and hands the response text back; every decision is made here.

use vstd::prelude::*;

use crate::decode::{decode_response, spec_opt_obj, spec_opt_text, spec_response_ok, tool_calls_match};
use crate::json::{Json, json_of, parse_json, spec_get};
use crate::protocol::{AIStreamEvent, ChatMessage, TokenUsage, ToolCall, is_progress_event, is_text_msg, spec_usage_add};
use crate::reflection::{ReflectionState, spec_observe};
use crate::sse::{StreamDecoder, spec_chunk_usage};
use crate::summarize::{spec_doc_of, spec_summarize, summarize_tool_result};
use crate::text::{spec_contains, spec_find_from, spec_match_at, spec_trim_end, str_eq, take_chars};

verus! {

/// The two agent use cases, and the board-relative variant of the second.
#[derive(Clone, Copy, PartialEq, Eq, Structural)]
pub enum UseCase {
    Diagnose,
    Pick,
    Similar,
}

/// Where a run stands.
#[derive(Clone, Copy, PartialEq, Eq, Structural)]
pub enum RunPhase {
    ToolRounds,
    Finalizing,
    Streaming,
    Completed,
    Failed,
}

/// How the next request is to be issued.
pub struct RequestPlan {
    pub max_tokens: u32,
    pub stream: bool,
    pub include_tools: bool,
}

/// What to do at the top of a round.
pub enum RoundDirective {
    Request(RequestPlan),
    Finalize,
}

/// What a round's response led to.
pub enum RoundOutcome {
    ToolCalls(Vec<AIStreamEvent>),
    NoMoreTools,
    Fatal(String),
}

/// How a finished run is to be reported.
#[derive(Clone, Copy, PartialEq, Eq, Structural)]
pub enum TerminalKind {
    Finished,
    Stopped,
    Failed,
}

/// The round budget of a use case.
pub open spec fn spec_round_budget(uc: UseCase) -> usize {
    match uc {
        UseCase::Diagnose => 8,
        UseCase::Pick => 15,
        UseCase::Similar => 15,
    }
}

/// A non-2xx response is fatal and surfaces the body verbatim.
pub fn classify_http(status: u16, body: &str) -> (r: Option<String>)
    ensures
        (200 <= status < 300) <==> r is None,
        r matches Some(e) ==> e@ == "AI API error: "@ + body@,
{
    if 200 <= status && status < 300 {
        None
    } else {
        let mut out = String::new();
        out.append("AI API error: ");
        out.append(body);
        Some(out)
    }
}

// ---------------------------------------------------------------------------
// reading a round response document
// ---------------------------------------------------------------------------
/// The response body parses and has the response shape.
pub open spec fn spec_round_parse_ok(body: Seq<char>) -> bool {
    json_of(body) matches Some(doc) && spec_response_ok(doc)
}

/// The parsed response document.
pub open spec fn spec_round_doc(body: Seq<char>) -> Json {
    match json_of(body) {
        Some(doc) => doc,
        None => Json::Null,
    }
}

/// The first choice of a response document.
pub open spec fn spec_choice0(doc: Json) -> Option<Json> {
    match spec_get(doc, "choices"@) {
        Some(Json::Arr(items)) => if items@.len() > 0 {
            Some(items@[0])
        } else {
            None
        },
        _ => None,
    }
}

/// The message object of the first choice.
pub open spec fn spec_round_msg(doc: Json) -> Option<Json> {
    match spec_choice0(doc) {
        Some(c) => spec_opt_obj(c, "message"@),
        None => None,
    }
}

/// The tool-call array of a message object, when it is one.
pub open spec fn spec_tool_calls_arr(m: Json) -> Option<Seq<Json>> {
    match spec_get(m, "tool_calls"@) {
        Some(Json::Arr(items)) => Some(items@),
        _ => None,
    }
}

/// Whether the message drives another tool round: it carries a nonempty
/// tool-call list.
pub open spec fn spec_round_has_tools(m: Json) -> bool {
    spec_tool_calls_arr(m) matches Some(a) && a.len() > 0
}

/// The message's free-text content.
pub open spec fn spec_round_content(m: Json) -> Option<Seq<char>> {
    spec_opt_text(m, "content"@)
}

/// The error text for a body that does not decode.
pub open spec fn spec_parse_err(body: Seq<char>) -> Seq<char> {
    "AI response parse error: body: "@ + body.take(vstd::math::min(500, body.len() as int))
}

/// Usage accumulation across rounds: the snapshot folds into the
/// accumulator, which starts at the first snapshot.
pub open spec fn spec_acc_usage(acc: Option<TokenUsage>, snap: Option<TokenUsage>) -> Option<
    TokenUsage,
> {
    match snap {
        Some(u) => Some(
            match acc {
                Some(a) => spec_usage_add(a, u),
                None => u,
            },
        ),
        None => acc,
    }
}

// ---------------------------------------------------------------------------
// the run
// ---------------------------------------------------------------------------
/// One agent run: the conversation it owns, its round counter and phase,
/// the usage it accumulates, its reflection heuristic, and the tool calls
/// of the round being dispatched.
pub struct AgentRun {
    pub use_case: UseCase,
    pub max_tokens: u32,
    pub round: usize,
    pub phase: RunPhase,
    pub messages: Vec<ChatMessage>,
    pub usage: Option<TokenUsage>,
    pub reflection: ReflectionState,
    pub pending: Vec<ToolCall>,
    pub stopped_by_user: bool,
    pub failure: Option<String>,
}

/// The fields a response step never touches.
pub open spec fn same_config(a: AgentRun, b: AgentRun) -> bool {
    &&& a.use_case == b.use_case
    &&& a.max_tokens == b.max_tokens
    &&& a.stopped_by_user == b.stopped_by_user
}

impl AgentRun {
    /// Seeds a run with its system instructions and the task trigger.
    pub fn new(use_case: UseCase, max_tokens: u32, system_prompt: &str, user_prompt: &str) -> (r:
        AgentRun)
        ensures
            r.use_case == use_case,
            r.max_tokens == max_tokens,
            r.round == 0,
            r.phase == RunPhase::ToolRounds,
            r.messages@.len() == 2,
            is_text_msg(r.messages@[0], "system"@, system_prompt@),
            is_text_msg(r.messages@[1], "user"@, user_prompt@),
            r.usage is None,
            r.reflection.empty_count == 0 && !r.reflection.injected,
            r.pending@.len() == 0,
            !r.stopped_by_user,
            r.failure is None,
    {
        let mut messages: Vec<ChatMessage> = Vec::new();
        messages.push(ChatMessage::system(system_prompt));
        messages.push(ChatMessage::user(user_prompt));
        AgentRun {
            use_case,
            max_tokens,
            round: 0,
            phase: RunPhase::ToolRounds,
            messages,
            usage: None,
            reflection: ReflectionState::new(),
            pending: Vec::new(),
            stopped_by_user: false,
            failure: None,
        }
    }

    /// The round budget of this run.
    pub fn round_budget(&self) -> (r: usize)
        ensures
            r == spec_round_budget(self.use_case),
    {
        match self.use_case {
            UseCase::Diagnose => 8,
            UseCase::Pick => 15,
            UseCase::Similar => 15,
        }
    }

    /// Decides the top of a round.  A set cancellation flag, or an
    /// exhausted round budget, moves the run to finalization without any
    /// error; otherwise one more non-streaming request goes out with the
    /// tool catalog attached.  A request is only ever directed while the
    /// executed rounds are below the budget.
    pub fn begin_round(&mut self, cancelled: bool) -> (d: RoundDirective)
        requires
            old(self).phase == RunPhase::ToolRounds,
        ensures
            cancelled ==> (d is Finalize && final(self).phase == RunPhase::Finalizing && final(self).stopped_by_user),
            !cancelled && old(self).round >= spec_round_budget(old(self).use_case) ==> (d
                is Finalize && final(self).phase == RunPhase::Finalizing && final(self).stopped_by_user
                == old(self).stopped_by_user),
            !cancelled && old(self).round < spec_round_budget(old(self).use_case) ==> (d
                matches RoundDirective::Request(p) && p.max_tokens == old(self).max_tokens
                && !p.stream && p.include_tools && *final(self) == *old(self)),
            final(self).messages == old(self).messages,
            final(self).round == old(self).round,
            final(self).usage == old(self).usage,
            final(self).use_case == old(self).use_case,
            final(self).max_tokens == old(self).max_tokens,
            final(self).reflection == old(self).reflection,
            final(self).pending == old(self).pending,
            final(self).failure == old(self).failure,
    {
        if cancelled {
            self.stopped_by_user = true;
            self.phase = RunPhase::Finalizing;
            return RoundDirective::Finalize;
        }
        if self.round >= self.round_budget() {
            self.phase = RunPhase::Finalizing;
            return RoundDirective::Finalize;
        }
        RoundDirective::Request(
            RequestPlan { max_tokens: self.max_tokens, stream: false, include_tools: true },
        )
    }

    /// Marks the run failed with the given error.
    pub fn record_failure(&mut self, error: String)
        ensures
            final(self).phase == RunPhase::Failed,
            final(self).failure == Some(error),
            final(self).messages == old(self).messages,
            final(self).usage == old(self).usage,
            final(self).round == old(self).round,
            final(self).reflection == old(self).reflection,
            final(self).pending == old(self).pending,
            same_config(*final(self), *old(self)),
    {
        self.phase = RunPhase::Failed;
        self.failure = Some(error);
    }

    /// Consumes one round response.  A body that does not decode, an
    /// empty choice list, or a choice without a message is fatal.  A
    /// nonempty tool-call list appends the assistant turn (with its
    /// thinking text, outside the diagnosis use case) and queues the
    /// calls for dispatch, counting one more executed round; plain text
    /// ends the tool phase.  A usage snapshot accumulates additively
    /// either way.
    #[verifier::rlimit(100)]
    pub fn on_round_response(&mut self, body: &str) -> (outcome: RoundOutcome)
        requires
            old(self).phase == RunPhase::ToolRounds,
            old(self).round < spec_round_budget(old(self).use_case),
        ensures
            same_config(*final(self), *old(self)),
            final(self).max_tokens == old(self).max_tokens,
            outcome matches RoundOutcome::Fatal(e) ==> (final(self).failure matches Some(f) && f@
                == e@ && final(self).pending == old(self).pending),
            !(outcome is Fatal) ==> final(self).failure == old(self).failure,
            outcome is NoMoreTools ==> final(self).pending == old(self).pending,
            !spec_round_parse_ok(body@) ==> (outcome matches RoundOutcome::Fatal(e) && e@
                == spec_parse_err(body@) && final(self).phase == RunPhase::Failed && final(self).messages == old(self).messages && final(self).usage == old(self).usage && final(self).round == old(self).round && final(self).reflection == old(self).reflection),
            spec_round_parse_ok(body@) ==> final(self).usage == spec_acc_usage(
                old(self).usage,
                spec_chunk_usage(spec_round_doc(body@)),
            ),
            spec_round_parse_ok(body@) ==> final(self).reflection == old(self).reflection,
            spec_round_parse_ok(body@) && spec_choice0(spec_round_doc(body@)) is None ==> (outcome
                matches RoundOutcome::Fatal(e) && e@ == "AI 返回空 choices"@ && final(self).phase
                == RunPhase::Failed && final(self).messages == old(self).messages && final(self).round == old(self).round),
            spec_round_parse_ok(body@) && spec_choice0(spec_round_doc(body@)) is Some
                && spec_round_msg(spec_round_doc(body@)) is None ==> (outcome
                matches RoundOutcome::Fatal(e) && e@ == "AI 返回空 message"@ && final(self).phase
                == RunPhase::Failed && final(self).messages == old(self).messages && final(self).round == old(self).round),
            spec_round_parse_ok(body@) && (spec_round_msg(spec_round_doc(body@)) matches Some(m)
                && spec_round_has_tools(m)) ==> {
                let m = spec_round_msg(spec_round_doc(body@))->Some_0;
                let tcs = spec_tool_calls_arr(m)->Some_0;
                let ct = spec_round_content(m);
                let keeps_thinking = old(self).use_case != UseCase::Diagnose && (ct matches Some(t)
                    && t.len() > 0);
                &&& outcome matches RoundOutcome::ToolCalls(events) && (if keeps_thinking {
                    events@.len() == 1 && is_progress_event(
                        events@[0],
                        "thinking"@,
                        ct->Some_0,
                        None,
                    )
                } else {
                    events@.len() == 0
                })
                &&& final(self).phase == RunPhase::ToolRounds
                &&& final(self).round == old(self).round + 1
                &&& tool_calls_match(final(self).pending@, tcs)
                &&& final(self).messages@.len() == old(self).messages@.len() + 1
                &&& final(self).messages@.take(old(self).messages@.len() as int) == old(self).messages@
                &&& {
                    let last = final(self).messages@.last();
                    &&& last.role@ == "assistant"@
                    &&& last.tool_calls matches Some(v) && tool_calls_match(v@, tcs)
                    &&& (if keeps_thinking {
                        last.content matches Some(t) && t@ == ct->Some_0
                    } else {
                        last.content is None
                    })
                    &&& last.tool_call_id is None
                    &&& last.name is None
                }
            },
            spec_round_parse_ok(body@) && (spec_round_msg(spec_round_doc(body@)) matches Some(m)
                && !spec_round_has_tools(m)) ==> {
                let ct = spec_round_content(spec_round_msg(spec_round_doc(body@))->Some_0);
                &&& outcome is NoMoreTools
                &&& final(self).phase == RunPhase::Finalizing
                &&& final(self).round == old(self).round
                &&& (match ct {
                    Some(t) => if t.len() > 0 {
                        final(self).messages@.len() == old(self).messages@.len() + 1 && final(self).messages@.take(old(self).messages@.len() as int) == old(self).messages@
                            && is_text_msg(final(self).messages@.last(), "assistant"@, t)
                    } else {
                        final(self).messages == old(self).messages
                    },
                    None => final(self).messages == old(self).messages,
                })
            },
    {
        let doc = match parse_json(body) {
            Some(d) => d,
            None => {
                let mut e = String::new();
                e.append("AI response parse error: body: ");
                e.append(take_chars(body, 500));
                self.phase = RunPhase::Failed;
                self.failure = Some(e.clone());
                return RoundOutcome::Fatal(e);
            },
        };
        let mut resp = match decode_response(&doc) {
            Ok(resp) => resp,
            Err(_) => {
                let mut e = String::new();
                e.append("AI response parse error: body: ");
                e.append(take_chars(body, 500));
                self.phase = RunPhase::Failed;
                self.failure = Some(e.clone());
                return RoundOutcome::Fatal(e);
            },
        };
        match &resp.usage {
            Some(u) => {
                crate::protocol::accumulate_usage(&mut self.usage, u);
            },
            None => {},
        }
        if resp.choices.len() == 0 {
            let e = String::from_str("AI 返回空 choices");
            self.phase = RunPhase::Failed;
            self.failure = Some(e.clone());
            return RoundOutcome::Fatal(e);
        }
        let has_message = match &resp.choices[0].message {
            Some(_) => true,
            None => false,
        };
        if !has_message {
            let e = String::from_str("AI 返回空 message");
            self.phase = RunPhase::Failed;
            self.failure = Some(e.clone());
            return RoundOutcome::Fatal(e);
        }
        let msg = match resp.choices.remove(0).message {
            Some(m) => m,
            None => {
                proof {
                    assert(false);
                }
                return RoundOutcome::NoMoreTools;
            },
        };
        let has_tools = match &msg.tool_calls {
            Some(tcs) => tcs.len() > 0,
            None => false,
        };
        if has_tools {
            let tool_calls = match msg.tool_calls {
                Some(tcs) => tcs,
                None => Vec::new(),
            };
            let mut events: Vec<AIStreamEvent> = Vec::new();
            let is_diagnose = match self.use_case {
                UseCase::Diagnose => true,
                _ => false,
            };
            let keeps_thinking = !is_diagnose && (match &msg.content {
                Some(t) => t.as_str().unicode_len() > 0,
                None => false,
            });
            if keeps_thinking {
                let t = match &msg.content {
                    Some(t) => t.clone(),
                    None => String::new(),
                };
                events.push(AIStreamEvent::progress("thinking", t.clone(), None));
                let assistant = ChatMessage::assistant_tool_calls_with_content(
                    Some(t),
                    clone_tool_calls(&tool_calls),
                );
                self.messages.push(assistant);
            } else {
                let assistant = ChatMessage::assistant_tool_calls(clone_tool_calls(&tool_calls));
                self.messages.push(assistant);
            }
            self.pending = tool_calls;
            self.round = self.round + 1;
            return RoundOutcome::ToolCalls(events);
        }
        match &msg.content {
            Some(t) => {
                if t.as_str().unicode_len() > 0 {
                    let m = ChatMessage::assistant_text(t.as_str());
                    self.messages.push(m);
                }
            },
            None => {},
        }
        self.phase = RunPhase::Finalizing;
        RoundOutcome::NoMoreTools
    }
}

/// The corrective instruction injected after repeated empty screener
/// results.
pub open spec fn spec_reflection_nudge() -> Seq<char> {
    "注意：选股条件已连续2次未匹配到结果。请分析原因：条件是否过于严格？关键词是否过于具体？行业限制是否过窄？请调整条件后重试，或者果断切换到其他投资方向。"@
}

/// The progress text announcing one tool fetch, per use case.
pub open spec fn spec_fetch_notice(uc: UseCase, name: Seq<char>) -> Seq<char> {
    match uc {
        UseCase::Diagnose => "正在获取数据: "@ + crate::registry::spec_tool_name_chinese(name),
        UseCase::Pick => "正在获取数据: "@ + crate::registry::spec_pick_tool_name_chinese(name),
        UseCase::Similar => "正在获取: "@ + crate::registry::spec_pick_tool_name_chinese(name),
    }
}

/// What a dispatch outcome reads as in the conversation.
pub open spec fn spec_dispatch_text(outcome: Result<String, String>) -> Seq<char> {
    match outcome {
        Ok(s) => s@,
        Err(e) => "工具调用失败: "@ + e@,
    }
}

impl AgentRun {
    /// Hands out the next queued tool call, with the progress event that
    /// announces it, strictly in the order the model issued the calls.
    pub fn next_tool(&mut self) -> (r: Option<(ToolCall, AIStreamEvent)>)
        ensures
            old(self).pending@.len() == 0 ==> r is None && *final(self) == *old(self),
            old(self).pending@.len() > 0 ==> (r matches Some((tc, ev)) && tc == old(
                self,
            ).pending@[0] && final(self).pending@ == old(self).pending@.drop_first()
                && is_progress_event(
                ev,
                "tool_call"@,
                spec_fetch_notice(old(self).use_case, tc.function.name@),
                Some(tc.function.name@),
            )),
            final(self).messages == old(self).messages,
            final(self).round == old(self).round,
            final(self).phase == old(self).phase,
            final(self).usage == old(self).usage,
            final(self).reflection == old(self).reflection,
            final(self).failure == old(self).failure,
            same_config(*final(self), *old(self)),
    {
        if self.pending.len() == 0 {
            return None;
        }
        let tc = self.pending.remove(0);
        let mut content = String::new();
        match self.use_case {
            UseCase::Diagnose => {
                content.append("正在获取数据: ");
                content.append(crate::registry::tool_name_to_chinese(tc.function.name.as_str()));
            },
            UseCase::Pick => {
                content.append("正在获取数据: ");
                content.append(
                    crate::registry::pick_tool_name_to_chinese(tc.function.name.as_str()),
                );
            },
            UseCase::Similar => {
                content.append("正在获取: ");
                content.append(
                    crate::registry::pick_tool_name_to_chinese(tc.function.name.as_str()),
                );
            },
        }
        let ev = AIStreamEvent::progress("tool_call", content, Some(tc.function.name.clone()));
        Some((tc, ev))
    }

    /// Consumes one tool call's outcome: a failure reads as inline text,
    /// the result joins the conversation as a `tool` message, the
    /// reflection heuristic runs in the picking use case and injects its
    /// one-shot nudge when triggered, and a `tool_result` progress event
    /// reports the step — a fetched-data notice in the diagnosis use
    /// case, a summary otherwise.
    #[verifier::rlimit(100)]
    pub fn on_tool_result(
        &mut self,
        call_id: &str,
        tool_name: &str,
        outcome: Result<String, String>,
    ) -> (ev: AIStreamEvent)
        ensures
            ({
                let result = spec_dispatch_text(outcome);
                let watched = old(self).use_case == UseCase::Pick;
                let step = spec_observe(old(self).reflection, tool_name@, result);
                let inject = watched && step.1;
                let oldlen = old(self).messages@.len() as int;
                &&& final(self).reflection == (if watched {
                    step.0
                } else {
                    old(self).reflection
                })
                &&& final(self).messages@.len() == oldlen + (if inject {
                    2int
                } else {
                    1int
                })
                &&& final(self).messages@.take(oldlen) == old(self).messages@
                &&& {
                    let tm = final(self).messages@[oldlen];
                    &&& tm.role@ == "tool"@
                    &&& tm.content matches Some(c) && c@ == result
                    &&& tm.tool_call_id matches Some(i) && i@ == call_id@
                    &&& tm.name matches Some(n) && n@ == tool_name@
                    &&& tm.tool_calls is None
                }
                &&& (inject ==> is_text_msg(
                    final(self).messages@[oldlen + 1],
                    "user"@,
                    spec_reflection_nudge(),
                ))
                &&& (old(self).use_case == UseCase::Diagnose ==> is_progress_event(
                    ev,
                    "tool_result"@,
                    "已获取: "@ + crate::registry::spec_tool_name_chinese(tool_name@),
                    Some(tool_name@),
                ))
                &&& (old(self).use_case != UseCase::Diagnose
                    && crate::summarize::spec_has_bespoke_summary(tool_name@)
                    ==> is_progress_event(
                    ev,
                    "tool_result"@,
                    spec_summarize(tool_name@, spec_doc_of(result), 0),
                    Some(tool_name@),
                ))
                &&& (old(self).use_case != UseCase::Diagnose
                    && !crate::summarize::spec_has_bespoke_summary(tool_name@) ==> {
                    &&& ev.event_type@ == "tool_result"@
                    &&& !ev.done
                    &&& ev.usage is None
                    &&& ev.tool_name matches Some(n) && n@ == tool_name@
                    &&& ev.content matches Some(c) && (exists|bl: int|
                        0 <= bl && c@ == spec_summarize(tool_name@, spec_doc_of(result), bl))
                })
            }),
            final(self).phase == old(self).phase,
            final(self).round == old(self).round,
            final(self).usage == old(self).usage,
            final(self).pending == old(self).pending,
            final(self).failure == old(self).failure,
            same_config(*final(self), *old(self)),
    {
        let result = crate::dispatch::dispatch_outcome(outcome);
        let watched = match self.use_case {
            UseCase::Pick => true,
            _ => false,
        };
        let inject = if watched {
            self.reflection.observe(tool_name, result.as_str())
        } else {
            false
        };
        self.messages.push(ChatMessage::tool_result(call_id, tool_name, result.as_str()));
        if inject {
            self.messages.push(
                ChatMessage::user(
                    "注意：选股条件已连续2次未匹配到结果。请分析原因：条件是否过于严格？关键词是否过于具体？行业限制是否过窄？请调整条件后重试，或者果断切换到其他投资方向。",
                ),
            );
        }
        let is_diagnose = match self.use_case {
            UseCase::Diagnose => true,
            _ => false,
        };
        let ev = if is_diagnose {
            let mut content = String::new();
            content.append("已获取: ");
            content.append(crate::registry::tool_name_to_chinese(tool_name));
            AIStreamEvent::progress("tool_result", content, Some(String::from_str(tool_name)))
        } else {
            let summary = summarize_tool_result(tool_name, result.as_str());
            AIStreamEvent::progress("tool_result", summary, Some(String::from_str(tool_name)))
        };
        ev
    }

    /// Moves the run into the streaming finalization phase: a last
    /// assistant text turn is removed so the streaming call regenerates
    /// it, the token ceiling is raised to the structured-output floor
    /// outside the diagnosis use case, and the streaming request carries
    /// no tools.
    pub fn prepare_streaming(&mut self) -> (p: RequestPlan)
        requires
            old(self).phase == RunPhase::Finalizing,
        ensures
            final(self).phase == RunPhase::Streaming,
            p.stream,
            !p.include_tools,
            p.max_tokens == (if old(self).use_case == UseCase::Diagnose {
                old(self).max_tokens
            } else if old(self).max_tokens >= 4096 {
                old(self).max_tokens
            } else {
                4096u32
            }),
            ({
                let ms = old(self).messages@;
                let dropped = ms.len() > 0 && ms.last().role@ == "assistant"@ && ms.last().content
                    is Some;
                final(self).messages@ == (if dropped {
                    ms.drop_last()
                } else {
                    ms
                })
            }),
            final(self).usage == old(self).usage,
            final(self).round == old(self).round,
            final(self).reflection == old(self).reflection,
            final(self).pending == old(self).pending,
            final(self).failure == old(self).failure,
            same_config(*final(self), *old(self)),
    {
        let n = self.messages.len();
        let mut dropped = false;
        if n > 0 {
            let last_is_assistant_text = {
                let last = &self.messages[n - 1];
                str_eq(last.role.as_str(), "assistant") && match &last.content {
                    Some(_) => true,
                    None => false,
                }
            };
            if last_is_assistant_text {
                self.messages.pop();
                dropped = true;
            }
        }
        let is_diagnose = match self.use_case {
            UseCase::Diagnose => true,
            _ => false,
        };
        let max_tokens = if is_diagnose {
            self.max_tokens
        } else if self.max_tokens >= 4096 {
            self.max_tokens
        } else {
            4096
        };
        self.phase = RunPhase::Streaming;
        RequestPlan { max_tokens, stream: true, include_tools: false }
    }

    /// A stream decoder set up for this run: vendor-leak filtering
    /// outside the diagnosis use case, seeded with the usage the tool
    /// rounds accumulated.  The decoder forwards content only; the one
    /// terminal event of the run belongs to the embedding layer, built
    /// from `terminal_event`.
    pub fn make_stream_decoder(&self) -> (d: StreamDecoder)
        ensures
            d.model() == StreamDecoder::initial_model(self.usage),
            d.spec_filter_leaks() == (self.use_case != UseCase::Diagnose),
            crate::sse::decoder_wf(d.model()),
    {
        let is_diagnose = match self.use_case {
            UseCase::Diagnose => true,
            _ => false,
        };
        StreamDecoder::new(!is_diagnose, self.usage)
    }

    /// Closes the run once the stream has ended: the accumulated text,
    /// cleaned of trailing artifacts outside the diagnosis use case, and
    /// the total usage.
    pub fn finish(&mut self, decoder: &StreamDecoder) -> (r: (String, Option<TokenUsage>))
        requires
            old(self).phase == RunPhase::Streaming,
        ensures
            final(self).phase == RunPhase::Completed,
            r.1 == decoder.model().usage,
            r.0@ == (if old(self).use_case == UseCase::Diagnose {
                decoder.model().full_text
            } else {
                spec_clean_artifacts(decoder.model().full_text)
            }),
            final(self).usage == decoder.model().usage,
            final(self).messages == old(self).messages,
            final(self).round == old(self).round,
            final(self).reflection == old(self).reflection,
            final(self).pending == old(self).pending,
            final(self).failure == old(self).failure,
            same_config(*final(self), *old(self)),
    {
        let is_diagnose = match self.use_case {
            UseCase::Diagnose => true,
            _ => false,
        };
        let text = if is_diagnose {
            decoder.full_text().clone()
        } else {
            clean_stream_artifacts(decoder.full_text().as_str())
        };
        let usage = decoder.usage();
        self.usage = usage;
        self.phase = RunPhase::Completed;
        (text, usage)
    }

    /// How the finished run is to be reported: a failure, a user stop, or
    /// a normal finish.
    pub fn terminal_classification(&self) -> (r: TerminalKind)
        ensures
            self.phase == RunPhase::Failed ==> r == TerminalKind::Failed,
            self.phase != RunPhase::Failed && self.stopped_by_user ==> r == TerminalKind::Stopped,
            self.phase != RunPhase::Failed && !self.stopped_by_user ==> r
                == TerminalKind::Finished,
    {
        match self.phase {
            RunPhase::Failed => TerminalKind::Failed,
            _ => if self.stopped_by_user {
                TerminalKind::Stopped
            } else {
                TerminalKind::Finished
            },
        }
    }

    /// The one terminal event of the run, for the embedding layer to
    /// emit exactly once: an `error` event when the run failed, a `done`
    /// event otherwise, terminal either way, with the text and usage the
    /// caller hands in.
    pub fn terminal_event(&self, content: Option<String>, usage: Option<TokenUsage>) -> (e:
        AIStreamEvent)
        ensures
            e.event_type@ == (if self.phase == RunPhase::Failed {
                "error"@
            } else {
                "done"@
            }),
            e.content == content,
            e.done,
            e.usage == usage,
            e.tool_name is None,
    {
        let event_type = match self.phase {
            RunPhase::Failed => String::from_str("error"),
            _ => String::from_str("done"),
        };
        AIStreamEvent { event_type, content, done: true, usage, tool_name: None }
    }
}

// ---------------------------------------------------------------------------
// trailing-artifact cleanup
// ---------------------------------------------------------------------------
/// A vendor-marker block starts at `l`: the marker with a closing angle
/// bracket somewhere after it.
pub open spec fn spec_leak_block_at(s: Seq<char>, l: int) -> bool {
    spec_match_at(s, "<｜"@, l) && (exists|j: int| l + 2 <= j < s.len() && s[j] == '>')
}

/// The position of the first vendor-marker block at or after `i`.
pub open spec fn spec_leak_block_from(s: Seq<char>, i: int) -> Option<int>
    decreases s.len() - i + 1,
{
    if i < 0 || i >= s.len() {
        None
    } else if spec_leak_block_at(s, i) {
        Some(i)
    } else {
        spec_leak_block_from(s, i + 1)
    }
}

/// What `spec_leak_block_from` returns is in range and a marker block.
proof fn lemma_leak_block_from_range(s: Seq<char>, i: int)
    requires
        0 <= i,
    ensures
        spec_leak_block_from(s, i) matches Some(l) ==> i <= l < s.len() && spec_leak_block_at(
            s,
            l,
        ),
    decreases s.len() - i + 1,
{
    if 0 <= i < s.len() && !spec_leak_block_at(s, i) {
        lemma_leak_block_from_range(s, i + 1);
    }
}

/// The text with everything from the first vendor-marker block removed.
pub open spec fn spec_cut_leak(s: Seq<char>) -> Seq<char> {
    match spec_leak_block_from(s, 0) {
        Some(l) => s.take(l),
        None => s,
    }
}

/// The text with an unclosed trailing picks block removed.
pub open spec fn spec_cut_unclosed_picks(t: Seq<char>) -> Seq<char> {
    if spec_contains(t, "<PICKS>"@) && !spec_contains(t, "</PICKS>"@) {
        match spec_find_from(t, "<PICKS>"@, 0) {
            Some(p) => t.take(p),
            None => t,
        }
    } else {
        t
    }
}

/// The cleaned final text: vendor-marker block removed, unclosed picks
/// block removed, trailing whitespace trimmed.
pub open spec fn spec_clean_artifacts(s: Seq<char>) -> Seq<char> {
    spec_trim_end(spec_cut_unclosed_picks(spec_cut_leak(s)))
}

fn has_gt_after(s: &str, from: usize) -> (r: bool)
    requires
        s@.len() <= usize::MAX,
    ensures
        r == exists|j: int| from <= j < s@.len() && s@[j] == '>',
{
    let n = s.unicode_len();
    let mut j: usize = from;
    while j < n
        invariant
            from <= j,
            n == s@.len(),
            forall|k: int| from <= k < j ==> s@[k] != '>',
        decreases n - j,
    {
        if s.get_char(j) == '>' {
            return true;
        }
        j += 1;
    }
    false
}

fn find_leak_block(s: &str) -> (r: Option<usize>)
    ensures
        match r {
            Some(l) => spec_leak_block_from(s@, 0) == Some(l as int),
            None => spec_leak_block_from(s@, 0) is None,
        },
{
    let n = s.unicode_len();
    let mut i: usize = 0;
    while i < n
        invariant
            i <= n,
            n == s@.len(),
            spec_leak_block_from(s@, 0) == spec_leak_block_from(s@, i as int),
        decreases n - i,
    {
        proof {
            reveal_strlit("<｜");
        }
        let is_block = if n - i >= 2 {
            crate::text::match_at(s, "<｜", i) && has_gt_after(s, i + 2)
        } else {
            false
        };
        if is_block {
            return Some(i);
        }
        proof {
            assert(!spec_leak_block_at(s@, i as int));
        }
        i += 1;
    }
    None
}

/// Cleans a finished stream's text: everything from the first
/// vendor-internal marker block onward is removed, an unclosed trailing
/// picks block is removed, and trailing whitespace is trimmed.
pub fn clean_stream_artifacts(s: &str) -> (r: String)
    ensures
        r@ == spec_clean_artifacts(s@),
{
    let cut1: &str = match find_leak_block(s) {
        Some(l) => {
            proof {
                lemma_leak_block_from_range(s@, 0);
            }
            let piece = s.substring_char(0, l);
            proof {
                assert(piece@ =~= s@.take(l as int));
            }
            piece
        },
        None => s,
    };
    let cut2: &str = if crate::text::contains_sub(cut1, "<PICKS>") && !crate::text::contains_sub(
        cut1,
        "</PICKS>",
    ) {
        match crate::text::find_first(cut1, "<PICKS>") {
            Some(p) => {
                proof {
                    crate::text::lemma_find_from_correct(cut1@, "<PICKS>"@, 0);
                }
                let piece = cut1.substring_char(0, p);
                proof {
                    assert(piece@ =~= cut1@.take(p as int));
                }
                piece
            },
            None => {
                proof {
                    crate::text::lemma_find_from_correct(cut1@, "<PICKS>"@, 0);
                }
                cut1
            },
        }
    } else {
        cut1
    };
    String::from_str(crate::text::trim_end_str(cut2))
}

/// Rebuilds a tool-call list value for the message that records it.
fn clone_tool_calls(tcs: &Vec<ToolCall>) -> (r: Vec<ToolCall>)
    ensures
        r@.len() == tcs@.len(),
        forall|i: int|
            0 <= i < tcs@.len() ==> {
                &&& (#[trigger] r@[i]).id@ == tcs@[i].id@
                &&& r@[i].call_type@ == tcs@[i].call_type@
                &&& r@[i].function.name@ == tcs@[i].function.name@
                &&& r@[i].function.arguments@ == tcs@[i].function.arguments@
            },
{
    let mut out: Vec<ToolCall> = Vec::new();
    let n = tcs.len();
    let mut i: usize = 0;
    while i < n
        invariant
            i <= n,
            n == tcs@.len(),
            out@.len() == i,
            forall|k: int|
                0 <= k < i ==> {
                    &&& (#[trigger] out@[k]).id@ == tcs@[k].id@
                    &&& out@[k].call_type@ == tcs@[k].call_type@
                    &&& out@[k].function.name@ == tcs@[k].function.name@
                    &&& out@[k].function.arguments@ == tcs@[k].function.arguments@
                },
        decreases n - i,
    {
        let tc = ToolCall {
            id: tcs[i].id.clone(),
            call_type: tcs[i].call_type.clone(),
            function: crate::protocol::FunctionCall {
                name: tcs[i].function.name.clone(),
                arguments: tcs[i].function.arguments.clone(),
            },
        };
        out.push(tc);
        i += 1;
    }
    out
}

} // verus!
