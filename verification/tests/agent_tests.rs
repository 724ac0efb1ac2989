//! Agent run scenarios: round budgeting, tool-call rounds, reflection
//! nudging, cancellation, fatal errors, and stream decoding.

use stock_agent::orchestrator::{
    AgentRun, RequestPlan, RoundDirective, RoundOutcome, RunPhase, TerminalKind, UseCase,
    classify_http, clean_stream_artifacts,
};
use stock_agent::protocol::TokenUsage;
use stock_agent::sse::StreamDecoder;

fn tool_call_body(name: &str, arguments_escaped: &str) -> String {
    format!(
        "{{\"choices\":[{{\"index\":0,\"message\":{{\"role\":\"assistant\",\"tool_calls\":[{{\"id\":\"call_1\",\"type\":\"function\",\"function\":{{\"name\":\"{}\",\"arguments\":\"{}\"}}}}]}},\"finish_reason\":\"tool_calls\"}}],\"usage\":{{\"prompt_tokens\":100,\"completion_tokens\":20,\"total_tokens\":120}}}}",
        name, arguments_escaped
    )
}

fn text_body(content: &str) -> String {
    format!(
        "{{\"choices\":[{{\"index\":0,\"message\":{{\"role\":\"assistant\",\"content\":\"{}\"}},\"finish_reason\":\"stop\"}}],\"usage\":{{\"prompt_tokens\":50,\"completion_tokens\":10,\"total_tokens\":60}}}}",
        content
    )
}

/// Round 0 answers with one quote tool call, round 1 with plain text:
/// exactly two non-streaming requests go out, then one streaming plan,
/// and the phases pass through finalization to completion.
#[test]
fn test_two_round_diagnose_run() {
    let mut run = AgentRun::new(UseCase::Diagnose, 2048, "system text", "user text");
    let mut nonstreaming_requests = 0;

    // round 0
    match run.begin_round(false) {
        RoundDirective::Request(p) => {
            assert!(!p.stream);
            assert!(p.include_tools);
            nonstreaming_requests += 1;
        }
        RoundDirective::Finalize => panic!("round 0 should request"),
    }
    let body = tool_call_body("get_stock_quote", "{\\\"code\\\":\\\"sh600519\\\"}");
    match run.on_round_response(&body) {
        RoundOutcome::ToolCalls(events) => {
            assert!(events.is_empty(), "diagnosis runs forward no thinking");
        }
        _ => panic!("round 0 should carry tool calls"),
    }
    assert_eq!(run.round, 1);
    let (tc, ev) = run.next_tool().expect("one call queued");
    assert_eq!(tc.function.name, "get_stock_quote");
    assert_eq!(ev.event_type, "tool_call");
    assert_eq!(ev.content.as_deref(), Some("正在获取数据: 实时行情"));
    let result_ev = run.on_tool_result(&tc.id, &tc.function.name, Ok("{\"price\":1700}".to_string()));
    assert_eq!(result_ev.event_type, "tool_result");
    assert_eq!(result_ev.content.as_deref(), Some("已获取: 实时行情"));
    assert!(run.next_tool().is_none());

    // round 1
    match run.begin_round(false) {
        RoundDirective::Request(_) => nonstreaming_requests += 1,
        RoundDirective::Finalize => panic!("round 1 should request"),
    }
    match run.on_round_response(&text_body("最终分析")) {
        RoundOutcome::NoMoreTools => {}
        _ => panic!("round 1 should end the tool phase"),
    }
    assert_eq!(nonstreaming_requests, 2);
    assert!(matches!(run.phase, RunPhase::Finalizing));

    // streaming finalization
    let plan: RequestPlan = run.prepare_streaming();
    assert!(plan.stream);
    assert!(!plan.include_tools);
    assert!(matches!(run.phase, RunPhase::Streaming));

    let mut decoder = run.make_stream_decoder();
    let events = decoder.push_chunk(
        "data: {\"choices\":[{\"index\":0,\"delta\":{\"content\":\"你好\"}}]}\ndata: [DONE]\n",
    );
    // the decoder forwards content only; the sentinel is recorded, never
    // emitted as an event
    assert_eq!(events.len(), 1);
    assert_eq!(events[0].event_type, "content");
    assert_eq!(events[0].content.as_deref(), Some("你好"));
    assert!(!events[0].done);
    assert!(decoder.done_seen());

    let (text, usage) = run.finish(&decoder);
    assert_eq!(text, "你好");
    let usage = usage.expect("usage accumulated");
    assert_eq!(usage.prompt_tokens, 150);
    assert_eq!(usage.completion_tokens, 30);
    assert_eq!(usage.total_tokens, 180);
    assert!(matches!(run.phase, RunPhase::Completed));
    assert!(matches!(run.terminal_classification(), TerminalKind::Finished));

    // the one terminal event belongs to the caller
    let terminal = run.terminal_event(Some(text.clone()), Some(usage));
    assert_eq!(terminal.event_type, "done");
    assert!(terminal.done);
    assert_eq!(terminal.content.as_deref(), Some("你好"));
    assert_eq!(terminal.usage, Some(usage));
}

/// The round budget is a ceiling, not an error: once `round` reaches it,
/// the next round directive finalizes the run.
#[test]
fn test_round_budget_finalizes_without_error() {
    let mut run = AgentRun::new(UseCase::Diagnose, 1024, "s", "u");
    let body = tool_call_body("get_stock_quote", "{}");
    for _ in 0..8 {
        match run.begin_round(false) {
            RoundDirective::Request(_) => {}
            RoundDirective::Finalize => panic!("should request below the budget"),
        }
        match run.on_round_response(&body) {
            RoundOutcome::ToolCalls(_) => {}
            _ => panic!("tool calls expected"),
        }
        let (tc, _) = run.next_tool().unwrap();
        run.on_tool_result(&tc.id, &tc.function.name, Ok("{}".to_string()));
    }
    assert_eq!(run.round, 8);
    match run.begin_round(false) {
        RoundDirective::Finalize => {}
        RoundDirective::Request(_) => panic!("the budget must cap the rounds"),
    }
    assert!(matches!(run.phase, RunPhase::Finalizing));
    assert!(run.failure.is_none());
    assert!(!run.stopped_by_user);
}

/// Two consecutive empty screener results inject the corrective nudge as
/// the next message, and a third empty result injects nothing more.
#[test]
fn test_reflection_nudge_injected_once() {
    let mut run = AgentRun::new(UseCase::Pick, 2048, "s", "u");
    let empty = "{\"keyword\":\"x\",\"total\":0,\"news\":[]}";

    let body = tool_call_body("search_stocks_by_condition", "{\\\"keyword\\\":\\\"x\\\"}");

    // first empty result: no nudge yet
    run.begin_round(false);
    run.on_round_response(&body);
    let (tc, _) = run.next_tool().unwrap();
    run.on_tool_result(&tc.id, &tc.function.name, Ok(empty.to_string()));
    let len_after_first = run.messages.len();
    assert_eq!(run.messages[len_after_first - 1].role, "tool");

    // second empty result: the nudge follows the tool message
    run.begin_round(false);
    run.on_round_response(&body);
    let (tc, _) = run.next_tool().unwrap();
    run.on_tool_result(&tc.id, &tc.function.name, Ok(empty.to_string()));
    let len_after_second = run.messages.len();
    assert_eq!(len_after_second, len_after_first + 3);
    let nudge = &run.messages[len_after_second - 1];
    assert_eq!(nudge.role, "user");
    assert!(nudge.content.as_deref().unwrap().contains("连续2次未匹配到结果"));

    // third empty result: no further nudge
    run.begin_round(false);
    run.on_round_response(&body);
    let (tc, _) = run.next_tool().unwrap();
    run.on_tool_result(&tc.id, &tc.function.name, Ok(empty.to_string()));
    let len_after_third = run.messages.len();
    assert_eq!(len_after_third, len_after_second + 2);
    assert_eq!(run.messages[len_after_third - 1].role, "tool");
}

/// A cancellation flag at the top of a round finalizes immediately with
/// the stopped classification, keeping the history built so far.
#[test]
fn test_cancellation_between_rounds() {
    let mut run = AgentRun::new(UseCase::Pick, 2048, "s", "u");
    let body = tool_call_body("get_stock_quote", "{}");
    for _ in 0..3 {
        run.begin_round(false);
        run.on_round_response(&body);
        let (tc, _) = run.next_tool().unwrap();
        run.on_tool_result(&tc.id, &tc.function.name, Ok("{}".to_string()));
    }
    let messages_before = run.messages.len();
    match run.begin_round(true) {
        RoundDirective::Finalize => {}
        RoundDirective::Request(_) => panic!("a cancelled run must not request"),
    }
    assert!(matches!(run.phase, RunPhase::Finalizing));
    assert!(run.stopped_by_user);
    assert_eq!(run.messages.len(), messages_before);
    assert!(matches!(run.terminal_classification(), TerminalKind::Stopped));
    let terminal = run.terminal_event(Some("任务已停止".to_string()), None);
    assert_eq!(terminal.event_type, "done");
    assert!(terminal.done);
}

/// A non-2xx status is fatal and surfaces the body verbatim.
#[test]
fn test_http_error_is_fatal_with_body() {
    let mut run = AgentRun::new(UseCase::Pick, 2048, "s", "u");
    let error = classify_http(500, "upstream overloaded").expect("500 is fatal");
    assert!(error.contains("upstream overloaded"));
    run.record_failure(error.clone());
    assert!(matches!(run.phase, RunPhase::Failed));
    assert!(run.failure.as_deref().unwrap().contains("upstream overloaded"));
    assert!(matches!(run.terminal_classification(), TerminalKind::Failed));
    let terminal = run.terminal_event(Some(error), None);
    assert_eq!(terminal.event_type, "error");
    assert!(terminal.done);
    assert!(terminal.content.as_deref().unwrap().contains("upstream overloaded"));
    assert!(classify_http(200, "").is_none());
    assert!(classify_http(404, "x").is_some());
}

/// An empty choice list is fatal.
#[test]
fn test_empty_choices_fatal() {
    let mut run = AgentRun::new(UseCase::Diagnose, 1024, "s", "u");
    run.begin_round(false);
    match run.on_round_response("{\"choices\":[]}") {
        RoundOutcome::Fatal(e) => assert!(e.contains("choices")),
        _ => panic!("empty choices must be fatal"),
    }
    assert!(matches!(run.phase, RunPhase::Failed));
}

/// Streamed chunks split at arbitrary byte boundaries still decode line
/// by line, and the forwarded contents concatenate to the full text.
#[test]
fn test_stream_decoder_reassembles_split_chunks() {
    let mut d = StreamDecoder::new(false, None);
    let mut forwarded = String::new();
    let whole = "data: {\"choices\":[{\"index\":0,\"delta\":{\"content\":\"前半\"}}]}\ndata: {\"choices\":[{\"index\":0,\"delta\":{\"content\":\"后半\"}}]}\n";
    let (a, b) = whole.split_at(40);
    for chunk in [a, b] {
        for ev in d.push_chunk(chunk) {
            if ev.event_type == "content" {
                forwarded.push_str(ev.content.as_deref().unwrap());
            }
        }
    }
    assert_eq!(forwarded, "前半后半");
    assert_eq!(d.full_text(), "前半后半");
}

/// Malformed chunk lines are skipped without ending the stream.
#[test]
fn test_stream_decoder_skips_malformed_lines() {
    let mut d = StreamDecoder::new(false, None);
    let events = d.push_chunk(
        ": heartbeat\ndata: not json\ndata: {\"choices\":[{\"index\":0,\"delta\":{\"content\":\"ok\"}}]}\n",
    );
    assert_eq!(events.len(), 1);
    assert_eq!(events[0].content.as_deref(), Some("ok"));
}

/// Once a vendor-leak marker appears in a delta, nothing more is
/// forwarded, but accumulation continues.
#[test]
fn test_stream_decoder_leak_filtering() {
    let mut d = StreamDecoder::new(true, None);
    let mut forwarded = String::new();
    let chunks = [
        "data: {\"choices\":[{\"index\":0,\"delta\":{\"content\":\"分析完毕\"}}]}\n",
        "data: {\"choices\":[{\"index\":0,\"delta\":{\"content\":\"<｜tool▁calls▁begin>\"}}]}\n",
        "data: {\"choices\":[{\"index\":0,\"delta\":{\"content\":\"内部数据\"}}]}\n",
    ];
    for chunk in chunks {
        for ev in d.push_chunk(chunk) {
            if ev.event_type == "content" {
                forwarded.push_str(ev.content.as_deref().unwrap());
            }
        }
    }
    assert_eq!(forwarded, "分析完毕");
    assert_eq!(d.full_text(), "分析完毕<｜tool▁calls▁begin>内部数据");
}

/// Streamed usage snapshots accumulate on top of the carried-in total.
#[test]
fn test_stream_decoder_accumulates_usage() {
    let seed = TokenUsage { prompt_tokens: 10, completion_tokens: 5, total_tokens: 15 };
    let mut d = StreamDecoder::new(false, Some(seed));
    d.push_chunk(
        "data: {\"choices\":[],\"usage\":{\"prompt_tokens\":1,\"completion_tokens\":2,\"total_tokens\":3}}\n",
    );
    let u = d.usage().expect("usage present");
    assert_eq!(u.prompt_tokens, 11);
    assert_eq!(u.completion_tokens, 7);
    assert_eq!(u.total_tokens, 18);
}

/// Cleanup removes a vendor-marker block, an unclosed picks block, and
/// trailing whitespace.
#[test]
fn test_clean_stream_artifacts() {
    assert_eq!(
        clean_stream_artifacts("结论文本<｜tool▁calls▁begin｜>残余</x>"),
        "结论文本"
    );
    assert_eq!(clean_stream_artifacts("报告\n<PICKS>\n[ {\"code\""), "报告");
    assert_eq!(
        clean_stream_artifacts("报告<PICKS>[]</PICKS>尾注  \n"),
        "报告<PICKS>[]</PICKS>尾注"
    );
    assert_eq!(clean_stream_artifacts("平常文本"), "平常文本");
}

/// The pick use case raises the streaming token ceiling to the
/// structured-output floor.
#[test]
fn test_pick_streaming_raises_token_floor() {
    let mut run = AgentRun::new(UseCase::Pick, 2048, "s", "u");
    run.begin_round(false);
    run.on_round_response(&text_body("回答"));
    let plan = run.prepare_streaming();
    assert_eq!(plan.max_tokens, 4096);

    let mut run2 = AgentRun::new(UseCase::Similar, 8192, "s", "u");
    run2.begin_round(false);
    run2.on_round_response(&text_body("回答"));
    assert_eq!(run2.prepare_streaming().max_tokens, 8192);

    let mut run3 = AgentRun::new(UseCase::Diagnose, 2048, "s", "u");
    run3.begin_round(false);
    run3.on_round_response(&text_body("回答"));
    assert_eq!(run3.prepare_streaming().max_tokens, 2048);
}

/// Finalization drops a trailing assistant text turn so the streaming
/// call regenerates it.
#[test]
fn test_prepare_streaming_drops_last_assistant_text() {
    let mut run = AgentRun::new(UseCase::Diagnose, 1024, "s", "u");
    run.begin_round(false);
    run.on_round_response(&text_body("非流式回答"));
    let before = run.messages.len();
    run.prepare_streaming();
    assert_eq!(run.messages.len(), before - 1);
    assert_eq!(run.messages.last().unwrap().role, "user");
}

/// Thinking text alongside tool calls is forwarded and recorded in the
/// picking use case.
#[test]
fn test_pick_run_forwards_thinking() {
    let mut run = AgentRun::new(UseCase::Pick, 2048, "s", "u");
    run.begin_round(false);
    let body = "{\"choices\":[{\"index\":0,\"message\":{\"role\":\"assistant\",\"content\":\"先看宏观\",\"tool_calls\":[{\"id\":\"c1\",\"type\":\"function\",\"function\":{\"name\":\"get_market_news\",\"arguments\":\"{}\"}}]},\"finish_reason\":\"tool_calls\"}]}";
    match run.on_round_response(body) {
        RoundOutcome::ToolCalls(events) => {
            assert_eq!(events.len(), 1);
            assert_eq!(events[0].event_type, "thinking");
            assert_eq!(events[0].content.as_deref(), Some("先看宏观"));
        }
        _ => panic!("tool calls expected"),
    }
    let recorded = run.messages.last().unwrap();
    assert_eq!(recorded.role, "assistant");
    assert_eq!(recorded.content.as_deref(), Some("先看宏观"));
    assert!(recorded.tool_calls.is_some());
}

/// A body that is not a response document is fatal with the parse error.
#[test]
fn test_unparseable_body_fatal() {
    let mut run = AgentRun::new(UseCase::Pick, 1024, "s", "u");
    run.begin_round(false);
    match run.on_round_response("<html>bad gateway</html>") {
        RoundOutcome::Fatal(e) => assert!(e.contains("AI response parse error")),
        _ => panic!("an unparseable body must be fatal"),
    }
    assert!(matches!(run.phase, RunPhase::Failed));
}

/// A non-empty screener result between two empty ones resets the
/// consecutive count, so no nudge is injected.
#[test]
fn test_reflection_reset_by_nonempty_result() {
    let mut run = AgentRun::new(UseCase::Pick, 2048, "s", "u");
    let body = tool_call_body("search_stocks_by_condition", "{\\\"keyword\\\":\\\"x\\\"}");
    let empty = "{\"total\":0}";
    let full = "{\"total_count\":5,\"returned\":5}";
    for result in [empty, full, empty] {
        run.begin_round(false);
        run.on_round_response(&body);
        let (tc, _) = run.next_tool().unwrap();
        run.on_tool_result(&tc.id, &tc.function.name, Ok(result.to_string()));
    }
    // the seeded task trigger stays the only user message: no nudge appeared
    let user_count = run.messages.iter().filter(|m| m.role == "user").count();
    assert_eq!(user_count, 1);
}

/// The sentinel line alone yields no event; it is only recorded, since
/// the one terminal event of a run is the caller's to emit.
#[test]
fn test_stream_decoder_never_emits_terminal() {
    let mut d = StreamDecoder::new(false, None);
    let events = d.push_chunk("data: [DONE]\n");
    assert!(events.is_empty());
    assert!(d.done_seen());
    for ev in d.push_chunk("data: {\"choices\":[{\"index\":0,\"delta\":{\"content\":\"尾\"}}]}\n") {
        assert!(!ev.done);
        assert_eq!(ev.event_type, "content");
    }
}
