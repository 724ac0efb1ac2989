//! Conversation-model tests: message constructors, their wire form, and
//! token-usage accumulation.

use stock_agent::protocol::{AIStreamEvent, ChatMessage, FunctionCall, TokenUsage, ToolCall};

fn sample_call(id: &str, name: &str, arguments: &str) -> ToolCall {
    ToolCall {
        id: id.to_string(),
        call_type: "function".to_string(),
        function: FunctionCall { name: name.to_string(), arguments: arguments.to_string() },
    }
}

#[test]
fn test_assistant_tool_calls_with_content() {
    let tc = sample_call("call_1", "get_stock_quote", r#"{"code":"sh600519"}"#);
    let msg = ChatMessage::assistant_tool_calls_with_content(
        Some("我来查看茅台行情".to_string()),
        vec![tc.clone()],
    );
    assert_eq!(msg.role, "assistant");
    assert_eq!(msg.content, Some("我来查看茅台行情".to_string()));
    assert!(msg.tool_calls.is_some());
    assert_eq!(msg.tool_calls.as_ref().unwrap().len(), 1);

    let json = msg.wire_json();
    assert!(json.contains("\"content\""));
    assert!(json.contains("我来查看茅台行情"));
    assert!(json.contains("get_stock_quote"));
}

#[test]
fn test_assistant_tool_calls_with_content_none() {
    let tc = sample_call("call_2", "get_market_news", "{}");
    let msg = ChatMessage::assistant_tool_calls_with_content(None, vec![tc]);
    assert_eq!(msg.role, "assistant");
    assert_eq!(msg.content, None);
    assert!(msg.tool_calls.is_some());

    let json = msg.wire_json();
    assert!(!json.contains("\"content\""));
}

#[test]
fn test_assistant_tool_calls_backward_compat() {
    let tc = sample_call("call_3", "test", "{}");
    let msg = ChatMessage::assistant_tool_calls(vec![tc]);
    assert_eq!(msg.content, None);
    assert!(msg.tool_calls.is_some());
}

#[test]
fn test_message_wire_json_is_valid_json() {
    let msg = ChatMessage::tool_result("call_9", "get_stock_quote", "line1\n\"quoted\"");
    let json = msg.wire_json();
    let v: serde_json::Value = serde_json::from_str(&json).expect("wire form parses");
    assert_eq!(v["role"].as_str(), Some("tool"));
    assert_eq!(v["content"].as_str(), Some("line1\n\"quoted\""));
    assert_eq!(v["tool_call_id"].as_str(), Some("call_9"));
    assert_eq!(v["name"].as_str(), Some("get_stock_quote"));
}

#[test]
fn test_usage_accumulate_is_sum() {
    let mut acc = TokenUsage::zero();
    let a = TokenUsage { prompt_tokens: 10, completion_tokens: 5, total_tokens: 15 };
    let b = TokenUsage { prompt_tokens: 7, completion_tokens: 3, total_tokens: 10 };
    let c = TokenUsage { prompt_tokens: 1, completion_tokens: 2, total_tokens: 3 };
    acc.accumulate(&a);
    acc.accumulate(&b);
    acc.accumulate(&c);
    assert_eq!(acc.prompt_tokens, 18);
    assert_eq!(acc.completion_tokens, 10);
    assert_eq!(acc.total_tokens, 28);
}

#[test]
fn test_usage_accumulate_order_does_not_matter() {
    let snaps = [
        TokenUsage { prompt_tokens: 11, completion_tokens: 22, total_tokens: 33 },
        TokenUsage { prompt_tokens: 44, completion_tokens: 5, total_tokens: 49 },
        TokenUsage { prompt_tokens: 6, completion_tokens: 777, total_tokens: 783 },
    ];
    let mut forward = TokenUsage::zero();
    for s in snaps.iter() {
        forward.accumulate(s);
    }
    let mut backward = TokenUsage::zero();
    for s in snaps.iter().rev() {
        backward.accumulate(s);
    }
    assert_eq!(forward, backward);
}

#[test]
fn test_usage_accumulate_clamps_at_counter_range() {
    let mut acc = TokenUsage { prompt_tokens: u32::MAX - 1, completion_tokens: 0, total_tokens: 0 };
    let snap = TokenUsage { prompt_tokens: 10, completion_tokens: 1, total_tokens: 1 };
    acc.accumulate(&snap);
    assert_eq!(acc.prompt_tokens, u32::MAX);
    assert_eq!(acc.completion_tokens, 1);
}

#[test]
fn test_progress_event_shape() {
    let ev = AIStreamEvent::progress("thinking", "先看大盘".to_string(), None);
    assert_eq!(ev.event_type, "thinking");
    assert_eq!(ev.content, Some("先看大盘".to_string()));
    assert!(!ev.done);
    assert!(ev.usage.is_none());
    assert!(ev.tool_name.is_none());
}
