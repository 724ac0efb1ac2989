//! String utilities, stock-code normalization, instruction extraction,
//! and request-body framing.

use stock_agent::json::Json;
use stock_agent::screener::{ScreenerKind, render_screener_failure, render_screener_result, screener_request_body};
use stock_agent::instructions::{extract_json_array, extract_search_query, parse_batch_instructions};
use stock_agent::orchestrator::RequestPlan;
use stock_agent::protocol::ChatMessage;
use stock_agent::registry::get_tool_definitions;
use stock_agent::request::build_request_json;
use stock_agent::stockcode::{code_to_pure, format_stock_code};
use stock_agent::text::{truncate_str, u64_to_string};

#[test]
fn test_u64_to_string_exact() {
    assert_eq!(u64_to_string(0), "0");
    assert_eq!(u64_to_string(7), "7");
    assert_eq!(u64_to_string(120), "120");
    assert_eq!(u64_to_string(u64::MAX), format!("{}", u64::MAX));
}

#[test]
fn test_truncate_str_counts_characters() {
    assert_eq!(truncate_str("短文", 5), "短文");
    assert_eq!(truncate_str("一二三四五六", 3), "一二三...");
    assert_eq!(truncate_str("", 0), "");
}

#[test]
fn test_format_stock_code_cases() {
    assert_eq!(format_stock_code("  SH600519 "), "sh600519");
    assert_eq!(format_stock_code("600519"), "sh600519");
    assert_eq!(format_stock_code("000001"), "sz000001");
    assert_eq!(format_stock_code("300750"), "sz300750");
    assert_eq!(format_stock_code("830799"), "bj830799");
    assert_eq!(format_stock_code("430047"), "sz430047");
    assert_eq!(format_stock_code("abc"), "abc");
    assert_eq!(format_stock_code("bj430047"), "bj430047");
}

#[test]
fn test_code_to_pure_strips_prefix() {
    assert_eq!(code_to_pure("sh600519"), "600519");
    assert_eq!(code_to_pure("600519"), "600519");
    assert_eq!(code_to_pure("no digits"), "");
}

#[test]
fn test_extract_json_array_plain() {
    let text = " 前言 [1, 2, 3] 后记 ";
    assert_eq!(extract_json_array(text).unwrap(), "[1, 2, 3]");
}

#[test]
fn test_extract_json_array_fenced() {
    let text = "```json\n[{\"code\":\"sh600519\"}]\n```";
    assert_eq!(extract_json_array(text).unwrap(), "[{\"code\":\"sh600519\"}]");
}

#[test]
fn test_extract_json_array_missing() {
    let err = extract_json_array("没有数组").unwrap_err();
    assert_eq!(err, "Cannot find JSON array in AI response");
}

#[test]
fn test_parse_batch_instructions_roundtrip() {
    let content = "回复：\n```json\n[{\"code\":\"sh600519\",\"action\":\"buy\",\"label\":\"龙头抢筹\",\"reason\":\"得分高\"}]\n```";
    let out = parse_batch_instructions(content).expect("decodes");
    assert_eq!(out.len(), 1);
    assert_eq!(out[0].code, "sh600519");
    assert_eq!(out[0].action, "buy");
    assert_eq!(out[0].label, "龙头抢筹");
    assert_eq!(out[0].reason, "得分高");
}

#[test]
fn test_parse_batch_instructions_malformed() {
    match parse_batch_instructions("[{\"code\":1}]") {
        Err(err) => assert!(err.starts_with("Instruction parse error")),
        Ok(_) => panic!("a non-string field must fail the decode"),
    }
}

#[test]
fn test_request_body_parses_and_escapes() {
    let messages = vec![
        ChatMessage::system("系统\"指令\""),
        ChatMessage::user("任务\n第二行"),
    ];
    let plan = RequestPlan { max_tokens: 2048, stream: false, include_tools: true };
    let tools = get_tool_definitions();
    let body = build_request_json("gpt-4o-mini", Some("0.3"), &messages, &plan, Some(&tools));
    let v: serde_json::Value = serde_json::from_str(&body).expect("request body parses");
    assert_eq!(v["model"].as_str(), Some("gpt-4o-mini"));
    assert_eq!(v["max_tokens"].as_u64(), Some(2048));
    assert_eq!(v["temperature"].as_f64(), Some(0.3));
    assert_eq!(v["stream"].as_bool(), Some(false));
    assert_eq!(v["messages"][0]["content"].as_str(), Some("系统\"指令\""));
    assert_eq!(v["messages"][1]["content"].as_str(), Some("任务\n第二行"));
    assert_eq!(v["tools"].as_array().unwrap().len(), 4);
    assert_eq!(v["tools"][0]["function"]["name"].as_str(), Some("get_stock_quote"));
}

#[test]
fn test_request_body_omits_bad_temperature_and_tools() {
    let messages = vec![ChatMessage::user("hi")];
    let plan = RequestPlan { max_tokens: 100, stream: true, include_tools: false };
    let body = build_request_json("m", Some("not-a-number"), &messages, &plan, None);
    let v: serde_json::Value = serde_json::from_str(&body).expect("request body parses");
    assert!(v.get("temperature").is_none());
    assert!(v.get("tools").is_none());
    assert_eq!(v["stream"].as_bool(), Some(true));
}

#[test]
fn test_parse_json_reads_nested_documents() {
    let doc = stock_agent::json::parse_json(
        "{\"a\":{\"b\":[1,\"二\",null,true]},\"n\":-3.5}",
    )
    .expect("parses");
    let inner = doc.get("a").unwrap().get("b").unwrap();
    match inner {
        Json::Arr(items) => {
            assert_eq!(items.len(), 4);
            assert_eq!(items[0].as_u64(), Some(1));
            assert_eq!(items[1].as_text().map(|s| s.as_str()), Some("二"));
        }
        _ => panic!("b should be an array"),
    }
    assert!(stock_agent::json::parse_json("{oops").is_none());
}

#[test]
fn test_screener_result_renders_rows() {
    let body = r#"{"code":"100","msg":"ok","data":{"result":{"columns":[],"dataList":[{"SECURITY_CODE":"300001","SECURITY_SHORT_NAME":"特锐德","values":{"ZDF":1.5,"HY":"电力设备"}},{"SECURITY_CODE":"300002","SECURITY_SHORT_NAME":"神州泰岳","values":{}}]}}}"#;
    let out = render_screener_result(ScreenerKind::Stocks, "人工智能", 20, body);
    let v: serde_json::Value = serde_json::from_str(&out).expect("result parses");
    assert_eq!(v["keyword"].as_str(), Some("人工智能"));
    assert_eq!(v["total_count"].as_u64(), Some(2));
    assert_eq!(v["returned"].as_u64(), Some(2));
    assert_eq!(v["stocks"][0]["code"].as_str(), Some("300001"));
    assert_eq!(v["stocks"][0]["name"].as_str(), Some("特锐德"));
    assert_eq!(v["stocks"][0]["ZDF"].as_f64(), Some(1.5));
    assert_eq!(v["stocks"][0]["HY"].as_str(), Some("电力设备"));
    assert_eq!(v["stocks"][1]["code"].as_str(), Some("300002"));
}

#[test]
fn test_screener_result_page_size_caps_rows() {
    let body = r#"{"code":100,"data":{"result":{"dataList":[{"SECURITY_CODE":"1"},{"SECURITY_CODE":"2"},{"SECURITY_CODE":"3"}]}}}"#;
    let out = render_screener_result(ScreenerKind::Boards, "概念", 2, body);
    let v: serde_json::Value = serde_json::from_str(&out).expect("result parses");
    assert_eq!(v["returned"].as_u64(), Some(2));
    assert_eq!(v["boards"].as_array().unwrap().len(), 2);
}

#[test]
fn test_screener_result_error_code() {
    let body = r#"{"code":403,"msg":"条件无法识别"}"#;
    let out = render_screener_result(ScreenerKind::Stocks, "乱写", 20, body);
    let v: serde_json::Value = serde_json::from_str(&out).expect("result parses");
    let err = v["error"].as_str().unwrap();
    assert!(err.contains("选股条件解析失败(code=403)"));
    assert!(err.contains("条件无法识别"));
    assert_eq!(v["keyword"].as_str(), Some("乱写"));
}

#[test]
fn test_screener_result_unparseable_body() {
    let out = render_screener_result(ScreenerKind::Stocks, "x", 20, "<html>门户页</html>");
    let v: serde_json::Value = serde_json::from_str(&out).expect("result parses");
    assert!(v["error"].as_str().unwrap().contains("解析东财选股响应失败"));
}

#[test]
fn test_screener_failure_doc() {
    let out = render_screener_failure(ScreenerKind::Boards, "概念", "连接超时");
    let v: serde_json::Value = serde_json::from_str(&out).expect("result parses");
    assert_eq!(v["error"].as_str(), Some("板块查询API调用失败: 连接超时"));
}

#[test]
fn test_screener_request_body_shape() {
    let body = screener_request_body("人工智能,涨幅大于1%", 20, "fp-123", "1700000000");
    let v: serde_json::Value = serde_json::from_str(&body).expect("request parses");
    assert_eq!(v["keyWord"].as_str(), Some("人工智能,涨幅大于1%"));
    assert_eq!(v["pageSize"].as_u64(), Some(20));
    assert_eq!(v["pageNo"].as_u64(), Some(1));
    assert_eq!(v["fingerprint"].as_str(), Some("fp-123"));
    assert_eq!(v["timestamp"].as_str(), Some("1700000000"));
    assert_eq!(v["needCorrect"].as_bool(), Some(true));
    assert_eq!(v["shareToGuba"].as_bool(), Some(false));
    assert_eq!(v["gids"].as_array().unwrap().len(), 0);
}

#[test]
fn test_extract_search_query_tagged() {
    let text = "分析如下。<SEARCH_QUERY> 新能源,涨幅大于1% </SEARCH_QUERY>谢谢";
    assert_eq!(extract_search_query(text), Some("新能源,涨幅大于1%".to_string()));
    assert_eq!(extract_search_query("没有标签"), None);
    assert_eq!(extract_search_query("<SEARCH_QUERY>   </SEARCH_QUERY>"), None);
    assert_eq!(extract_search_query("<SEARCH_QUERY>未闭合"), None);
}
