//! Tool-catalog, summarizer, and dispatcher tests.

use stock_agent::dispatch::{ToolAction, plan_pick_tool};
use stock_agent::registry::{get_pick_tool_definitions, pick_tool_name_to_chinese};
use stock_agent::summarize::summarize_tool_result;

#[test]
fn test_pick_tool_definitions_valid_json() {
    let defs = get_pick_tool_definitions();
    assert!(!defs.is_empty(), "工具定义不应为空");
    for def in &defs {
        let v: serde_json::Value = serde_json::from_str(&def.wire_json()).expect("definition parses");
        assert!(v["type"].as_str() == Some("function"), "每个工具应为function类型");
        let func = &v["function"];
        assert!(func["name"].as_str().is_some(), "每个工具应有name");
        assert!(func["description"].as_str().is_some(), "每个工具应有description");
        assert!(func["parameters"]["type"].as_str() == Some("object"), "参数应为object类型");
    }
    println!("共 {} 个工具定义，全部合法", defs.len());
}

#[test]
fn test_pick_tool_definitions_no_hot_strategies() {
    let defs = get_pick_tool_definitions();
    for def in &defs {
        assert_ne!(def.name, "get_hot_strategies", "get_hot_strategies 应已从选股工具中移除");
    }
}

#[test]
fn test_pick_tool_definitions_has_new_tools() {
    let defs = get_pick_tool_definitions();
    let names: Vec<&str> = defs.iter().map(|d| d.name.as_str()).collect();

    let required_tools = [
        "get_market_news",
        "get_economic_data",
        "get_global_indexes",
        "get_financial_calendar",
        "get_kline_data",
        "get_technical_indicators",
        "search_stocks_by_condition",
        "search_concept_boards",
        "batch_get_stock_quotes",
        "get_stock_quote",
        "get_fund_flow",
        "search_stock_news",
        "get_stock_notices",
        "get_industry_report",
    ];

    for tool in &required_tools {
        assert!(names.contains(tool), "工具 {} 应在定义中", tool);
    }
    println!("全部 {} 个必需工具都已存在", required_tools.len());
}

#[test]
fn test_tool_name_chinese_mapping_complete() {
    let defs = get_pick_tool_definitions();
    for def in &defs {
        let name = def.name.as_str();
        let chinese = pick_tool_name_to_chinese(name);
        assert_ne!(chinese, name, "工具 {} 应有中文映射，但返回了原名", name);
        println!("  {} -> {}", name, chinese);
    }
}

#[test]
fn test_summarize_all_tools_have_handler() {
    let tool_names = [
        "get_market_news",
        "get_economic_data",
        "get_global_indexes",
        "get_financial_calendar",
        "search_stocks_by_condition",
        "search_concept_boards",
        "batch_get_stock_quotes",
        "get_stock_quote",
        "get_fund_flow",
        "get_kline_data",
        "get_technical_indicators",
        "search_stock_news",
        "get_stock_notices",
        "get_industry_report",
    ];

    for name in &tool_names {
        let result = summarize_tool_result(name, "{}");
        assert!(
            !result.contains("字节数据"),
            "工具 {} 应有专门的摘要处理逻辑，但走了default分支: {}",
            name,
            result
        );
    }
}

#[test]
fn test_summarize_economic_data() {
    let data = r#"{"gdp":[{"time":"2025年前三季度","sum_same":"5.20"}],"cpi":[{"time":"2025年09月","national_same":"0.40"}]}"#;
    let summary = summarize_tool_result("get_economic_data", data);
    println!("summary: {}", summary);
    assert!(summary.contains("GDP"));
    assert!(summary.contains("CPI"));
}

#[test]
fn test_summarize_global_indexes() {
    let data = r#"{"total":2,"indexes":[{"name":"道琼斯","change_pct":"0.52%"},{"name":"纳斯达克","change_pct":"-0.31%"}]}"#;
    let summary = summarize_tool_result("get_global_indexes", data);
    println!("summary: {}", summary);
    assert!(summary.contains("2 个全球指数"));
    assert!(summary.contains("道琼斯"));
}

#[test]
fn test_summarize_stock_news() {
    let data = r#"{"keyword":"贵州茅台","total":3,"news":[{"title":"茅台三季报超预期"},{"title":"茅台推出新品系列"}]}"#;
    let summary = summarize_tool_result("search_stock_news", data);
    println!("summary: {}", summary);
    assert!(summary.contains("贵州茅台"));
    assert!(summary.contains("3 条"));
}

#[test]
fn test_summarize_stock_notices() {
    let data = r#"{"code":"sh600519","total":2,"notices":[{"title":"2025年第三季度报告"},{"title":"关于回购公司股份进展"}]}"#;
    let summary = summarize_tool_result("get_stock_notices", data);
    println!("summary: {}", summary);
    assert!(summary.contains("sh600519"));
    assert!(summary.contains("2 条"));
}

#[test]
fn test_summarize_industry_report() {
    let data = r#"{"total":2,"reports":[{"title":"AI行业深度报告","org":"中信证券"},{"title":"半导体投资展望","org":"华泰证券"}]}"#;
    let summary = summarize_tool_result("get_industry_report", data);
    println!("summary: {}", summary);
    assert!(summary.contains("2 条研报"));
    assert!(summary.contains("中信证券"));
}

#[test]
fn test_summarize_search_stocks() {
    let data = r#"{"keyword":"人工智能","total_count":50,"returned":2,"stocks":[{"code":"300001","name":"特锐德"},{"code":"300002","name":"神州泰岳"}]}"#;
    let summary = summarize_tool_result("search_stocks_by_condition", data);
    println!("summary: {}", summary);
    assert!(summary.contains("人工智能"));
    assert!(summary.contains("50 只"));
    assert!(summary.contains("特锐德"));
}

#[test]
fn test_summarize_search_boards() {
    let data = r#"{"keyword":"AI概念","total_count":5,"returned":2,"boards":[{"code":"BK0800","name":"AI芯片"},{"code":"BK0801","name":"大模型"}]}"#;
    let summary = summarize_tool_result("search_concept_boards", data);
    println!("summary: {}", summary);
    assert!(summary.contains("AI概念"));
    assert!(summary.contains("AI芯片"));
}

#[test]
fn test_summarize_error_case() {
    let data = r#"{"error":"选股条件解析失败","keyword":"无效条件"}"#;
    let summary = summarize_tool_result("search_stocks_by_condition", data);
    println!("error summary: {}", summary);
    assert!(summary.contains("错误"));
}

#[test]
fn test_summarize_market_news_lists_headlines() {
    let data = r#"{"total":2,"news":[{"source":"财联社","title":"政策落地"},{"source":"东方财富","title":"资金回流"}]}"#;
    let summary = summarize_tool_result("get_market_news", data);
    assert!(summary.contains("获取到 2 条新闻"));
    assert!(summary.contains("1. [财联社] 政策落地"));
    assert!(summary.contains("2. [东方财富] 资金回流"));
}

#[test]
fn test_summarize_kline_exact() {
    let data = r#"{"code":"sh600519","period":"week","count":30}"#;
    let summary = summarize_tool_result("get_kline_data", data);
    assert_eq!(summary, "sh600519 周K线 30 根");
}

#[test]
fn test_summarize_fallback_for_unknown_tool() {
    let summary = summarize_tool_result("mystery_tool", "{}");
    assert_eq!(summary, "工具 mystery_tool 返回 2 字节数据");
}

#[test]
fn test_execute_pick_tool_unknown_returns_msg() {
    let action = plan_pick_tool("nonexistent_tool", "{}", "");
    match action {
        ToolAction::Reply(result) => {
            assert!(result.contains("未知工具"), "应返回未知工具消息: {}", result);
        }
        ToolAction::Invoke(_) => panic!("未知工具应直接回复"),
    }
}

#[test]
fn test_execute_pick_tool_hot_strategies_is_unknown() {
    let action = plan_pick_tool("get_hot_strategies", r#"{"count":10}"#, "");
    match action {
        ToolAction::Reply(result) => {
            assert!(result.contains("未知工具"), "get_hot_strategies 应已从pick tools移除: {}", result);
        }
        ToolAction::Invoke(_) => panic!("get_hot_strategies 不应再被路由"),
    }
}

#[test]
fn test_execute_pick_tool_empty_qgqp_returns_error_json() {
    let action = plan_pick_tool("search_stocks_by_condition", r#"{"keyword": "人工智能"}"#, "");
    match action {
        ToolAction::Reply(result) => {
            let json: serde_json::Value = serde_json::from_str(&result).expect("应返回有效JSON");
            assert!(json["error"].as_str().is_some(), "应包含error字段");
        }
        ToolAction::Invoke(_) => panic!("缺少凭据时不应发起调用"),
    }
}

#[test]
fn test_pick_tool_clamps_page_size() {
    let action = plan_pick_tool(
        "search_stocks_by_condition",
        r#"{"keyword": "人工智能", "page_size": 500}"#,
        "demo-fingerprint",
    );
    match action {
        ToolAction::Invoke(stock_agent::dispatch::ToolQuery::SearchStocks { keyword, page_size }) => {
            assert_eq!(keyword, "人工智能");
            assert_eq!(page_size, 50);
        }
        _ => panic!("应路由到选股查询"),
    }
}

#[test]
fn test_pick_tool_malformed_arguments_act_as_empty() {
    let action = plan_pick_tool("get_market_news", "not json at all", "");
    match action {
        ToolAction::Invoke(stock_agent::dispatch::ToolQuery::MarketNews { count }) => {
            assert_eq!(count, 30);
        }
        _ => panic!("参数解析失败应退回默认值"),
    }
}

#[test]
fn test_batch_quotes_takes_first_twenty() {
    let mut codes = Vec::new();
    for i in 0..25 {
        codes.push(format!("\"sz{:06}\"", i));
    }
    let args = format!("{{\"codes\":[{}]}}", codes.join(","));
    let action = plan_pick_tool("batch_get_stock_quotes", &args, "");
    match action {
        ToolAction::Invoke(stock_agent::dispatch::ToolQuery::BatchQuotes { codes }) => {
            assert_eq!(codes.len(), 20);
            assert_eq!(codes[0], "sz000000");
        }
        _ => panic!("应路由到批量行情"),
    }
}

#[test]
fn test_dispatch_outcome_converts_failure_to_text() {
    let ok = stock_agent::dispatch::dispatch_outcome(Ok("data".to_string()));
    assert_eq!(ok, "data");
    let err = stock_agent::dispatch::dispatch_outcome(Err("网络超时".to_string()));
    assert_eq!(err, "工具调用失败: 网络超时");
}
