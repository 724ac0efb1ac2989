//! The static tool catalogs: name, human description, and JSON-schema
//! parameters for each tool the model may call, grouped by use case
//! (stock diagnosis vs. autonomous picking), with the wire form each
//! definition takes in a request.

use vstd::prelude::*;

use crate::wire::{append_key, append_quoted, append_quoted_list, spec_key, spec_quoted, spec_quoted_join};

verus! {

/// One parameter of a tool: its name, JSON-schema type, description, the
/// allowed values when the schema constrains them, and the element type
/// when the parameter is an array.
pub struct ToolParam {
    pub name: String,
    pub ptype: String,
    pub description: String,
    pub enum_values: Option<Vec<String>>,
    pub items_type: Option<String>,
}

/// One tool: name, description, parameters, and which are required.
pub struct ToolDefinition {
    pub name: String,
    pub description: String,
    pub params: Vec<ToolParam>,
    pub required: Vec<String>,
}

// ---------------------------------------------------------------------------
// wire form
// ---------------------------------------------------------------------------
/// The schema object of one parameter.
pub open spec fn spec_param_schema(p: ToolParam) -> Seq<char> {
    "{"@ + spec_key("type"@) + spec_quoted(p.ptype@) + ","@ + spec_key("description"@)
        + spec_quoted(p.description@) + (match p.enum_values {
        Some(vs) => ","@ + spec_key("enum"@) + "["@ + spec_quoted_join(vs@) + "]"@,
        None => Seq::empty(),
    }) + (match p.items_type {
        Some(t) => ","@ + spec_key("items"@) + "{"@ + spec_key("type"@) + spec_quoted(t@) + "}"@,
        None => Seq::empty(),
    }) + "}"@
}

/// The `properties` entries of a parameter list, joined by commas.
pub open spec fn spec_props_join(s: Seq<ToolParam>) -> Seq<char>
    decreases s.len(),
{
    if s.len() == 0 {
        Seq::empty()
    } else if s.len() == 1 {
        spec_key(s[0].name@) + spec_param_schema(s[0])
    } else {
        spec_props_join(s.drop_last()) + ","@ + spec_key(s.last().name@) + spec_param_schema(
            s.last(),
        )
    }
}

/// Adding one more property on the right.
proof fn lemma_props_join_push(s: Seq<ToolParam>, x: ToolParam)
    ensures
        spec_props_join(s.push(x)) == if s.len() == 0 {
            spec_key(x.name@) + spec_param_schema(x)
        } else {
            spec_props_join(s) + ","@ + spec_key(x.name@) + spec_param_schema(x)
        },
{
    assert(s.push(x).last() == x);
    if s.len() == 0 {
        assert(s.push(x)[0] == x);
    } else {
        assert(s.push(x).drop_last() =~= s);
    }
}

/// The complete wire form of one tool definition.
pub open spec fn spec_tool_def_json(d: ToolDefinition) -> Seq<char> {
    "{"@ + spec_key("type"@) + spec_quoted("function"@) + ","@ + spec_key("function"@) + "{"@
        + spec_key("name"@) + spec_quoted(d.name@) + ","@ + spec_key("description"@) + spec_quoted(
        d.description@,
    ) + ","@ + spec_key("parameters"@) + "{"@ + spec_key("type"@) + spec_quoted("object"@) + ","@
        + spec_key("properties"@) + "{"@ + spec_props_join(d.params@) + "}"@ + ","@ + spec_key(
        "required"@,
    ) + "["@ + spec_quoted_join(d.required@) + "]"@ + "}"@ + "}"@ + "}"@
}

#[verifier::rlimit(60)]
fn append_param_schema(out: &mut String, p: &ToolParam)
    ensures
        final(out)@ == old(out)@ + spec_param_schema(*p),
{
    out.append("{");
    append_key(out, "type");
    append_quoted(out, p.ptype.as_str());
    out.append(",");
    append_key(out, "description");
    append_quoted(out, p.description.as_str());
    match &p.enum_values {
        Some(vs) => {
            out.append(",");
            append_key(out, "enum");
            out.append("[");
            append_quoted_list(out, vs);
            out.append("]");
        },
        None => {},
    }
    match &p.items_type {
        Some(t) => {
            out.append(",");
            append_key(out, "items");
            out.append("{");
            append_key(out, "type");
            append_quoted(out, t.as_str());
            out.append("}");
        },
        None => {},
    }
    out.append("}");
    proof {
        assert(final(out)@ =~= old(out)@ + spec_param_schema(*p));
    }
}

fn append_props(out: &mut String, params: &Vec<ToolParam>)
    ensures
        final(out)@ == old(out)@ + spec_props_join(params@),
{
    let n = params.len();
    let mut i: usize = 0;
    proof {
        assert(params@.take(0) =~= Seq::<ToolParam>::empty());
        assert(out@ =~= old(out)@ + spec_props_join(params@.take(0)));
    }
    while i < n
        invariant
            i <= n,
            n == params@.len(),
            out@ == old(out)@ + spec_props_join(params@.take(i as int)),
        decreases n - i,
    {
        if i > 0 {
            out.append(",");
        }
        append_key(out, params[i].name.as_str());
        append_param_schema(out, &params[i]);
        proof {
            assert(params@.take(i + 1) =~= params@.take(i as int).push(params@[i as int]));
            lemma_props_join_push(params@.take(i as int), params@[i as int]);
            reveal_strlit(",");
            assert(","@ =~= seq![',']);
            assert(out@ =~= old(out)@ + spec_props_join(params@.take(i + 1)));
        }
        i += 1;
    }
    proof {
        assert(params@.take(n as int) =~= params@);
    }
}

impl ToolDefinition {
    /// This definition in the wire form a request carries.
    pub fn wire_json(&self) -> (r: String)
        ensures
            r@ == spec_tool_def_json(*self),
    {
        let mut out = String::new();
        out.append("{");
        append_key(&mut out, "type");
        append_quoted(&mut out, "function");
        out.append(",");
        append_key(&mut out, "function");
        out.append("{");
        append_key(&mut out, "name");
        append_quoted(&mut out, self.name.as_str());
        out.append(",");
        append_key(&mut out, "description");
        append_quoted(&mut out, self.description.as_str());
        out.append(",");
        append_key(&mut out, "parameters");
        out.append("{");
        append_key(&mut out, "type");
        append_quoted(&mut out, "object");
        out.append(",");
        append_key(&mut out, "properties");
        out.append("{");
        append_props(&mut out, &self.params);
        out.append("}");
        out.append(",");
        append_key(&mut out, "required");
        out.append("[");
        append_quoted_list(&mut out, &self.required);
        out.append("]");
        out.append("}");
        out.append("}");
        out.append("}");
        proof {
            assert(out@ =~= spec_tool_def_json(*self));
        }
        out
    }
}

// ---------------------------------------------------------------------------
// construction helpers
// ---------------------------------------------------------------------------
fn param(name: &str, ptype: &str, description: &str) -> (r: ToolParam)
    ensures
        r.name@ == name@,
        r.ptype@ == ptype@,
        r.description@ == description@,
        r.enum_values is None,
        r.items_type is None,
{
    ToolParam {
        name: String::from_str(name),
        ptype: String::from_str(ptype),
        description: String::from_str(description),
        enum_values: None,
        items_type: None,
    }
}

fn param_enum2(name: &str, description: &str, v0: &str, v1: &str) -> (r: ToolParam)
    ensures
        r.name@ == name@,
        r.ptype@ == "string"@,
        r.description@ == description@,
        r.enum_values matches Some(vs) && vs@.len() == 2 && vs@[0]@ == v0@ && vs@[1]@ == v1@,
        r.items_type is None,
{
    let mut vs: Vec<String> = Vec::new();
    vs.push(String::from_str(v0));
    vs.push(String::from_str(v1));
    ToolParam {
        name: String::from_str(name),
        ptype: String::from_str("string"),
        description: String::from_str(description),
        enum_values: Some(vs),
        items_type: None,
    }
}

fn param_enum5(name: &str, description: &str, v0: &str, v1: &str, v2: &str, v3: &str, v4: &str) -> (r:
    ToolParam)
    ensures
        r.name@ == name@,
        r.ptype@ == "string"@,
        r.description@ == description@,
        r.enum_values matches Some(vs) && vs@.len() == 5 && vs@[0]@ == v0@ && vs@[1]@ == v1@
            && vs@[2]@ == v2@ && vs@[3]@ == v3@ && vs@[4]@ == v4@,
        r.items_type is None,
{
    let mut vs: Vec<String> = Vec::new();
    vs.push(String::from_str(v0));
    vs.push(String::from_str(v1));
    vs.push(String::from_str(v2));
    vs.push(String::from_str(v3));
    vs.push(String::from_str(v4));
    ToolParam {
        name: String::from_str(name),
        ptype: String::from_str("string"),
        description: String::from_str(description),
        enum_values: Some(vs),
        items_type: None,
    }
}

fn param_array(name: &str, description: &str, items_type: &str) -> (r: ToolParam)
    ensures
        r.name@ == name@,
        r.ptype@ == "array"@,
        r.description@ == description@,
        r.enum_values is None,
        r.items_type matches Some(t) && t@ == items_type@,
{
    ToolParam {
        name: String::from_str(name),
        ptype: String::from_str("array"),
        description: String::from_str(description),
        enum_values: None,
        items_type: Some(String::from_str(items_type)),
    }
}

fn def(name: &str, description: &str, params: Vec<ToolParam>, required: Vec<String>) -> (r:
    ToolDefinition)
    ensures
        r.name@ == name@,
        r.description@ == description@,
        r.params == params,
        r.required == required,
{
    ToolDefinition {
        name: String::from_str(name),
        description: String::from_str(description),
        params,
        required,
    }
}

fn req1(a: &str) -> (r: Vec<String>)
    ensures
        r@.len() == 1,
        r@[0]@ == a@,
{
    let mut v: Vec<String> = Vec::new();
    v.push(String::from_str(a));
    v
}

// ---------------------------------------------------------------------------
// the catalogs
// ---------------------------------------------------------------------------
/// The names of the diagnosis catalog, in order.
pub open spec fn spec_tool_names() -> Seq<Seq<char>> {
    seq![
        "get_stock_quote"@,
        "get_kline_data"@,
        "get_technical_indicators"@,
        "get_fund_flow"@,
    ]
}

/// The names of the autonomous-picking catalog, in order.
pub open spec fn spec_pick_tool_names() -> Seq<Seq<char>> {
    seq![
        "get_market_news"@,
        "get_economic_data"@,
        "get_global_indexes"@,
        "get_financial_calendar"@,
        "get_kline_data"@,
        "get_technical_indicators"@,
        "search_stocks_by_condition"@,
        "search_concept_boards"@,
        "batch_get_stock_quotes"@,
        "get_stock_quote"@,
        "get_fund_flow"@,
        "search_stock_news"@,
        "get_stock_notices"@,
        "get_industry_report"@,
    ]
}


/// A plain parameter: name, schema type, description, no value
/// constraint, no element type.
pub open spec fn is_plain_param(
    p: ToolParam,
    name: Seq<char>,
    ptype: Seq<char>,
    description: Seq<char>,
) -> bool {
    &&& p.name@ == name
    &&& p.ptype@ == ptype
    &&& p.description@ == description
    &&& p.enum_values is None
    &&& p.items_type is None
}

/// A string parameter constrained to two allowed values.
pub open spec fn is_enum2_param(
    p: ToolParam,
    name: Seq<char>,
    description: Seq<char>,
    v0: Seq<char>,
    v1: Seq<char>,
) -> bool {
    &&& p.name@ == name
    &&& p.ptype@ == "string"@
    &&& p.description@ == description
    &&& p.enum_values matches Some(vs) && vs@.len() == 2 && vs@[0]@ == v0 && vs@[1]@ == v1
    &&& p.items_type is None
}

/// A string parameter constrained to five allowed values.
pub open spec fn is_enum5_param(
    p: ToolParam,
    name: Seq<char>,
    description: Seq<char>,
    v0: Seq<char>,
    v1: Seq<char>,
    v2: Seq<char>,
    v3: Seq<char>,
    v4: Seq<char>,
) -> bool {
    &&& p.name@ == name
    &&& p.ptype@ == "string"@
    &&& p.description@ == description
    &&& p.enum_values matches Some(vs) && vs@.len() == 5 && vs@[0]@ == v0 && vs@[1]@ == v1
        && vs@[2]@ == v2 && vs@[3]@ == v3 && vs@[4]@ == v4
    &&& p.items_type is None
}

/// An array parameter with the given element type.
pub open spec fn is_array_param(
    p: ToolParam,
    name: Seq<char>,
    description: Seq<char>,
    items: Seq<char>,
) -> bool {
    &&& p.name@ == name
    &&& p.ptype@ == "array"@
    &&& p.description@ == description
    &&& p.enum_values is None
    &&& p.items_type matches Some(t) && t@ == items
}

/// The diagnosis catalog, definition for definition: name, description,
/// parameter schema, and required list of each tool.
pub open spec fn spec_diagnose_catalog(defs: Seq<ToolDefinition>) -> bool {
    &&& defs.len() == 4
    &&& {
        let d = defs[0];
        &&& d.name@ == "get_stock_quote"@
        &&& d.description@ == "获取股票实时行情快照，包括最新价、涨跌幅、PE/PB/ROE、市值、换手率、量比、主力净流入、5日/20日涨幅等多维度数据"@
        &&& d.params@.len() == 1
        &&& is_plain_param(d.params@[0], "code"@, "string"@, "股票代码，如 sh600519、sz000001"@)
        &&& d.required@.len() == 1 && d.required@[0]@ == "code"@
    }
    &&& {
        let d = defs[1];
        &&& d.name@ == "get_kline_data"@
        &&& d.description@ == "获取股票历史K线数据（前复权），包括日期、开高低收、成交量、涨跌幅。可选日K或周K，可指定获取最近N根K线"@
        &&& d.params@.len() == 3
        &&& is_plain_param(d.params@[0], "code"@, "string"@, "股票代码，如 sh600519、sz000001"@)
        &&& is_enum2_param(d.params@[1], "period"@, "K线周期，day=日K线，week=周K线，默认day"@, "day"@, "week"@)
        &&& is_plain_param(d.params@[2], "count"@, "integer"@, "获取最近N根K线，默认60，最多120"@)
        &&& d.required@.len() == 1 && d.required@[0]@ == "code"@
    }
    &&& {
        let d = defs[2];
        &&& d.name@ == "get_technical_indicators"@
        &&& d.description@ == "获取股票技术分析指标，包括：MA均线(5/10/20/60)、MACD(DIF/DEA/柱)、KDJ、RSI(6/12/24)、布林带(上/中/下轨)，以及技术信号（金叉/死叉/超买超卖/背离等）、均线排列状态、量价关系"@
        &&& d.params@.len() == 2
        &&& is_plain_param(d.params@[0], "code"@, "string"@, "股票代码，如 sh600519、sz000001"@)
        &&& is_enum2_param(d.params@[1], "period"@, "K线周期，默认day"@, "day"@, "week"@)
        &&& d.required@.len() == 1 && d.required@[0]@ == "code"@
    }
    &&& {
        let d = defs[3];
        &&& d.name@ == "get_fund_flow"@
        &&& d.description@ == "获取股票资金流向数据，包括主力净流入金额和主力净占比"@
        &&& d.params@.len() == 1
        &&& is_plain_param(d.params@[0], "code"@, "string"@, "股票代码，如 sh600519、sz000001"@)
        &&& d.required@.len() == 1 && d.required@[0]@ == "code"@
    }
}

/// The picking catalog, definition for definition: name, description,
/// parameter schema, and required list of each tool.
pub open spec fn spec_pick_catalog(defs: Seq<ToolDefinition>) -> bool {
    &&& defs.len() == 14
    &&& {
        let d = defs[0];
        &&& d.name@ == "get_market_news"@
        &&& d.description@ == "获取最新市场财经新闻摘要，聚合财联社电报、东方财富要闻、新浪滚动新闻，返回近期重要新闻标题和摘要"@
        &&& d.params@.len() == 1
        &&& is_plain_param(d.params@[0], "count"@, "integer"@, "每个源获取条数，默认30，最多60"@)
        &&& d.required@.len() == 0
    }
    &&& {
        let d = defs[1];
        &&& d.name@ == "get_economic_data"@
        &&& d.description@ == "获取宏观经济数据，包括GDP(国内生产总值)、CPI(居民消费价格指数)、PPI(工业品出厂价格指数)、PMI(采购经理人指数)。返回最近4期数据，帮助判断经济周期和政策方向"@
        &&& d.params@.len() == 1
        &&& is_enum5_param(
            d.params@[0],
            "indicator"@,
            "指标类型：all=全部(默认)，gdp/cpi/ppi/pmi=单个指标"@,
            "all"@,
            "gdp"@,
            "cpi"@,
            "ppi"@,
            "pmi"@,
        )
        &&& d.required@.len() == 0
    }
    &&& {
        let d = defs[2];
        &&& d.name@ == "get_global_indexes"@
        &&& d.description@ == "获取全球主要股票指数行情，包括道琼斯、纳斯达克、标普500、恒生指数、日经225、欧洲主要指数等，帮助判断外盘环境对A股的影响"@
        &&& d.params@.len() == 0
        &&& d.required@.len() == 0
    }
    &&& {
        let d = defs[3];
        &&& d.name@ == "get_financial_calendar"@
        &&& d.description@ == "获取近期财经日历/重要事件，包括经济数据发布日、重要会议、政策窗口期等，帮助判断事件驱动的投资机会"@
        &&& d.params@.len() == 0
        &&& d.required@.len() == 0
    }
    &&& {
        let d = defs[4];
        &&& d.name@ == "get_kline_data"@
        &&& d.description@ == "获取股票或指数的历史K线数据（前复权），包括日期、开高低收、成交量、涨跌幅。支持指数代码：sh000001(上证指数)、sz399001(深证成指)、sz399006(创业板指)"@
        &&& d.params@.len() == 3
        &&& is_plain_param(d.params@[0], "code"@, "string"@, "股票/指数代码，如sh600519、sh000001(上证指数)"@)
        &&& is_enum2_param(d.params@[1], "period"@, "K线周期，默认day"@, "day"@, "week"@)
        &&& is_plain_param(d.params@[2], "count"@, "integer"@, "最近N根K线，默认30，最多120"@)
        &&& d.required@.len() == 1 && d.required@[0]@ == "code"@
    }
    &&& {
        let d = defs[5];
        &&& d.name@ == "get_technical_indicators"@
        &&& d.description@ == "获取股票或指数的技术分析指标：MA均线、MACD、KDJ、RSI、布林带，以及技术信号（金叉/死叉/背离等）。支持指数代码：sh000001(上证)、sz399001(深证)、sz399006(创业板)"@
        &&& d.params@.len() == 2
        &&& is_plain_param(d.params@[0], "code"@, "string"@, "股票/指数代码"@)
        &&& is_enum2_param(d.params@[1], "period"@, "K线周期，默认day"@, "day"@, "week"@)
        &&& d.required@.len() == 1 && d.required@[0]@ == "code"@
    }
    &&& {
        let d = defs[6];
        &&& d.name@ == "search_stocks_by_condition"@
        &&& d.description@ == "通过自然语言条件选股(东方财富NLP选股器)。支持概念/板块、技术指标、涨跌幅、换手率、估值、市值、资金、财务等条件自由组合"@
        &&& d.params@.len() == 2
        &&& is_plain_param(d.params@[0], "keyword"@, "string"@, "自然语言选股条件，如\"人工智能，涨幅大于1%，MACD金叉，换手率大于3%\""@)
        &&& is_plain_param(d.params@[1], "page_size"@, "integer"@, "返回数量，默认20，最多50"@)
        &&& d.required@.len() == 1 && d.required@[0]@ == "keyword"@
    }
    &&& {
        let d = defs[7];
        &&& d.name@ == "search_concept_boards"@
        &&& d.description@ == "通过自然语言搜索概念板块/行业板块数据，查询板块涨幅排行或特定概念板块情况"@
        &&& d.params@.len() == 2
        &&& is_plain_param(d.params@[0], "keyword"@, "string"@, "板块查询条件，如\"今日涨幅前15的概念板块\""@)
        &&& is_plain_param(d.params@[1], "page_size"@, "integer"@, "返回数量，默认20，最多50"@)
        &&& d.required@.len() == 1 && d.required@[0]@ == "keyword"@
    }
    &&& {
        let d = defs[8];
        &&& d.name@ == "batch_get_stock_quotes"@
        &&& d.description@ == "批量获取多只股票详细行情（最新价、涨跌幅、PE/PB/ROE、市值、换手率、量比、主力净流入、5日/20日涨幅等），一次最多20只"@
        &&& d.params@.len() == 1
        &&& is_array_param(d.params@[0], "codes"@, "股票代码数组，如[\"sh600519\",\"sz000001\"]"@, "string"@)
        &&& d.required@.len() == 1 && d.required@[0]@ == "codes"@
    }
    &&& {
        let d = defs[9];
        &&& d.name@ == "get_stock_quote"@
        &&& d.description@ == "获取单只股票实时行情快照"@
        &&& d.params@.len() == 1
        &&& is_plain_param(d.params@[0], "code"@, "string"@, "股票代码，如sh600519"@)
        &&& d.required@.len() == 1 && d.required@[0]@ == "code"@
    }
    &&& {
        let d = defs[10];
        &&& d.name@ == "get_fund_flow"@
        &&& d.description@ == "获取股票资金流向数据，包括主力净流入金额和占比"@
        &&& d.params@.len() == 1
        &&& is_plain_param(d.params@[0], "code"@, "string"@, "股票代码"@)
        &&& d.required@.len() == 1 && d.required@[0]@ == "code"@
    }
    &&& {
        let d = defs[11];
        &&& d.name@ == "search_stock_news"@
        &&& d.description@ == "按关键词搜索个股相关新闻/资讯，验证候选股是否有真实催化剂或利空消息。只对最终候选的3-5只股票使用"@
        &&& d.params@.len() == 1
        &&& is_plain_param(d.params@[0], "keyword"@, "string"@, "搜索关键词，通常为股票名称，如\"贵州茅台\""@)
        &&& d.required@.len() == 1 && d.required@[0]@ == "keyword"@
    }
    &&& {
        let d = defs[12];
        &&& d.name@ == "get_stock_notices"@
        &&& d.description@ == "获取上市公司最新公告(业绩预告/重大合同/定增/减持等)，比新闻更权威。只对最终候选股使用"@
        &&& d.params@.len() == 1
        &&& is_plain_param(d.params@[0], "code"@, "string"@, "股票代码，如sh600519"@)
        &&& d.required@.len() == 1 && d.required@[0]@ == "code"@
    }
    &&& {
        let d = defs[13];
        &&& d.name@ == "get_industry_report"@
        &&& d.description@ == "获取行业或个股研报摘要列表(标题/机构/评级/日期)，帮助了解机构观点。不传code返回最新行业研报，传code返回个股研报"@
        &&& d.params@.len() == 1
        &&& is_plain_param(d.params@[0], "code"@, "string"@, "可选，股票代码。不传则返回最新行业研报"@)
        &&& d.required@.len() == 0
    }
}

/// The diagnosis tool catalog: quote, K-line, indicators, fund flow.
pub fn get_tool_definitions() -> (r: Vec<ToolDefinition>)
    ensures
        r@.len() == spec_tool_names().len(),
        forall|i: int| 0 <= i < r@.len() ==> (#[trigger] r@[i]).name@ == spec_tool_names()[i],
        spec_diagnose_catalog(r@),
{
    let mut defs: Vec<ToolDefinition> = Vec::new();

    let mut p: Vec<ToolParam> = Vec::new();
    p.push(param("code", "string", "股票代码，如 sh600519、sz000001"));
    defs.push(
        def(
            "get_stock_quote",
            "获取股票实时行情快照，包括最新价、涨跌幅、PE/PB/ROE、市值、换手率、量比、主力净流入、5日/20日涨幅等多维度数据",
            p,
            req1("code"),
        ),
    );

    let mut p: Vec<ToolParam> = Vec::new();
    p.push(param("code", "string", "股票代码，如 sh600519、sz000001"));
    p.push(param_enum2("period", "K线周期，day=日K线，week=周K线，默认day", "day", "week"));
    p.push(param("count", "integer", "获取最近N根K线，默认60，最多120"));
    defs.push(
        def(
            "get_kline_data",
            "获取股票历史K线数据（前复权），包括日期、开高低收、成交量、涨跌幅。可选日K或周K，可指定获取最近N根K线",
            p,
            req1("code"),
        ),
    );

    let mut p: Vec<ToolParam> = Vec::new();
    p.push(param("code", "string", "股票代码，如 sh600519、sz000001"));
    p.push(param_enum2("period", "K线周期，默认day", "day", "week"));
    defs.push(
        def(
            "get_technical_indicators",
            "获取股票技术分析指标，包括：MA均线(5/10/20/60)、MACD(DIF/DEA/柱)、KDJ、RSI(6/12/24)、布林带(上/中/下轨)，以及技术信号（金叉/死叉/超买超卖/背离等）、均线排列状态、量价关系",
            p,
            req1("code"),
        ),
    );

    let mut p: Vec<ToolParam> = Vec::new();
    p.push(param("code", "string", "股票代码，如 sh600519、sz000001"));
    defs.push(
        def(
            "get_fund_flow",
            "获取股票资金流向数据，包括主力净流入金额和主力净占比",
            p,
            req1("code"),
        ),
    );

    defs
}

/// The autonomous-picking tool catalog: macro and market context, board
/// and stock screening, verification, and per-stock deep dives.  It also
/// spans the diagnosis tools.
pub fn get_pick_tool_definitions() -> (r: Vec<ToolDefinition>)
    ensures
        r@.len() == spec_pick_tool_names().len(),
        forall|i: int| 0 <= i < r@.len() ==> (#[trigger] r@[i]).name@ == spec_pick_tool_names()[i],
        spec_pick_catalog(r@),
{
    let mut defs: Vec<ToolDefinition> = Vec::new();

    let mut p: Vec<ToolParam> = Vec::new();
    p.push(param("count", "integer", "每个源获取条数，默认30，最多60"));
    defs.push(
        def(
            "get_market_news",
            "获取最新市场财经新闻摘要，聚合财联社电报、东方财富要闻、新浪滚动新闻，返回近期重要新闻标题和摘要",
            p,
            Vec::new(),
        ),
    );

    let mut p: Vec<ToolParam> = Vec::new();
    p.push(
        param_enum5(
            "indicator",
            "指标类型：all=全部(默认)，gdp/cpi/ppi/pmi=单个指标",
            "all",
            "gdp",
            "cpi",
            "ppi",
            "pmi",
        ),
    );
    defs.push(
        def(
            "get_economic_data",
            "获取宏观经济数据，包括GDP(国内生产总值)、CPI(居民消费价格指数)、PPI(工业品出厂价格指数)、PMI(采购经理人指数)。返回最近4期数据，帮助判断经济周期和政策方向",
            p,
            Vec::new(),
        ),
    );

    defs.push(
        def(
            "get_global_indexes",
            "获取全球主要股票指数行情，包括道琼斯、纳斯达克、标普500、恒生指数、日经225、欧洲主要指数等，帮助判断外盘环境对A股的影响",
            Vec::new(),
            Vec::new(),
        ),
    );

    defs.push(
        def(
            "get_financial_calendar",
            "获取近期财经日历/重要事件，包括经济数据发布日、重要会议、政策窗口期等，帮助判断事件驱动的投资机会",
            Vec::new(),
            Vec::new(),
        ),
    );

    let mut p: Vec<ToolParam> = Vec::new();
    p.push(param("code", "string", "股票/指数代码，如sh600519、sh000001(上证指数)"));
    p.push(param_enum2("period", "K线周期，默认day", "day", "week"));
    p.push(param("count", "integer", "最近N根K线，默认30，最多120"));
    defs.push(
        def(
            "get_kline_data",
            "获取股票或指数的历史K线数据（前复权），包括日期、开高低收、成交量、涨跌幅。支持指数代码：sh000001(上证指数)、sz399001(深证成指)、sz399006(创业板指)",
            p,
            req1("code"),
        ),
    );

    let mut p: Vec<ToolParam> = Vec::new();
    p.push(param("code", "string", "股票/指数代码"));
    p.push(param_enum2("period", "K线周期，默认day", "day", "week"));
    defs.push(
        def(
            "get_technical_indicators",
            "获取股票或指数的技术分析指标：MA均线、MACD、KDJ、RSI、布林带，以及技术信号（金叉/死叉/背离等）。支持指数代码：sh000001(上证)、sz399001(深证)、sz399006(创业板)",
            p,
            req1("code"),
        ),
    );

    let mut p: Vec<ToolParam> = Vec::new();
    p.push(
        param(
            "keyword",
            "string",
            "自然语言选股条件，如\"人工智能，涨幅大于1%，MACD金叉，换手率大于3%\"",
        ),
    );
    p.push(param("page_size", "integer", "返回数量，默认20，最多50"));
    defs.push(
        def(
            "search_stocks_by_condition",
            "通过自然语言条件选股(东方财富NLP选股器)。支持概念/板块、技术指标、涨跌幅、换手率、估值、市值、资金、财务等条件自由组合",
            p,
            req1("keyword"),
        ),
    );

    let mut p: Vec<ToolParam> = Vec::new();
    p.push(param("keyword", "string", "板块查询条件，如\"今日涨幅前15的概念板块\""));
    p.push(param("page_size", "integer", "返回数量，默认20，最多50"));
    defs.push(
        def(
            "search_concept_boards",
            "通过自然语言搜索概念板块/行业板块数据，查询板块涨幅排行或特定概念板块情况",
            p,
            req1("keyword"),
        ),
    );

    let mut p: Vec<ToolParam> = Vec::new();
    p.push(param_array("codes", "股票代码数组，如[\"sh600519\",\"sz000001\"]", "string"));
    defs.push(
        def(
            "batch_get_stock_quotes",
            "批量获取多只股票详细行情（最新价、涨跌幅、PE/PB/ROE、市值、换手率、量比、主力净流入、5日/20日涨幅等），一次最多20只",
            p,
            req1("codes"),
        ),
    );

    let mut p: Vec<ToolParam> = Vec::new();
    p.push(param("code", "string", "股票代码，如sh600519"));
    defs.push(def("get_stock_quote", "获取单只股票实时行情快照", p, req1("code")));

    let mut p: Vec<ToolParam> = Vec::new();
    p.push(param("code", "string", "股票代码"));
    defs.push(
        def(
            "get_fund_flow",
            "获取股票资金流向数据，包括主力净流入金额和占比",
            p,
            req1("code"),
        ),
    );

    let mut p: Vec<ToolParam> = Vec::new();
    p.push(param("keyword", "string", "搜索关键词，通常为股票名称，如\"贵州茅台\""));
    defs.push(
        def(
            "search_stock_news",
            "按关键词搜索个股相关新闻/资讯，验证候选股是否有真实催化剂或利空消息。只对最终候选的3-5只股票使用",
            p,
            req1("keyword"),
        ),
    );

    let mut p: Vec<ToolParam> = Vec::new();
    p.push(param("code", "string", "股票代码，如sh600519"));
    defs.push(
        def(
            "get_stock_notices",
            "获取上市公司最新公告(业绩预告/重大合同/定增/减持等)，比新闻更权威。只对最终候选股使用",
            p,
            req1("code"),
        ),
    );

    let mut p: Vec<ToolParam> = Vec::new();
    p.push(param("code", "string", "可选，股票代码。不传则返回最新行业研报"));
    defs.push(
        def(
            "get_industry_report",
            "获取行业或个股研报摘要列表(标题/机构/评级/日期)，帮助了解机构观点。不传code返回最新行业研报，传code返回个股研报",
            p,
            Vec::new(),
        ),
    );

    defs
}

// ---------------------------------------------------------------------------
// display names
// ---------------------------------------------------------------------------
/// The progress-display name of a diagnosis tool; unknown names pass
/// through.
pub open spec fn spec_tool_name_chinese(name: Seq<char>) -> Seq<char> {
    if name == "get_stock_quote"@ {
        "实时行情"@
    } else if name == "get_kline_data"@ {
        "K线数据"@
    } else if name == "get_technical_indicators"@ {
        "技术指标"@
    } else if name == "get_fund_flow"@ {
        "资金流向"@
    } else {
        name
    }
}

/// The progress-display name of a diagnosis tool.
pub fn tool_name_to_chinese<'a>(name: &'a str) -> (r: &'a str)
    ensures
        r@ == spec_tool_name_chinese(name@),
{
    if crate::text::str_eq(name, "get_stock_quote") {
        "实时行情"
    } else if crate::text::str_eq(name, "get_kline_data") {
        "K线数据"
    } else if crate::text::str_eq(name, "get_technical_indicators") {
        "技术指标"
    } else if crate::text::str_eq(name, "get_fund_flow") {
        "资金流向"
    } else {
        name
    }
}

/// The progress-display name of a picking tool; unknown names pass
/// through.
pub open spec fn spec_pick_tool_name_chinese(name: Seq<char>) -> Seq<char> {
    if name == "get_market_news"@ {
        "市场新闻"@
    } else if name == "get_economic_data"@ {
        "宏观经济"@
    } else if name == "get_global_indexes"@ {
        "全球指数"@
    } else if name == "get_financial_calendar"@ {
        "财经日历"@
    } else if name == "search_stocks_by_condition"@ {
        "NLP智能选股"@
    } else if name == "search_concept_boards"@ {
        "NLP板块搜索"@
    } else if name == "batch_get_stock_quotes"@ {
        "批量行情"@
    } else if name == "get_stock_quote"@ {
        "实时行情"@
    } else if name == "get_fund_flow"@ {
        "资金流向"@
    } else if name == "get_kline_data"@ {
        "K线数据"@
    } else if name == "get_technical_indicators"@ {
        "技术指标"@
    } else if name == "search_stock_news"@ {
        "个股新闻"@
    } else if name == "get_stock_notices"@ {
        "公司公告"@
    } else if name == "get_industry_report"@ {
        "研报摘要"@
    } else {
        name
    }
}

/// The progress-display name of a picking tool.
pub fn pick_tool_name_to_chinese<'a>(name: &'a str) -> (r: &'a str)
    ensures
        r@ == spec_pick_tool_name_chinese(name@),
{
    if crate::text::str_eq(name, "get_market_news") {
        "市场新闻"
    } else if crate::text::str_eq(name, "get_economic_data") {
        "宏观经济"
    } else if crate::text::str_eq(name, "get_global_indexes") {
        "全球指数"
    } else if crate::text::str_eq(name, "get_financial_calendar") {
        "财经日历"
    } else if crate::text::str_eq(name, "search_stocks_by_condition") {
        "NLP智能选股"
    } else if crate::text::str_eq(name, "search_concept_boards") {
        "NLP板块搜索"
    } else if crate::text::str_eq(name, "batch_get_stock_quotes") {
        "批量行情"
    } else if crate::text::str_eq(name, "get_stock_quote") {
        "实时行情"
    } else if crate::text::str_eq(name, "get_fund_flow") {
        "资金流向"
    } else if crate::text::str_eq(name, "get_kline_data") {
        "K线数据"
    } else if crate::text::str_eq(name, "get_technical_indicators") {
        "技术指标"
    } else if crate::text::str_eq(name, "search_stock_news") {
        "个股新闻"
    } else if crate::text::str_eq(name, "get_stock_notices") {
        "公司公告"
    } else if crate::text::str_eq(name, "get_industry_report") {
        "研报摘要"
    } else {
        name
    }
}

} // verus!
