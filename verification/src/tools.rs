//! The tools the server offers, and how a call to one is answered.

use vstd::prelude::*;

use crate::handlers::{
    activity_days_default, failing_tests_limit_default, incremental_default, ingest_source_default,
    search_limit_default, search_source_default, timeline_limit_default,
};
use crate::text::str_eq;

verus! {

/// The names of the tools, in the order they are listed.
pub open spec fn tool_names_spec() -> Seq<Seq<char>> {
    seq![
        "hindsight_timeline"@,
        "hindsight_search"@,
        "hindsight_failing_tests"@,
        "hindsight_activity_summary"@,
        "hindsight_commit_details"@,
        "hindsight_ingest"@,
    ]
}

/// The names of the tools, in the order they are listed.
pub fn tool_names() -> (names: Vec<&'static str>)
    ensures
        names@.map_values(|s: &str| s@) == tool_names_spec(),
{
    let names = vec![
        "hindsight_timeline",
        "hindsight_search",
        "hindsight_failing_tests",
        "hindsight_activity_summary",
        "hindsight_commit_details",
        "hindsight_ingest",
    ];
    assert(names@.map_values(|s: &str| s@) =~= tool_names_spec());
    names
}

/// Whether a name is one of the tools.
pub fn is_tool(name: &str) -> (b: bool)
    ensures
        b == tool_names_spec().contains(name@),
{
    let names = tool_names();
    let mut i: usize = 0;
    while i < names.len()
        invariant
            i <= names@.len(),
            names@.map_values(|s: &str| s@) == tool_names_spec(),
            forall|k: int| 0 <= k < i ==> tool_names_spec()[k] != name@,
        decreases names@.len() - i,
    {
        if str_eq(names[i], name) {
            assert(tool_names_spec()[i as int] == name@);
            return true;
        }
        i = i + 1;
    }
    false
}

/// What a call of a tool is answered: for a known tool, the notice that
/// its handler is not yet wired to the protocol; `None` for an unknown one.
pub fn tool_call_reply(name: &str) -> (r: Option<String>)
    ensures
        tool_names_spec().contains(name@) ==> (r matches Some(t) && t@ == "Tool '"@ + name@
            + "' is registered but not yet implemented. Tool handlers will be added in Phase 2."@),
        !tool_names_spec().contains(name@) ==> r is None,
{
    if is_tool(name) {
        let mut t = String::from_str("Tool '");
        t.append(name);
        t.append("' is registered but not yet implemented. Tool handlers will be added in Phase 2.");
        Some(t)
    } else {
        None
    }
}

// ---------------------------------------------------------------------------
// The tools' input schemas
// ---------------------------------------------------------------------------

/// The JSON type of a tool parameter.
#[derive(Clone, Copy, PartialEq, Eq, Structural, Debug)]
pub enum ParamKind {
    Integer,
    Text,
    Boolean,
}

/// The default a tool parameter advertises.
#[derive(Clone, Copy, Debug)]
pub enum ParamDefault {
    Absent,
    Number(u64),
    Word(&'static str),
    Flag(bool),
}

/// A parameter of a tool's input schema.
#[derive(Debug)]
pub struct ToolParam {
    pub name: &'static str,
    pub kind: ParamKind,
    pub default: ParamDefault,
    /// The values allowed, when the parameter is an enumeration.
    pub choices: Vec<&'static str>,
    pub description: &'static str,
}

/// A tool as it is listed: its name, title, description and input schema.
#[derive(Debug)]
pub struct ToolSpec {
    pub name: &'static str,
    pub title: &'static str,
    pub description: &'static str,
    /// The parameters a call must give.
    pub required: Vec<&'static str>,
    pub params: Vec<ToolParam>,
}

/// A parameter default as a value.
pub enum DefaultModel {
    Absent,
    Number(u64),
    Word(Seq<char>),
    Flag(bool),
}

/// A parameter as a value.
pub struct ParamModel {
    pub name: Seq<char>,
    pub kind: ParamKind,
    pub default: DefaultModel,
    pub choices: Seq<Seq<char>>,
    pub description: Seq<char>,
}

/// A tool as a value.
pub struct ToolModel {
    pub name: Seq<char>,
    pub title: Seq<char>,
    pub description: Seq<char>,
    pub required: Seq<Seq<char>>,
    pub params: Seq<ParamModel>,
}

/// The texts of a list of string slices.
pub open spec fn strs(v: Seq<&'static str>) -> Seq<Seq<char>> {
    v.map_values(|s: &'static str| s@)
}

impl ParamDefault {
    pub open spec fn model(self) -> DefaultModel {
        match self {
            ParamDefault::Absent => DefaultModel::Absent,
            ParamDefault::Number(n) => DefaultModel::Number(n),
            ParamDefault::Word(w) => DefaultModel::Word(w@),
            ParamDefault::Flag(b) => DefaultModel::Flag(b),
        }
    }
}

impl ToolParam {
    pub open spec fn model(self) -> ParamModel {
        ParamModel {
            name: self.name@,
            kind: self.kind,
            default: self.default.model(),
            choices: strs(self.choices@),
            description: self.description@,
        }
    }
}

impl ToolSpec {
    pub open spec fn model(self) -> ToolModel {
        ToolModel {
            name: self.name@,
            title: self.title@,
            description: self.description@,
            required: strs(self.required@),
            params: self.params@.map_values(|p: ToolParam| p.model()),
        }
    }
}

/// A parameter, from its parts.
pub open spec fn param(
    name: Seq<char>,
    kind: ParamKind,
    default: DefaultModel,
    choices: Seq<Seq<char>>,
    description: Seq<char>,
) -> ParamModel {
    ParamModel { name, kind, default, choices, description }
}

/// The timeline tool as a value.
pub open spec fn timeline_model() -> ToolModel {
    ToolModel {
        name: "hindsight_timeline"@,
        title: "Development Timeline"@,
        description: "Get a chronological view of development activity including commits, test runs, and Copilot sessions."@,
        required: seq![],
        params: seq![
            param("limit"@, ParamKind::Integer, DefaultModel::Number(50), seq![], "Maximum events to return"@),
            param("workspace"@, ParamKind::Text, DefaultModel::Absent, seq![], "Filter by workspace path (optional)"@),
        ],
    }
}

/// The search tool as a value.
pub open spec fn search_model() -> ToolModel {
    ToolModel {
        name: "hindsight_search"@,
        title: "Search Development History"@,
        description: "Full-text search across all sources (commits, messages, tests). Supports FTS5 query syntax for advanced searches."@,
        required: seq!["query"@],
        params: seq![
            param("query"@, ParamKind::Text, DefaultModel::Absent, seq![], "Search query (FTS5 syntax supported)"@),
            param("source"@, ParamKind::Text, DefaultModel::Word("all"@), seq!["all"@, "commits"@, "messages"@], "Source to search"@),
            param("limit"@, ParamKind::Integer, DefaultModel::Number(20), seq![], "Maximum results to return"@),
        ],
    }
}

/// The failing-tests tool as a value.
pub open spec fn failing_tests_model() -> ToolModel {
    ToolModel {
        name: "hindsight_failing_tests"@,
        title: "Failing Tests"@,
        description: "Get currently failing tests from the most recent test runs."@,
        required: seq![],
        params: seq![
            param("limit"@, ParamKind::Integer, DefaultModel::Number(50), seq![], "Maximum failing tests to return"@),
            param("workspace"@, ParamKind::Text, DefaultModel::Absent, seq![], "Filter by workspace (optional)"@),
        ],
    }
}

/// The activity-summary tool as a value.
pub open spec fn activity_summary_model() -> ToolModel {
    ToolModel {
        name: "hindsight_activity_summary"@,
        title: "Activity Summary"@,
        description: "Get aggregate activity statistics for a time period."@,
        required: seq![],
        params: seq![
            param("days"@, ParamKind::Integer, DefaultModel::Number(7), seq![], "Number of days to summarize"@),
        ],
    }
}

/// The commit-details tool as a value.
pub open spec fn commit_details_model() -> ToolModel {
    ToolModel {
        name: "hindsight_commit_details"@,
        title: "Commit Details"@,
        description: "Get detailed information about a specific commit including linked test runs."@,
        required: seq!["sha"@],
        params: seq![
            param("sha"@, ParamKind::Text, DefaultModel::Absent, seq![], "Full or partial commit SHA"@),
        ],
    }
}

/// The ingest tool as a value.
pub open spec fn ingest_model() -> ToolModel {
    ToolModel {
        name: "hindsight_ingest"@,
        title: "Ingest Data"@,
        description: "Trigger data ingestion from sources (git, tests, copilot)."@,
        required: seq!["workspace"@],
        params: seq![
            param("source"@, ParamKind::Text, DefaultModel::Word("all"@), seq!["git"@, "tests"@, "copilot"@, "all"@], "Source to ingest from"@),
            param("workspace"@, ParamKind::Text, DefaultModel::Absent, seq![], "Workspace path to ingest"@),
            param("incremental"@, ParamKind::Boolean, DefaultModel::Flag(true), seq![], "Only ingest new data since last run"@),
            param("limit"@, ParamKind::Integer, DefaultModel::Absent, seq![], "Max items to ingest (optional)"@),
        ],
    }
}

/// The tools, as they are listed, in order.
pub open spec fn tool_table() -> Seq<ToolModel> {
    seq![
        timeline_model(),
        search_model(),
        failing_tests_model(),
        activity_summary_model(),
        commit_details_model(),
        ingest_model(),
    ]
}

fn new_param(
    name: &'static str,
    kind: ParamKind,
    default: ParamDefault,
    choices: Vec<&'static str>,
    description: &'static str,
) -> (p: ToolParam)
    ensures
        p.model() == param(name@, kind, default.model(), strs(choices@), description@),
        choices@.len() == 0 ==> p.model().choices == Seq::<Seq<char>>::empty(),
{
    assert(choices@.len() == 0 ==> strs(choices@) =~= Seq::<Seq<char>>::empty());
    ToolParam { name, kind, default, choices, description }
}

/// The timeline tool.
pub fn timeline_tool() -> (t: ToolSpec)
    ensures
        t.model() == timeline_model(),
{
    let t = ToolSpec {
        name: "hindsight_timeline",
        title: "Development Timeline",
        description: "Get a chronological view of development activity including commits, test runs, and Copilot sessions.",
        required: vec![],
        params: vec![
            new_param("limit", ParamKind::Integer, ParamDefault::Number(50), vec![], "Maximum events to return"),
            new_param("workspace", ParamKind::Text, ParamDefault::Absent, vec![], "Filter by workspace path (optional)"),
        ],
    };
    assert(strs(t.required@) =~= timeline_model().required);
    assert(t.params@.map_values(|p: ToolParam| p.model()) =~= timeline_model().params);
    t
}

/// The search tool.
pub fn search_tool() -> (t: ToolSpec)
    ensures
        t.model() == search_model(),
{
    let choices = vec!["all", "commits", "messages"];
    assert(strs(choices@) =~= seq!["all"@, "commits"@, "messages"@]);
    let t = ToolSpec {
        name: "hindsight_search",
        title: "Search Development History",
        description: "Full-text search across all sources (commits, messages, tests). Supports FTS5 query syntax for advanced searches.",
        required: vec!["query"],
        params: vec![
            new_param("query", ParamKind::Text, ParamDefault::Absent, vec![], "Search query (FTS5 syntax supported)"),
            new_param("source", ParamKind::Text, ParamDefault::Word("all"), choices, "Source to search"),
            new_param("limit", ParamKind::Integer, ParamDefault::Number(20), vec![], "Maximum results to return"),
        ],
    };
    assert(strs(t.required@) =~= search_model().required);
    assert(t.params@.map_values(|p: ToolParam| p.model()) =~= search_model().params);
    t
}

/// The failing-tests tool.
pub fn failing_tests_tool() -> (t: ToolSpec)
    ensures
        t.model() == failing_tests_model(),
{
    let t = ToolSpec {
        name: "hindsight_failing_tests",
        title: "Failing Tests",
        description: "Get currently failing tests from the most recent test runs.",
        required: vec![],
        params: vec![
            new_param("limit", ParamKind::Integer, ParamDefault::Number(50), vec![], "Maximum failing tests to return"),
            new_param("workspace", ParamKind::Text, ParamDefault::Absent, vec![], "Filter by workspace (optional)"),
        ],
    };
    assert(strs(t.required@) =~= failing_tests_model().required);
    assert(t.params@.map_values(|p: ToolParam| p.model()) =~= failing_tests_model().params);
    t
}

/// The activity-summary tool.
pub fn activity_summary_tool() -> (t: ToolSpec)
    ensures
        t.model() == activity_summary_model(),
{
    let t = ToolSpec {
        name: "hindsight_activity_summary",
        title: "Activity Summary",
        description: "Get aggregate activity statistics for a time period.",
        required: vec![],
        params: vec![
            new_param("days", ParamKind::Integer, ParamDefault::Number(7), vec![], "Number of days to summarize"),
        ],
    };
    assert(strs(t.required@) =~= activity_summary_model().required);
    assert(t.params@.map_values(|p: ToolParam| p.model()) =~= activity_summary_model().params);
    t
}

/// The commit-details tool.
pub fn commit_details_tool() -> (t: ToolSpec)
    ensures
        t.model() == commit_details_model(),
{
    let t = ToolSpec {
        name: "hindsight_commit_details",
        title: "Commit Details",
        description: "Get detailed information about a specific commit including linked test runs.",
        required: vec!["sha"],
        params: vec![
            new_param("sha", ParamKind::Text, ParamDefault::Absent, vec![], "Full or partial commit SHA"),
        ],
    };
    assert(strs(t.required@) =~= commit_details_model().required);
    assert(t.params@.map_values(|p: ToolParam| p.model()) =~= commit_details_model().params);
    t
}

/// The ingest tool.
pub fn ingest_tool() -> (t: ToolSpec)
    ensures
        t.model() == ingest_model(),
{
    let choices = vec!["git", "tests", "copilot", "all"];
    assert(strs(choices@) =~= seq!["git"@, "tests"@, "copilot"@, "all"@]);
    let t = ToolSpec {
        name: "hindsight_ingest",
        title: "Ingest Data",
        description: "Trigger data ingestion from sources (git, tests, copilot).",
        required: vec!["workspace"],
        params: vec![
            new_param("source", ParamKind::Text, ParamDefault::Word("all"), choices, "Source to ingest from"),
            new_param("workspace", ParamKind::Text, ParamDefault::Absent, vec![], "Workspace path to ingest"),
            new_param("incremental", ParamKind::Boolean, ParamDefault::Flag(true), vec![], "Only ingest new data since last run"),
            new_param("limit", ParamKind::Integer, ParamDefault::Absent, vec![], "Max items to ingest (optional)"),
        ],
    };
    assert(strs(t.required@) =~= ingest_model().required);
    assert(t.params@.map_values(|p: ToolParam| p.model()) =~= ingest_model().params);
    t
}

/// The tools, as they are listed, in order.
pub fn build_tools() -> (ts: Vec<ToolSpec>)
    ensures
        ts@.map_values(|t: ToolSpec| t.model()) == tool_table(),
{
    let ts = vec![
        timeline_tool(),
        search_tool(),
        failing_tests_tool(),
        activity_summary_tool(),
        commit_details_tool(),
        ingest_tool(),
    ];
    assert(ts@.map_values(|t: ToolSpec| t.model()) =~= tool_table());
    ts
}

/// The tools listed are the tools a call can name, in the same order, and
/// every parameter a tool requires is one it declares.
pub proof fn law_listed_tools_are_callable()
    ensures
        tool_table().map_values(|t: ToolModel| t.name) == tool_names_spec(),
        forall|i: int, j: int|
            0 <= i < tool_table().len() && 0 <= j < tool_table()[i].required.len() ==> exists|k: int|
                0 <= k < tool_table()[i].params.len() && #[trigger] tool_table()[i].params[k].name
                    == #[trigger] tool_table()[i].required[j],
{
    assert(tool_table().map_values(|t: ToolModel| t.name) =~= tool_names_spec());
    assert(search_model().params[0].name == search_model().required[0]);
    assert(commit_details_model().params[0].name == commit_details_model().required[0]);
    assert(ingest_model().params[1].name == ingest_model().required[0]);
}

/// Each default a tool's schema advertises is the default its handler
/// applies when the argument is missing.
pub proof fn law_schema_defaults_are_handler_defaults()
    ensures
        timeline_model().params[0].name == "limit"@,
        timeline_model().params[0].default == DefaultModel::Number(timeline_limit_default() as u64),
        search_model().params[1].name == "source"@,
        search_model().params[1].default == DefaultModel::Word(search_source_default()),
        search_model().params[2].name == "limit"@,
        search_model().params[2].default == DefaultModel::Number(search_limit_default() as u64),
        failing_tests_model().params[0].name == "limit"@,
        failing_tests_model().params[0].default == DefaultModel::Number(failing_tests_limit_default() as u64),
        activity_summary_model().params[0].name == "days"@,
        activity_summary_model().params[0].default == DefaultModel::Number(activity_days_default() as u64),
        ingest_model().params[0].name == "source"@,
        ingest_model().params[0].default == DefaultModel::Word(ingest_source_default()),
        ingest_model().params[2].name == "incremental"@,
        ingest_model().params[2].default == DefaultModel::Flag(incremental_default()),
{
}

// ---------------------------------------------------------------------------
// The server's description of itself
// ---------------------------------------------------------------------------

/// What the server says of itself when a client connects.
#[derive(Debug)]
pub struct ServerInfo {
    pub name: &'static str,
    pub title: &'static str,
    pub description: &'static str,
    pub website_url: &'static str,
    /// How to use the tools.
    pub instructions: &'static str,
}

/// The server's name, title, description, website and instructions.
pub fn build_server_details() -> (info: ServerInfo)
    ensures
        info.name@ == "hindsight-mcp"@,
        info.title@ == "Hindsight MCP Server"@,
        info.description@ == "MCP server providing access to development history including git commits, test results, and GitHub Copilot sessions. Use the available tools to search, explore, and analyze your development activity."@,
        info.website_url@ == "https://github.com/Rbfinch/hindsight-mcp"@,
        info.instructions@ == "Hindsight MCP provides tools to explore your development history:\n\n- hindsight_timeline: View chronological development activity\n- hindsight_search: Full-text search across commits and messages\n- hindsight_failing_tests: Get currently failing tests\n- hindsight_activity_summary: Aggregate activity statistics\n- hindsight_commit_details: Detailed commit information\n- hindsight_ingest: Trigger data ingestion from sources\n\nAll tools support optional workspace filtering."@,
{
    ServerInfo {
        name: "hindsight-mcp",
        title: "Hindsight MCP Server",
        description: "MCP server providing access to development history including git commits, test results, and GitHub Copilot sessions. Use the available tools to search, explore, and analyze your development activity.",
        website_url: "https://github.com/Rbfinch/hindsight-mcp",
        instructions: "Hindsight MCP provides tools to explore your development history:\n\n- hindsight_timeline: View chronological development activity\n- hindsight_search: Full-text search across commits and messages\n- hindsight_failing_tests: Get currently failing tests\n- hindsight_activity_summary: Aggregate activity statistics\n- hindsight_commit_details: Detailed commit information\n- hindsight_ingest: Trigger data ingestion from sources\n\nAll tools support optional workspace filtering.",
    }
}

} // verus!
