//! The Model Context Protocol: JSON-RPC messages, one on each line.
use vstd::prelude::*;
use vstd::string::StringExecFns;

use crate::cli::Cli;
use crate::config::Config;
use crate::json::{items_view_push, Json, JsonObject, JsonView, member_of, member_text};
use crate::json_io::{integer, integer_number, no_members, read_json, read_text, write_text, written_json};
use crate::run::{
    begin_run, begun, clean_output, cleared, end_run, error_text, run_result, McpCoord, McpCoordView,
    RunEnd, RunTestsError, RunTestsErrorView, RunTestsParams,
};
use crate::text::{
    blank, blank_is_trimmed_empty, concat2, concat3, is_blank, join, joined, same_text, sort_texts,
    sorted_texts, sorted_texts_ignores_order, texts, trim, trimmed,
};
use crate::tools::{tool_definitions, tool_definitions_view, LIST_PROJECTS, RUN_TESTS};

verus! {

/// The name by which the server introduces itself.
pub const SERVER_NAME: &'static str = "jest-companion";

/// The version by which the server introduces itself.
pub const VERSION: &'static str = "0.2.1";

/// The version of the protocol that the server speaks with a client that names none.
pub const DEFAULT_PROTOCOL_VERSION: &'static str = "2025-06-18";

/// The error code for a method that the server does not have.
pub const METHOD_NOT_FOUND: i64 = -32601;

// ---------------------------------------------------------------------------------------------
// Answers
// ---------------------------------------------------------------------------------------------

/// The id that an answer carries: that of the request, or null if it has none.
pub open spec fn answer_id(id: Option<JsonView>) -> JsonView {
    match id {
        Some(v) => v,
        None => JsonView::Null,
    }
}

/// The view of an optional value.
pub open spec fn optional_view(v: Option<Json>) -> Option<JsonView> {
    match v {
        Some(v) => Some(v@),
        None => None,
    }
}

/// The answer to a request that succeeded.
pub open spec fn success_view(id: Option<JsonView>, result: JsonView) -> JsonView {
    JsonView::Object(
        no_members().insert("jsonrpc"@, JsonView::Text("2.0"@)).insert("id"@, answer_id(id)).insert(
            "result"@,
            result,
        ),
    )
}

/// The answer to a request that failed.
pub open spec fn error_view(id: Option<JsonView>, code: i64, message: Seq<char>) -> JsonView {
    JsonView::Object(
        no_members().insert("jsonrpc"@, JsonView::Text("2.0"@)).insert("id"@, answer_id(id)).insert(
            "error"@,
            JsonView::Object(
                no_members().insert("code"@, JsonView::Number(integer_number(code))).insert(
                    "message"@,
                    JsonView::Text(message),
                ),
            ),
        ),
    )
}

/// The result of a tool: a text, and whether the tool failed.
pub open spec fn text_result_view(text: Seq<char>, is_error: bool) -> JsonView {
    JsonView::Object(
        no_members().insert(
            "content"@,
            JsonView::Array(
                seq![
                    JsonView::Object(
                        no_members().insert("type"@, JsonView::Text("text"@)).insert(
                            "text"@,
                            JsonView::Text(text),
                        ),
                    ),
                ],
            ),
        ).insert("isError"@, JsonView::Bool(is_error)),
    )
}

/// An answer that carries the id of its request and nothing else yet.
fn answer(id: Option<Json>) -> (r: JsonObject)
    ensures
        r@ == no_members().insert("jsonrpc"@, JsonView::Text("2.0"@)).insert(
            "id"@,
            answer_id(optional_view(id)),
        ),
{
    let mut out = JsonObject::new();
    out.insert("jsonrpc", Json::text("2.0"));
    out.insert(
        "id",
        match id {
            Some(v) => v,
            None => Json::Null,
        },
    );
    out
}

/// The answer to a request that succeeded.
pub fn success(id: Option<Json>, result: Json) -> (r: Json)
    ensures
        r@ == success_view(optional_view(id), result@),
{
    let mut out = answer(id);
    out.insert("result", result);
    Json::Object(out)
}

/// The answer to a request that failed.
pub fn error(id: Option<Json>, code: i64, message: &str) -> (r: Json)
    ensures
        r@ == error_view(optional_view(id), code, message@),
{
    let mut fault = JsonObject::new();
    fault.insert("code", integer(code));
    fault.insert("message", Json::text(message));
    let mut out = answer(id);
    out.insert("error", Json::Object(fault));
    Json::Object(out)
}

/// The result of a tool with a single block of text.
pub fn text_result(text: &str, is_error: bool) -> (r: Json)
    ensures
        r@ == text_result_view(text@, is_error),
{
    let mut block = JsonObject::new();
    block.insert("type", Json::text("text"));
    block.insert("text", Json::text(text));
    let block = Json::Object(block);
    let mut content: Vec<Json> = Vec::new();
    proof {
        items_view_push(content@, block);
        assert(crate::json::items_view(content@.push(block)) == seq![block@]);
    }
    content.push(block);
    let mut out = JsonObject::new();
    out.insert("content", Json::Array(content));
    out.insert("isError", Json::Bool(is_error));
    Json::Object(out)
}

/// The response to a message whose result is `result`: an answer if the message has an id, and none
/// if it has not, because it is a notification.
pub open spec fn response_view(id: Option<JsonView>, result: JsonView) -> Option<JsonView> {
    match id {
        Some(_) => Some(success_view(id, result)),
        None => None,
    }
}

/// The response to a message whose result is `result`: an answer if the message has an id, and none
/// if it has not, because it is a notification.
pub fn respond(id: Option<Json>, result: Json) -> (r: Option<Json>)
    ensures
        optional_view(r) == response_view(optional_view(id), result@),
{
    if id.is_some() {
        Some(success(id, result))
    } else {
        None
    }
}

// ---------------------------------------------------------------------------------------------
// The tool list_projects
// ---------------------------------------------------------------------------------------------

pub const NOTHING_CONFIGURED: &'static str = "No projects are configured. Add a [projects] table to jest-companion.toml.";

/// The line for a project.
pub open spec fn project_line(entry: (Seq<char>, Seq<char>)) -> Seq<char> {
    "- "@ + entry.0 + " -> "@ + entry.1
}

/// The lines for the projects.
pub open spec fn project_lines(entries: Seq<(Seq<char>, Seq<char>)>) -> Seq<Seq<char>> {
    Seq::new(entries.len(), |i: int| project_line(entries[i]))
}

/// What the list of the configured projects says.
pub open spec fn project_list(entries: Seq<(Seq<char>, Seq<char>)>) -> Seq<char> {
    if entries.len() == 0 {
        NOTHING_CONFIGURED@
    } else {
        "Configured projects:\n"@ + joined(sorted_texts(project_lines(entries)), "\n"@)
    }
}

/// Lists the configured projects, one on each line, with the lines in lexicographic order.
pub fn list_projects_tool(config: &Config) -> (r: Json)
    ensures
        r@ == text_result_view(project_list(config.entries()), false),
{
    if config.projects.len() == 0 {
        return text_result(NOTHING_CONFIGURED, false);
    }
    let mut lines: Vec<String> = Vec::new();
    let mut i: usize = 0;
    let ghost all = project_lines(config.entries());
    while i < config.projects.len()
        invariant
            i <= config.projects.len(),
            all == project_lines(config.entries()),
            texts(lines@) == all.take(i as int),
        decreases config.projects.len() - i,
    {
        let ghost before = texts(lines@);
        let mut line = concat3("- ", config.projects[i].name.as_str(), " -> ");
        line.append(config.projects[i].path.as_str());
        lines.push(line);
        assert(all[i as int] == line@);
        assert(texts(lines@) == before.push(line@));
        assert(all.take(i + 1) == all.take(i as int).push(all[i as int]));
        i += 1;
    }
    assert(all.take(i as int) == all);
    let sorted = sort_texts(&lines);
    let list = join(&sorted, "\n");
    let text = concat2("Configured projects:\n", list.as_str());
    text_result(text.as_str(), false)
}

/// The list of projects does not depend on the order in which they were configured.
pub proof fn project_list_ignores_order(
    a: Seq<(Seq<char>, Seq<char>)>,
    b: Seq<(Seq<char>, Seq<char>)>,
)
    requires
        a.to_multiset() == b.to_multiset(),
    ensures
        project_list(a) == project_list(b),
{
    a.to_multiset_ensures();
    b.to_multiset_ensures();
    same_lines(a, b);
    sorted_texts_ignores_order(project_lines(a), project_lines(b));
}

proof fn same_lines(a: Seq<(Seq<char>, Seq<char>)>, b: Seq<(Seq<char>, Seq<char>)>)
    requires
        a.to_multiset() == b.to_multiset(),
    ensures
        project_lines(a).to_multiset() == project_lines(b).to_multiset(),
    decreases a.len(),
{
    broadcast use vstd::seq_lib::group_to_multiset_ensures;
    broadcast use vstd::multiset::group_multiset_axioms;

    a.to_multiset_ensures();
    b.to_multiset_ensures();
    assert(a.len() == b.len());
    if a.len() > 0 {
        let x = a.last();
        assert(b.to_multiset().count(x) > 0) by {
            assert(a.contains(a[a.len() - 1]));
        }
        assert(b.contains(x));
        let i = choose|i: int| 0 <= i < b.len() && b[i] == x;
        let front = a.drop_last();
        assert(front.push(x) == a);
        assert(a.remove(a.len() - 1) == front);
        assert(front.to_multiset() == b.remove(i).to_multiset());
        same_lines(front, b.remove(i));
        assert(project_lines(a) == project_lines(front).push(project_line(x)));
        assert(project_lines(b) == project_lines(b.remove(i)).insert(i, project_line(x)));
        vstd::seq_lib::to_multiset_insert(project_lines(b.remove(i)), i, project_line(x));
        vstd::seq_lib::to_multiset_build(project_lines(front), project_line(x));
    } else {
        assert(project_lines(a) == project_lines(b));
    }
}

// ---------------------------------------------------------------------------------------------
// The tool run_tests
// ---------------------------------------------------------------------------------------------

/// What a finished run tells the client.
pub open spec fn report_text(output: Seq<char>, passed: bool) -> Seq<char> {
    (if passed {
        "Test run PASSED"@
    } else {
        "Test run FAILED"@
    }) + "\n\n"@ + (if blank(output) {
        "(the plugin reported no output)"@
    } else {
        output
    })
}

/// The result of `run_tests`. A run that finished is no error of the tool, even if tests failed.
pub open spec fn run_tests_result_view(
    result: Result<(Seq<char>, bool), RunTestsErrorView>,
) -> JsonView {
    match result {
        Ok((output, passed)) => text_result_view(report_text(output, passed), false),
        Err(e) => text_result_view(error_text(e), true),
    }
}

/// The result of `run_tests` for a run that finished.
pub fn run_report(output: &str, passed: bool) -> (r: Json)
    ensures
        r@ == run_tests_result_view(Ok((output@, passed))),
{
    let header = if passed {
        "Test run PASSED"
    } else {
        "Test run FAILED"
    };
    let body = if is_blank(output) {
        "(the plugin reported no output)"
    } else {
        output
    };
    let text = concat3(header, "\n\n", body);
    text_result(text.as_str(), false)
}

/// The result of `run_tests` for a run that could not be done.
pub fn run_failure(e: &RunTestsError) -> (r: Json)
    ensures
        r@ == run_tests_result_view(Err(e@)),
{
    let text = e.message();
    text_result(text.as_str(), true)
}

/// The state after a call of `run_tests`, and the result if the call is over at once.
pub open spec fn called_run_tests(
    c: McpCoordView,
    arguments: Result<RunTestsParams, String>,
    cli: Cli,
    config: Config,
) -> (McpCoordView, Option<JsonView>) {
    match arguments {
        Err(e) => (
            c,
            Some(text_result_view("Invalid arguments for run_tests: "@ + e@, true)),
        ),
        Ok(params) => match begun(c, params, cli, config) {
            (after, Some(e)) => (after, Some(run_tests_result_view(Err(e)))),
            (after, None) => (after, None),
        },
    }
}

/// Begins a call of `run_tests` with the arguments as they were read, or the reason why they could
/// not be. Gives the result if the call is over at once, and otherwise leaves a run to wait for.
pub fn run_tests_tool(
    arguments: Result<RunTestsParams, String>,
    coord: &mut McpCoord,
    cli: &Cli,
    config: &Config,
) -> (r: Option<Json>)
    ensures
        final(coord)@ == called_run_tests(old(coord)@, arguments, *cli, *config).0,
        optional_view(r) == called_run_tests(old(coord)@, arguments, *cli, *config).1,
{
    match arguments {
        Err(e) => {
            let text = concat2("Invalid arguments for run_tests: ", e.as_str());
            Some(text_result(text.as_str(), true))
        },
        Ok(params) => match begin_run(params, coord, cli, config) {
            Ok(()) => None,
            Err(e) => Some(run_failure(&e)),
        },
    }
}

/// Ends a call of `run_tests` that had a run to wait for.
pub fn finish_run_tests(coord: &mut McpCoord, end: RunEnd, cli: &Cli) -> (r: Json)
    ensures
        final(coord)@ == cleared(old(coord)@),
        r@ == run_tests_result_view(run_result(end, clean_output(old(coord)@), *cli)),
{
    match end_run(coord, end, cli) {
        Ok(result) => run_report(result.0.as_str(), result.1),
        Err(e) => run_failure(&e),
    }
}

// ---------------------------------------------------------------------------------------------
// Messages
// ---------------------------------------------------------------------------------------------

/// What a message calls for.
#[derive(Debug)]
pub enum Handled {
    /// Nothing.
    Silent,
    /// An answer.
    Reply(Json),
    /// A call of `run_tests`. Its result answers the request `id`; without an id it is not sent.
    RunTests { id: Option<Json>, arguments: Json },
}

/// What a message calls for, in the abstract.
pub enum HandledView {
    Silent,
    Reply(JsonView),
    RunTests { id: Option<JsonView>, arguments: JsonView },
}

impl View for Handled {
    type V = HandledView;

    open spec fn view(&self) -> HandledView {
        match *self {
            Handled::Silent => HandledView::Silent,
            Handled::Reply(j) => HandledView::Reply(j@),
            Handled::RunTests { id, arguments } => HandledView::RunTests {
                id: optional_view(id),
                arguments: arguments@,
            },
        }
    }
}

/// An object without members.
pub open spec fn empty_object() -> JsonView {
    JsonView::Object(no_members())
}

/// The text, or `fallback` if there is none.
pub open spec fn text_or(v: Option<Seq<char>>, fallback: Seq<char>) -> Seq<char> {
    match v {
        Some(s) => s,
        None => fallback,
    }
}

/// The parameters of a message.
pub open spec fn params_of(msg: JsonView) -> JsonView {
    match member_of(msg, "params"@) {
        Some(v) => v,
        None => JsonView::Null,
    }
}

/// How the server introduces itself.
pub open spec fn introduction(params: JsonView) -> JsonView {
    JsonView::Object(
        no_members().insert(
            "protocolVersion"@,
            JsonView::Text(
                text_or(member_text(params, "protocolVersion"@), DEFAULT_PROTOCOL_VERSION@),
            ),
        ).insert(
            "capabilities"@,
            JsonView::Object(no_members().insert("tools"@, empty_object())),
        ).insert(
            "serverInfo"@,
            JsonView::Object(
                no_members().insert("name"@, JsonView::Text(SERVER_NAME@)).insert(
                    "version"@,
                    JsonView::Text(VERSION@),
                ),
            ),
        ),
    )
}

/// What a message with the result `result` calls for.
pub open spec fn responded(id: Option<JsonView>, result: JsonView) -> HandledView {
    match response_view(id, result) {
        Some(reply) => HandledView::Reply(reply),
        None => HandledView::Silent,
    }
}

/// What a call of a tool calls for.
pub open spec fn tool_call(id: Option<JsonView>, params: JsonView, config: Config) -> HandledView {
    let name = text_or(member_text(params, "name"@), Seq::empty());
    if name == RUN_TESTS@ {
        HandledView::RunTests {
            id,
            arguments: match member_of(params, "arguments"@) {
                Some(v) => v,
                None => empty_object(),
            },
        }
    } else if name == LIST_PROJECTS@ {
        responded(id, text_result_view(project_list(config.entries()), false))
    } else {
        responded(id, text_result_view("Unknown tool: "@ + name, true))
    }
}

/// What a message with the method `method` calls for.
pub open spec fn handled_method(
    method: Seq<char>,
    id: Option<JsonView>,
    params: JsonView,
    config: Config,
) -> HandledView {
    if method == "initialize"@ {
        responded(id, introduction(params))
    } else if method == "ping"@ {
        responded(id, empty_object())
    } else if method == "tools/list"@ {
        responded(id, JsonView::Object(no_members().insert("tools"@, tool_definitions_view())))
    } else if method == "tools/call"@ {
        tool_call(id, params, config)
    } else if method == "resources/list"@ {
        responded(id, empty_list("resources"@))
    } else if method == "prompts/list"@ {
        responded(id, empty_list("prompts"@))
    } else if id is None {
        HandledView::Silent
    } else {
        HandledView::Reply(error_view(id, METHOD_NOT_FOUND, "Method not found: "@ + method))
    }
}

/// An object whose only member is an empty list.
pub open spec fn empty_list(name: Seq<char>) -> JsonView {
    JsonView::Object(no_members().insert(name, JsonView::Array(Seq::empty())))
}

/// What a message calls for. A message without an id is a notification and is never answered; a
/// notification that calls `run_tests` still starts the run.
pub open spec fn handled(msg: JsonView, config: Config) -> HandledView {
    match member_text(msg, "method"@) {
        None => HandledView::Silent,
        Some(method) => handled_method(method, member_of(msg, "id"@), params_of(msg), config),
    }
}

/// What a message with the result `result` calls for.
fn handle_result(id: Option<Json>, result: Json) -> (r: Handled)
    ensures
        r@ == responded(optional_view(id), result@),
{
    match respond(id, result) {
        Some(reply) => Handled::Reply(reply),
        None => Handled::Silent,
    }
}

/// An object whose only member is an empty list.
fn list_nothing(name: &str) -> (r: Json)
    ensures
        r@ == empty_list(name@),
{
    let mut out = JsonObject::new();
    out.insert(name, Json::Array(Vec::new()));
    assert(out@[name@] == JsonView::Array(Seq::empty()));
    Json::Object(out)
}

/// How the server introduces itself to a client with these parameters.
fn introduce(params: &Json) -> (r: Json)
    ensures
        r@ == introduction(params@),
{
    let protocol_version = match params.get_str("protocolVersion") {
        Some(v) => v,
        None => DEFAULT_PROTOCOL_VERSION,
    };
    let mut capabilities = JsonObject::new();
    capabilities.insert("tools", Json::Object(JsonObject::new()));
    let mut info = JsonObject::new();
    info.insert("name", Json::text(SERVER_NAME));
    info.insert("version", Json::text(VERSION));
    let mut out = JsonObject::new();
    out.insert("protocolVersion", Json::text(protocol_version));
    out.insert("capabilities", Json::Object(capabilities));
    out.insert("serverInfo", Json::Object(info));
    Json::Object(out)
}

/// What a call of a tool calls for.
pub fn call_tool(id: Option<Json>, params: &Json, config: &Config) -> (r: Handled)
    ensures
        r@ == tool_call(optional_view(id), params@, *config),
{
    let name = match params.get_str("name") {
        Some(s) => s.to_owned(),
        None => String::new(),
    };
    if same_text(name.as_str(), RUN_TESTS) {
        let arguments = match params.get("arguments") {
            Some(v) => v.clone(),
            None => Json::Object(JsonObject::new()),
        };
        Handled::RunTests { id, arguments }
    } else if same_text(name.as_str(), LIST_PROJECTS) {
        handle_result(id, list_projects_tool(config))
    } else {
        let text = concat2("Unknown tool: ", name.as_str());
        handle_result(id, text_result(text.as_str(), true))
    }
}

/// What a message calls for. A message without an id is a notification and is never answered; a
/// notification that calls `run_tests` still starts the run.
pub fn handle_message(msg: &Json, config: &Config) -> (r: Handled)
    ensures
        r@ == handled(msg@, *config),
{
    let method = match msg.get_str("method") {
        Some(s) => s,
        None => {
            return Handled::Silent;
        },
    };
    let id = match msg.get("id") {
        Some(v) => Some(v.clone()),
        None => None,
    };
    let params = match msg.get("params") {
        Some(v) => v.clone(),
        None => Json::Null,
    };
    if same_text(method, "initialize") {
        handle_result(id, introduce(&params))
    } else if same_text(method, "ping") {
        handle_result(id, Json::Object(JsonObject::new()))
    } else if same_text(method, "tools/list") {
        let mut out = JsonObject::new();
        out.insert("tools", tool_definitions());
        handle_result(id, Json::Object(out))
    } else if same_text(method, "tools/call") {
        call_tool(id, &params, config)
    } else if same_text(method, "resources/list") {
        handle_result(id, list_nothing("resources"))
    } else if same_text(method, "prompts/list") {
        handle_result(id, list_nothing("prompts"))
    } else if id.is_none() {
        Handled::Silent
    } else {
        let text = concat2("Method not found: ", method);
        Handled::Reply(error(id, METHOD_NOT_FOUND, text.as_str()))
    }
}

// ---------------------------------------------------------------------------------------------
// Lines
// ---------------------------------------------------------------------------------------------

/// What a line from the client calls for.
#[derive(Debug)]
pub enum LineStep {
    /// The line is blank.
    Skip,
    /// The line is not JSON, for this reason.
    Invalid(String),
    /// The line holds a message.
    Message(Handled),
}

/// What a line calls for, in the abstract.
pub enum LineStepView {
    Skip,
    Invalid(Seq<char>),
    Message(HandledView),
}

impl View for LineStep {
    type V = LineStepView;

    open spec fn view(&self) -> LineStepView {
        match *self {
            LineStep::Skip => LineStepView::Skip,
            LineStep::Invalid(e) => LineStepView::Invalid(e@),
            LineStep::Message(h) => LineStepView::Message(h@),
        }
    }
}

/// What a line calls for, given what was read from it.
pub open spec fn line_step(
    line: Seq<char>,
    message: Result<JsonView, Seq<char>>,
    config: Config,
) -> LineStepView {
    if blank(line) {
        LineStepView::Skip
    } else {
        match message {
            Err(e) => LineStepView::Invalid(e),
            Ok(msg) => LineStepView::Message(handled(msg, config)),
        }
    }
}

/// What a line from the client calls for.
pub fn handle_line(line: &str, config: &Config) -> (r: LineStep)
    ensures
        r@ == line_step(line@, read_json(trimmed(line@)), *config),
{
    let text = trim(line);
    proof {
        blank_is_trimmed_empty(line@);
        assert(trimmed(line@).len() == 0 ==> trimmed(line@) == Seq::<char>::empty());
    }
    if text.as_str().is_empty() {
        return LineStep::Skip;
    }
    match read_text(text.as_str()) {
        Err(e) => LineStep::Invalid(e),
        Ok(msg) => LineStep::Message(handle_message(&msg, config)),
    }
}

/// A line feed at the end and nowhere else.
pub open spec fn one_line(s: Seq<char>) -> bool {
    &&& s.len() > 0
    &&& s.last() == '\n'
    &&& !s.drop_last().contains('\n')
}

/// The line that carries an answer to the client: the answer as JSON, and a line feed. An answer is
/// never spread over several lines.
pub fn reply_line(reply: Json) -> (r: String)
    ensures
        r@ == written_json(reply@).push('\n'),
        one_line(r@),
{
    let mut line = write_text(reply);
    let ghost text = line@;
    line.push('\n');
    assert(line@.drop_last() == text);
    line
}

} // verus!
