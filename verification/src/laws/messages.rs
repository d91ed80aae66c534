//! What the client is answered, in terms of its message.
use vstd::prelude::*;

use crate::config::Config;
use crate::json::{member_of, member_text, JsonView};
use crate::json_io::integer_number;
use crate::laws::runs::{shows, text_results_show_their_text};
use crate::laws::words::{blank_is_without_ink, has_ink};
use crate::mcp::{
    error_view, handled, introduction, line_step, project_line, project_lines, project_list,
    response_view, success_view, HandledView, LineStepView,
};
use crate::text::{joined, sorted_texts};
use crate::tools::tool_definitions_view;

verus! {

// ---------------------------------------------------------------------------------------------
// The shape of answers
// ---------------------------------------------------------------------------------------------

/// Whether a reply carries the result `result` under the id `id`, and nothing else.
pub open spec fn is_answer(reply: JsonView, id: JsonView, result: JsonView) -> bool {
    &&& reply is Object
    &&& reply->Object_0.dom() == set!["jsonrpc"@, "id"@, "result"@]
    &&& reply->Object_0["jsonrpc"@] == JsonView::Text("2.0"@)
    &&& reply->Object_0["id"@] == id
    &&& reply->Object_0["result"@] == result
}

/// Whether a reply carries an error under the id `id`, and nothing else.
pub open spec fn is_error_answer(
    reply: JsonView,
    id: JsonView,
    code: i64,
    message: Seq<char>,
) -> bool {
    &&& reply is Object
    &&& reply->Object_0.dom() == set!["jsonrpc"@, "id"@, "error"@]
    &&& reply->Object_0["jsonrpc"@] == JsonView::Text("2.0"@)
    &&& reply->Object_0["id"@] == id
    &&& reply->Object_0["error"@] is Object
    &&& reply->Object_0["error"@]->Object_0.dom() == set!["code"@, "message"@]
    &&& reply->Object_0["error"@]->Object_0["code"@] == JsonView::Number(integer_number(code))
    &&& reply->Object_0["error"@]->Object_0["message"@] == JsonView::Text(message)
}

proof fn answer_names()
    ensures
        "jsonrpc"@ != "id"@,
        "jsonrpc"@ != "result"@,
        "jsonrpc"@ != "error"@,
        "id"@ != "result"@,
        "id"@ != "error"@,
        "code"@ != "message"@,
{
    reveal_strlit("jsonrpc");
    reveal_strlit("id");
    reveal_strlit("result");
    reveal_strlit("error");
    reveal_strlit("code");
    reveal_strlit("message");
    assert("jsonrpc"@.len() == 7 && "id"@.len() == 2 && "result"@.len() == 6 && "error"@.len() == 5);
    assert("code"@.len() == 4 && "message"@.len() == 7);
}

/// A result is carried under the id of its request, or null if there is none.
pub proof fn results_are_carried_under_the_id(id: Option<JsonView>, result: JsonView)
    ensures
        id is Some ==> is_answer(success_view(id, result), id->0, result),
        id is None ==> is_answer(success_view(id, result), JsonView::Null, result),
{
    answer_names();
    assert(success_view(id, result)->Object_0.dom() =~= set!["jsonrpc"@, "id"@, "result"@]);
}

/// An error is carried under the id of its request, or null if there is none, with its code and
/// message.
pub proof fn errors_are_carried_under_the_id(id: Option<JsonView>, code: i64, message: Seq<char>)
    ensures
        id is Some ==> is_error_answer(error_view(id, code, message), id->0, code, message),
        id is None ==> is_error_answer(
            error_view(id, code, message),
            JsonView::Null,
            code,
            message,
        ),
{
    answer_names();
    let reply = error_view(id, code, message);
    assert(reply->Object_0.dom() =~= set!["jsonrpc"@, "id"@, "error"@]);
    assert(reply->Object_0["error"@]->Object_0.dom() =~= set!["code"@, "message"@]);
}

/// A message with an id is responded to with its result, and a message without one is not.
pub proof fn requests_are_responded_to(id: Option<JsonView>, result: JsonView)
    ensures
        response_view(id, result) is Some <==> id is Some,
        id is Some ==> is_answer(response_view(id, result)->0, id->0, result),
{
    results_are_carried_under_the_id(id, result);
}

// ---------------------------------------------------------------------------------------------
// Requests
// ---------------------------------------------------------------------------------------------

/// Whether `msg` is the request `id` for the method `method`.
pub open spec fn requests(msg: JsonView, method: Seq<char>, id: JsonView) -> bool {
    &&& member_text(msg, "method"@) == Some(method)
    &&& member_of(msg, "id"@) == Some(id)
}

/// The parameter `name` of a message.
pub open spec fn parameter(msg: JsonView, name: Seq<char>) -> Option<JsonView> {
    match member_of(msg, "params"@) {
        Some(params) => member_of(params, name),
        None => None,
    }
}

/// The parameter `name` of a message, if it is a text.
pub open spec fn text_parameter(msg: JsonView, name: Seq<char>) -> Option<Seq<char>> {
    match parameter(msg, name) {
        Some(JsonView::Text(s)) => Some(s),
        _ => None,
    }
}

/// Whether a request is answered with the result `result`.
pub open spec fn answered(h: HandledView, id: JsonView, result: JsonView) -> bool {
    h is Reply && is_answer(h->Reply_0, id, result)
}

proof fn method_names()
    ensures
        "initialize"@ != "ping"@,
        "initialize"@ != "tools/list"@,
        "initialize"@ != "tools/call"@,
        "initialize"@ != "resources/list"@,
        "initialize"@ != "prompts/list"@,
        "ping"@ != "tools/list"@,
        "ping"@ != "tools/call"@,
        "ping"@ != "resources/list"@,
        "ping"@ != "prompts/list"@,
        "tools/list"@ != "tools/call"@,
        "tools/list"@ != "resources/list"@,
        "tools/list"@ != "prompts/list"@,
        "tools/call"@ != "resources/list"@,
        "tools/call"@ != "prompts/list"@,
        "resources/list"@ != "prompts/list"@,
{
    reveal_strlit("initialize");
    reveal_strlit("ping");
    reveal_strlit("tools/list");
    reveal_strlit("tools/call");
    reveal_strlit("resources/list");
    reveal_strlit("prompts/list");
    assert("initialize"@[0] == 'i' && "ping"@.len() == 4 && "tools/list"@[0] == 't'
        && "tools/call"@[0] == 't' && "resources/list"@.len() == 14 && "prompts/list"@.len() == 12);
    assert("initialize"@.len() == 10 && "tools/list"@.len() == 10 && "tools/call"@.len() == 10);
    assert("tools/list"@[6] == 'l' && "tools/call"@[6] == 'c');
}

/// Whether `result` introduces the server: the protocol version that the client asked for if it is a
/// text, tools as the only capability, and the name and version of the server.
pub open spec fn introduces(result: JsonView, version: Option<Seq<char>>) -> bool {
    &&& result is Object
    &&& result->Object_0.dom() == set!["protocolVersion"@, "capabilities"@, "serverInfo"@]
    &&& result->Object_0["protocolVersion"@] == JsonView::Text(
        match version {
            Some(v) => v,
            None => "2025-06-18"@,
        },
    )
    &&& result->Object_0["capabilities"@] == JsonView::Object(
        map!["tools"@ => JsonView::Object(Map::empty())],
    )
    &&& result->Object_0["serverInfo"@] == JsonView::Object(
        map![
            "name"@ => JsonView::Text("jest-companion"@), "version"@ => JsonView::Text("0.2.1"@),
        ],
    )
}

/// A client that introduces itself is told the protocol version that it asked for, or the default if
/// it asked for none, what the server can do, and who it is.
pub proof fn clients_are_introduced(msg: JsonView, config: Config, id: JsonView)
    requires
        requests(msg, "initialize"@, id),
    ensures
        handled(msg, config) is Reply,
        exists|result: JsonView| #[trigger]
            answered(handled(msg, config), id, result) && introduces(
                result,
                text_parameter(msg, "protocolVersion"@),
            ),
{
    let params = match member_of(msg, "params"@) {
        Some(v) => v,
        None => JsonView::Null,
    };
    let result = introduction(params);
    results_are_carried_under_the_id(Some(id), result);
    reveal_strlit("protocolVersion");
    reveal_strlit("capabilities");
    reveal_strlit("serverInfo");
    assert("protocolVersion"@.len() == 15 && "capabilities"@.len() == 12 && "serverInfo"@.len()
        == 10);
    assert(result->Object_0.dom() =~= set!["protocolVersion"@, "capabilities"@, "serverInfo"@]);
    assert(result->Object_0["capabilities"@]->Object_0 =~= map![
        "tools"@ => JsonView::Object(Map::empty())
    ]);
    assert(result->Object_0["serverInfo"@]->Object_0 =~= map![
        "name"@ => JsonView::Text("jest-companion"@), "version"@ => JsonView::Text("0.2.1"@)
    ]);
    assert(introduces(result, text_parameter(msg, "protocolVersion"@)));
    assert(answered(handled(msg, config), id, result));
}

/// A ping is answered with an empty object, and a client that looks for resources or prompts is told
/// that there are none.
pub proof fn simple_requests_are_answered(msg: JsonView, config: Config, id: JsonView)
    ensures
        requests(msg, "ping"@, id) ==> answered(
            handled(msg, config),
            id,
            JsonView::Object(Map::empty()),
        ),
        requests(msg, "resources/list"@, id) ==> answered(
            handled(msg, config),
            id,
            JsonView::Object(map!["resources"@ => JsonView::Array(Seq::empty())]),
        ),
        requests(msg, "prompts/list"@, id) ==> answered(
            handled(msg, config),
            id,
            JsonView::Object(map!["prompts"@ => JsonView::Array(Seq::empty())]),
        ),
        requests(msg, "tools/list"@, id) ==> answered(
            handled(msg, config),
            id,
            JsonView::Object(map!["tools"@ => tool_definitions_view()]),
        ),
{
    method_names();
    let nothing = JsonView::Array(Seq::empty());
    results_are_carried_under_the_id(Some(id), JsonView::Object(Map::empty()));
    results_are_carried_under_the_id(Some(id), JsonView::Object(map!["resources"@ => nothing]));
    results_are_carried_under_the_id(Some(id), JsonView::Object(map!["prompts"@ => nothing]));
    results_are_carried_under_the_id(
        Some(id),
        JsonView::Object(map!["tools"@ => tool_definitions_view()]),
    );
    assert(crate::mcp::empty_list("resources"@)->Object_0 =~= map!["resources"@ => nothing]);
    assert(crate::mcp::empty_list("prompts"@)->Object_0 =~= map!["prompts"@ => nothing]);
    assert(crate::json_io::no_members().insert("tools"@, tool_definitions_view()) =~= map![
        "tools"@ => tool_definitions_view()
    ]);
}

proof fn tool_names()
    ensures
        "run_tests"@ != "list_projects"@,
        "run_tests"@.len() > 0,
        "list_projects"@.len() > 0,
{
    reveal_strlit("run_tests");
    reveal_strlit("list_projects");
    assert("run_tests"@.len() == 9 && "list_projects"@.len() == 13);
}

/// A call of `list_projects` is answered with the list of the projects, and a call of a tool that
/// there is not, or of none, with an error that names it.
pub proof fn other_tools_are_answered(msg: JsonView, config: Config, id: JsonView)
    requires
        requests(msg, "tools/call"@, id),
    ensures
        text_parameter(msg, "name"@) == Some("list_projects"@) ==> exists|result: JsonView|
            #[trigger]
            answered(handled(msg, config), id, result) && shows(
                result,
                project_list(config.entries()),
                false,
            ),
        text_parameter(msg, "name"@) != Some("list_projects"@) && text_parameter(msg, "name"@)
            != Some("run_tests"@) ==> exists|result: JsonView| #[trigger]
            answered(handled(msg, config), id, result) && shows(
                result,
                "Unknown tool: "@ + (match text_parameter(msg, "name"@) {
                    Some(name) => name,
                    None => Seq::empty(),
                }),
                true,
            ),
{
    method_names();
    tool_names();
    let name = match text_parameter(msg, "name"@) {
        Some(name) => name,
        None => Seq::empty(),
    };
    let listed = crate::mcp::text_result_view(project_list(config.entries()), false);
    let unknown = crate::mcp::text_result_view("Unknown tool: "@ + name, true);
    text_results_show_their_text(project_list(config.entries()), false);
    text_results_show_their_text("Unknown tool: "@ + name, true);
    results_are_carried_under_the_id(Some(id), listed);
    results_are_carried_under_the_id(Some(id), unknown);
    if name == "list_projects"@ {
        assert(answered(handled(msg, config), id, listed));
    } else if name != "run_tests"@ {
        assert(answered(handled(msg, config), id, unknown));
    }
}

/// A message leads to a run if and only if it calls the tool `run_tests`, and then with its own id, if
/// it has one, and its own arguments, or none.
pub proof fn run_tests_is_handed_on(msg: JsonView, config: Config)
    ensures
        handled(msg, config) is RunTests <==> member_text(msg, "method"@) == Some("tools/call"@)
            && text_parameter(msg, "name"@) == Some("run_tests"@),
        handled(msg, config) is RunTests ==> handled(msg, config)->id == member_of(msg, "id"@),
        handled(msg, config) is RunTests && parameter(msg, "arguments"@) is Some ==> handled(
            msg,
            config,
        )->arguments == parameter(msg, "arguments"@)->0,
        handled(msg, config) is RunTests && parameter(msg, "arguments"@) is None ==> handled(
            msg,
            config,
        )->arguments == JsonView::Object(Map::empty()),
{
    method_names();
    tool_names();
}

/// A request for any other method is answered with an error that names the method.
pub proof fn other_methods_are_refused(msg: JsonView, config: Config, id: JsonView, method: Seq<char>)
    requires
        requests(msg, method, id),
        method != "initialize"@,
        method != "ping"@,
        method != "tools/list"@,
        method != "tools/call"@,
        method != "resources/list"@,
        method != "prompts/list"@,
    ensures
        handled(msg, config) is Reply,
        is_error_answer(
            handled(msg, config)->Reply_0,
            id,
            -32601i64,
            "Method not found: "@ + method,
        ),
{
    errors_are_carried_under_the_id(Some(id), -32601i64, "Method not found: "@ + method);
}

/// A message without a method, or without an id, is never replied to. It is passed over unless it
/// calls `run_tests`.
pub proof fn only_requests_are_replied_to(msg: JsonView, config: Config)
    ensures
        handled(msg, config) is Reply ==> member_text(msg, "method"@) is Some && member_of(
            msg,
            "id"@,
        ) is Some,
        member_text(msg, "method"@) is None ==> handled(msg, config) is Silent,
        member_of(msg, "id"@) is None && !(handled(msg, config) is RunTests) ==> handled(
            msg,
            config,
        ) is Silent,
        member_of(msg, "id"@) is Some && member_text(msg, "method"@) is Some ==> !(handled(
            msg,
            config,
        ) is Silent),
{
}

// ---------------------------------------------------------------------------------------------
// The list of projects
// ---------------------------------------------------------------------------------------------

/// The list of projects has a line for each of them with its name and path, the lines in order. If
/// there is none it says so.
pub proof fn project_list_has_every_project(entries: Seq<(Seq<char>, Seq<char>)>)
    ensures
        entries.len() == 0 ==> project_list(entries)
            == "No projects are configured. Add a [projects] table to jest-companion.toml."@,
        entries.len() > 0 ==> project_list(entries) == "Configured projects:\n"@ + joined(
            sorted_texts(
                Seq::new(entries.len(), |i: int| "- "@ + entries[i].0 + " -> "@ + entries[i].1),
            ),
            "\n"@,
        ),
{
    let lines = Seq::new(entries.len(), |i: int| "- "@ + entries[i].0 + " -> "@ + entries[i].1);
    assert forall|i: int| 0 <= i < entries.len() implies project_lines(entries)[i] == lines[i] by {
        assert(project_line(entries[i]) == "- "@ + entries[i].0 + " -> "@ + entries[i].1);
    }
    assert(project_lines(entries) =~= lines);
}

// ---------------------------------------------------------------------------------------------
// Lines
// ---------------------------------------------------------------------------------------------

/// A line of white space is skipped. Any other line that is not JSON is refused with the reason, and
/// one that is JSON calls for what its message calls for.
pub proof fn lines_are_read_as_messages(
    line: Seq<char>,
    message: Result<JsonView, Seq<char>>,
    config: Config,
)
    ensures
        !has_ink(line) ==> line_step(line, message, config) is Skip,
        has_ink(line) && message is Err ==> line_step(line, message, config)
            == LineStepView::Invalid(message->Err_0),
        has_ink(line) && message is Ok ==> line_step(line, message, config)
            == LineStepView::Message(handled(message->Ok_0, config)),
{
    blank_is_without_ink(line);
}

} // verus!
