use jest_companion::cli::{Cli, JestOptions};
use jest_companion::config::Config;
use jest_companion::json::Json;
use jest_companion::json_io::into_value;
use jest_companion::mcp::{
    error, finish_run_tests, handle_line, list_projects_tool, reply_line, respond, run_tests_tool,
    success, text_result, Handled, LineStep, METHOD_NOT_FOUND,
};
use jest_companion::run::{McpCoord, Outcome, RunEnd, RunTestsParams, ToolOptions};
use jest_companion::tools::tool_definitions;

fn cli() -> Cli {
    Cli {
        path: ".".to_string(),
        mcp: true,
        server_timeout: 30,
        run_timeout: 300,
        options: JestOptions {
            clear_mocks: None,
            expand: None,
            no_stack_trace: None,
            old_function_spying: None,
            pass_with_no_tests: None,
            reset_mocks: None,
            test_match: None,
            test_name_pattern: None,
            test_path_ignore_patterns: None,
            test_path_pattern: None,
            test_timeout: None,
            verbose: None,
            update_snapshot: None,
        },
    }
}

fn config(entries: &[(&str, &str)]) -> Config {
    let mut config = Config::default();
    for (name, path) in entries {
        config.insert(name.to_string(), path.to_string());
    }
    config
}

fn value(text: &str) -> serde_json::Value {
    serde_json::from_str(text).unwrap()
}

fn reply(line: &str) -> serde_json::Value {
    match handle_line(line, &config(&[("Foo", "src/foo")])) {
        LineStep::Message(Handled::Reply(json)) => value(&reply_line(json)),
        other => panic!("no reply: {other:?}"),
    }
}

fn silent(line: &str) -> bool {
    matches!(handle_line(line, &Config::default()), LineStep::Message(Handled::Silent))
}

fn text_of(result: Json) -> String {
    into_value(result)["content"][0]["text"].as_str().unwrap().to_string()
}

#[test]
fn initialize_echoes_the_protocol_version() {
    assert_eq!(
        reply(r#" {"jsonrpc":"2.0","id":1,"method":"initialize","params":{"protocolVersion":"2024-11-05"}} "#),
        value(
            r#"{"jsonrpc":"2.0","id":1,"result":{"protocolVersion":"2024-11-05",
            "capabilities":{"tools":{}},"serverInfo":{"name":"jest-companion","version":"0.2.1"}}}"#
        )
    );
}

#[test]
fn initialize_has_a_default_protocol_version() {
    let answer = reply(r#"{"id":"x","method":"initialize"}"#);
    assert_eq!(answer["result"]["protocolVersion"], "2025-06-18");
    assert_eq!(answer["id"], "x");
    let answer = reply(r#"{"id":2,"method":"initialize","params":{"protocolVersion":7}}"#);
    assert_eq!(answer["result"]["protocolVersion"], "2025-06-18");
}

#[test]
fn ping_is_answered() {
    assert_eq!(
        reply(r#"{"id":2.5,"method":"ping"}"#),
        value(r#"{"jsonrpc":"2.0","id":2.5,"result":{}}"#)
    );
    assert_eq!(
        reply(r#"{"id":null,"method":"ping"}"#),
        value(r#"{"jsonrpc":"2.0","id":null,"result":{}}"#)
    );
}

#[test]
fn empty_lists_are_offered() {
    assert_eq!(
        reply(r#"{"id":1,"method":"resources/list"}"#),
        value(r#"{"jsonrpc":"2.0","id":1,"result":{"resources":[]}}"#)
    );
    assert_eq!(
        reply(r#"{"id":1,"method":"prompts/list"}"#),
        value(r#"{"jsonrpc":"2.0","id":1,"result":{"prompts":[]}}"#)
    );
}

#[test]
fn notifications_and_answers_are_silent() {
    assert!(silent(r#"{"jsonrpc":"2.0","method":"notifications/initialized"}"#));
    assert!(silent(r#"{"jsonrpc":"2.0","id":1,"result":{}}"#));
    assert!(silent(r#"{"id":1,"method":5}"#));
    assert!(silent("[]"));
}

#[test]
fn notifications_of_known_methods_are_silent() {
    assert!(silent(r#"{"jsonrpc":"2.0","method":"initialize"}"#));
    assert!(silent(r#"{"jsonrpc":"2.0","method":"ping"}"#));
    assert!(silent(r#"{"jsonrpc":"2.0","method":"tools/list"}"#));
    assert!(silent(r#"{"jsonrpc":"2.0","method":"resources/list"}"#));
    assert!(silent(r#"{"jsonrpc":"2.0","method":"prompts/list"}"#));
    assert!(silent(r#"{"jsonrpc":"2.0","method":"tools/call"}"#));
    assert!(silent(r#"{"method":"tools/call","params":{"name":"list_projects"}}"#));
    assert!(silent(r#"{"method":"tools/call","params":{"name":"dance"}}"#));
}

#[test]
fn a_notification_starts_a_run_without_an_answer() {
    let line = r#"{"method":"tools/call","params":{"name":"run_tests","arguments":{"expand":true}}}"#;
    match handle_line(line, &Config::default()) {
        LineStep::Message(Handled::RunTests { id, arguments }) => {
            assert!(id.is_none());
            assert_eq!(into_value(arguments), value(r#"{"expand":true}"#));
            assert!(respond(id, text_result("done", false)).is_none());
        }
        other => panic!("{other:?}"),
    }
}

#[test]
fn unknown_methods_are_refused() {
    assert_eq!(
        reply(r#"{"id":9,"method":"nope"}"#),
        value(
            r#"{"jsonrpc":"2.0","id":9,"error":{"code":-32601,"message":"Method not found: nope"}}"#
        )
    );
    assert!(reply(r#"{"id":null,"method":"nope"}"#)["id"].is_null());
}

#[test]
fn blank_lines_are_skipped_and_others_must_be_json() {
    assert!(matches!(handle_line(" \t\r\n", &Config::default()), LineStep::Skip));
    assert!(matches!(handle_line("", &Config::default()), LineStep::Skip));
    match handle_line(" hello ", &Config::default()) {
        LineStep::Invalid(e) => assert_eq!(e, "expected value at line 1 column 1"),
        other => panic!("{other:?}"),
    }
}

#[test]
fn an_answer_is_one_line() {
    let line = reply_line(text_result("a\nb", false));
    assert_eq!(line, "{\"content\":[{\"text\":\"a\\nb\",\"type\":\"text\"}],\"isError\":false}\n");
}

#[test]
fn answers_have_their_shape() {
    assert_eq!(
        into_value(success(Some(Json::text("id")), Json::Bool(true))),
        value(r#"{"jsonrpc":"2.0","id":"id","result":true}"#)
    );
    assert_eq!(
        into_value(error(None, METHOD_NOT_FOUND, "m")),
        value(r#"{"jsonrpc":"2.0","id":null,"error":{"code":-32601,"message":"m"}}"#)
    );
}

#[test]
fn tools_are_listed() {
    let answer = reply(r#"{"id":1,"method":"tools/list"}"#);
    let tools = into_value(tool_definitions());
    assert_eq!(answer["result"]["tools"], tools);
    assert_eq!(tools[0]["name"], "run_tests");
    assert_eq!(
        tools[0]["description"],
        "Run jest-lua tests in the connected Roblox Studio instance and return \
         the test output. Roblox Studio must be open with the jest-companion plugin \
         installed. All arguments are optional; any provided runCLI option overrides the \
         jest-companion CLI default."
    );
    let properties = tools[0]["inputSchema"]["properties"].as_object().unwrap();
    assert_eq!(properties.len(), 14);
    assert_eq!(
        properties["testMatch"],
        value(
            r#"{"type":"array","items":{"type":"string"},
            "description":"Glob patterns Jest uses to detect test files."}"#
        )
    );
    assert_eq!(properties["testTimeout"]["type"], "integer");
    assert_eq!(properties["verbose"]["type"], "boolean");
    assert_eq!(properties["testPathPattern"]["type"], "string");
    assert_eq!(properties["projects"]["type"], "array");
    assert_eq!(tools[0]["inputSchema"]["type"], "object");
    assert_eq!(
        tools[1],
        value(
            r#"{"name":"list_projects",
            "description":"List the project names configured in jest-companion.toml that can be passed to run_tests.",
            "inputSchema":{"type":"object","properties":{}}}"#
        )
    );
}

#[test]
fn projects_are_listed_in_order() {
    let one = config(&[("b", "p/b"), ("a", "z"), ("ab", "")]);
    let two = config(&[("ab", ""), ("b", "p/b"), ("a", "z")]);
    let text = "Configured projects:\n- a -> z\n- ab -> \n- b -> p/b";
    assert_eq!(text_of(list_projects_tool(&one)), text);
    assert_eq!(text_of(list_projects_tool(&two)), text);
    let answer =
        reply(r#"{"id":1,"method":"tools/call","params":{"name":"list_projects"}}"#);
    assert_eq!(
        answer,
        value(
            r#"{"jsonrpc":"2.0","id":1,"result":{"content":[{"type":"text",
            "text":"Configured projects:\n- Foo -> src/foo"}],"isError":false}}"#
        )
    );
}

#[test]
fn no_projects_are_no_error() {
    assert_eq!(
        into_value(list_projects_tool(&Config::default())),
        value(
            r#"{"content":[{"type":"text",
            "text":"No projects are configured. Add a [projects] table to jest-companion.toml."}],
            "isError":false}"#
        )
    );
}

#[test]
fn unknown_tools_are_errors_of_the_call() {
    let answer = reply(r#"{"id":1,"method":"tools/call","params":{"name":"dance"}}"#);
    assert_eq!(
        answer["result"],
        value(r#"{"content":[{"type":"text","text":"Unknown tool: dance"}],"isError":true}"#)
    );
    let answer = reply(r#"{"id":1,"method":"tools/call"}"#);
    assert_eq!(answer["result"]["content"][0]["text"], "Unknown tool: ");
}

#[test]
fn run_tests_is_handed_on_with_its_arguments() {
    let line = r#"{"id":4,"method":"tools/call","params":{"name":"run_tests","arguments":{"verbose":true}}}"#;
    match handle_line(line, &Config::default()) {
        LineStep::Message(Handled::RunTests { id, arguments }) => {
            assert_eq!(
                into_value(respond(id, Json::Null).unwrap()),
                value(r#"{"jsonrpc":"2.0","id":4,"result":null}"#)
            );
            assert_eq!(into_value(arguments), value(r#"{"verbose":true}"#));
        }
        other => panic!("{other:?}"),
    }
    let line = r#"{"id":"a","method":"tools/call","params":{"name":"run_tests"}}"#;
    match handle_line(line, &Config::default()) {
        LineStep::Message(Handled::RunTests { id, arguments }) => {
            assert_eq!(into_value(id.unwrap()), value(r#""a""#));
            assert_eq!(into_value(arguments), value("{}"));
        }
        other => panic!("{other:?}"),
    }
}

#[test]
fn a_call_runs_from_start_to_end() {
    let config = config(&[("Foo", "src/foo")]);
    let mut coord = McpCoord::new(true);
    let params = RunTestsParams { options: ToolOptions::default(), projects: None };
    assert!(run_tests_tool(Ok(params), &mut coord, &cli(), &config).is_none());
    coord.poll();
    coord.write("\u{1B}[31mFAIL\u{1B}[39m suite");
    coord.settle(Outcome::Finished(false));
    let result =
        finish_run_tests(&mut coord, RunEnd::Reported(Outcome::Finished(false)), &cli());
    assert_eq!(
        into_value(result),
        value(
            r#"{"content":[{"type":"text","text":"Test run FAILED\n\nFAIL suite"}],"isError":false}"#
        )
    );
    assert!(coord.active.is_none());
}

#[test]
fn a_silent_run_says_so() {
    let mut coord = McpCoord::new(true);
    let result =
        finish_run_tests(&mut coord, RunEnd::Reported(Outcome::Finished(true)), &cli());
    assert_eq!(text_of(result), "Test run PASSED\n\n(the plugin reported no output)");
}

#[test]
fn failed_calls_are_errors() {
    let mut coord = McpCoord::new(true);
    let result = finish_run_tests(&mut coord, RunEnd::TimedOut { seconds: 300 }, &cli());
    assert_eq!(
        into_value(result),
        value(
            r#"{"content":[{"type":"text","text":"Timed out after 300s waiting for test results."}],
            "isError":true}"#
        )
    );
    let result =
        run_tests_tool(Err("bad verbose".to_string()), &mut coord, &cli(), &Config::default());
    assert_eq!(text_of(result.unwrap()), "Invalid arguments for run_tests: bad verbose");
    let params = RunTestsParams { options: ToolOptions::default(), projects: None };
    let result = run_tests_tool(Ok(params), &mut coord, &cli(), &Config::default()).unwrap();
    assert_eq!(into_value(result)["isError"], true);
}
