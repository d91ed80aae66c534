//! The tools that the server offers to MCP clients.
use vstd::prelude::*;

use crate::json::{items_view_push, Json, JsonObject, JsonView};
use crate::json_io::no_members;
use crate::options::option_names;

verus! {

/// The name of the tool that runs tests.
pub const RUN_TESTS: &'static str = "run_tests";

/// The name of the tool that lists the configured projects.
pub const LIST_PROJECTS: &'static str = "list_projects";

pub const RUN_TESTS_DESCRIPTION: &'static str = "Run jest-lua tests in the connected Roblox Studio instance and return the test output. Roblox Studio must be open with the jest-companion plugin installed. All arguments are optional; any provided runCLI option overrides the jest-companion CLI default.";

pub const LIST_PROJECTS_DESCRIPTION: &'static str = "List the project names configured in jest-companion.toml that can be passed to run_tests.";

pub const TEST_NAME_PATTERN: &'static str = "Run only tests whose full name (test name plus surrounding describe blocks) matches this regex.";

pub const TEST_PATH_PATTERN: &'static str = "Run only tests whose path matches this regex.";

pub const TEST_PATH_IGNORE_PATTERNS: &'static str = "Skip tests whose path matches any of these regexes.";

pub const TEST_MATCH: &'static str = "Glob patterns Jest uses to detect test files.";

pub const TEST_TIMEOUT: &'static str = "Default timeout of a test in milliseconds.";

pub const VERBOSE: &'static str = "Display individual test results with the test suite hierarchy.";

pub const UPDATE_SNAPSHOT: &'static str = "Re-record every snapshot that fails during this run.";

pub const EXPAND: &'static str = "Show full diffs and errors instead of a patch.";

pub const NO_STACK_TRACE: &'static str = "Disable stack traces in the test results output.";

pub const CLEAR_MOCKS: &'static str = "Clear mock calls, instances, contexts and results before every test.";

pub const RESET_MOCKS: &'static str = "Reset mock state before every test.";

pub const OLD_FUNCTION_SPYING: &'static str = "Use the old jest.spyOn() behaviour (overwrite the spied method with a mock object).";

pub const PASS_WITH_NO_TESTS: &'static str = "Allow the test suite to pass when no test files are found.";

pub const PROJECTS: &'static str = "Subset of configured project names to run. Omit to run every configured project. Use list_projects to see the names.";

/// What kind of value an argument takes.
pub enum Schema {
    Text,
    Texts,
    Integer,
    Flag,
}

/// The name of the JSON type that a kind of value has.
pub open spec fn schema_type(schema: Schema) -> Seq<char> {
    match schema {
        Schema::Text => "string"@,
        Schema::Texts => "array"@,
        Schema::Integer => "integer"@,
        Schema::Flag => "boolean"@,
    }
}

/// The schema of an argument.
pub open spec fn argument_view(schema: Schema, description: Seq<char>) -> JsonView {
    let described = no_members().insert("type"@, JsonView::Text(schema_type(schema))).insert(
        "description"@,
        JsonView::Text(description),
    );
    JsonView::Object(
        match schema {
            Schema::Texts => described.insert(
                "items"@,
                JsonView::Object(no_members().insert("type"@, JsonView::Text("string"@))),
            ),
            _ => described,
        },
    )
}

/// The schema of an argument.
fn argument(schema: Schema, description: &str) -> (r: Json)
    ensures
        r@ == argument_view(schema, description@),
{
    let mut out = JsonObject::new();
    let name = match schema {
        Schema::Text => "string",
        Schema::Texts => "array",
        Schema::Integer => "integer",
        Schema::Flag => "boolean",
    };
    out.insert("type", Json::text(name));
    out.insert("description", Json::text(description));
    match schema {
        Schema::Texts => {
            let mut items = JsonObject::new();
            items.insert("type", Json::text("string"));
            out.insert("items", Json::Object(items));
        },
        _ => {},
    }
    Json::Object(out)
}

/// The schemas of the arguments that `run_tests` takes, by name.
pub open spec fn run_tests_arguments() -> Map<Seq<char>, JsonView> {
    no_members()
        .insert("testNamePattern"@, argument_view(Schema::Text, TEST_NAME_PATTERN@))
        .insert("testPathPattern"@, argument_view(Schema::Text, TEST_PATH_PATTERN@))
        .insert("testPathIgnorePatterns"@, argument_view(Schema::Texts, TEST_PATH_IGNORE_PATTERNS@))
        .insert("testMatch"@, argument_view(Schema::Texts, TEST_MATCH@))
        .insert("testTimeout"@, argument_view(Schema::Integer, TEST_TIMEOUT@))
        .insert("verbose"@, argument_view(Schema::Flag, VERBOSE@))
        .insert("updateSnapshot"@, argument_view(Schema::Flag, UPDATE_SNAPSHOT@))
        .insert("expand"@, argument_view(Schema::Flag, EXPAND@))
        .insert("noStackTrace"@, argument_view(Schema::Flag, NO_STACK_TRACE@))
        .insert("clearMocks"@, argument_view(Schema::Flag, CLEAR_MOCKS@))
        .insert("resetMocks"@, argument_view(Schema::Flag, RESET_MOCKS@))
        .insert("oldFunctionSpying"@, argument_view(Schema::Flag, OLD_FUNCTION_SPYING@))
        .insert("passWithNoTests"@, argument_view(Schema::Flag, PASS_WITH_NO_TESTS@))
        .insert("projects"@, argument_view(Schema::Texts, PROJECTS@))
}

/// The schema of an object with the given members.
pub open spec fn object_schema(properties: Map<Seq<char>, JsonView>) -> JsonView {
    JsonView::Object(
        no_members().insert("type"@, JsonView::Text("object"@)).insert(
            "properties"@,
            JsonView::Object(properties),
        ),
    )
}

/// The definition of a tool.
pub open spec fn tool_view(
    name: Seq<char>,
    description: Seq<char>,
    arguments: Map<Seq<char>, JsonView>,
) -> JsonView {
    JsonView::Object(
        no_members().insert("name"@, JsonView::Text(name)).insert(
            "description"@,
            JsonView::Text(description),
        ).insert("inputSchema"@, object_schema(arguments)),
    )
}

/// The definitions of the tools.
pub open spec fn tool_definitions_view() -> JsonView {
    JsonView::Array(
        seq![
            tool_view(RUN_TESTS@, RUN_TESTS_DESCRIPTION@, run_tests_arguments()),
            tool_view(LIST_PROJECTS@, LIST_PROJECTS_DESCRIPTION@, no_members()),
        ],
    )
}

/// The definition of a tool.
fn tool(name: &str, description: &str, arguments: JsonObject) -> (r: Json)
    ensures
        r@ == tool_view(name@, description@, arguments@),
{
    let mut schema = JsonObject::new();
    schema.insert("type", Json::text("object"));
    schema.insert("properties", Json::Object(arguments));
    let mut out = JsonObject::new();
    out.insert("name", Json::text(name));
    out.insert("description", Json::text(description));
    out.insert("inputSchema", Json::Object(schema));
    Json::Object(out)
}

/// The definitions of the tools.
pub fn tool_definitions() -> (r: Json)
    ensures
        r@ == tool_definitions_view(),
{
    let mut arguments = JsonObject::new();
    arguments.insert("testNamePattern", argument(Schema::Text, TEST_NAME_PATTERN));
    arguments.insert("testPathPattern", argument(Schema::Text, TEST_PATH_PATTERN));
    arguments.insert("testPathIgnorePatterns", argument(Schema::Texts, TEST_PATH_IGNORE_PATTERNS));
    arguments.insert("testMatch", argument(Schema::Texts, TEST_MATCH));
    arguments.insert("testTimeout", argument(Schema::Integer, TEST_TIMEOUT));
    arguments.insert("verbose", argument(Schema::Flag, VERBOSE));
    arguments.insert("updateSnapshot", argument(Schema::Flag, UPDATE_SNAPSHOT));
    arguments.insert("expand", argument(Schema::Flag, EXPAND));
    arguments.insert("noStackTrace", argument(Schema::Flag, NO_STACK_TRACE));
    arguments.insert("clearMocks", argument(Schema::Flag, CLEAR_MOCKS));
    arguments.insert("resetMocks", argument(Schema::Flag, RESET_MOCKS));
    arguments.insert("oldFunctionSpying", argument(Schema::Flag, OLD_FUNCTION_SPYING));
    arguments.insert("passWithNoTests", argument(Schema::Flag, PASS_WITH_NO_TESTS));
    arguments.insert("projects", argument(Schema::Texts, PROJECTS));
    let mut tools: Vec<Json> = Vec::new();
    let run_tests = tool(RUN_TESTS, RUN_TESTS_DESCRIPTION, arguments);
    let list_projects = tool(LIST_PROJECTS, LIST_PROJECTS_DESCRIPTION, JsonObject::new());
    proof {
        items_view_push(tools@, run_tests);
        items_view_push(tools@.push(run_tests), list_projects);
        assert(crate::json::items_view(tools@.push(run_tests).push(list_projects))
            == tool_definitions_view()->Array_0);
    }
    tools.push(run_tests);
    tools.push(list_projects);
    Json::Array(tools)
}

/// `run_tests` takes the options of the command line and a list of projects, and nothing else.
pub proof fn run_tests_takes_every_option()
    ensures
        run_tests_arguments().dom() == option_names().to_set().insert("projects"@),
{
    let names = option_names();
    let arguments = run_tests_arguments();
    assert forall|name: Seq<char>| arguments.dom().contains(name) == names.to_set().insert(
        "projects"@,
    ).contains(name) by {
        assert(names[0] == "clearMocks"@);
        assert(names[1] == "expand"@);
        assert(names[2] == "noStackTrace"@);
        assert(names[3] == "oldFunctionSpying"@);
        assert(names[4] == "passWithNoTests"@);
        assert(names[5] == "resetMocks"@);
        assert(names[6] == "testMatch"@);
        assert(names[7] == "testNamePattern"@);
        assert(names[8] == "testPathIgnorePatterns"@);
        assert(names[9] == "testPathPattern"@);
        assert(names[10] == "testTimeout"@);
        assert(names[11] == "verbose"@);
        assert(names[12] == "updateSnapshot"@);
        if names.contains(name) {
            let i = choose|i: int| 0 <= i < names.len() && names[i] == name;
            assert(arguments.dom().contains(names[i]));
        }
    }
    assert(arguments.dom() =~= names.to_set().insert("projects"@));
}

} // verus!
