//! What the definitions of the tools say.
use vstd::prelude::*;

use crate::json::JsonView;
use crate::laws::options::all_names;
use crate::options::{option_names, option_names_differ};
use crate::tools::{
    argument_view, object_schema, run_tests_arguments, run_tests_takes_every_option,
    tool_definitions_view, tool_view, Schema,
};

verus! {

/// Whether `argument` is the schema of an argument of the type `kind` with this description. An array
/// is one of texts.
pub open spec fn describes(argument: JsonView, kind: Seq<char>, description: Seq<char>) -> bool {
    &&& argument is Object
    &&& argument->Object_0.dom() == if kind == "array"@ {
        set!["type"@, "description"@, "items"@]
    } else {
        set!["type"@, "description"@]
    }
    &&& argument->Object_0["type"@] == JsonView::Text(kind)
    &&& argument->Object_0["description"@] == JsonView::Text(description)
    &&& kind == "array"@ ==> argument->Object_0["items"@] == JsonView::Object(
        map!["type"@ => JsonView::Text("string"@)],
    )
}

/// Whether `tool` is the definition of the tool `name`, whose arguments are `arguments`.
pub open spec fn defines(
    tool: JsonView,
    name: Seq<char>,
    description: Seq<char>,
    arguments: Map<Seq<char>, JsonView>,
) -> bool {
    &&& tool is Object
    &&& tool->Object_0.dom() == set!["name"@, "description"@, "inputSchema"@]
    &&& tool->Object_0["name"@] == JsonView::Text(name)
    &&& tool->Object_0["description"@] == JsonView::Text(description)
    &&& tool->Object_0["inputSchema"@] == JsonView::Object(
        map!["type"@ => JsonView::Text("object"@), "properties"@ => JsonView::Object(arguments)],
    )
}

/// Whether `arguments` are those of `run_tests`: each option and the list of projects, each with the
/// type of its value and a description, and nothing else.
pub open spec fn takes_the_options(arguments: Map<Seq<char>, JsonView>) -> bool {
    &&& arguments.dom() == all_names().insert("projects"@)
    &&& describes(
        arguments["testNamePattern"@],
        "string"@,
        "Run only tests whose full name (test name plus surrounding describe blocks) matches this regex."@,
    )
    &&& describes(
        arguments["testPathPattern"@],
        "string"@,
        "Run only tests whose path matches this regex."@,
    )
    &&& describes(
        arguments["testPathIgnorePatterns"@],
        "array"@,
        "Skip tests whose path matches any of these regexes."@,
    )
    &&& describes(
        arguments["testMatch"@],
        "array"@,
        "Glob patterns Jest uses to detect test files."@,
    )
    &&& describes(
        arguments["testTimeout"@],
        "integer"@,
        "Default timeout of a test in milliseconds."@,
    )
    &&& describes(
        arguments["verbose"@],
        "boolean"@,
        "Display individual test results with the test suite hierarchy."@,
    )
    &&& describes(
        arguments["updateSnapshot"@],
        "boolean"@,
        "Re-record every snapshot that fails during this run."@,
    )
    &&& describes(
        arguments["expand"@],
        "boolean"@,
        "Show full diffs and errors instead of a patch."@,
    )
    &&& describes(
        arguments["noStackTrace"@],
        "boolean"@,
        "Disable stack traces in the test results output."@,
    )
    &&& describes(
        arguments["clearMocks"@],
        "boolean"@,
        "Clear mock calls, instances, contexts and results before every test."@,
    )
    &&& describes(arguments["resetMocks"@], "boolean"@, "Reset mock state before every test."@)
    &&& describes(
        arguments["oldFunctionSpying"@],
        "boolean"@,
        "Use the old jest.spyOn() behaviour (overwrite the spied method with a mock object)."@,
    )
    &&& describes(
        arguments["passWithNoTests"@],
        "boolean"@,
        "Allow the test suite to pass when no test files are found."@,
    )
    &&& describes(
        arguments["projects"@],
        "array"@,
        "Subset of configured project names to run. Omit to run every configured project. Use list_projects to see the names."@,
    )
}

/// The server offers two tools: `run_tests`, which takes the options of a run and a list of projects,
/// and `list_projects`, which takes nothing.
pub proof fn two_tools_are_offered()
    ensures
        tool_definitions_view() is Array,
        tool_definitions_view()->Array_0.len() == 2,
        exists|arguments: Map<Seq<char>, JsonView>| #[trigger]
            takes_the_options(arguments) && defines(
                tool_definitions_view()->Array_0[0],
                "run_tests"@,
                "Run jest-lua tests in the connected Roblox Studio instance and return the test output. Roblox Studio must be open with the jest-companion plugin installed. All arguments are optional; any provided runCLI option overrides the jest-companion CLI default."@,
                arguments,
            ),
        defines(
            tool_definitions_view()->Array_0[1],
            "list_projects"@,
            "List the project names configured in jest-companion.toml that can be passed to run_tests."@,
            Map::empty(),
        ),
{
    let arguments = run_tests_arguments();
    run_tests_describes_its_arguments();
    tool_is_defined(crate::tools::RUN_TESTS@, crate::tools::RUN_TESTS_DESCRIPTION@, arguments);
    tool_is_defined(
        crate::tools::LIST_PROJECTS@,
        crate::tools::LIST_PROJECTS_DESCRIPTION@,
        Map::empty(),
    );
    assert(takes_the_options(arguments));
}

proof fn tool_is_defined(
    name: Seq<char>,
    description: Seq<char>,
    arguments: Map<Seq<char>, JsonView>,
)
    ensures
        defines(tool_view(name, description, arguments), name, description, arguments),
{
    reveal_strlit("name");
    reveal_strlit("description");
    reveal_strlit("inputSchema");
    reveal_strlit("type");
    reveal_strlit("properties");
    assert("name"@.len() == 4 && "description"@[0] == 'd' && "inputSchema"@[0] == 'i');
    assert("description"@.len() == 11 && "inputSchema"@.len() == 11);
    assert("type"@.len() == 4 && "properties"@.len() == 10);
    let tool = tool_view(name, description, arguments);
    assert(tool->Object_0.dom() =~= set!["name"@, "description"@, "inputSchema"@]);
    assert(object_schema(arguments)->Object_0 =~= map![
        "type"@ => JsonView::Text("object"@), "properties"@ => JsonView::Object(arguments)
    ]);
}

proof fn argument_is_described(schema: Schema, description: Seq<char>)
    ensures
        schema is Text ==> describes(argument_view(schema, description), "string"@, description),
        schema is Texts ==> describes(argument_view(schema, description), "array"@, description),
        schema is Integer ==> describes(argument_view(schema, description), "integer"@, description),
        schema is Flag ==> describes(argument_view(schema, description), "boolean"@, description),
{
    reveal_strlit("type");
    reveal_strlit("description");
    reveal_strlit("items");
    reveal_strlit("string");
    reveal_strlit("array");
    reveal_strlit("integer");
    reveal_strlit("boolean");
    assert("type"@.len() == 4 && "description"@.len() == 11 && "items"@.len() == 5);
    assert("array"@.len() == 5 && "string"@.len() == 6 && "integer"@.len() == 7 && "boolean"@.len()
        == 7);
    let argument = argument_view(schema, description);
    if schema is Texts {
        assert(argument->Object_0.dom() =~= set!["type"@, "description"@, "items"@]);
        assert(argument->Object_0["items"@]->Object_0 =~= map![
            "type"@ => JsonView::Text("string"@)
        ]);
    } else {
        assert(argument->Object_0.dom() =~= set!["type"@, "description"@]);
    }
}

proof fn run_tests_describes_its_arguments()
    ensures
        takes_the_options(run_tests_arguments()),
{
    run_tests_takes_every_option();
    crate::laws::options::names_by_position();
    option_names_differ();
    let names = option_names();
    assert(names[0] != names[1]);
    reveal_strlit("projects");
    reveal_strlit("testNamePattern");
    reveal_strlit("testPathPattern");
    reveal_strlit("testPathIgnorePatterns");
    reveal_strlit("testMatch");
    reveal_strlit("testTimeout");
    reveal_strlit("verbose");
    reveal_strlit("updateSnapshot");
    reveal_strlit("expand");
    reveal_strlit("noStackTrace");
    reveal_strlit("clearMocks");
    reveal_strlit("resetMocks");
    reveal_strlit("oldFunctionSpying");
    reveal_strlit("passWithNoTests");
    assert("testNamePattern"@.len() == 15 && "testPathPattern"@.len() == 15
        && "passWithNoTests"@.len() == 15 && "testPathIgnorePatterns"@.len() == 22
        && "testMatch"@.len() == 9 && "testTimeout"@.len() == 11 && "verbose"@.len() == 7
        && "updateSnapshot"@.len() == 14 && "expand"@.len() == 6 && "noStackTrace"@.len() == 12
        && "clearMocks"@.len() == 10 && "resetMocks"@.len() == 10 && "oldFunctionSpying"@.len() == 17
        && "projects"@.len() == 8);
    assert("testNamePattern"@[4] == 'N' && "testPathPattern"@[4] == 'P' && "passWithNoTests"@[4]
        == 'W' && "clearMocks"@[0] == 'c' && "resetMocks"@[0] == 'r');
    argument_is_described(Schema::Text, crate::tools::TEST_NAME_PATTERN@);
    argument_is_described(Schema::Text, crate::tools::TEST_PATH_PATTERN@);
    argument_is_described(Schema::Texts, crate::tools::TEST_PATH_IGNORE_PATTERNS@);
    argument_is_described(Schema::Texts, crate::tools::TEST_MATCH@);
    argument_is_described(Schema::Integer, crate::tools::TEST_TIMEOUT@);
    argument_is_described(Schema::Flag, crate::tools::VERBOSE@);
    argument_is_described(Schema::Flag, crate::tools::UPDATE_SNAPSHOT@);
    argument_is_described(Schema::Flag, crate::tools::EXPAND@);
    argument_is_described(Schema::Flag, crate::tools::NO_STACK_TRACE@);
    argument_is_described(Schema::Flag, crate::tools::CLEAR_MOCKS@);
    argument_is_described(Schema::Flag, crate::tools::RESET_MOCKS@);
    argument_is_described(Schema::Flag, crate::tools::OLD_FUNCTION_SPYING@);
    argument_is_described(Schema::Flag, crate::tools::PASS_WITH_NO_TESTS@);
    argument_is_described(Schema::Texts, crate::tools::PROJECTS@);
}

} // verus!
