//! What holds of the options of a run, option by option.
use vstd::prelude::*;

use crate::cli::{jest_rows, jest_rows_cover, Cli, JestOptions};
use crate::json::JsonView;
use crate::json_io::integer_number;
use crate::options::{
    all_members, all_members_index, flag_view, given_members, given_members_index,
    given_options_override, number_view, option_names, option_names_differ, pattern_view,
    patterns_view, OptionRowView,
};
use crate::run::{merged_options, tool_rows, tool_rows_cover, ToolOptions};

verus! {

/// A flag that was given, or else the default, or else null.
pub open spec fn flag_or(given: Option<bool>, default: Option<bool>) -> JsonView {
    match given {
        Some(b) => JsonView::Bool(b),
        None => match default {
            Some(b) => JsonView::Bool(b),
            None => JsonView::Null,
        },
    }
}

/// A text that was given, or else the default, or else null.
pub open spec fn text_or_default(given: Option<String>, default: Option<String>) -> JsonView {
    match given {
        Some(s) => JsonView::Text(s@),
        None => match default {
            Some(s) => JsonView::Text(s@),
            None => JsonView::Null,
        },
    }
}

/// A list of texts as a value.
pub open spec fn list_value(list: Seq<String>) -> JsonView {
    JsonView::Array(Seq::new(list.len(), |i: int| JsonView::Text(list[i]@)))
}

/// A list that was given, or else the default, or else null.
pub open spec fn list_or(given: Option<Vec<String>>, default: Option<Vec<String>>) -> JsonView {
    match given {
        Some(list) => list_value(list@),
        None => match default {
            Some(list) => list_value(list@),
            None => JsonView::Null,
        },
    }
}

/// A number that was given, or else the default, or else null.
pub open spec fn number_or(given: Option<u32>, default: Option<u32>) -> JsonView {
    match given {
        Some(n) => JsonView::Number(integer_number(n as i64)),
        None => match default {
            Some(n) => JsonView::Number(integer_number(n as i64)),
            None => JsonView::Null,
        },
    }
}

/// The pattern of an option that may come without one.
pub open spec fn inner_pattern(v: Option<Option<String>>) -> Option<String> {
    match v {
        Some(pattern) => pattern,
        None => None,
    }
}

/// The names of the thirteen options.
pub open spec fn all_names() -> Set<Seq<char>> {
    set![
        "clearMocks"@, "expand"@, "noStackTrace"@, "oldFunctionSpying"@, "passWithNoTests"@,
        "resetMocks"@, "testMatch"@, "testNamePattern"@, "testPathIgnorePatterns"@,
        "testPathPattern"@, "testTimeout"@, "verbose"@, "updateSnapshot"@,
    ]
}

/// Whether `options` is an object that has each option and nothing else: the value that `given` has
/// for it, or else the value that `default` has for it, or else null.
pub open spec fn overridden(options: JsonView, given: ToolOptions, default: JestOptions) -> bool {
    &&& options is Object
    &&& options->Object_0.dom() == all_names()
    &&& options->Object_0["clearMocks"@] == flag_or(given.clear_mocks, default.clear_mocks)
    &&& options->Object_0["expand"@] == flag_or(given.expand, default.expand)
    &&& options->Object_0["noStackTrace"@] == flag_or(given.no_stack_trace, default.no_stack_trace)
    &&& options->Object_0["oldFunctionSpying"@] == flag_or(
        given.old_function_spying,
        default.old_function_spying,
    )
    &&& options->Object_0["passWithNoTests"@] == flag_or(
        given.pass_with_no_tests,
        default.pass_with_no_tests,
    )
    &&& options->Object_0["resetMocks"@] == flag_or(given.reset_mocks, default.reset_mocks)
    &&& options->Object_0["testMatch"@] == list_or(given.test_match, default.test_match)
    &&& options->Object_0["testNamePattern"@] == text_or_default(
        given.test_name_pattern,
        default.test_name_pattern,
    )
    &&& options->Object_0["testPathIgnorePatterns"@] == list_or(
        given.test_path_ignore_patterns,
        default.test_path_ignore_patterns,
    )
    &&& options->Object_0["testPathPattern"@] == text_or_default(
        given.test_path_pattern,
        inner_pattern(default.test_path_pattern),
    )
    &&& options->Object_0["testTimeout"@] == number_or(given.test_timeout, default.test_timeout)
    &&& options->Object_0["verbose"@] == flag_or(given.verbose, default.verbose)
    &&& options->Object_0["updateSnapshot"@] == flag_or(
        given.update_snapshot,
        default.update_snapshot,
    )
}

/// No option at all.
pub open spec fn no_options() -> ToolOptions {
    ToolOptions {
        clear_mocks: None,
        expand: None,
        no_stack_trace: None,
        old_function_spying: None,
        pass_with_no_tests: None,
        reset_mocks: None,
        test_match: None,
        test_name_pattern: None,
        test_path_ignore_patterns: None,
        test_path_pattern: None,
        test_timeout: None,
        verbose: None,
        update_snapshot: None,
    }
}

pub(crate) proof fn names_by_position()
    ensures
        option_names().len() == 13,
        option_names()[0] == "clearMocks"@,
        option_names()[1] == "expand"@,
        option_names()[2] == "noStackTrace"@,
        option_names()[3] == "oldFunctionSpying"@,
        option_names()[4] == "passWithNoTests"@,
        option_names()[5] == "resetMocks"@,
        option_names()[6] == "testMatch"@,
        option_names()[7] == "testNamePattern"@,
        option_names()[8] == "testPathIgnorePatterns"@,
        option_names()[9] == "testPathPattern"@,
        option_names()[10] == "testTimeout"@,
        option_names()[11] == "verbose"@,
        option_names()[12] == "updateSnapshot"@,
        option_names().to_set() == all_names(),
{
    let names = option_names();
    assert forall|name: Seq<char>| names.to_set().contains(name) == all_names().contains(name) by {
        if names.contains(name) {
            let i = choose|i: int| 0 <= i < names.len() && names[i] == name;
            assert(i == 0 || i == 1 || i == 2 || i == 3 || i == 4 || i == 5 || i == 6 || i == 7 || i
                == 8 || i == 9 || i == 10 || i == 11 || i == 12);
        }
        if all_names().contains(name) {
            assert(names[0] == name || names[1] == name || names[2] == name || names[3] == name
                || names[4] == name || names[5] == name || names[6] == name || names[7] == name
                || names[8] == name || names[9] == name || names[10] == name || names[11] == name
                || names[12] == name);
        }
    }
    assert(names.to_set() =~= all_names());
}

/// Any option that a tool call gives overrides the option of the command line, and every other
/// option is that of the command line, or null if it is silent too.
pub proof fn given_values_override(cli: Cli, options: ToolOptions)
    ensures
        overridden(merged_options(cli, options), options, cli.options),
{
    jest_rows_cover(cli.options);
    tool_rows_cover(options);
    given_options_override(jest_rows(cli.options), tool_rows(options));
    names_by_position();
    let merged = merged_options(cli, options)->Object_0;
    let names = option_names();
    assert(merged[names[0]] == flag_or(options.clear_mocks, cli.options.clear_mocks));
    assert(merged[names[1]] == flag_or(options.expand, cli.options.expand));
    assert(merged[names[2]] == flag_or(options.no_stack_trace, cli.options.no_stack_trace));
    assert(merged[names[3]] == flag_or(
        options.old_function_spying,
        cli.options.old_function_spying,
    ));
    assert(merged[names[4]] == flag_or(options.pass_with_no_tests, cli.options.pass_with_no_tests));
    assert(merged[names[5]] == flag_or(options.reset_mocks, cli.options.reset_mocks));
    lists_are_shown(options.test_match);
    lists_are_shown(cli.options.test_match);
    assert(merged[names[6]] == list_or(options.test_match, cli.options.test_match));
    assert(merged[names[7]] == text_or_default(
        options.test_name_pattern,
        cli.options.test_name_pattern,
    ));
    lists_are_shown(options.test_path_ignore_patterns);
    lists_are_shown(cli.options.test_path_ignore_patterns);
    assert(merged[names[8]] == list_or(
        options.test_path_ignore_patterns,
        cli.options.test_path_ignore_patterns,
    ));
    assert(merged[names[9]] == text_or_default(
        options.test_path_pattern,
        inner_pattern(cli.options.test_path_pattern),
    ));
    assert(merged[names[10]] == number_or(options.test_timeout, cli.options.test_timeout));
    assert(merged[names[11]] == flag_or(options.verbose, cli.options.verbose));
    assert(merged[names[12]] == flag_or(options.update_snapshot, cli.options.update_snapshot));
}

proof fn lists_are_shown(v: Option<Vec<String>>)
    ensures
        v matches Some(list) ==> patterns_view(v) == Some(list_value(list@)),
{
    if v is Some {
        let list = v->0;
        assert(crate::json::texts_view(crate::text::texts(list@))->Array_0 =~= list_value(
            list@,
        )->Array_0);
    }
}

/// The options of the command line are an object that has each option, null where it is silent.
pub proof fn command_line_has_every_option(options: JestOptions)
    ensures
        overridden(JsonView::Object(all_members(jest_rows(options))), no_options(), options),
{
    let cli = Cli {
        path: arbitrary(),
        mcp: true,
        server_timeout: 0,
        run_timeout: 0,
        options,
    };
    given_values_override(cli, no_options());
    no_rows_given();
    assert(all_members(jest_rows(options)).union_prefer_right(given_members(tool_rows(no_options())))
        =~= all_members(jest_rows(options)));
}

proof fn no_rows_given()
    ensures
        given_members(tool_rows(no_options())) == Map::<Seq<char>, JsonView>::empty(),
{
    nothing_given(tool_rows(no_options()));
}

proof fn nothing_given(rows: Seq<OptionRowView>)
    requires
        forall|i: int| 0 <= i < rows.len() ==> (#[trigger] rows[i]).value is None,
    ensures
        given_members(rows) == Map::<Seq<char>, JsonView>::empty(),
    decreases rows.len(),
{
    if rows.len() > 0 {
        nothing_given(rows.drop_last());
    }
}

/// Whether `m` has the member `name` if and only if there is a value for it, and then with that
/// value.
pub open spec fn holds(m: Map<Seq<char>, JsonView>, name: Seq<char>, v: Option<JsonView>) -> bool {
    &&& m.contains_key(name) <==> v is Some
    &&& v is Some ==> m[name] == v->0
}

/// A flag as an optional value.
pub open spec fn flag_given(v: Option<bool>) -> Option<JsonView> {
    match v {
        Some(b) => Some(JsonView::Bool(b)),
        None => None,
    }
}

/// A text as an optional value.
pub open spec fn text_given(v: Option<String>) -> Option<JsonView> {
    match v {
        Some(s) => Some(JsonView::Text(s@)),
        None => None,
    }
}

/// A list as an optional value.
pub open spec fn list_given(v: Option<Vec<String>>) -> Option<JsonView> {
    match v {
        Some(list) => Some(list_value(list@)),
        None => None,
    }
}

/// A number as an optional value.
pub open spec fn number_given(v: Option<u32>) -> Option<JsonView> {
    match v {
        Some(n) => Some(JsonView::Number(integer_number(n as i64))),
        None => None,
    }
}

/// The row of an option has its value if and only if the option was given one.
pub proof fn rows_have_the_given_values(
    flag: Option<bool>,
    pattern: Option<String>,
    patterns: Option<Vec<String>>,
    number: Option<u32>,
)
    ensures
        flag_view(flag) == flag_given(flag),
        pattern_view(pattern) == text_given(pattern),
        patterns_view(patterns) == list_given(patterns),
        number_view(number) == number_given(number),
{
    lists_are_shown(patterns);
}

/// Whether a row has this name.
pub open spec fn row_named(rows: Seq<OptionRowView>, name: Seq<char>, i: int) -> bool {
    0 <= i < rows.len() && rows[i].name == name
}

/// Of rows with different names an object with all options has each, null where there is no value,
/// and an object with the given options has those with a value. Neither has anything else.
pub proof fn rows_become_members(rows: Seq<OptionRowView>, name: Seq<char>)
    requires
        forall|i: int, j: int|
            0 <= i < j < rows.len() ==> (#[trigger] rows[i]).name != (#[trigger] rows[j]).name,
    ensures
        forall|i: int| #[trigger]
            row_named(rows, name, i) ==> {
                &&& holds(given_members(rows), name, rows[i].value)
                &&& all_members(rows).contains_key(name)
                &&& all_members(rows)[name] == match rows[i].value {
                    Some(v) => v,
                    None => JsonView::Null,
                }
            },
        (forall|i: int| !#[trigger] row_named(rows, name, i)) ==> !all_members(rows).contains_key(
            name,
        ) && !given_members(rows).contains_key(name),
{
    all_members_index(rows);
    given_members_index(rows);
    if forall|i: int| !#[trigger] row_named(rows, name, i) {
        if all_members(rows).contains_key(name) {
            let i = choose|i: int| 0 <= i < rows.len() && (#[trigger] rows[i]).name == name;
            assert(row_named(rows, name, i));
        }
        if given_members(rows).contains_key(name) {
            let i = choose|i: int| 0 <= i < rows.len() && (#[trigger] rows[i]).name == name;
            assert(row_named(rows, name, i));
        }
    }
}

/// The options of a tool call are an object that has exactly those that the call gives, each with
/// its value.
pub proof fn tool_call_has_the_given_options(o: ToolOptions)
    ensures
        given_members(tool_rows(o)).dom().subset_of(all_names()),
        holds(given_members(tool_rows(o)), "clearMocks"@, flag_given(o.clear_mocks)),
        holds(given_members(tool_rows(o)), "expand"@, flag_given(o.expand)),
        holds(given_members(tool_rows(o)), "noStackTrace"@, flag_given(o.no_stack_trace)),
        holds(given_members(tool_rows(o)), "oldFunctionSpying"@, flag_given(o.old_function_spying)),
        holds(given_members(tool_rows(o)), "passWithNoTests"@, flag_given(o.pass_with_no_tests)),
        holds(given_members(tool_rows(o)), "resetMocks"@, flag_given(o.reset_mocks)),
        holds(given_members(tool_rows(o)), "testMatch"@, list_given(o.test_match)),
        holds(given_members(tool_rows(o)), "testNamePattern"@, text_given(o.test_name_pattern)),
        holds(
            given_members(tool_rows(o)),
            "testPathIgnorePatterns"@,
            list_given(o.test_path_ignore_patterns),
        ),
        holds(given_members(tool_rows(o)), "testPathPattern"@, text_given(o.test_path_pattern)),
        holds(given_members(tool_rows(o)), "testTimeout"@, number_given(o.test_timeout)),
        holds(given_members(tool_rows(o)), "verbose"@, flag_given(o.verbose)),
        holds(given_members(tool_rows(o)), "updateSnapshot"@, flag_given(o.update_snapshot)),
{
    tool_rows_cover(o);
    names_by_position();
    option_names_differ();
    let rows = tool_rows(o);
    let names = option_names();
    assert forall|i: int, j: int| 0 <= i < j < rows.len() implies (#[trigger] rows[i]).name != (
    #[trigger] rows[j]).name by {
        assert(names[i] != names[j]);
    }
    given_members_index(rows);
    let m = given_members(rows);
    lists_are_shown(o.test_match);
    lists_are_shown(o.test_path_ignore_patterns);
    assert(rows[0].name == names[0] && rows[1].name == names[1] && rows[2].name == names[2]
        && rows[3].name == names[3] && rows[4].name == names[4] && rows[5].name == names[5]
        && rows[6].name == names[6] && rows[7].name == names[7] && rows[8].name == names[8]
        && rows[9].name == names[9] && rows[10].name == names[10] && rows[11].name == names[11]
        && rows[12].name == names[12]);
    assert forall|name: Seq<char>| m.dom().contains(name) implies all_names().contains(name) by {
        assert(m.contains_key(name));
        let i = choose|i: int| 0 <= i < rows.len() && (#[trigger] rows[i]).name == name;
        assert(names[i] == name);
        assert(names.to_set().contains(name));
    }
}

} // verus!
