//! The command line.
use vstd::prelude::*;

use crate::json::{JsonObject, JsonView};
use crate::options::{
    all_members, flag_row, flag_view, for_all_options, number_row, number_view, object_of_all,
    pattern_row, pattern_view, patterns_row, patterns_view, rows_view, OptionRow, OptionRowView,
};

verus! {

/// Seconds that the Studio plugin has to report something, unless the command line says otherwise.
pub const DEFAULT_SERVER_TIMEOUT: u64 = 30;

/// Seconds that a test run has to finish, unless the command line says otherwise.
pub const DEFAULT_RUN_TIMEOUT: u64 = 300;

/// What the command line asks for.
#[derive(Debug, Clone)]
pub struct Cli {
    /// The directory to work in.
    pub path: String,
    /// Whether to serve MCP clients over stdio instead of doing a single test run.
    pub mcp: bool,
    /// Seconds that the Studio plugin has to report something. For an MCP client: seconds that it
    /// has to pick a run up before Studio counts as closed.
    pub server_timeout: u64,
    /// Seconds that a run for an MCP client has to finish after the plugin has picked it up.
    pub run_timeout: u64,
    /// The options that the test run takes.
    pub options: JestOptions,
}

/// The runCLI options that the command line can set.
#[derive(Debug, Clone)]
pub struct JestOptions {
    /// Clear mock calls, instances, contexts and results before every test.
    pub clear_mocks: Option<bool>,
    /// Show full diffs and errors instead of a patch.
    pub expand: Option<bool>,
    /// Leave stack traces out of the test results.
    pub no_stack_trace: Option<bool>,
    /// Let jest.spyOn() overwrite the spied method with a mock object.
    pub old_function_spying: Option<bool>,
    /// Let the suite pass when no test files are found.
    pub pass_with_no_tests: Option<bool>,
    /// Reset mock state before every test.
    pub reset_mocks: Option<bool>,
    /// The glob patterns by which test files are found.
    pub test_match: Option<Vec<String>>,
    /// Run only tests whose full name matches this pattern.
    pub test_name_pattern: Option<String>,
    /// Skip tests whose path matches one of these patterns.
    pub test_path_ignore_patterns: Option<Vec<String>>,
    /// Run only tests whose path matches this pattern. The option may come without a pattern.
    pub test_path_pattern: Option<Option<String>>,
    /// The timeout of a test in milliseconds.
    pub test_timeout: Option<u32>,
    /// Show individual test results.
    pub verbose: Option<bool>,
    /// Record every snapshot that fails again.
    pub update_snapshot: Option<bool>,
}

pub open spec fn path_pattern_view(v: Option<Option<String>>) -> Option<JsonView> {
    match v {
        Some(pattern) => pattern_view(pattern),
        None => None,
    }
}

/// The options of the command line, one row each.
pub open spec fn jest_rows(o: JestOptions) -> Seq<OptionRowView> {
    seq![
        OptionRowView { name: "clearMocks"@, value: flag_view(o.clear_mocks) },
        OptionRowView { name: "expand"@, value: flag_view(o.expand) },
        OptionRowView { name: "noStackTrace"@, value: flag_view(o.no_stack_trace) },
        OptionRowView { name: "oldFunctionSpying"@, value: flag_view(o.old_function_spying) },
        OptionRowView { name: "passWithNoTests"@, value: flag_view(o.pass_with_no_tests) },
        OptionRowView { name: "resetMocks"@, value: flag_view(o.reset_mocks) },
        OptionRowView { name: "testMatch"@, value: patterns_view(o.test_match) },
        OptionRowView { name: "testNamePattern"@, value: pattern_view(o.test_name_pattern) },
        OptionRowView { name: "testPathIgnorePatterns"@, value: patterns_view(o.test_path_ignore_patterns) },
        OptionRowView { name: "testPathPattern"@, value: path_pattern_view(o.test_path_pattern) },
        OptionRowView { name: "testTimeout"@, value: number_view(o.test_timeout) },
        OptionRowView { name: "verbose"@, value: flag_view(o.verbose) },
        OptionRowView { name: "updateSnapshot"@, value: flag_view(o.update_snapshot) },
    ]
}

/// The command line has a row for each option.
pub proof fn jest_rows_cover(o: JestOptions)
    ensures
        for_all_options(jest_rows(o)),
{
}

impl JestOptions {
    /// One row for each option.
    pub fn rows(&self) -> (r: Vec<OptionRow>)
        ensures
            rows_view(r@) == jest_rows(*self),
    {
        let mut rows: Vec<OptionRow> = Vec::new();
        rows.push(flag_row("clearMocks", self.clear_mocks));
        rows.push(flag_row("expand", self.expand));
        rows.push(flag_row("noStackTrace", self.no_stack_trace));
        rows.push(flag_row("oldFunctionSpying", self.old_function_spying));
        rows.push(flag_row("passWithNoTests", self.pass_with_no_tests));
        rows.push(flag_row("resetMocks", self.reset_mocks));
        rows.push(patterns_row("testMatch", &self.test_match));
        rows.push(pattern_row("testNamePattern", &self.test_name_pattern));
        rows.push(patterns_row("testPathIgnorePatterns", &self.test_path_ignore_patterns));
        rows.push(
            match &self.test_path_pattern {
                Some(pattern) => pattern_row("testPathPattern", pattern),
                None => pattern_row("testPathPattern", &None),
            },
        );
        rows.push(number_row("testTimeout", self.test_timeout));
        rows.push(flag_row("verbose", self.verbose));
        rows.push(flag_row("updateSnapshot", self.update_snapshot));
        assert(rows_view(rows@) == jest_rows(*self));
        rows
    }

    /// The options as a JSON object that has each of them, null where the command line is silent.
    pub fn to_json(&self) -> (r: JsonObject)
        ensures
            r@ == all_members(jest_rows(*self)),
    {
        object_of_all(self.rows())
    }
}

} // verus!
