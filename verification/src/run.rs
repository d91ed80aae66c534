//! Test runs for MCP clients.
//!
//! One run is active at a time. A tool call starts it, the Studio plugin picks it up by polling,
//! its output is gathered, and the first report of how it ended settles it. Then the tool call
//! takes the run away, so that the next call starts clean.
use vstd::prelude::*;
use vstd::string::StringExecFns;

use crate::ansi::{strip_ansi, stripped};
use crate::cli::{jest_rows, jest_rows_cover, Cli};
use crate::config::Config;
use crate::json::{Json, JsonObject, JsonView};
use crate::options::{
    all_members, flag_row, flag_view, for_all_options, given_members, given_options_override,
    number_row, number_view, object_of_given, option_names, pattern_row, pattern_view,
    patterns_row, patterns_view, rows_view, value_or_null, OptionRow, OptionRowView,
};
use crate::text::{
    blank, concat2, concat3, contains_text, copy_texts, decimal, decimal_text, is_blank, join, joined, texts,
};

verus! {

// ---------------------------------------------------------------------------------------------
// The active run
// ---------------------------------------------------------------------------------------------

/// How a run ended.
#[derive(Debug, Clone, Copy, PartialEq, Eq, Structural)]
pub enum Outcome {
    /// The results arrived; whether every suite passed.
    Finished(bool),
    /// The plugin ran into an error.
    RunError,
    /// The plugin never picked the run up. Studio is probably not open.
    NotConnected,
}

/// A run that was asked for and not yet taken away.
#[derive(Debug)]
pub struct ActiveRun {
    /// The names of the projects to test.
    pub projects: Vec<String>,
    /// The options for the plugin, a JSON object.
    pub options: Json,
    /// Whether the plugin has picked the run up.
    pub dispatched: bool,
    /// What the plugin has written so far.
    pub output: String,
    /// How the run ended, by the first report of it.
    pub outcome: Option<Outcome>,
}

/// A run in the abstract.
pub struct ActiveRunView {
    pub projects: Seq<Seq<char>>,
    pub options: JsonView,
    pub dispatched: bool,
    pub output: Seq<char>,
    pub outcome: Option<Outcome>,
}

impl View for ActiveRun {
    type V = ActiveRunView;

    open spec fn view(&self) -> ActiveRunView {
        ActiveRunView {
            projects: texts(self.projects@),
            options: self.options@,
            dispatched: self.dispatched,
            output: self.output@,
            outcome: self.outcome,
        }
    }
}

/// The state that a server for MCP clients shares between its tool calls and the plugin.
#[derive(Debug)]
pub struct McpCoord {
    /// The run that is in progress.
    pub active: Option<ActiveRun>,
    /// Whether the server has a port for the plugin to report to.
    pub http_available: bool,
    /// Whether the plugin has polled the server at least once.
    pub ever_polled: bool,
}

/// The shared state in the abstract.
pub struct McpCoordView {
    pub active: Option<ActiveRunView>,
    pub http_available: bool,
    pub ever_polled: bool,
}

impl View for McpCoord {
    type V = McpCoordView;

    open spec fn view(&self) -> McpCoordView {
        McpCoordView {
            active: match self.active {
                Some(run) => Some(run@),
                None => None,
            },
            http_available: self.http_available,
            ever_polled: self.ever_polled,
        }
    }
}

/// A run that nobody has picked up yet.
pub open spec fn fresh_run(projects: Seq<Seq<char>>, options: JsonView) -> ActiveRunView {
    ActiveRunView {
        projects,
        options,
        dispatched: false,
        output: Seq::empty(),
        outcome: None,
    }
}

/// The state after a run was started.
pub open spec fn started(
    c: McpCoordView,
    projects: Seq<Seq<char>>,
    options: JsonView,
) -> McpCoordView {
    McpCoordView { active: Some(fresh_run(projects, options)), ..c }
}

/// Whether a run waits to be picked up.
pub open spec fn pending(c: McpCoordView) -> bool {
    c.active is Some && !c.active->0.dispatched
}

/// The state after the plugin polled.
pub open spec fn polled(c: McpCoordView) -> McpCoordView {
    McpCoordView {
        active: match c.active {
            Some(run) => Some(ActiveRunView { dispatched: true, ..run }),
            None => None,
        },
        ever_polled: true,
        ..c
    }
}

/// The state after the plugin wrote `data`.
pub open spec fn written(c: McpCoordView, data: Seq<char>) -> McpCoordView {
    McpCoordView {
        active: match c.active {
            Some(run) => Some(ActiveRunView { output: run.output + data, ..run }),
            None => None,
        },
        ..c
    }
}

/// Whether there is a run of which nobody has reported the end.
pub open spec fn unsettled(c: McpCoordView) -> bool {
    c.active is Some && c.active->0.outcome is None
}

/// The state after a report of how the run ended.
pub open spec fn settled(c: McpCoordView, outcome: Outcome) -> McpCoordView {
    if unsettled(c) {
        McpCoordView {
            active: Some(ActiveRunView { outcome: Some(outcome), ..c.active->0 }),
            ..c
        }
    } else {
        c
    }
}

/// The state after the run was taken away.
pub open spec fn cleared(c: McpCoordView) -> McpCoordView {
    McpCoordView { active: None, ..c }
}

impl McpCoord {
    /// No run, and no poll so far.
    pub fn new(http_available: bool) -> (r: McpCoord)
        ensures
            r@ == (McpCoordView { active: None, http_available, ever_polled: false }),
    {
        McpCoord { active: None, http_available, ever_polled: false }
    }

    /// Starts a run, unless one is in progress.
    pub fn start(&mut self, projects: Vec<String>, options: Json) -> (r: bool)
        ensures
            r == (old(self)@.active is None),
            r ==> final(self)@ == started(old(self)@, texts(projects@), options@),
            !r ==> *final(self) == *old(self),
    {
        if self.active.is_some() {
            return false;
        }
        self.active = Some(
            ActiveRun {
                projects,
                options,
                dispatched: false,
                output: String::new(),
                outcome: None,
            },
        );
        true
    }

    /// Takes note of a poll of the plugin, and hands out the projects and options of the run that
    /// waits to be picked up, if there is one.
    pub fn poll(&mut self) -> (r: Option<(Vec<String>, Json)>)
        ensures
            final(self)@ == polled(old(self)@),
            match r {
                Some(work) => pending(old(self)@) && texts(work.0@) == old(self)@.active->0.projects
                    && work.1@ == old(self)@.active->0.options,
                None => !pending(old(self)@),
            },
    {
        self.ever_polled = true;
        match &mut self.active {
            Some(run) => {
                if run.dispatched {
                    None
                } else {
                    run.dispatched = true;
                    Some((copy_texts(&run.projects), run.options.clone()))
                }
            },
            None => None,
        }
    }

    /// Adds to the output of the run, if there is one.
    pub fn write(&mut self, data: &str)
        ensures
            final(self)@ == written(old(self)@, data@),
    {
        match &mut self.active {
            Some(run) => {
                run.output.append(data);
            },
            None => {},
        }
    }

    /// Settles how the run ended, unless that was settled before or there is no run. Says whether
    /// this report settled it.
    pub fn settle(&mut self, outcome: Outcome) -> (r: bool)
        ensures
            r == unsettled(old(self)@),
            final(self)@ == settled(old(self)@, outcome),
    {
        match &mut self.active {
            Some(run) => {
                if run.outcome.is_none() {
                    run.outcome = Some(outcome);
                    true
                } else {
                    false
                }
            },
            None => false,
        }
    }

    /// Takes the run away and hands back its output without escape sequences, or nothing if there
    /// is no run.
    pub fn clear(&mut self) -> (r: String)
        ensures
            final(self)@ == cleared(old(self)@),
            r@ == match old(self)@.active {
                Some(run) => stripped(run.output),
                None => Seq::empty(),
            },
    {
        match self.active.take() {
            Some(run) => strip_ansi(run.output.as_str()),
            None => String::new(),
        }
    }
}

// ---------------------------------------------------------------------------------------------
// What a run is asked for
// ---------------------------------------------------------------------------------------------

/// The runCLI options that a tool call can give.
#[derive(Debug)]
pub struct ToolOptions {
    pub clear_mocks: Option<bool>,
    pub expand: Option<bool>,
    pub no_stack_trace: Option<bool>,
    pub old_function_spying: Option<bool>,
    pub pass_with_no_tests: Option<bool>,
    pub reset_mocks: Option<bool>,
    pub test_match: Option<Vec<String>>,
    pub test_name_pattern: Option<String>,
    pub test_path_ignore_patterns: Option<Vec<String>>,
    pub test_path_pattern: Option<String>,
    pub test_timeout: Option<u32>,
    pub verbose: Option<bool>,
    pub update_snapshot: Option<bool>,
}

/// The options of a tool call, one row each.
pub open spec fn tool_rows(o: ToolOptions) -> Seq<OptionRowView> {
    seq![
        OptionRowView { name: "clearMocks"@, value: flag_view(o.clear_mocks) },
        OptionRowView { name: "expand"@, value: flag_view(o.expand) },
        OptionRowView { name: "noStackTrace"@, value: flag_view(o.no_stack_trace) },
        OptionRowView { name: "oldFunctionSpying"@, value: flag_view(o.old_function_spying) },
        OptionRowView { name: "passWithNoTests"@, value: flag_view(o.pass_with_no_tests) },
        OptionRowView { name: "resetMocks"@, value: flag_view(o.reset_mocks) },
        OptionRowView { name: "testMatch"@, value: patterns_view(o.test_match) },
        OptionRowView { name: "testNamePattern"@, value: pattern_view(o.test_name_pattern) },
        OptionRowView { name: "testPathIgnorePatterns"@, value: patterns_view(o.test_path_ignore_patterns) },
        OptionRowView { name: "testPathPattern"@, value: pattern_view(o.test_path_pattern) },
        OptionRowView { name: "testTimeout"@, value: number_view(o.test_timeout) },
        OptionRowView { name: "verbose"@, value: flag_view(o.verbose) },
        OptionRowView { name: "updateSnapshot"@, value: flag_view(o.update_snapshot) },
    ]
}

/// A tool call has a row for each option of the command line.
pub proof fn tool_rows_cover(o: ToolOptions)
    ensures
        for_all_options(tool_rows(o)),
{
}

impl ToolOptions {
    /// One row for each option.
    pub fn rows(&self) -> (r: Vec<OptionRow>)
        ensures
            rows_view(r@) == tool_rows(*self),
    {
        let mut rows: Vec<OptionRow> = Vec::new();
        rows.push(flag_row("clearMocks", self.clear_mocks));
        rows.push(flag_row("expand", self.expand));
        rows.push(flag_row("noStackTrace", self.no_stack_trace));
        rows.push(flag_row("oldFunctionSpying", self.old_function_spying));
        rows.push(flag_row("passWithNoTests", self.pass_with_no_tests));
        rows.push(flag_row("resetMocks", self.reset_mocks));
        rows.push(patterns_row("testMatch", &self.test_match));
        rows.push(pattern_row("testNamePattern", &self.test_name_pattern));
        rows.push(patterns_row("testPathIgnorePatterns", &self.test_path_ignore_patterns));
        rows.push(pattern_row("testPathPattern", &self.test_path_pattern));
        rows.push(number_row("testTimeout", self.test_timeout));
        rows.push(flag_row("verbose", self.verbose));
        rows.push(flag_row("updateSnapshot", self.update_snapshot));
        assert(rows_view(rows@) == tool_rows(*self));
        rows
    }

    /// The options as a JSON object that has those that were given, and no others.
    pub fn to_json(&self) -> (r: JsonObject)
        ensures
            r@ == given_members(tool_rows(*self)),
    {
        object_of_given(self.rows())
    }
}

impl Default for ToolOptions {
    fn default() -> (r: ToolOptions)
        ensures
            forall|i: int|
                0 <= i < tool_rows(r).len() ==> (#[trigger] tool_rows(r)[i]).value is None,
    {
        ToolOptions {
            clear_mocks: None,
            expand: None,
            no_stack_trace: None,
            old_function_spying: None,
            pass_with_no_tests: None,
            reset_mocks: None,
            test_match: None,
            test_name_pattern: None,
            test_path_ignore_patterns: None,
            test_path_pattern: None,
            test_timeout: None,
            verbose: None,
            update_snapshot: None,
        }
    }
}

/// What a tool call asks to be run.
#[derive(Debug)]
pub struct RunTestsParams {
    pub options: ToolOptions,
    /// The projects to test; all of them if there is no list.
    pub projects: Option<Vec<String>>,
}

/// The options of a run: those of the command line, each overridden by the tool call if it gives
/// a value for it.
pub open spec fn merged_options(cli: Cli, options: ToolOptions) -> JsonView {
    JsonView::Object(
        all_members(jest_rows(cli.options)).union_prefer_right(given_members(tool_rows(options))),
    )
}

/// The options of a run: those of the command line, each overridden by the tool call if it gives
/// a value for it.
pub fn merge_options(cli: &Cli, options: &ToolOptions) -> (r: Json)
    ensures
        r@ == merged_options(*cli, *options),
{
    let mut merged = cli.options.to_json();
    merged.overlay(options.to_json());
    Json::Object(merged)
}

/// The value of the `i`th option of a run.
pub open spec fn merged_value(cli: Cli, options: ToolOptions, i: int) -> JsonView {
    if tool_rows(options)[i].value is Some {
        tool_rows(options)[i].value->0
    } else {
        value_or_null(jest_rows(cli.options)[i].value)
    }
}

/// Any option that a tool call gives overrides the option of the command line, every other option
/// is that of the command line, and a run has each option and nothing else.
pub proof fn tool_call_overrides_command_line(cli: Cli, options: ToolOptions)
    ensures
        merged_options(cli, options) is Object,
        merged_options(cli, options)->Object_0.dom() == option_names().to_set(),
        forall|i: int|
            0 <= i < option_names().len() ==> merged_options(cli, options)->Object_0[#[trigger]
            option_names()[i]] == merged_value(cli, options, i),
{
    jest_rows_cover(cli.options);
    tool_rows_cover(options);
    given_options_override(jest_rows(cli.options), tool_rows(options));
}

// ---------------------------------------------------------------------------------------------
// Why a run fails
// ---------------------------------------------------------------------------------------------

/// Why a run could not be done, or gave no results.
#[derive(Debug)]
pub enum RunTestsError {
    /// The server has no port for the plugin to report to.
    NoPort,
    /// There is nothing to test.
    NoProjects,
    /// The list of projects was empty.
    EmptyProjects,
    /// A project was asked for that is not configured.
    UnknownProject { name: String, configured: Vec<String> },
    /// Another run is in progress.
    AlreadyRunning,
    /// The plugin did not pick the run up.
    NotConnected { seconds: u64 },
    /// The plugin ran into an error.
    Runner { output: String },
    /// The run went away before its end was reported.
    EndedUnexpectedly,
    /// The results did not arrive in time.
    TimedOut { seconds: u64 },
}

/// A failure in the abstract.
pub enum RunTestsErrorView {
    NoPort,
    NoProjects,
    EmptyProjects,
    UnknownProject { name: Seq<char>, configured: Seq<Seq<char>> },
    AlreadyRunning,
    NotConnected { seconds: u64 },
    Runner { output: Seq<char> },
    EndedUnexpectedly,
    TimedOut { seconds: u64 },
}

impl View for RunTestsError {
    type V = RunTestsErrorView;

    open spec fn view(&self) -> RunTestsErrorView {
        match *self {
            RunTestsError::NoPort => RunTestsErrorView::NoPort,
            RunTestsError::NoProjects => RunTestsErrorView::NoProjects,
            RunTestsError::EmptyProjects => RunTestsErrorView::EmptyProjects,
            RunTestsError::UnknownProject { name, configured } => RunTestsErrorView::UnknownProject {
                name: name@,
                configured: texts(configured@),
            },
            RunTestsError::AlreadyRunning => RunTestsErrorView::AlreadyRunning,
            RunTestsError::NotConnected { seconds } => RunTestsErrorView::NotConnected { seconds },
            RunTestsError::Runner { output } => RunTestsErrorView::Runner { output: output@ },
            RunTestsError::EndedUnexpectedly => RunTestsErrorView::EndedUnexpectedly,
            RunTestsError::TimedOut { seconds } => RunTestsErrorView::TimedOut { seconds },
        }
    }
}

/// What a failure says to the client.
pub open spec fn error_text(e: RunTestsErrorView) -> Seq<char> {
    match e {
        RunTestsErrorView::NoPort => NO_PORT@,
        RunTestsErrorView::NoProjects => NO_PROJECTS@,
        RunTestsErrorView::EmptyProjects => EMPTY_PROJECTS@,
        RunTestsErrorView::UnknownProject { name, configured } => "Unknown project '"@ + name
            + "'. Configured projects: "@ + joined(configured, ", "@) + "."@,
        RunTestsErrorView::AlreadyRunning => ALREADY_RUNNING@,
        RunTestsErrorView::NotConnected { seconds } =>
            "Roblox Studio did not pick up the test run within "@ + decimal(seconds as nat)
            + NOT_CONNECTED_END@,
        RunTestsErrorView::Runner { output } => if blank(output) {
            RUNNER_SILENT@
        } else {
            "The test runner reported an error. Captured output:\n\n"@ + output
        },
        RunTestsErrorView::EndedUnexpectedly => "The test run ended unexpectedly."@,
        RunTestsErrorView::TimedOut { seconds } => "Timed out after "@ + decimal(seconds as nat)
            + "s waiting for test results."@,
    }
}

pub const NO_PORT: &'static str = "This jest-companion MCP server could not bind its port, so it can't reach the Studio plugin. Another jest-companion MCP server is most likely already running — use that one, or stop it and restart this server.";

pub const NO_PROJECTS: &'static str = "No projects are configured. Add a [projects] table to jest-companion.toml and restart the MCP server.";

pub const EMPTY_PROJECTS: &'static str = "`projects` was provided but empty; omit it to run every project.";

pub const ALREADY_RUNNING: &'static str = "A test run is already in progress; wait for it to finish.";

pub const NOT_CONNECTED_END: &'static str = "s. Make sure Studio is open with a place that has the jest-companion plugin installed.";

pub const RUNNER_SILENT: &'static str = "The test runner reported an error. Check the Studio output for details.";

impl RunTestsError {
    /// What the failure says to the client.
    pub fn message(&self) -> (r: String)
        ensures
            r@ == error_text(self@),
    {
        match self {
            RunTestsError::NoPort => NO_PORT.to_owned(),
            RunTestsError::NoProjects => NO_PROJECTS.to_owned(),
            RunTestsError::EmptyProjects => EMPTY_PROJECTS.to_owned(),
            RunTestsError::UnknownProject { name, configured } => {
                let mut out = concat3("Unknown project '", name.as_str(), "'. Configured projects: ");
                let list = join(configured, ", ");
                out.append(list.as_str());
                out.append(".");
                out
            },
            RunTestsError::AlreadyRunning => ALREADY_RUNNING.to_owned(),
            RunTestsError::NotConnected { seconds } => {
                let count = decimal_text(*seconds);
                concat3(
                    "Roblox Studio did not pick up the test run within ",
                    count.as_str(),
                    NOT_CONNECTED_END,
                )
            },
            RunTestsError::Runner { output } => {
                if is_blank(output.as_str()) {
                    RUNNER_SILENT.to_owned()
                } else {
                    concat2(
                        "The test runner reported an error. Captured output:\n\n",
                        output.as_str(),
                    )
                }
            },
            RunTestsError::EndedUnexpectedly => "The test run ended unexpectedly.".to_owned(),
            RunTestsError::TimedOut { seconds } => {
                let count = decimal_text(*seconds);
                concat3("Timed out after ", count.as_str(), "s waiting for test results.")
            },
        }
    }
}

// ---------------------------------------------------------------------------------------------
// Starting a run
// ---------------------------------------------------------------------------------------------

/// The first of `requested` that is not in `known`.
pub open spec fn first_unknown(requested: Seq<Seq<char>>, known: Seq<Seq<char>>) -> Option<Seq<char>>
    decreases requested.len(),
{
    if requested.len() == 0 {
        None
    } else if !known.contains(requested[0]) {
        Some(requested[0])
    } else {
        first_unknown(requested.skip(1), known)
    }
}

/// The projects that a tool call asks for, or why it cannot have them.
pub open spec fn chosen_projects(
    requested: Option<Vec<String>>,
    config: Config,
) -> Result<Seq<Seq<char>>, RunTestsErrorView> {
    let known = config.names();
    if known.len() == 0 {
        Err(RunTestsErrorView::NoProjects)
    } else {
        match requested {
            None => Ok(known),
            Some(list) => if list@.len() == 0 {
                Err(RunTestsErrorView::EmptyProjects)
            } else {
                match first_unknown(texts(list@), known) {
                    Some(name) => Err(
                        RunTestsErrorView::UnknownProject { name, configured: known },
                    ),
                    None => Ok(texts(list@)),
                }
            },
        }
    }
}

/// The projects that a tool call asks for, or why it cannot have them.
pub fn choose_projects(requested: Option<Vec<String>>, config: &Config) -> (r: Result<
    Vec<String>,
    RunTestsError,
>)
    ensures
        match r {
            Ok(list) => chosen_projects(requested, *config) == Ok::<_, RunTestsErrorView>(
                texts(list@),
            ),
            Err(e) => chosen_projects(requested, *config) == Err::<Seq<Seq<char>>, _>(e@),
        },
{
    let known = config.project_names();
    if known.len() == 0 {
        return Err(RunTestsError::NoProjects);
    }
    match requested {
        None => Ok(known),
        Some(list) => {
            if list.len() == 0 {
                return Err(RunTestsError::EmptyProjects);
            }
            let ghost wanted = texts(list@);
            let mut i: usize = 0;
            assert(wanted.skip(0) == wanted);
            while i < list.len()
                invariant
                    i <= list.len(),
                    wanted == texts(list@),
                    texts(known@) == config.names(),
                    first_unknown(wanted, config.names()) == first_unknown(
                        wanted.skip(i as int),
                        config.names(),
                    ),
                    requested == Some(list),
                    known@.len() > 0,
                    list@.len() > 0,
                decreases list.len() - i,
            {
                if !contains_text(&known, list[i].as_str()) {
                    assert(wanted.skip(i as int)[0] == wanted[i as int]);
                    let name = list[i].clone();
                    return Err(RunTestsError::UnknownProject { name, configured: known });
                }
                assert(wanted.skip(i as int).skip(1) == wanted.skip(i + 1));
                i += 1;
            }
            Ok(list)
        },
    }
}

/// What a tool call asks the plugin to do, or why it cannot be asked.
pub open spec fn planned_run(
    params: RunTestsParams,
    http_available: bool,
    cli: Cli,
    config: Config,
) -> Result<(Seq<Seq<char>>, JsonView), RunTestsErrorView> {
    if !http_available {
        Err(RunTestsErrorView::NoPort)
    } else {
        match chosen_projects(params.projects, config) {
            Ok(projects) => Ok((projects, merged_options(cli, params.options))),
            Err(e) => Err(e),
        }
    }
}

/// The state after a tool call asked for a run, and whether the run was started.
pub open spec fn begun(
    c: McpCoordView,
    params: RunTestsParams,
    cli: Cli,
    config: Config,
) -> (McpCoordView, Option<RunTestsErrorView>) {
    match planned_run(params, c.http_available, cli, config) {
        Err(e) => (c, Some(e)),
        Ok((projects, options)) => if c.active is Some {
            (c, Some(RunTestsErrorView::AlreadyRunning))
        } else {
            (started(c, projects, options), None)
        },
    }
}

/// Starts the run that a tool call asks for.
pub fn begin_run(params: RunTestsParams, coord: &mut McpCoord, cli: &Cli, config: &Config) -> (r:
    Result<(), RunTestsError>)
    ensures
        final(coord)@ == begun(old(coord)@, params, *cli, *config).0,
        match r {
            Ok(()) => begun(old(coord)@, params, *cli, *config).1 is None,
            Err(e) => begun(old(coord)@, params, *cli, *config).1 == Some(e@),
        },
{
    if !coord.http_available {
        return Err(RunTestsError::NoPort);
    }
    let options = merge_options(cli, &params.options);
    match choose_projects(params.projects, config) {
        Err(e) => Err(e),
        Ok(projects) => {
            if coord.start(projects, options) {
                Ok(())
            } else {
                Err(RunTestsError::AlreadyRunning)
            }
        },
    }
}

// ---------------------------------------------------------------------------------------------
// Waiting for a run
// ---------------------------------------------------------------------------------------------

/// Why the wait for a run is over.
#[derive(Debug, Clone, Copy, PartialEq, Eq, Structural)]
pub enum RunEnd {
    /// The end of the run was reported.
    Reported(Outcome),
    /// The results did not arrive within so many seconds.
    TimedOut { seconds: u64 },
    /// The run went away before its end was reported.
    Dropped,
}

/// What the waiting tool call does next.
#[derive(Debug, Clone, Copy, PartialEq, Eq, Structural)]
pub enum WaitStep {
    /// Look again when something happens, at the latest after this many milliseconds.
    Wait { millis: u64 },
    /// Stop waiting.
    Stop(RunEnd),
}

/// When the waiting tool call first saw that the run was picked up, in milliseconds since the run
/// was started.
#[derive(Debug, Clone, Copy, PartialEq, Eq, Structural)]
pub struct RunClock {
    pub picked_up: Option<u64>,
}

/// When the run was picked up, by the clock of a tool call that sees at `now` that it was.
pub open spec fn pick_up_time(clock: RunClock, now: u64) -> u64 {
    match clock.picked_up {
        Some(time) => time,
        None => now,
    }
}

/// How long the run has been running at `now`.
pub open spec fn running_time(clock: RunClock, now: u64) -> int {
    if now >= pick_up_time(clock, now) {
        now - pick_up_time(clock, now)
    } else {
        0
    }
}

/// A number of seconds in milliseconds, or as many milliseconds as can be counted.
pub open spec fn in_millis(seconds: u64) -> u64 {
    if seconds * 1000 <= u64::MAX {
        (seconds * 1000) as u64
    } else {
        u64::MAX
    }
}

fn to_millis(seconds: u64) -> (r: u64)
    ensures
        r == in_millis(seconds),
{
    match seconds.checked_mul(1000) {
        Some(millis) => millis,
        None => u64::MAX,
    }
}

/// The later of the two timeouts, in seconds: how long a run waits to be picked up if Studio is open.
pub open spec fn queue_timeout(cli: Cli) -> u64 {
    if cli.server_timeout <= cli.run_timeout {
        cli.run_timeout
    } else {
        cli.server_timeout
    }
}

/// What a tool call does that looks at its run `now` milliseconds after the run was started.
///
/// A run that was picked up has until the run timeout after that. A run that waits to be picked up
/// is given up at the server timeout if the plugin has never polled. If it has, Studio is open and
/// busy, and the run may wait until the later of the two timeouts.
pub open spec fn wait_step(c: McpCoordView, clock: RunClock, cli: Cli, now: u64) -> WaitStep {
    match c.active {
        None => WaitStep::Stop(RunEnd::Dropped),
        Some(run) => match run.outcome {
            Some(outcome) => WaitStep::Stop(RunEnd::Reported(outcome)),
            None => if run.dispatched {
                let elapsed = running_time(clock, now);
                if elapsed >= in_millis(cli.run_timeout) {
                    WaitStep::Stop(RunEnd::TimedOut { seconds: cli.run_timeout })
                } else {
                    WaitStep::Wait { millis: (in_millis(cli.run_timeout) - elapsed) as u64 }
                }
            } else if now < in_millis(cli.server_timeout) {
                WaitStep::Wait { millis: (in_millis(cli.server_timeout) - now) as u64 }
            } else if !c.ever_polled {
                WaitStep::Stop(RunEnd::Reported(Outcome::NotConnected))
            } else if now < in_millis(cli.run_timeout) {
                WaitStep::Wait { millis: (in_millis(cli.run_timeout) - now) as u64 }
            } else {
                WaitStep::Stop(RunEnd::TimedOut { seconds: queue_timeout(cli) })
            },
        },
    }
}

/// Whether a tool call that looks at `now` gives its run up because Studio is not open.
pub open spec fn gives_up(c: McpCoordView, cli: Cli, now: u64) -> bool {
    unsettled(c) && pending(c) && !c.ever_polled && now >= in_millis(cli.server_timeout)
}

/// Looks at the run `now` milliseconds after it was started, and says what to do next. A run that is
/// given up is settled as not connected.
pub fn watch_run(coord: &mut McpCoord, clock: &mut RunClock, cli: &Cli, now: u64) -> (r: WaitStep)
    ensures
        r == wait_step(old(coord)@, *old(clock), *cli, now),
        final(coord)@ == if gives_up(old(coord)@, *cli, now) {
            settled(old(coord)@, Outcome::NotConnected)
        } else {
            old(coord)@
        },
        final(clock).picked_up == if unsettled(old(coord)@) && !pending(old(coord)@) {
            Some(pick_up_time(*old(clock), now))
        } else {
            old(clock).picked_up
        },
{
    let server_timeout: u64 = to_millis(cli.server_timeout);
    let run_timeout: u64 = to_millis(cli.run_timeout);
    match &mut coord.active {
        None => WaitStep::Stop(RunEnd::Dropped),
        Some(run) => {
            if let Some(outcome) = run.outcome {
                return WaitStep::Stop(RunEnd::Reported(outcome));
            }
            if run.dispatched {
                let picked_up: u64 = match clock.picked_up {
                    Some(time) => time,
                    None => now,
                };
                clock.picked_up = Some(picked_up);
                let elapsed: u64 = if now >= picked_up {
                    now - picked_up
                } else {
                    0
                };
                if elapsed >= run_timeout {
                    WaitStep::Stop(RunEnd::TimedOut { seconds: cli.run_timeout })
                } else {
                    WaitStep::Wait { millis: run_timeout - elapsed }
                }
            } else if now < server_timeout {
                WaitStep::Wait { millis: server_timeout - now }
            } else if !coord.ever_polled {
                run.outcome = Some(Outcome::NotConnected);
                WaitStep::Stop(RunEnd::Reported(Outcome::NotConnected))
            } else if now < run_timeout {
                WaitStep::Wait { millis: run_timeout - now }
            } else {
                let seconds: u64 = if cli.server_timeout <= cli.run_timeout {
                    cli.run_timeout
                } else {
                    cli.server_timeout
                };
                WaitStep::Stop(RunEnd::TimedOut { seconds })
            }
        },
    }
}

/// What a tool call makes of a run whose output is `output`.
pub open spec fn run_result(end: RunEnd, output: Seq<char>, cli: Cli) -> Result<
    (Seq<char>, bool),
    RunTestsErrorView,
> {
    match end {
        RunEnd::Reported(Outcome::Finished(passed)) => Ok((output, passed)),
        RunEnd::Reported(Outcome::NotConnected) => Err(
            RunTestsErrorView::NotConnected { seconds: cli.server_timeout },
        ),
        RunEnd::Reported(Outcome::RunError) => Err(RunTestsErrorView::Runner { output }),
        RunEnd::Dropped => Err(RunTestsErrorView::EndedUnexpectedly),
        RunEnd::TimedOut { seconds } => Err(RunTestsErrorView::TimedOut { seconds }),
    }
}

/// The output of the active run without escape sequences, or nothing if there is no run.
pub open spec fn clean_output(c: McpCoordView) -> Seq<char> {
    match c.active {
        Some(run) => stripped(run.output),
        None => Seq::empty(),
    }
}

/// Takes the run away, however it ended, and says what came of it.
pub fn end_run(coord: &mut McpCoord, end: RunEnd, cli: &Cli) -> (r: Result<
    (String, bool),
    RunTestsError,
>)
    ensures
        final(coord)@ == cleared(old(coord)@),
        match r {
            Ok(result) => run_result(end, clean_output(old(coord)@), *cli) == Ok::<
                _,
                RunTestsErrorView,
            >((result.0@, result.1)),
            Err(e) => run_result(end, clean_output(old(coord)@), *cli) == Err::<
                (Seq<char>, bool),
                _,
            >(e@),
        },
{
    let output = coord.clear();
    match end {
        RunEnd::Reported(Outcome::Finished(passed)) => Ok((output, passed)),
        RunEnd::Reported(Outcome::NotConnected) => Err(
            RunTestsError::NotConnected { seconds: cli.server_timeout },
        ),
        RunEnd::Reported(Outcome::RunError) => Err(RunTestsError::Runner { output }),
        RunEnd::Dropped => Err(RunTestsError::EndedUnexpectedly),
        RunEnd::TimedOut { seconds } => Err(RunTestsError::TimedOut { seconds }),
    }
}

} // verus!
