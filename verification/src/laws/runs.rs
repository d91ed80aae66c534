//! What holds of a test run from its start to its end, in terms of what a tool call asks for and what
//! happens to the run.
use vstd::prelude::*;

use crate::ansi::stripped;
use crate::cli::Cli;
use crate::config::Config;
use crate::json::JsonView;
use crate::laws::options::{given_values_override, overridden};
use crate::laws::words::{blank_is_without_ink, has_ink};
use crate::laws::{after, all_written, output_is_everything_written, within_run, Event};
use crate::mcp::{called_run_tests, report_text, run_tests_result_view, text_result_view};
use crate::run::{
    begun, chosen_projects, clean_output, cleared, error_text, first_unknown, gives_up, pending,
    pick_up_time, polled, run_result, settled, started, unsettled, wait_step, written,
    ActiveRunView, McpCoordView, Outcome, RunClock, RunEnd, RunTestsErrorView, RunTestsParams,
    WaitStep,
};
use crate::text::{decimal, joined, texts};

verus! {

// ---------------------------------------------------------------------------------------------
// Starting a run
// ---------------------------------------------------------------------------------------------

/// Whether a project of this name is configured.
pub open spec fn configured(config: Config, name: Seq<char>) -> bool {
    exists|j: int| 0 <= j < config.projects@.len() && (#[trigger] config.projects@[j]).name@ == name
}

/// Whether each project of the list is configured.
pub open spec fn all_configured(config: Config, list: Seq<String>) -> bool {
    forall|i: int| 0 <= i < list.len() ==> configured(config, (#[trigger] list[i])@)
}

/// Whether the `i`th project of the list is the first that is not configured.
pub open spec fn first_unconfigured(config: Config, list: Seq<String>, i: int) -> bool {
    &&& 0 <= i < list.len()
    &&& !configured(config, list[i]@)
    &&& forall|j: int| 0 <= j < i ==> configured(config, (#[trigger] list[j])@)
}

proof fn configured_is_named(config: Config, name: Seq<char>)
    ensures
        config.names().contains(name) <==> configured(config, name),
{
    if config.names().contains(name) {
        let j = choose|j: int| 0 <= j < config.names().len() && config.names()[j] == name;
        assert(config.projects@[j].name@ == name);
    }
    if configured(config, name) {
        let j = choose|j: int|
            0 <= j < config.projects@.len() && (#[trigger] config.projects@[j]).name@ == name;
        assert(config.names()[j] == name);
    }
}

proof fn unknown_is_first_unconfigured(config: Config, list: Seq<String>, from: int)
    requires
        0 <= from <= list.len(),
        forall|j: int| 0 <= j < from ==> configured(config, (#[trigger] list[j])@),
    ensures
        match first_unknown(texts(list).skip(from), config.names()) {
            None => all_configured(config, list),
            Some(name) => exists|i: int| #[trigger]
                first_unconfigured(config, list, i) && list[i]@ == name,
        },
    decreases list.len() - from,
{
    let rest = texts(list).skip(from);
    if from < list.len() {
        assert(rest[0] == list[from]@);
        configured_is_named(config, list[from]@);
        if configured(config, list[from]@) {
            unknown_is_first_unconfigured(config, list, from + 1);
            assert(rest.skip(1) == texts(list).skip(from + 1));
        } else {
            assert(first_unconfigured(config, list, from));
        }
    }
}

/// A tool call starts a run if and only if the server has a port, projects are configured, no other
/// run is active, and the call names no projects or some, of which each is configured.
pub proof fn run_starts_if_it_can(c: McpCoordView, params: RunTestsParams, cli: Cli, config: Config)
    ensures
        begun(c, params, cli, config).1 is None <==> {
            &&& c.http_available
            &&& config.projects@.len() > 0
            &&& c.active is None
            &&& params.projects matches Some(list) ==> list@.len() > 0 && all_configured(
                config,
                list@,
            )
        },
{
    refusals(c, params, cli, config);
}

/// Each refusal has its reason, and the first reason counts: no port, nothing configured, an empty
/// list, a project that is not configured, another run.
pub proof fn refusals_have_their_reason(
    c: McpCoordView,
    params: RunTestsParams,
    cli: Cli,
    config: Config,
)
    ensures
        !c.http_available ==> begun(c, params, cli, config).1 == Some(RunTestsErrorView::NoPort),
        c.http_available && config.projects@.len() == 0 ==> begun(c, params, cli, config).1 == Some(
            RunTestsErrorView::NoProjects,
        ),
        c.http_available && config.projects@.len() > 0 && params.projects is Some
            && params.projects->0@.len() == 0 ==> begun(c, params, cli, config).1 == Some(
            RunTestsErrorView::EmptyProjects,
        ),
        c.http_available && config.projects@.len() > 0 && params.projects is Some
            && params.projects->0@.len() > 0 && !all_configured(config, params.projects->0@)
            ==> unknown_reported(begun(c, params, cli, config).1, config, params.projects->0@),
        c.http_available && config.projects@.len() > 0 && (params.projects matches Some(list)
            ==> list@.len() > 0 && all_configured(config, list@)) && c.active is Some ==> begun(
            c,
            params,
            cli,
            config,
        ).1 == Some(RunTestsErrorView::AlreadyRunning),
        begun(c, params, cli, config).1 is Some ==> begun(c, params, cli, config).0 == c,
{
    refusals(c, params, cli, config);
}

/// Whether the failure names the first project of the list that is not configured, and those that
/// are.
pub open spec fn unknown_reported(
    e: Option<RunTestsErrorView>,
    config: Config,
    list: Seq<String>,
) -> bool {
    &&& e is Some
    &&& e->0 is UnknownProject
    &&& exists|i: int| #[trigger]
        first_unconfigured(config, list, i) && e->0->UnknownProject_name == list[i]@
    &&& e->0->configured == Seq::new(
        config.projects@.len(),
        |j: int| config.projects@[j].name@,
    )
}

proof fn refusals(c: McpCoordView, params: RunTestsParams, cli: Cli, config: Config)
    ensures
        begun(c, params, cli, config).1 == (if !c.http_available {
            Some(RunTestsErrorView::NoPort)
        } else if config.projects@.len() == 0 {
            Some(RunTestsErrorView::NoProjects)
        } else if params.projects is Some && params.projects->0@.len() == 0 {
            Some(RunTestsErrorView::EmptyProjects)
        } else if params.projects is Some && !all_configured(config, params.projects->0@) {
            begun(c, params, cli, config).1
        } else if c.active is Some {
            Some(RunTestsErrorView::AlreadyRunning)
        } else {
            None
        }),
        c.http_available && config.projects@.len() > 0 && params.projects is Some
            && params.projects->0@.len() > 0 && !all_configured(config, params.projects->0@)
            ==> unknown_reported(begun(c, params, cli, config).1, config, params.projects->0@),
        begun(c, params, cli, config).1 is Some ==> begun(c, params, cli, config).0 == c,
{
    match params.projects {
        Some(list) => {
            unknown_is_first_unconfigured(config, list@, 0);
            assert(texts(list@).skip(0) == texts(list@));
            assert(config.names() =~= Seq::new(
                config.projects@.len(),
                |j: int| config.projects@[j].name@,
            ));
            if all_configured(config, list@) {
                assert(first_unknown(texts(list@), config.names()) is None) by {
                    if first_unknown(texts(list@), config.names()) is Some {
                        let i = choose|i: int| #[trigger] first_unconfigured(config, list@, i);
                        assert(configured(config, list@[i]@));
                    }
                }
            }
        },
        None => {},
    }
}

/// Whether `projects` are the projects that the call names, or all that are configured if it names
/// none.
pub open spec fn asked_for(
    projects: Seq<Seq<char>>,
    params: RunTestsParams,
    config: Config,
) -> bool {
    match params.projects {
        Some(list) => projects == Seq::new(list@.len(), |i: int| list@[i]@),
        None => projects == Seq::new(config.projects@.len(), |i: int| config.projects@[i].name@),
    }
}

/// A run that was started is for the projects that the call asked for, with the options of the call
/// over those of the command line. Nobody has picked it up, it has no output, and its end is open.
/// Nothing else changes.
pub proof fn started_run_is_what_was_asked_for(
    c: McpCoordView,
    params: RunTestsParams,
    cli: Cli,
    config: Config,
)
    requires
        begun(c, params, cli, config).1 is None,
    ensures
        begun(c, params, cli, config).0.active is Some,
        asked_for(begun(c, params, cli, config).0.active->0.projects, params, config),
        overridden(
            begun(c, params, cli, config).0.active->0.options,
            params.options,
            cli.options,
        ),
        !begun(c, params, cli, config).0.active->0.dispatched,
        begun(c, params, cli, config).0.active->0.output == Seq::<char>::empty(),
        begun(c, params, cli, config).0.active->0.outcome is None,
        begun(c, params, cli, config).0.http_available == c.http_available,
        begun(c, params, cli, config).0.ever_polled == c.ever_polled,
{
    given_values_override(cli, params.options);
    let projects = begun(c, params, cli, config).0.active->0.projects;
    match params.projects {
        Some(list) => {
            assert(projects =~= Seq::new(list@.len(), |i: int| list@[i]@));
        },
        None => {
            assert(projects =~= Seq::new(
                config.projects@.len(),
                |i: int| config.projects@[i].name@,
            ));
        },
    }
}

/// The projects of a call are chosen as a call that starts a run shows: each refusal has its reason,
/// and otherwise they are those that were asked for.
pub proof fn chosen_projects_are_those_asked_for(params: RunTestsParams, config: Config)
    ensures
        match chosen_projects(params.projects, config) {
            Ok(projects) => {
                &&& config.projects@.len() > 0
                &&& params.projects matches Some(list) ==> list@.len() > 0 && all_configured(
                    config,
                    list@,
                )
                &&& asked_for(projects, params, config)
            },
            Err(e) => {
                ||| config.projects@.len() == 0 && e is NoProjects
                ||| config.projects@.len() > 0 && params.projects is Some
                    && params.projects->0@.len() == 0 && e is EmptyProjects
                ||| config.projects@.len() > 0 && params.projects is Some
                    && params.projects->0@.len() > 0 && unknown_reported(
                    Some(e),
                    config,
                    params.projects->0@,
                )
            },
        },
{
    let c = McpCoordView { active: None, http_available: true, ever_polled: false };
    let cli: Cli = arbitrary();
    refusals(c, params, cli, config);
    if begun(c, params, cli, config).1 is None {
        started_run_is_what_was_asked_for(c, params, cli, config);
    }
}

// ---------------------------------------------------------------------------------------------
// What happens to a run
// ---------------------------------------------------------------------------------------------

/// The words for the state of a run: it is pending while nobody has picked it up, and unsettled while
/// nobody has reported its end.
pub proof fn states_of_a_run(c: McpCoordView, clock: RunClock, now: u64)
    ensures
        pending(c) <==> c.active is Some && !c.active->0.dispatched,
        unsettled(c) <==> c.active is Some && c.active->0.outcome is None,
        clock.picked_up is Some ==> pick_up_time(clock, now) == clock.picked_up->0,
        clock.picked_up is None ==> pick_up_time(clock, now) == now,
{
}

/// A new run has the projects and options that it is started with, and nothing has happened to it.
pub proof fn start_makes_a_new_run(
    c: McpCoordView,
    projects: Seq<Seq<char>>,
    options: JsonView,
)
    ensures
        started(c, projects, options).active is Some,
        started(c, projects, options).active->0.projects == projects,
        started(c, projects, options).active->0.options == options,
        !started(c, projects, options).active->0.dispatched,
        started(c, projects, options).active->0.output == Seq::<char>::empty(),
        started(c, projects, options).active->0.outcome is None,
        started(c, projects, options).http_available == c.http_available,
        started(c, projects, options).ever_polled == c.ever_polled,
{
}

/// Whether two runs agree in all but what the plugin does to them.
pub open spec fn same_request(a: ActiveRunView, b: ActiveRunView) -> bool {
    a.projects == b.projects && a.options == b.options
}

/// A poll is remembered and marks the run as picked up. It changes nothing else.
pub proof fn poll_picks_the_run_up(c: McpCoordView)
    ensures
        polled(c).ever_polled,
        polled(c).http_available == c.http_available,
        polled(c).active is Some <==> c.active is Some,
        c.active is Some ==> {
            &&& polled(c).active->0.dispatched
            &&& same_request(polled(c).active->0, c.active->0)
            &&& polled(c).active->0.output == c.active->0.output
            &&& polled(c).active->0.outcome == c.active->0.outcome
        },
{
}

/// What the plugin writes comes behind the output that the run has, and is lost without a run. It
/// changes nothing else.
pub proof fn writing_adds_to_the_output(c: McpCoordView, data: Seq<char>)
    ensures
        written(c, data).ever_polled == c.ever_polled,
        written(c, data).http_available == c.http_available,
        written(c, data).active is Some <==> c.active is Some,
        c.active is Some ==> {
            &&& written(c, data).active->0.output == c.active->0.output + data
            &&& same_request(written(c, data).active->0, c.active->0)
            &&& written(c, data).active->0.dispatched == c.active->0.dispatched
            &&& written(c, data).active->0.outcome == c.active->0.outcome
        },
{
}

/// The first report of the end of a run settles it, and no later report changes that. A report
/// changes nothing else.
pub proof fn first_report_settles(c: McpCoordView, outcome: Outcome)
    ensures
        settled(c, outcome).ever_polled == c.ever_polled,
        settled(c, outcome).http_available == c.http_available,
        settled(c, outcome).active is Some <==> c.active is Some,
        c.active is Some ==> {
            &&& settled(c, outcome).active->0.outcome == (if c.active->0.outcome is Some {
                c.active->0.outcome
            } else {
                Some(outcome)
            })
            &&& same_request(settled(c, outcome).active->0, c.active->0)
            &&& settled(c, outcome).active->0.dispatched == c.active->0.dispatched
            &&& settled(c, outcome).active->0.output == c.active->0.output
        },
{
}

/// Taking the run away leaves no run and changes nothing else. Its output is handed on without escape
/// sequences.
pub proof fn clearing_takes_the_run_away(c: McpCoordView)
    ensures
        cleared(c).active is None,
        cleared(c).ever_polled == c.ever_polled,
        cleared(c).http_available == c.http_available,
        c.active is Some ==> clean_output(c) == stripped(c.active->0.output),
        c.active is None ==> clean_output(c) == Seq::<char>::empty(),
{
}

// ---------------------------------------------------------------------------------------------
// Waiting for a run
// ---------------------------------------------------------------------------------------------

/// A timeout in milliseconds, as far as they can be counted.
pub open spec fn limit(seconds: u64) -> int {
    if seconds * 1000 <= 0xFFFF_FFFF_FFFF_FFFF {
        seconds * 1000
    } else {
        0xFFFF_FFFF_FFFF_FFFF
    }
}

/// How long a run has been running for a tool call that looks at it: since it was first seen that the
/// run was picked up.
pub open spec fn time_running(clock: RunClock, now: u64) -> int {
    match clock.picked_up {
        Some(since) => if since <= now {
            now - since
        } else {
            0
        },
        None => 0,
    }
}

/// Whatever outcome a run was settled with, the next look of the tool call stops with exactly that
/// outcome, at any time. Without a run the look stops as well.
pub proof fn settled_run_ends_the_wait(
    c: McpCoordView,
    clock: RunClock,
    cli: Cli,
    now: u64,
    outcome: Outcome,
)
    ensures
        c.active is Some && c.active->0.outcome == Some(outcome) ==> wait_step(c, clock, cli, now)
            == WaitStep::Stop(RunEnd::Reported(outcome)),
        c.active is None ==> wait_step(c, clock, cli, now) == WaitStep::Stop(RunEnd::Dropped),
{
}

/// A run that was picked up is waited for until the run timeout has passed since then, and then it is
/// timed out.
pub proof fn picked_up_run_has_the_run_timeout(
    c: McpCoordView,
    clock: RunClock,
    cli: Cli,
    now: u64,
)
    requires
        c.active is Some,
        c.active->0.outcome is None,
        c.active->0.dispatched,
    ensures
        match wait_step(c, clock, cli, now) {
            WaitStep::Wait { millis } => time_running(clock, now) < limit(cli.run_timeout) && millis
                == limit(cli.run_timeout) - time_running(clock, now),
            WaitStep::Stop(end) => time_running(clock, now) >= limit(cli.run_timeout) && end
                == RunEnd::TimedOut { seconds: cli.run_timeout },
        },
{
}

/// A run that nobody has picked up is waited for until the server timeout. Then it is given up as not
/// connected if the plugin never polled. If the plugin did poll, it is waited for until the run
/// timeout as well, and then it is timed out, after the later of the two.
pub proof fn queued_run_has_both_timeouts(
    c: McpCoordView,
    clock: RunClock,
    cli: Cli,
    now: u64,
)
    requires
        c.active is Some,
        c.active->0.outcome is None,
        !c.active->0.dispatched,
    ensures
        now < limit(cli.server_timeout) ==> wait_step(c, clock, cli, now) == (WaitStep::Wait {
            millis: (limit(cli.server_timeout) - now) as u64,
        }),
        now >= limit(cli.server_timeout) && !c.ever_polled ==> wait_step(c, clock, cli, now)
            == WaitStep::Stop(RunEnd::Reported(Outcome::NotConnected)),
        now >= limit(cli.server_timeout) && c.ever_polled && now < limit(cli.run_timeout)
            ==> wait_step(c, clock, cli, now) == (WaitStep::Wait {
            millis: (limit(cli.run_timeout) - now) as u64,
        }),
        now >= limit(cli.server_timeout) && c.ever_polled && now >= limit(cli.run_timeout)
            ==> wait_step(c, clock, cli, now) == WaitStep::Stop(
            RunEnd::TimedOut {
                seconds: if cli.server_timeout <= cli.run_timeout {
                    cli.run_timeout
                } else {
                    cli.server_timeout
                },
            },
        ),
{
}

/// A look settles a run as not connected if and only if it stops for that reason: nobody reported the
/// end of the run, nobody picked it up, the plugin never polled, and the server timeout has passed.
pub proof fn look_gives_up_a_closed_studio(c: McpCoordView, clock: RunClock, cli: Cli, now: u64)
    ensures
        gives_up(c, cli, now) <==> {
            &&& c.active is Some
            &&& c.active->0.outcome is None
            &&& !c.active->0.dispatched
            &&& !c.ever_polled
            &&& now >= limit(cli.server_timeout)
        },
        c.active is Some && c.active->0.outcome is None ==> (gives_up(c, cli, now) <==> wait_step(
            c,
            clock,
            cli,
            now,
        ) == WaitStep::Stop(RunEnd::Reported(Outcome::NotConnected))),
{
}

// ---------------------------------------------------------------------------------------------
// What the client is told
// ---------------------------------------------------------------------------------------------

/// Whether a result of a tool has one block, the text `text`, and is marked as an error or not.
pub open spec fn shows(result: JsonView, text: Seq<char>, is_error: bool) -> bool {
    &&& result is Object
    &&& result->Object_0.dom() == set!["content"@, "isError"@]
    &&& result->Object_0["isError"@] == JsonView::Bool(is_error)
    &&& result->Object_0["content"@] is Array
    &&& result->Object_0["content"@]->Array_0.len() == 1
    &&& result->Object_0["content"@]->Array_0[0] is Object
    &&& result->Object_0["content"@]->Array_0[0]->Object_0.dom() == set!["type"@, "text"@]
    &&& result->Object_0["content"@]->Array_0[0]->Object_0["type"@] == JsonView::Text("text"@)
    &&& result->Object_0["content"@]->Array_0[0]->Object_0["text"@] == JsonView::Text(text)
}

/// The result of a tool shows its text, and whether it is an error.
pub proof fn text_results_show_their_text(text: Seq<char>, is_error: bool)
    ensures
        shows(text_result_view(text, is_error), text, is_error),
{
    reveal_strlit("content");
    reveal_strlit("isError");
    reveal_strlit("type");
    reveal_strlit("text");
    assert("content"@[0] == 'c' && "isError"@[0] == 'i');
    assert("type"@[1] == 'y' && "text"@[1] == 'e');
    let result = text_result_view(text, is_error);
    let block = result->Object_0["content"@]->Array_0[0];
    assert(result->Object_0.dom() =~= set!["content"@, "isError"@]);
    assert(block->Object_0.dom() =~= set!["type"@, "text"@]);
}

/// A finished run is no error. It shows whether it passed, an empty line, and the whole output if
/// there is anything in it but white space; otherwise it says that there is no output.
pub proof fn finished_run_shows_its_output(output: Seq<char>, passed: bool)
    ensures
        has_ink(output) ==> shows(
            run_tests_result_view(Ok((output, passed))),
            (if passed {
                "Test run PASSED"@
            } else {
                "Test run FAILED"@
            }) + "\n\n"@ + output,
            false,
        ),
        !has_ink(output) ==> shows(
            run_tests_result_view(Ok((output, passed))),
            (if passed {
                "Test run PASSED"@
            } else {
                "Test run FAILED"@
            }) + "\n\n"@ + "(the plugin reported no output)"@,
            false,
        ),
{
    blank_is_without_ink(output);
    text_results_show_their_text(report_text(output, passed), false);
}

/// A run that failed is an error, and shows why in words.
pub proof fn failed_run_shows_why(e: RunTestsErrorView)
    ensures
        shows(run_tests_result_view(Err(e)), error_text(e), true),
{
    text_results_show_their_text(error_text(e), true);
}

/// Each failure has its own words, with the project, the configured projects, the seconds or the
/// output that belong to it.
pub proof fn failures_have_their_words(
    name: Seq<char>,
    known: Seq<Seq<char>>,
    seconds: u64,
    output: Seq<char>,
)
    ensures
        error_text(RunTestsErrorView::NoPort)
            == "This jest-companion MCP server could not bind its port, so it can't reach the Studio plugin. Another jest-companion MCP server is most likely already running — use that one, or stop it and restart this server."@,
        error_text(RunTestsErrorView::NoProjects)
            == "No projects are configured. Add a [projects] table to jest-companion.toml and restart the MCP server."@,
        error_text(RunTestsErrorView::EmptyProjects)
            == "`projects` was provided but empty; omit it to run every project."@,
        error_text(RunTestsErrorView::UnknownProject { name, configured: known })
            == "Unknown project '"@ + name + "'. Configured projects: "@ + joined(known, ", "@)
            + "."@,
        error_text(RunTestsErrorView::AlreadyRunning)
            == "A test run is already in progress; wait for it to finish."@,
        error_text(RunTestsErrorView::NotConnected { seconds })
            == "Roblox Studio did not pick up the test run within "@ + decimal(seconds as nat)
            + "s. Make sure Studio is open with a place that has the jest-companion plugin installed."@,
        has_ink(output) ==> error_text(RunTestsErrorView::Runner { output })
            == "The test runner reported an error. Captured output:\n\n"@ + output,
        !has_ink(output) ==> error_text(RunTestsErrorView::Runner { output })
            == "The test runner reported an error. Check the Studio output for details."@,
        error_text(RunTestsErrorView::EndedUnexpectedly) == "The test run ended unexpectedly."@,
        error_text(RunTestsErrorView::TimedOut { seconds }) == "Timed out after "@ + decimal(
            seconds as nat,
        ) + "s waiting for test results."@,
{
    blank_is_without_ink(output);
}

/// A run ends with a result if and only if its results were reported, and then with the flag that was
/// reported and its output. Every other end is the failure of its kind.
pub proof fn ends_have_their_results(end: RunEnd, output: Seq<char>, cli: Cli)
    ensures
        run_result(end, output, cli) is Ok <==> end is Reported && end->Reported_0 is Finished,
        forall|passed: bool|
            end == RunEnd::Reported(Outcome::Finished(passed)) ==> #[trigger] run_result(
                end,
                output,
                cli,
            ) == Ok::<(Seq<char>, bool), RunTestsErrorView>((output, passed)),
        end == RunEnd::Reported(Outcome::RunError) ==> run_result(end, output, cli) == Err::<
            (Seq<char>, bool),
            RunTestsErrorView,
        >(RunTestsErrorView::Runner { output }),
        end == RunEnd::Reported(Outcome::NotConnected) ==> run_result(end, output, cli) == Err::<
            (Seq<char>, bool),
            RunTestsErrorView,
        >(RunTestsErrorView::NotConnected { seconds: cli.server_timeout }),
        end is Dropped ==> run_result(end, output, cli) == Err::<
            (Seq<char>, bool),
            RunTestsErrorView,
        >(RunTestsErrorView::EndedUnexpectedly),
        end is TimedOut ==> run_result(end, output, cli) == Err::<
            (Seq<char>, bool),
            RunTestsErrorView,
        >(RunTestsErrorView::TimedOut { seconds: end->seconds }),
{
}

/// From its start to its end: once the end of a run was reported, the call stops with that outcome,
/// and the client is told what the outcome is and everything that the plugin wrote since the start,
/// without escape sequences. Only results that arrived are no error.
pub proof fn reported_run_is_told_to_the_client(
    c: McpCoordView,
    params: RunTestsParams,
    cli: Cli,
    config: Config,
    events: Seq<Event>,
    clock: RunClock,
    now: u64,
    outcome: Outcome,
)
    requires
        begun(c, params, cli, config).1 is None,
        within_run(events),
        after(begun(c, params, cli, config).0, events).active is Some,
        after(begun(c, params, cli, config).0, events).active->0.outcome == Some(outcome),
    ensures
        ({
            let end = after(begun(c, params, cli, config).0, events);
            let output = stripped(all_written(events));
            let result = run_tests_result_view(
                run_result(RunEnd::Reported(outcome), clean_output(end), cli),
            );
            &&& wait_step(end, clock, cli, now) == WaitStep::Stop(RunEnd::Reported(outcome))
            &&& outcome == Outcome::Finished(true) && has_ink(output) ==> shows(
                result,
                "Test run PASSED"@ + "\n\n"@ + output,
                false,
            )
            &&& outcome == Outcome::Finished(false) && has_ink(output) ==> shows(
                result,
                "Test run FAILED"@ + "\n\n"@ + output,
                false,
            )
            &&& outcome == Outcome::Finished(true) && !has_ink(output) ==> shows(
                result,
                "Test run PASSED"@ + "\n\n"@ + "(the plugin reported no output)"@,
                false,
            )
            &&& outcome == Outcome::Finished(false) && !has_ink(output) ==> shows(
                result,
                "Test run FAILED"@ + "\n\n"@ + "(the plugin reported no output)"@,
                false,
            )
            &&& outcome == Outcome::RunError && has_ink(output) ==> shows(
                result,
                "The test runner reported an error. Captured output:\n\n"@ + output,
                true,
            )
            &&& outcome == Outcome::RunError && !has_ink(output) ==> shows(
                result,
                "The test runner reported an error. Check the Studio output for details."@,
                true,
            )
            &&& outcome == Outcome::NotConnected ==> shows(
                result,
                "Roblox Studio did not pick up the test run within "@ + decimal(
                    cli.server_timeout as nat,
                )
                    + "s. Make sure Studio is open with a place that has the jest-companion plugin installed."@,
                true,
            )
        }),
{
    let begin = begun(c, params, cli, config).0;
    let end = after(begin, events);
    let output = stripped(all_written(events));
    output_is_everything_written(begin, events);
    assert(begin.active->0.output + all_written(events) == all_written(events));
    assert(clean_output(end) == output);
    settled_run_ends_the_wait(end, clock, cli, now, outcome);
    ends_have_their_results(RunEnd::Reported(outcome), output, cli);
    failures_have_their_words(Seq::empty(), Seq::empty(), cli.server_timeout, output);
    match outcome {
        Outcome::Finished(passed) => {
            finished_run_shows_its_output(output, passed);
        },
        Outcome::RunError => {
            failed_run_shows_why(RunTestsErrorView::Runner { output });
        },
        Outcome::NotConnected => {
            failed_run_shows_why(RunTestsErrorView::NotConnected { seconds: cli.server_timeout });
        },
    }
}

/// A call of `run_tests` with arguments that could not be read is an error that says why, and changes
/// nothing. Any other call goes on as its run does: a refusal is an error, and a run that was started
/// leaves the call open.
pub proof fn calls_of_run_tests_start_runs(
    c: McpCoordView,
    arguments: Result<RunTestsParams, String>,
    cli: Cli,
    config: Config,
)
    ensures
        match arguments {
            Err(e) => {
                &&& called_run_tests(c, arguments, cli, config).0 == c
                &&& called_run_tests(c, arguments, cli, config).1 is Some
                &&& shows(
                    called_run_tests(c, arguments, cli, config).1->0,
                    "Invalid arguments for run_tests: "@ + e@,
                    true,
                )
            },
            Ok(params) => {
                &&& called_run_tests(c, arguments, cli, config).0 == begun(c, params, cli, config).0
                &&& called_run_tests(c, arguments, cli, config).1 is None <==> begun(
                    c,
                    params,
                    cli,
                    config,
                ).1 is None
                &&& begun(c, params, cli, config).1 is Some ==> shows(
                    called_run_tests(c, arguments, cli, config).1->0,
                    error_text(begun(c, params, cli, config).1->0),
                    true,
                )
            },
        },
{
    match arguments {
        Err(e) => {
            text_results_show_their_text("Invalid arguments for run_tests: "@ + e@, true);
        },
        Ok(params) => {
            if begun(c, params, cli, config).1 is Some {
                failed_run_shows_why(begun(c, params, cli, config).1->0);
            }
        },
    }
}

} // verus!
