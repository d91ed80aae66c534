//! What holds of the library as a whole: of test runs over any course of events, of messages, and of
//! the dealings with the plugin.
use vstd::prelude::*;

use crate::ansi::{plain, stripped, stripped_is_plain};
use crate::cli::Cli;
use crate::config::Config;
use crate::json::{member_of, member_text, JsonView};
use crate::mcp::{
    empty_object, error_view, handled, params_of, report_text, response_view,
    run_tests_result_view, success_view, text_result_view, HandledView, METHOD_NOT_FOUND,
};
use crate::run::{
    begun, clean_output, cleared, first_unknown, gives_up, in_millis, pending, pick_up_time, polled,
    queue_timeout, run_result, settled, unsettled, wait_step, written, McpCoordView, Outcome, RunClock, RunEnd,
    RunTestsErrorView, RunTestsParams, WaitStep,
};
use crate::studio::{
    after_poll, after_results, after_run_error, version_refusal, CoordinatorView, PollReplyView,
    ReportStep, PROTOCOL_VERSION,
};
use crate::text::texts;
use crate::tools::RUN_TESTS;

pub mod messages;
pub mod options;
pub mod plugin;
pub mod runs;
pub mod tools;
pub mod views;
pub mod words;

verus! {

/// Something that happens to the shared state of a server for MCP clients.
pub enum Event {
    /// A tool call asks for a run.
    Begin { params: RunTestsParams, cli: Cli, config: Config },
    /// The plugin polls.
    Poll,
    /// The plugin writes.
    Write { data: Seq<char> },
    /// The plugin reports the results, or an error.
    Report { outcome: Outcome },
    /// The tool call looks at its run.
    Watch { cli: Cli, now: u64 },
    /// The tool call takes its run away.
    End,
}

/// The state after an event.
pub open spec fn next(c: McpCoordView, e: Event) -> McpCoordView {
    match e {
        Event::Begin { params, cli, config } => begun(c, params, cli, config).0,
        Event::Poll => polled(c),
        Event::Write { data } => written(c, data),
        Event::Report { outcome } => settled(c, outcome),
        Event::Watch { cli, now } => if gives_up(c, cli, now) {
            settled(c, Outcome::NotConnected)
        } else {
            c
        },
        Event::End => cleared(c),
    }
}

/// The state after a course of events.
pub open spec fn after(c: McpCoordView, events: Seq<Event>) -> McpCoordView
    decreases events.len(),
{
    if events.len() == 0 {
        c
    } else {
        next(after(c, events.drop_last()), events.last())
    }
}

/// The state in which a server starts.
pub open spec fn initial(http_available: bool) -> McpCoordView {
    McpCoordView { active: None, http_available, ever_polled: false }
}

/// A run is active only on a server that has a port, and was picked up only by a plugin that
/// polled.
pub open spec fn consistent(c: McpCoordView) -> bool {
    c.active is Some ==> {
        &&& c.http_available
        &&& c.active->0.dispatched ==> c.ever_polled
    }
}

/// Whatever happens, the state stays consistent.
pub proof fn state_stays_consistent(http_available: bool, events: Seq<Event>)
    ensures
        consistent(after(initial(http_available), events)),
        after(initial(http_available), events).http_available == http_available,
    decreases events.len(),
{
    if events.len() > 0 {
        state_stays_consistent(http_available, events.drop_last());
    }
}

/// A server without a port never has a run.
pub proof fn no_run_without_port(events: Seq<Event>)
    ensures
        after(initial(false), events).active is None,
{
    state_stays_consistent(false, events);
}

/// Once the plugin has polled, that stays known.
pub proof fn polls_are_remembered(c: McpCoordView, events: Seq<Event>)
    requires
        c.ever_polled,
    ensures
        after(c, events).ever_polled,
    decreases events.len(),
{
    if events.len() > 0 {
        polls_are_remembered(c, events.drop_last());
    }
}

/// Events during which the run is not taken away.
pub open spec fn within_run(events: Seq<Event>) -> bool {
    forall|i: int| 0 <= i < events.len() ==> !(#[trigger] events[i] is End)
}

proof fn last_event_within_run(events: Seq<Event>)
    requires
        within_run(events),
        events.len() > 0,
    ensures
        within_run(events.drop_last()),
        !(events.last() is End),
{
    assert(!(events[events.len() - 1] is End));
    assert forall|i: int| 0 <= i < events.drop_last().len() implies !(
    #[trigger] events.drop_last()[i] is End) by {
        assert(!(events[i] is End));
    }
}

/// How often a run is handed to the plugin in a course of events.
pub open spec fn handed_out(c: McpCoordView, events: Seq<Event>) -> nat
    decreases events.len(),
{
    if events.len() == 0 {
        0
    } else {
        let before = handed_out(c, events.drop_last());
        if events.last() is Poll && pending(after(c, events.drop_last())) {
            before + 1
        } else {
            before
        }
    }
}

/// A run is handed to the plugin at most once, and not at all if it was handed out before.
pub proof fn run_is_handed_out_once(c: McpCoordView, events: Seq<Event>)
    requires
        c.active is Some,
        within_run(events),
    ensures
        after(c, events).active is Some,
        handed_out(c, events) <= 1,
        handed_out(c, events) + (if pending(after(c, events)) {
            1nat
        } else {
            0
        }) == (if pending(c) {
            1nat
        } else {
            0
        }),
    decreases events.len(),
{
    if events.len() > 0 {
        last_event_within_run(events);
        run_is_handed_out_once(c, events.drop_last());
    }
}

/// While a run is active no other run takes its place: its projects and options stay, and what
/// was settled of its end stays settled.
pub proof fn active_run_keeps_its_place(c: McpCoordView, events: Seq<Event>)
    requires
        c.active is Some,
        within_run(events),
    ensures
        after(c, events).active is Some,
        after(c, events).active->0.projects == c.active->0.projects,
        after(c, events).active->0.options == c.active->0.options,
        c.active->0.dispatched ==> after(c, events).active->0.dispatched,
        c.active->0.outcome is Some ==> after(c, events).active->0.outcome == c.active->0.outcome,
    decreases events.len(),
{
    if events.len() > 0 {
        last_event_within_run(events);
        active_run_keeps_its_place(c, events.drop_last());
    }
}

/// A second run is refused while one is in progress, and changes nothing.
pub proof fn second_run_is_refused(
    c: McpCoordView,
    params: RunTestsParams,
    cli: Cli,
    config: Config,
)
    requires
        c.active is Some,
    ensures
        begun(c, params, cli, config).0 == c,
        begun(c, params, cli, config).1 is Some,
{
}

/// A call that is refused changes nothing.
pub proof fn refused_call_changes_nothing(
    c: McpCoordView,
    params: RunTestsParams,
    cli: Cli,
    config: Config,
)
    ensures
        begun(c, params, cli, config).1 is Some ==> begun(c, params, cli, config).0 == c,
{
}

/// A run that was started tests the projects that were asked for, or all of them, and each of them
/// is configured. There is at least one.
pub proof fn only_configured_projects_are_tested(
    c: McpCoordView,
    params: RunTestsParams,
    cli: Cli,
    config: Config,
)
    requires
        begun(c, params, cli, config).1 is None,
    ensures
        ({
            let projects = begun(c, params, cli, config).0.active->0.projects;
            &&& begun(c, params, cli, config).0.active is Some
            &&& projects == match params.projects {
                Some(list) => texts(list@),
                None => config.names(),
            }
            &&& projects.len() > 0
            &&& forall|i: int|
                0 <= i < projects.len() ==> config.names().contains(#[trigger] projects[i])
        }),
{
    match params.projects {
        Some(list) => {
            no_unknown_means_all_known(texts(list@), config.names());
        },
        None => {},
    }
}

proof fn no_unknown_means_all_known(requested: Seq<Seq<char>>, known: Seq<Seq<char>>)
    requires
        first_unknown(requested, known) is None,
    ensures
        forall|i: int| 0 <= i < requested.len() ==> known.contains(#[trigger] requested[i]),
    decreases requested.len(),
{
    if requested.len() > 0 {
        no_unknown_means_all_known(requested.skip(1), known);
        assert forall|i: int| 0 <= i < requested.len() implies known.contains(
            #[trigger] requested[i],
        ) by {
            if i > 0 {
                assert(requested[i] == requested.skip(1)[i - 1]);
            }
        }
    }
}

/// Everything that the plugin writes in a course of events, in order.
pub open spec fn all_written(events: Seq<Event>) -> Seq<char>
    decreases events.len(),
{
    if events.len() == 0 {
        Seq::empty()
    } else {
        match events.last() {
            Event::Write { data } => all_written(events.drop_last()) + data,
            _ => all_written(events.drop_last()),
        }
    }
}

/// The output of a run is what it had, followed by everything that was written since.
pub proof fn output_is_everything_written(c: McpCoordView, events: Seq<Event>)
    requires
        c.active is Some,
        within_run(events),
    ensures
        after(c, events).active is Some,
        after(c, events).active->0.output == c.active->0.output + all_written(events),
    decreases events.len(),
{
    if events.len() > 0 {
        last_event_within_run(events);
        output_is_everything_written(c, events.drop_last());
        let output = c.active->0.output;
        match events.last() {
            Event::Write { data } => {
                assert(output + all_written(events.drop_last()) + data == output + (all_written(
                    events.drop_last(),
                ) + data));
            },
            _ => {},
        }
    } else {
        assert(c.active->0.output + Seq::<char>::empty() == c.active->0.output);
    }
}

/// After a run was taken away a run can start as on a new server that was polled as often.
pub proof fn next_call_starts_clean(
    c: McpCoordView,
    params: RunTestsParams,
    cli: Cli,
    config: Config,
)
    ensures
        begun(cleared(c), params, cli, config).1 == begun(
            initial(c.http_available),
            params,
            cli,
            config,
        ).1,
        begun(cleared(c), params, cli, config).0.active == begun(
            initial(c.http_available),
            params,
            cli,
            config,
        ).0.active,
{
}

/// A tool call never sleeps past the moment at which it gives up. That is the server timeout if
/// Studio never polled, the later of the two timeouts if Studio polled and did not pick the run up,
/// and the run timeout counted from the pick-up if it did. A call that times out names the seconds
/// that it waited.
pub proof fn waiting_has_an_end(c: McpCoordView, clock: RunClock, cli: Cli, now: u64)
    requires
        unsettled(c),
    ensures
        pending(c) && !c.ever_polled ==> match wait_step(c, clock, cli, now) {
            WaitStep::Wait { millis } => now + millis == in_millis(cli.server_timeout),
            WaitStep::Stop(end) => now >= in_millis(cli.server_timeout) && end == RunEnd::Reported(
                Outcome::NotConnected,
            ),
        },
        pending(c) && c.ever_polled ==> match wait_step(c, clock, cli, now) {
            WaitStep::Wait { millis } => now + millis == in_millis(cli.server_timeout) || now + millis
                == in_millis(cli.run_timeout),
            WaitStep::Stop(end) => now >= in_millis(queue_timeout(cli)) && end == RunEnd::TimedOut {
                seconds: queue_timeout(cli),
            },
        },
        !pending(c) && pick_up_time(clock, now) <= now ==> match wait_step(c, clock, cli, now) {
            WaitStep::Wait { millis } => now + millis == pick_up_time(clock, now)
                + in_millis(cli.run_timeout),
            WaitStep::Stop(end) => now >= pick_up_time(clock, now) + in_millis(cli.run_timeout) && end
                == RunEnd::TimedOut { seconds: cli.run_timeout },
        },
        wait_step(c, clock, cli, now) matches WaitStep::Wait { millis } ==> millis > 0,
{
}

/// A tool call reports that Studio is not open only if Studio never polled and the server timeout
/// has passed.
pub proof fn not_connected_means_never_polled(
    c: McpCoordView,
    clock: RunClock,
    cli: Cli,
    now: u64,
)
    requires
        unsettled(c),
        wait_step(c, clock, cli, now) == WaitStep::Stop(RunEnd::Reported(Outcome::NotConnected)),
    ensures
        !c.ever_polled,
        now >= in_millis(cli.server_timeout),
        pending(c),
{
}

/// A run queued behind another one is not given up early: if Studio has polled, the tool call
/// waits until the later of the two timeouts.
pub proof fn queued_run_keeps_waiting(c: McpCoordView, clock: RunClock, cli: Cli, now: u64)
    requires
        unsettled(c),
        pending(c),
        c.ever_polled,
        now < in_millis(queue_timeout(cli)),
    ensures
        wait_step(c, clock, cli, now) is Wait,
{
}

// ---------------------------------------------------------------------------------------------
// A call of run_tests from its start to its end
// ---------------------------------------------------------------------------------------------

/// A call whose run finished tells the client whether it passed and everything that the plugin
/// wrote since the run was started, without escape sequences.
pub proof fn finished_run_is_reported_in_full(
    c: McpCoordView,
    params: RunTestsParams,
    cli: Cli,
    config: Config,
    events: Seq<Event>,
    clock: RunClock,
    now: u64,
    passed: bool,
)
    requires
        begun(c, params, cli, config).1 is None,
        within_run(events),
        after(begun(c, params, cli, config).0, events).active->0.outcome == Some(
            Outcome::Finished(passed),
        ),
    ensures
        ({
            let end = after(begun(c, params, cli, config).0, events);
            &&& wait_step(end, clock, cli, now) == WaitStep::Stop(
                RunEnd::Reported(Outcome::Finished(passed)),
            )
            &&& run_tests_result_view(
                run_result(RunEnd::Reported(Outcome::Finished(passed)), clean_output(end), cli),
            ) == text_result_view(report_text(stripped(all_written(events)), passed), false)
        }),
{
    let begin = begun(c, params, cli, config).0;
    output_is_everything_written(begin, events);
    assert(begin.active->0.output + all_written(events) == all_written(events));
}

/// The result of `run_tests` is marked as an error if and only if the run gave no results. A run
/// whose tests failed is none.
pub proof fn only_failed_calls_are_errors(result: Result<(Seq<char>, bool), RunTestsErrorView>)
    ensures
        member_of(run_tests_result_view(result), "isError"@) == Some(JsonView::Bool(result is Err)),
{
}

/// The output that a call hands on, in a report or in an error, holds no escape character.
pub proof fn captured_output_is_plain(c: McpCoordView)
    ensures
        plain(clean_output(c)),
{
    if c.active is Some {
        stripped_is_plain(c.active->0.output);
    }
}

/// The report of a finished run holds no escape character.
pub proof fn report_is_plain(output: Seq<char>, passed: bool)
    ensures
        plain(report_text(stripped(output), passed)),
{
    stripped_is_plain(output);
    reveal_strlit("Test run PASSED");
    reveal_strlit("Test run FAILED");
    reveal_strlit("\n\n");
    reveal_strlit("(the plugin reported no output)");
    assert(plain("Test run PASSED"@));
    assert(plain("Test run FAILED"@));
    assert(plain("\n\n"@));
    assert(plain("(the plugin reported no output)"@));
}

// ---------------------------------------------------------------------------------------------
// Messages
// ---------------------------------------------------------------------------------------------

/// An answer to the request `id`: either a result or an error.
pub open spec fn answers(reply: JsonView, id: JsonView) -> bool {
    &&& member_of(reply, "jsonrpc"@) == Some(JsonView::Text("2.0"@))
    &&& member_of(reply, "id"@) == Some(id)
    &&& (member_of(reply, "result"@) is Some) != (member_of(reply, "error"@) is Some)
}

proof fn answer_names_differ()
    ensures
        "jsonrpc"@ != "id"@,
        "jsonrpc"@ != "result"@,
        "jsonrpc"@ != "error"@,
        "id"@ != "result"@,
        "id"@ != "error"@,
        "result"@ != "error"@,
{
    reveal_strlit("jsonrpc");
    reveal_strlit("id");
    reveal_strlit("result");
    reveal_strlit("error");
    assert("jsonrpc"@.len() == 7 && "id"@.len() == 2 && "result"@.len() == 6 && "error"@.len() == 5);
}

/// The result of a tool answers the request that called it.
pub proof fn result_answers_request(id: JsonView, result: JsonView)
    ensures
        response_view(Some(id), result) == Some(success_view(Some(id), result)),
        answers(success_view(Some(id), result), id),
        member_of(success_view(Some(id), result), "result"@) == Some(result),
{
    answer_names_differ();
}

/// Every request with an id is answered under that id, at once or, for a call of `run_tests`, when
/// the result is there.
pub proof fn every_request_is_answered(msg: JsonView, config: Config, id: JsonView)
    requires
        member_text(msg, "method"@) is Some,
        member_of(msg, "id"@) == Some(id),
    ensures
        match handled(msg, config) {
            HandledView::Silent => false,
            HandledView::Reply(reply) => answers(reply, id),
            HandledView::RunTests { id: asked, arguments } => asked == Some(id),
        },
{
    answer_names_differ();
}

/// The methods that the server has.
pub open spec fn known_method(method: Seq<char>) -> bool {
    ||| method == "initialize"@
    ||| method == "ping"@
    ||| method == "tools/list"@
    ||| method == "tools/call"@
    ||| method == "resources/list"@
    ||| method == "prompts/list"@
}

/// A notification, which has no id, never gets an answer. If it calls `run_tests`, the result of the
/// run is not sent either.
pub proof fn notifications_get_no_answer(msg: JsonView, config: Config)
    requires
        member_of(msg, "id"@) is None,
    ensures
        match handled(msg, config) {
            HandledView::Silent => true,
            HandledView::Reply(reply) => false,
            HandledView::RunTests { id, arguments } => forall|result: JsonView| #[trigger]
                response_view(id, result) is None,
        },
{
}

/// A message starts a run if and only if it calls the tool `run_tests`, with an id or without one.
pub proof fn calls_of_run_tests_are_handed_on(msg: JsonView, config: Config)
    ensures
        handled(msg, config) is RunTests <==> member_text(msg, "method"@) == Some("tools/call"@)
            && member_text(params_of(msg), "name"@) == Some(RUN_TESTS@),
        handled(msg, config) matches HandledView::RunTests { id, arguments } ==> id == member_of(
            msg,
            "id"@,
        ) && arguments == match member_of(params_of(msg), "arguments"@) {
            Some(v) => v,
            None => empty_object(),
        },
{
    reveal_strlit("run_tests");
    assert(RUN_TESTS@.len() > 0);
    method_names_differ();
}

proof fn method_names_differ()
    ensures
        "tools/call"@ != "initialize"@,
        "tools/call"@ != "ping"@,
        "tools/call"@ != "tools/list"@,
{
    reveal_strlit("tools/call");
    reveal_strlit("initialize");
    reveal_strlit("ping");
    reveal_strlit("tools/list");
    assert("tools/call"@[0] == 't' && "initialize"@[0] == 'i' && "ping"@[0] == 'p');
    assert("tools/call"@[6] == 'c' && "tools/list"@[6] == 'l');
}

/// A message without a method, such as an answer of the client, gets no answer.
pub proof fn no_method_no_answer(msg: JsonView, config: Config)
    requires
        member_text(msg, "method"@) is None,
    ensures
        handled(msg, config) is Silent,
{
}

/// A request for a method that the server does not have is answered with an error that names it.
pub proof fn unknown_methods_are_refused(
    msg: JsonView,
    config: Config,
    id: JsonView,
    method: Seq<char>,
)
    requires
        member_text(msg, "method"@) == Some(method),
        member_of(msg, "id"@) == Some(id),
        !known_method(method),
    ensures
        handled(msg, config) == HandledView::Reply(
            error_view(Some(id), METHOD_NOT_FOUND, "Method not found: "@ + method),
        ),
{
}

// ---------------------------------------------------------------------------------------------
// The plugin
// ---------------------------------------------------------------------------------------------

/// A poll that is refused changes nothing.
pub proof fn refused_poll_changes_nothing(
    c: CoordinatorView,
    version: Seq<char>,
    cli: Cli,
    config: Config,
)
    ensures
        after_poll(c, version, cli, config).1 is Refused ==> after_poll(
            c,
            version,
            cli,
            config,
        ).0 == c,
{
}

/// A plugin with another version of the protocol is never given work.
pub proof fn versions_must_match(
    c: CoordinatorView,
    version: Seq<char>,
    cli: Cli,
    config: Config,
)
    requires
        version != PROTOCOL_VERSION@,
    ensures
        after_poll(c, version, cli, config) == (c, version_refusal(version)),
{
}

/// The state of a run from the command line after polls with these versions.
pub open spec fn after_polls(
    c: CoordinatorView,
    versions: Seq<Seq<char>>,
    cli: Cli,
    config: Config,
) -> CoordinatorView
    decreases versions.len(),
{
    if versions.len() == 0 {
        c
    } else {
        after_poll(
            after_polls(c, versions.drop_last(), cli, config),
            versions.last(),
            cli,
            config,
        ).0
    }
}

/// On the command line the run is given to one plugin: after it was, every poll is refused.
pub proof fn one_plugin_runs_the_tests(
    c: CoordinatorView,
    versions: Seq<Seq<char>>,
    version: Seq<char>,
    cli: Cli,
    config: Config,
)
    requires
        c is Cli,
        c->Cli_0.plugin_connected,
    ensures
        after_polls(c, versions, cli, config) == c,
        after_poll(after_polls(c, versions, cli, config), version, cli, config).1 is Refused,
    decreases versions.len(),
{
    if versions.len() > 0 {
        one_plugin_runs_the_tests(c, versions.drop_last(), version, cli, config);
    }
}

/// A server for MCP clients tells the plugin to run tests if and only if a run waits to be picked
/// up.
pub proof fn plugin_runs_only_on_request(
    mc: McpCoordView,
    cli: Cli,
    config: Config,
)
    ensures
        match after_poll(CoordinatorView::Mcp(mc), PROTOCOL_VERSION@, cli, config).1 {
            PollReplyView::Refused(_) => false,
            PollReplyView::Accepted { projects, options, run } => run == pending(mc),
        },
{
}

/// The process exits with zero if and only if the results say that the tests passed.
pub proof fn exit_code_tells_success(c: CoordinatorView, success: bool)
    requires
        c is Cli,
    ensures
        after_results(c, success) matches ReportStep::Exit { code, delay } && (code == 0)
            == success,
        after_run_error(c) matches ReportStep::Exit { code, delay } && code != 0,
{
}

} // verus!
