//! How the plugin is dealt with, in terms of what it asks and reports.
use vstd::prelude::*;

use crate::cli::Cli;
use crate::config::Config;
use crate::json::JsonView;
use crate::laws::options::{command_line_has_every_option, no_options, overridden};
use crate::laws::runs::{
    asked_for, first_report_settles, same_request, started_run_is_what_was_asked_for,
};
use crate::run::{begun, settled, McpCoordView, Outcome, RunTestsParams};
use crate::studio::{
    after_poll, after_results, after_run_error, after_write, file_reply_view, fs_write_step,
    port_to_try, CliCoord, CoordinatorView, FsWriteEvent, PollReplyView, ReplyView, ReportStep,
    Status, WriteStep,
};

verus! {

// ---------------------------------------------------------------------------------------------
// Polling
// ---------------------------------------------------------------------------------------------

/// Whether a poll is refused as a bad request with this text.
pub open spec fn refused_with(reply: PollReplyView, text: Seq<char>) -> bool {
    &&& reply is Refused
    &&& reply->Refused_0.status is BadRequest
    &&& reply->Refused_0.text == text
}

/// A plugin of another version is refused with both versions, and nothing changes.
pub proof fn other_versions_are_refused(
    c: CoordinatorView,
    version: Seq<char>,
    cli: Cli,
    config: Config,
)
    requires
        version != "3"@,
    ensures
        refused_with(
            after_poll(c, version, cli, config).1,
            "Incorrect protocol version: expected "@ + "3"@ + (", got "@ + version),
        ),
        after_poll(c, version, cli, config).0 == c,
{
}

/// On the command line the first poll is told to run all configured projects with the options of the
/// command line, and every later one is refused. A poll is remembered and changes nothing else.
pub proof fn command_line_run_is_given_away_once(coord: CliCoord, cli: Cli, config: Config)
    ensures
        coord.plugin_connected ==> refused_with(
            after_poll(CoordinatorView::Cli(coord), "3"@, cli, config).1,
            "Already connected"@,
        ),
        !coord.plugin_connected ==> {
            let reply = after_poll(CoordinatorView::Cli(coord), "3"@, cli, config).1;
            &&& reply is Accepted
            &&& reply->run
            &&& reply->projects == Seq::new(
                config.projects@.len(),
                |i: int| config.projects@[i].name@,
            )
            &&& overridden(reply->options, no_options(), cli.options)
        },
        after_poll(CoordinatorView::Cli(coord), "3"@, cli, config).0 is Cli,
        after_poll(CoordinatorView::Cli(coord), "3"@, cli, config).0->Cli_0.plugin_connected,
        after_poll(CoordinatorView::Cli(coord), "3"@, cli, config).0->Cli_0.received_first_write
            == coord.received_first_write,
{
    command_line_has_every_option(cli.options);
    assert(config.names() =~= Seq::new(config.projects@.len(), |i: int| config.projects@[i].name@));
}

/// On a server for MCP clients a poll is handed the projects and the options of the run that waits to
/// be picked up, if there is one, and is told to stay idle otherwise. It is remembered, the run is
/// picked up, and nothing else changes.
pub proof fn poll_is_handed_the_waiting_run(mc: McpCoordView, cli: Cli, config: Config)
    ensures
        mc.active is Some && !mc.active->0.dispatched ==> after_poll(
            CoordinatorView::Mcp(mc),
            "3"@,
            cli,
            config,
        ).1 == (PollReplyView::Accepted {
            projects: mc.active->0.projects,
            options: mc.active->0.options,
            run: true,
        }),
        mc.active is None || mc.active->0.dispatched ==> after_poll(
            CoordinatorView::Mcp(mc),
            "3"@,
            cli,
            config,
        ).1 == (PollReplyView::Accepted {
            projects: Seq::empty(),
            options: JsonView::Object(Map::empty()),
            run: false,
        }),
        ({
            let c = after_poll(CoordinatorView::Mcp(mc), "3"@, cli, config).0;
            &&& c is Mcp
            &&& c->Mcp_0.ever_polled
            &&& c->Mcp_0.http_available == mc.http_available
            &&& c->Mcp_0.active is Some <==> mc.active is Some
            &&& mc.active is Some ==> c->Mcp_0.active->0.dispatched && same_request(
                c->Mcp_0.active->0,
                mc.active->0,
            ) && c->Mcp_0.active->0.output == mc.active->0.output && c->Mcp_0.active->0.outcome
                == mc.active->0.outcome
        }),
{
}

/// The first poll after a tool call started a run is handed exactly the projects and options that the
/// call asked for, and the poll after it nothing.
pub proof fn call_reaches_the_plugin(
    c: McpCoordView,
    params: RunTestsParams,
    cli: Cli,
    config: Config,
    other_cli: Cli,
    other_config: Config,
)
    requires
        begun(c, params, cli, config).1 is None,
    ensures
        ({
            let first = after_poll(
                CoordinatorView::Mcp(begun(c, params, cli, config).0),
                "3"@,
                other_cli,
                other_config,
            );
            let second = after_poll(first.0, "3"@, other_cli, other_config);
            &&& first.1 is Accepted
            &&& first.1->run
            &&& asked_for(first.1->projects, params, config)
            &&& overridden(first.1->options, params.options, cli.options)
            &&& second.1 is Accepted
            &&& !second.1->run
        }),
{
    started_run_is_what_was_asked_for(c, params, cli, config);
    poll_is_handed_the_waiting_run(begun(c, params, cli, config).0, other_cli, other_config);
}

// ---------------------------------------------------------------------------------------------
// Output and reports
// ---------------------------------------------------------------------------------------------

/// On the command line output is printed, the first of it is known as such, and only that it came is
/// remembered.
pub proof fn command_line_prints_output(coord: CliCoord, data: Seq<char>)
    ensures
        after_write(CoordinatorView::Cli(coord), data).1 == (WriteStep::Print {
            first: !coord.received_first_write,
        }),
        after_write(CoordinatorView::Cli(coord), data).0 is Cli,
        after_write(CoordinatorView::Cli(coord), data).0->Cli_0.received_first_write,
        after_write(CoordinatorView::Cli(coord), data).0->Cli_0.plugin_connected
            == coord.plugin_connected,
{
}

/// On a server for MCP clients output is kept behind the output of the active run, and is lost
/// without one. Nothing else changes.
pub proof fn server_keeps_output(mc: McpCoordView, data: Seq<char>)
    ensures
        after_write(CoordinatorView::Mcp(mc), data).1 is Kept,
        ({
            let c = after_write(CoordinatorView::Mcp(mc), data).0;
            &&& c is Mcp
            &&& c->Mcp_0.ever_polled == mc.ever_polled
            &&& c->Mcp_0.http_available == mc.http_available
            &&& c->Mcp_0.active is Some <==> mc.active is Some
            &&& mc.active is Some ==> c->Mcp_0.active->0.output == mc.active->0.output + data
                && same_request(c->Mcp_0.active->0, mc.active->0)
                && c->Mcp_0.active->0.dispatched == mc.active->0.dispatched
                && c->Mcp_0.active->0.outcome == mc.active->0.outcome
        }),
{
}

/// On the command line the process exits soon after the report: with zero if the results say that the
/// tests passed, and with one if they failed or the plugin ran into an error.
pub proof fn command_line_exits_with_the_result(coord: CliCoord, success: bool)
    ensures
        after_results(CoordinatorView::Cli(coord), success) is Exit,
        after_results(CoordinatorView::Cli(coord), success)->code == 0 <==> success,
        after_results(CoordinatorView::Cli(coord), success)->code == 1 <==> !success,
        after_results(CoordinatorView::Cli(coord), success)->Exit_delay == 100,
        after_run_error(CoordinatorView::Cli(coord)) == (ReportStep::Exit { code: 1, delay: 100 }),
{
}

/// On a server for MCP clients results settle the active run as finished with the flag that the plugin
/// reported, and the report of an error as a runner error, each after a moment for output that is
/// still on its way. A run whose end was not yet reported then has that outcome.
pub proof fn server_settles_what_was_reported(mc: McpCoordView, success: bool)
    ensures
        after_results(CoordinatorView::Mcp(mc), success) == (ReportStep::Settle {
            outcome: Outcome::Finished(success),
            delay: 150,
        }),
        after_run_error(CoordinatorView::Mcp(mc)) == (ReportStep::Settle {
            outcome: Outcome::RunError,
            delay: 150,
        }),
        mc.active is Some && mc.active->0.outcome is None ==> {
            &&& settled(
                mc,
                after_results(CoordinatorView::Mcp(mc), success)->outcome,
            ).active->0.outcome == Some(Outcome::Finished(success))
            &&& settled(mc, after_run_error(CoordinatorView::Mcp(mc))->outcome).active->0.outcome
                == Some(Outcome::RunError)
        },
{
    first_report_settles(mc, Outcome::Finished(success));
    first_report_settles(mc, Outcome::RunError);
}

// ---------------------------------------------------------------------------------------------
// Ports and files
// ---------------------------------------------------------------------------------------------

/// A server for MCP clients tries the ports from 28861 to 28868, one after the other, and no other.
pub proof fn eight_ports_are_tried(failed: nat)
    ensures
        failed < 8 ==> port_to_try(failed) == Some((28861 + failed) as u16),
        failed >= 8 ==> port_to_try(failed) is None,
{
}

/// Whether a reply has this status and text.
pub open spec fn replies(reply: ReplyView, status: Status, text: Seq<char>) -> bool {
    reply.status == status && reply.text == text
}

/// A request for a path that stands for no file is not found. Otherwise the reply is empty if all
/// went well, and says why if not, with the status of the failure.
pub proof fn file_requests_are_replied_to(outcome: Option<Result<(), String>>, failure: Status)
    ensures
        match outcome {
            None => replies(
                file_reply_view(outcome, failure),
                Status::NotFound,
                "Could not resolve path"@,
            ),
            Some(Ok(_)) => replies(
                file_reply_view(outcome, failure),
                Status::Success,
                Seq::empty(),
            ),
            Some(Err(e)) => replies(file_reply_view(outcome, failure), failure, e@),
        },
{
}

/// A file is written after its directory was made, if it lies in one. The first step that fails is
/// replied with its reason, and the end with nothing.
pub proof fn files_are_written_step_by_step(event: FsWriteEvent)
    ensures
        match event {
            FsWriteEvent::Unresolved => fs_write_step(event) is Reply && replies(
                fs_write_step(event)->Reply_0,
                Status::NotFound,
                "Could not resolve path"@,
            ),
            FsWriteEvent::Resolved { has_parent } => if has_parent {
                fs_write_step(event) is MakeParent
            } else {
                fs_write_step(event) is WriteFile
            },
            FsWriteEvent::ParentMade(Ok(_)) => fs_write_step(event) is WriteFile,
            FsWriteEvent::Written(Ok(_)) => fs_write_step(event) is Reply && replies(
                fs_write_step(event)->Reply_0,
                Status::Success,
                Seq::empty(),
            ),
            FsWriteEvent::ParentMade(Err(e)) => fs_write_step(event) is Reply && replies(
                fs_write_step(event)->Reply_0,
                Status::InternalServerError,
                e@,
            ),
            FsWriteEvent::Written(Err(e)) => fs_write_step(event) is Reply && replies(
                fs_write_step(event)->Reply_0,
                Status::InternalServerError,
                e@,
            ),
        },
{
}

} // verus!
