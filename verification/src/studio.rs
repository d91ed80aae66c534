//! The HTTP interface to the Studio plugin.
//!
//! What drives a test run differs between the two modes. On the command line there is one run, its
//! output is printed, and the process exits when the results arrive. A server for MCP clients does
//! many runs, each for a tool call.
use vstd::prelude::*;

use crate::cli::{jest_rows, Cli};
use crate::config::Config;
use crate::json::{Json, JsonObject, JsonView};
use crate::json_io::no_members;
use crate::options::all_members;
use crate::run::{pending, polled, written, McpCoord, McpCoordView, Outcome};
use crate::text::{concat2, concat3, same_text, texts};

verus! {

/// The version of the protocol between this program and the plugin.
pub const PROTOCOL_VERSION: &'static str = "3";

/// The port for a run from the command line.
pub const CLI_PORT: u16 = 28860;

/// The first port that a server for MCP clients tries.
pub const FIRST_MCP_PORT: u16 = 28861;

/// The last port that a server for MCP clients tries.
pub const LAST_MCP_PORT: u16 = 28868;

/// Milliseconds between the end of a run from the command line and the exit of the process.
pub const EXIT_DELAY: u64 = 100;

/// Milliseconds between the report of the end of a run and its settlement, in which output that is
/// still on its way can arrive.
pub const SETTLE_DELAY: u64 = 150;

// ---------------------------------------------------------------------------------------------
// Ports
// ---------------------------------------------------------------------------------------------

/// The port that a server for MCP clients tries after `failed` ports were taken.
pub open spec fn port_to_try(failed: nat) -> Option<u16> {
    if FIRST_MCP_PORT + failed <= LAST_MCP_PORT {
        Some((FIRST_MCP_PORT + failed) as u16)
    } else {
        None
    }
}

/// The port that a server for MCP clients tries after `failed` ports were taken, if there is one
/// left.
pub fn mcp_port(failed: u16) -> (r: Option<u16>)
    ensures
        r == port_to_try(failed as nat),
{
    if failed <= LAST_MCP_PORT - FIRST_MCP_PORT {
        Some(FIRST_MCP_PORT + failed)
    } else {
        None
    }
}

/// The port that a server ends up with if it tries ports until one is free.
pub open spec fn bound_port(free: Set<u16>, failed: nat) -> Option<u16>
    decreases LAST_MCP_PORT + 1 - FIRST_MCP_PORT - failed,
{
    match port_to_try(failed) {
        None => None,
        Some(port) => if free.contains(port) {
            Some(port)
        } else {
            bound_port(free, failed + 1)
        },
    }
}

/// A server for MCP clients binds the first free port of its range, and none only if all of them
/// are taken.
pub proof fn first_free_port_is_bound(free: Set<u16>)
    ensures
        match bound_port(free, 0) {
            Some(port) => FIRST_MCP_PORT <= port <= LAST_MCP_PORT && free.contains(port) && forall|
                p: u16,
            |
                FIRST_MCP_PORT <= p < port ==> !free.contains(p),
            None => forall|p: u16| FIRST_MCP_PORT <= p <= LAST_MCP_PORT ==> !free.contains(p),
        },
{
    first_free_port_from(free, 0);
}

proof fn first_free_port_from(free: Set<u16>, failed: nat)
    requires
        forall|p: u16| FIRST_MCP_PORT <= p < FIRST_MCP_PORT + failed ==> !free.contains(p),
    ensures
        match bound_port(free, failed) {
            Some(port) => FIRST_MCP_PORT <= port <= LAST_MCP_PORT && free.contains(port) && forall|
                p: u16,
            |
                FIRST_MCP_PORT <= p < port ==> !free.contains(p),
            None => forall|p: u16| FIRST_MCP_PORT <= p <= LAST_MCP_PORT ==> !free.contains(p),
        },
    decreases LAST_MCP_PORT + 1 - FIRST_MCP_PORT - failed,
{
    match port_to_try(failed) {
        None => {},
        Some(port) => {
            if !free.contains(port) {
                first_free_port_from(free, failed + 1);
            }
        },
    }
}

/// The port of a run from the command line is none of those for MCP clients.
pub proof fn modes_do_not_share_ports(failed: nat)
    ensures
        port_to_try(failed) != Some(CLI_PORT),
{
}

// ---------------------------------------------------------------------------------------------
// Coordination
// ---------------------------------------------------------------------------------------------

/// The state of a run from the command line.
#[derive(Debug, Clone, Copy, PartialEq, Eq, Structural)]
pub struct CliCoord {
    /// Whether a plugin has picked the run up.
    pub plugin_connected: bool,
    /// Whether the plugin has written anything.
    pub received_first_write: bool,
}

/// What drives test runs.
#[derive(Debug)]
pub enum Coordinator {
    /// A run from the command line.
    Cli(CliCoord),
    /// A server for MCP clients.
    Mcp(McpCoord),
}

/// The state in the abstract.
pub enum CoordinatorView {
    Cli(CliCoord),
    Mcp(McpCoordView),
}

impl View for Coordinator {
    type V = CoordinatorView;

    open spec fn view(&self) -> CoordinatorView {
        match *self {
            Coordinator::Cli(c) => CoordinatorView::Cli(c),
            Coordinator::Mcp(c) => CoordinatorView::Mcp(c@),
        }
    }
}

impl CliCoord {
    /// No plugin, and nothing written so far.
    pub fn new() -> (r: CliCoord)
        ensures
            r == (CliCoord { plugin_connected: false, received_first_write: false }),
    {
        CliCoord { plugin_connected: false, received_first_write: false }
    }

    /// Whether the plugin has not reported anything, so that the run is given up when the server
    /// timeout has passed.
    pub fn nothing_reported(&self) -> (r: bool)
        ensures
            r == (!self.plugin_connected && !self.received_first_write),
    {
        !self.plugin_connected && !self.received_first_write
    }
}

// ---------------------------------------------------------------------------------------------
// Replies
// ---------------------------------------------------------------------------------------------

/// The status of a reply.
#[derive(Debug, Clone, Copy, PartialEq, Eq, Structural)]
pub enum Status {
    Success,
    BadRequest,
    NotFound,
    InternalServerError,
}

/// A reply with a text.
#[derive(Debug)]
pub struct Reply {
    pub status: Status,
    pub text: String,
}

/// A reply with a text, in the abstract.
pub struct ReplyView {
    pub status: Status,
    pub text: Seq<char>,
}

impl View for Reply {
    type V = ReplyView;

    open spec fn view(&self) -> ReplyView {
        ReplyView { status: self.status, text: self.text@ }
    }
}

/// The reply that all went well.
pub open spec fn done_view() -> ReplyView {
    ReplyView { status: Status::Success, text: Seq::empty() }
}

/// The reply that all went well.
fn done() -> (r: Reply)
    ensures
        r@ == done_view(),
{
    Reply { status: Status::Success, text: String::new() }
}

/// What the plugin says when it polls.
#[derive(Debug)]
pub struct PollRequestBody {
    pub protocol_version: String,
    pub rojo_connected: bool,
}

/// What the plugin is told when it polls.
#[derive(Debug)]
pub struct PollResponseBody {
    pub projects: Vec<String>,
    pub options: Json,
    /// Whether the plugin runs the tests now.
    pub run: bool,
}

/// The answer to a poll.
#[derive(Debug)]
pub enum PollReply {
    Refused(Reply),
    Accepted(PollResponseBody),
}

/// The answer to a poll, in the abstract.
pub enum PollReplyView {
    Refused(ReplyView),
    Accepted { projects: Seq<Seq<char>>, options: JsonView, run: bool },
}

impl View for PollReply {
    type V = PollReplyView;

    open spec fn view(&self) -> PollReplyView {
        match *self {
            PollReply::Refused(r) => PollReplyView::Refused(r@),
            PollReply::Accepted(body) => PollReplyView::Accepted {
                projects: texts(body.projects@),
                options: body.options@,
                run: body.run,
            },
        }
    }
}

// ---------------------------------------------------------------------------------------------
// Polling
// ---------------------------------------------------------------------------------------------

/// What a plugin with another version of the protocol is told.
pub open spec fn version_refusal(version: Seq<char>) -> PollReplyView {
    PollReplyView::Refused(
        ReplyView {
            status: Status::BadRequest,
            text: "Incorrect protocol version: expected "@ + PROTOCOL_VERSION@ + (", got "@
                + version),
        },
    )
}

/// What a second plugin is told.
pub open spec fn already_connected() -> PollReplyView {
    PollReplyView::Refused(
        ReplyView { status: Status::BadRequest, text: "Already connected"@ },
    )
}

/// What a plugin is told that has nothing to do.
pub open spec fn idle() -> PollReplyView {
    PollReplyView::Accepted {
        projects: Seq::empty(),
        options: JsonView::Object(no_members()),
        run: false,
    }
}

/// The state after a poll, and the answer to it.
pub open spec fn after_poll(
    c: CoordinatorView,
    version: Seq<char>,
    cli: Cli,
    config: Config,
) -> (CoordinatorView, PollReplyView) {
    if version != PROTOCOL_VERSION@ {
        (c, version_refusal(version))
    } else {
        match c {
            CoordinatorView::Cli(cc) => if cc.plugin_connected {
                (c, already_connected())
            } else {
                (
                    CoordinatorView::Cli(CliCoord { plugin_connected: true, ..cc }),
                    PollReplyView::Accepted {
                        projects: config.names(),
                        options: JsonView::Object(all_members(jest_rows(cli.options))),
                        run: true,
                    },
                )
            },
            CoordinatorView::Mcp(mc) => (
                CoordinatorView::Mcp(polled(mc)),
                if pending(mc) {
                    PollReplyView::Accepted {
                        projects: mc.active->0.projects,
                        options: mc.active->0.options,
                        run: true,
                    }
                } else {
                    idle()
                },
            ),
        }
    }
}

/// Answers a poll of the plugin.
pub fn poll(coord: &mut Coordinator, cli: &Cli, config: &Config, body: &PollRequestBody) -> (r:
    PollReply)
    ensures
        final(coord)@ == after_poll(old(coord)@, body.protocol_version@, *cli, *config).0,
        r@ == after_poll(old(coord)@, body.protocol_version@, *cli, *config).1,
{
    if !same_text(body.protocol_version.as_str(), PROTOCOL_VERSION) {
        let got = concat2(", got ", body.protocol_version.as_str());
        let text = concat3(
            "Incorrect protocol version: expected ",
            PROTOCOL_VERSION,
            got.as_str(),
        );
        return PollReply::Refused(Reply { status: Status::BadRequest, text });
    }
    match coord {
        Coordinator::Cli(cc) => {
            if cc.plugin_connected {
                return PollReply::Refused(
                    Reply { status: Status::BadRequest, text: "Already connected".to_owned() },
                );
            }
            cc.plugin_connected = true;
            PollReply::Accepted(
                PollResponseBody {
                    projects: config.project_names(),
                    options: Json::Object(cli.options.to_json()),
                    run: true,
                },
            )
        },
        Coordinator::Mcp(mc) => match mc.poll() {
            Some(work) => PollReply::Accepted(
                PollResponseBody { projects: work.0, options: work.1, run: true },
            ),
            None => {
                let projects: Vec<String> = Vec::new();
                assert(texts(projects@) == Seq::<Seq<char>>::empty());
                PollReply::Accepted(
                    PollResponseBody {
                        projects,
                        options: Json::Object(JsonObject::new()),
                        run: false,
                    },
                )
            },
        },
    }
}

// ---------------------------------------------------------------------------------------------
// Output and results
// ---------------------------------------------------------------------------------------------

/// What becomes of output that the plugin writes.
#[derive(Debug, Clone, Copy, PartialEq, Eq, Structural)]
pub enum WriteStep {
    /// Print it. Tells whether it is the first output of the run.
    Print { first: bool },
    /// Nothing more.
    Kept,
}

/// The state after the plugin wrote `data`, and what becomes of it.
pub open spec fn after_write(c: CoordinatorView, data: Seq<char>) -> (CoordinatorView, WriteStep) {
    match c {
        CoordinatorView::Cli(cc) => (
            CoordinatorView::Cli(CliCoord { received_first_write: true, ..cc }),
            WriteStep::Print { first: !cc.received_first_write },
        ),
        CoordinatorView::Mcp(mc) => (CoordinatorView::Mcp(written(mc, data)), WriteStep::Kept),
    }
}

/// Takes output that the plugin writes.
pub fn write(coord: &mut Coordinator, data: &str) -> (r: WriteStep)
    ensures
        final(coord)@ == after_write(old(coord)@, data@).0,
        r == after_write(old(coord)@, data@).1,
{
    match coord {
        Coordinator::Cli(cc) => {
            let first = !cc.received_first_write;
            cc.received_first_write = true;
            WriteStep::Print { first }
        },
        Coordinator::Mcp(mc) => {
            mc.write(data);
            WriteStep::Kept
        },
    }
}

/// What follows the report of the end of a run.
#[derive(Debug, Clone, Copy, PartialEq, Eq, Structural)]
pub enum ReportStep {
    /// Exit the process with this code after this many milliseconds.
    Exit { code: i32, delay: u64 },
    /// Settle the active run after this many milliseconds.
    Settle { outcome: Outcome, delay: u64 },
}

/// What follows the results of a run.
pub open spec fn after_results(c: CoordinatorView, success: bool) -> ReportStep {
    match c {
        CoordinatorView::Cli(_) => ReportStep::Exit {
            code: if success {
                0
            } else {
                1
            },
            delay: EXIT_DELAY,
        },
        CoordinatorView::Mcp(_) => ReportStep::Settle {
            outcome: Outcome::Finished(success),
            delay: SETTLE_DELAY,
        },
    }
}

/// Takes the results of a run.
pub fn results(coord: &Coordinator, success: bool) -> (r: ReportStep)
    ensures
        r == after_results(coord@, success),
{
    match coord {
        Coordinator::Cli(_) => ReportStep::Exit {
            code: if success {
                0
            } else {
                1
            },
            delay: EXIT_DELAY,
        },
        Coordinator::Mcp(_) => ReportStep::Settle {
            outcome: Outcome::Finished(success),
            delay: SETTLE_DELAY,
        },
    }
}

/// What follows an error of the plugin.
pub open spec fn after_run_error(c: CoordinatorView) -> ReportStep {
    match c {
        CoordinatorView::Cli(_) => ReportStep::Exit { code: 1, delay: EXIT_DELAY },
        CoordinatorView::Mcp(_) => ReportStep::Settle {
            outcome: Outcome::RunError,
            delay: SETTLE_DELAY,
        },
    }
}

/// Takes the report that the plugin ran into an error.
pub fn run_error(coord: &Coordinator) -> (r: ReportStep)
    ensures
        r == after_run_error(coord@),
{
    match coord {
        Coordinator::Cli(_) => ReportStep::Exit { code: 1, delay: EXIT_DELAY },
        Coordinator::Mcp(_) => ReportStep::Settle {
            outcome: Outcome::RunError,
            delay: SETTLE_DELAY,
        },
    }
}

// ---------------------------------------------------------------------------------------------
// Files
// ---------------------------------------------------------------------------------------------

/// The reply for a path that stands for no file.
pub open spec fn unresolved_view() -> ReplyView {
    ReplyView { status: Status::NotFound, text: "Could not resolve path"@ }
}

/// The reply to an operation on a file: that it went well, or why it failed.
pub open spec fn operation_view(outcome: Result<(), String>, failure: Status) -> ReplyView {
    match outcome {
        Ok(()) => done_view(),
        Err(e) => ReplyView { status: failure, text: e@ },
    }
}

/// The reply to an operation on the file that a path stands for, if it stands for one.
pub open spec fn file_reply_view(
    outcome: Option<Result<(), String>>,
    failure: Status,
) -> ReplyView {
    match outcome {
        None => unresolved_view(),
        Some(outcome) => operation_view(outcome, failure),
    }
}

fn unresolved() -> (r: Reply)
    ensures
        r@ == unresolved_view(),
{
    Reply { status: Status::NotFound, text: "Could not resolve path".to_owned() }
}

fn operation_reply(outcome: Result<(), String>, failure: Status) -> (r: Reply)
    ensures
        r@ == operation_view(outcome, failure),
{
    match outcome {
        Ok(()) => done(),
        Err(e) => Reply { status: failure, text: e },
    }
}

/// How far the writing of a file has come.
#[derive(Debug)]
pub enum FsWriteEvent {
    /// The path stands for no file.
    Unresolved,
    /// The path stands for a file; whether the file lies in a directory.
    Resolved { has_parent: bool },
    /// The directory was made, or could not be.
    ParentMade(Result<(), String>),
    /// The file was written, or could not be.
    Written(Result<(), String>),
}

/// What comes next in the writing of a file.
#[derive(Debug)]
pub enum FsWriteStep {
    /// Make the directory in which the file lies, and all above it.
    MakeParent,
    /// Write the file.
    WriteFile,
    /// Reply.
    Reply(Reply),
}

/// What comes next in the writing of a file, in the abstract.
pub enum FsWriteStepView {
    MakeParent,
    WriteFile,
    Reply(ReplyView),
}

impl View for FsWriteStep {
    type V = FsWriteStepView;

    open spec fn view(&self) -> FsWriteStepView {
        match *self {
            FsWriteStep::MakeParent => FsWriteStepView::MakeParent,
            FsWriteStep::WriteFile => FsWriteStepView::WriteFile,
            FsWriteStep::Reply(r) => FsWriteStepView::Reply(r@),
        }
    }
}

/// What comes next in the writing of a file: its directory if it has one, then the file, and the
/// first failure ends it.
pub open spec fn fs_write_step(event: FsWriteEvent) -> FsWriteStepView {
    match event {
        FsWriteEvent::Unresolved => FsWriteStepView::Reply(unresolved_view()),
        FsWriteEvent::Resolved { has_parent } => if has_parent {
            FsWriteStepView::MakeParent
        } else {
            FsWriteStepView::WriteFile
        },
        FsWriteEvent::ParentMade(outcome) => match outcome {
            Ok(()) => FsWriteStepView::WriteFile,
            Err(e) => FsWriteStepView::Reply(operation_view(outcome, Status::InternalServerError)),
        },
        FsWriteEvent::Written(outcome) => FsWriteStepView::Reply(
            operation_view(outcome, Status::InternalServerError),
        ),
    }
}

/// What comes next in the writing of a file.
pub fn fs_write(event: FsWriteEvent) -> (r: FsWriteStep)
    ensures
        r@ == fs_write_step(event),
{
    match event {
        FsWriteEvent::Unresolved => FsWriteStep::Reply(unresolved()),
        FsWriteEvent::Resolved { has_parent } => {
            if has_parent {
                FsWriteStep::MakeParent
            } else {
                FsWriteStep::WriteFile
            }
        },
        FsWriteEvent::ParentMade(outcome) => match outcome {
            Ok(()) => FsWriteStep::WriteFile,
            Err(e) => FsWriteStep::Reply(operation_reply(Err(e), Status::InternalServerError)),
        },
        FsWriteEvent::Written(outcome) => FsWriteStep::Reply(
            operation_reply(outcome, Status::InternalServerError),
        ),
    }
}

/// The reply to the making of a directory. Without an outcome the path stands for no directory.
pub fn fs_create_dir_all(outcome: Option<Result<(), String>>) -> (r: Reply)
    ensures
        r@ == file_reply_view(outcome, Status::InternalServerError),
{
    match outcome {
        None => unresolved(),
        Some(outcome) => operation_reply(outcome, Status::InternalServerError),
    }
}

/// The reply to the question whether a file is there. Without an outcome the path stands for none.
pub fn fs_exists(outcome: Option<Result<(), String>>) -> (r: Reply)
    ensures
        r@ == file_reply_view(outcome, Status::NotFound),
{
    match outcome {
        None => unresolved(),
        Some(outcome) => operation_reply(outcome, Status::NotFound),
    }
}

/// The reply to the deletion of a file. Without an outcome the path stands for no file.
pub fn fs_delete(outcome: Option<Result<(), String>>) -> (r: Reply)
    ensures
        r@ == file_reply_view(outcome, Status::InternalServerError),
{
    match outcome {
        None => unresolved(),
        Some(outcome) => operation_reply(outcome, Status::InternalServerError),
    }
}

} // verus!
