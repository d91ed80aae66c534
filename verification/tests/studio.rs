use jest_companion::cli::{Cli, JestOptions};
use jest_companion::config::Config;
use jest_companion::json_io::into_value;
use jest_companion::run::{begin_run, McpCoord, Outcome, RunTestsParams, ToolOptions};
use jest_companion::studio::{
    fs_create_dir_all, fs_delete, fs_exists, fs_write, mcp_port, poll, results, run_error,
    CliCoord, Coordinator, FsWriteEvent, FsWriteStep, PollReply, PollRequestBody, Reply, ReportStep,
    Status, WriteStep, CLI_PORT,
};

fn cli() -> Cli {
    Cli {
        path: ".".to_string(),
        mcp: false,
        server_timeout: 30,
        run_timeout: 300,
        options: JestOptions {
            clear_mocks: None,
            expand: None,
            no_stack_trace: None,
            old_function_spying: None,
            pass_with_no_tests: None,
            reset_mocks: None,
            test_match: None,
            test_name_pattern: Some("auth".to_string()),
            test_path_ignore_patterns: None,
            test_path_pattern: None,
            test_timeout: None,
            verbose: None,
            update_snapshot: None,
        },
    }
}

fn config() -> Config {
    let mut config = Config::default();
    config.insert("Foo".to_string(), "src/foo".to_string());
    config
}

fn request(version: &str) -> PollRequestBody {
    PollRequestBody { protocol_version: version.to_string(), rojo_connected: true }
}

fn refused(reply: PollReply) -> (Status, String) {
    match reply {
        PollReply::Refused(Reply { status, text }) => (status, text),
        other => panic!("{other:?}"),
    }
}

fn reply_of(reply: Reply) -> (Status, String) {
    (reply.status, reply.text)
}

fn failed() -> Option<Result<(), String>> {
    Some(Err("denied".to_string()))
}

#[test]
fn command_line_run_goes_to_one_plugin() {
    let mut coord = Coordinator::Cli(CliCoord::new());
    match poll(&mut coord, &cli(), &config(), &request("3")) {
        PollReply::Accepted(body) => {
            assert_eq!(body.projects, ["Foo"]);
            assert!(body.run);
            let options = into_value(body.options);
            assert_eq!(options["testNamePattern"], "auth");
            assert_eq!(options.as_object().unwrap().len(), 13);
        }
        other => panic!("{other:?}"),
    }
    assert_eq!(
        refused(poll(&mut coord, &cli(), &config(), &request("3"))),
        (Status::BadRequest, "Already connected".to_string())
    );
}

#[test]
fn other_versions_are_refused() {
    let mut coord = Coordinator::Cli(CliCoord::new());
    assert_eq!(
        refused(poll(&mut coord, &cli(), &config(), &request("2"))),
        (Status::BadRequest, "Incorrect protocol version: expected 3, got 2".to_string())
    );
    match coord {
        Coordinator::Cli(c) => assert!(c.nothing_reported()),
        _ => unreachable!(),
    }
    let mut coord = Coordinator::Mcp(McpCoord::new(true));
    refused(poll(&mut coord, &cli(), &config(), &request("")));
    match coord {
        Coordinator::Mcp(c) => assert!(!c.ever_polled),
        _ => unreachable!(),
    }
}

#[test]
fn plugin_idles_until_a_run_is_asked_for() {
    let mut mcp = McpCoord::new(true);
    let params = RunTestsParams { options: ToolOptions::default(), projects: None };
    begin_run(params, &mut mcp, &cli(), &config()).unwrap();
    let mut coord = Coordinator::Mcp(mcp);
    match poll(&mut coord, &cli(), &config(), &request("3")) {
        PollReply::Accepted(body) => {
            assert_eq!(body.projects, ["Foo"]);
            assert_eq!(into_value(body.options)["testNamePattern"], "auth");
            assert!(body.run);
        }
        other => panic!("{other:?}"),
    }
    match poll(&mut coord, &cli(), &config(), &request("3")) {
        PollReply::Accepted(body) => {
            assert!(body.projects.is_empty());
            assert_eq!(into_value(body.options).to_string(), "{}");
            assert!(!body.run);
        }
        other => panic!("{other:?}"),
    }
}

#[test]
fn output_is_printed_or_kept() {
    let mut coord = Coordinator::Cli(CliCoord::new());
    assert_eq!(
        jest_companion::studio::write(&mut coord, "a"),
        WriteStep::Print { first: true }
    );
    assert_eq!(
        jest_companion::studio::write(&mut coord, "b"),
        WriteStep::Print { first: false }
    );
    match coord {
        Coordinator::Cli(c) => assert!(!c.nothing_reported()),
        _ => unreachable!(),
    }
    let mut mcp = McpCoord::new(true);
    let params = RunTestsParams { options: ToolOptions::default(), projects: None };
    begin_run(params, &mut mcp, &cli(), &config()).unwrap();
    let mut coord = Coordinator::Mcp(mcp);
    assert_eq!(jest_companion::studio::write(&mut coord, "kept"), WriteStep::Kept);
    match coord {
        Coordinator::Mcp(c) => assert_eq!(c.active.unwrap().output, "kept"),
        _ => unreachable!(),
    }
}

#[test]
fn results_end_the_run() {
    let single = Coordinator::Cli(CliCoord::new());
    assert_eq!(results(&single, true), ReportStep::Exit { code: 0, delay: 100 });
    assert_eq!(results(&single, false), ReportStep::Exit { code: 1, delay: 100 });
    assert_eq!(run_error(&single), ReportStep::Exit { code: 1, delay: 100 });
    let served = Coordinator::Mcp(McpCoord::new(true));
    assert_eq!(
        results(&served, false),
        ReportStep::Settle { outcome: Outcome::Finished(false), delay: 150 }
    );
    assert_eq!(
        run_error(&served),
        ReportStep::Settle { outcome: Outcome::RunError, delay: 150 }
    );
}

#[test]
fn eight_ports_are_tried_in_order() {
    let ports: Vec<Option<u16>> = (0..9).map(mcp_port).collect();
    assert_eq!(ports[0], Some(28861));
    assert_eq!(ports[7], Some(28868));
    assert_eq!(ports[8], None);
    assert_eq!(mcp_port(u16::MAX), None);
    assert_eq!(CLI_PORT, 28860);
}

#[test]
fn files_are_written_below_their_directory() {
    match fs_write(FsWriteEvent::Unresolved) {
        FsWriteStep::Reply(r) => {
            assert_eq!(reply_of(r), (Status::NotFound, "Could not resolve path".to_string()))
        }
        other => panic!("{other:?}"),
    }
    assert!(matches!(
        fs_write(FsWriteEvent::Resolved { has_parent: true }),
        FsWriteStep::MakeParent
    ));
    assert!(matches!(
        fs_write(FsWriteEvent::Resolved { has_parent: false }),
        FsWriteStep::WriteFile
    ));
    assert!(matches!(fs_write(FsWriteEvent::ParentMade(Ok(()))), FsWriteStep::WriteFile));
    match fs_write(FsWriteEvent::ParentMade(Err("no".to_string()))) {
        FsWriteStep::Reply(r) => {
            assert_eq!(reply_of(r), (Status::InternalServerError, "no".to_string()))
        }
        other => panic!("{other:?}"),
    }
    match fs_write(FsWriteEvent::Written(Err("full".to_string()))) {
        FsWriteStep::Reply(r) => {
            assert_eq!(reply_of(r), (Status::InternalServerError, "full".to_string()))
        }
        other => panic!("{other:?}"),
    }
    match fs_write(FsWriteEvent::Written(Ok(()))) {
        FsWriteStep::Reply(r) => assert_eq!(reply_of(r), (Status::Success, "".to_string())),
        other => panic!("{other:?}"),
    }
}

#[test]
fn file_operations_reply_with_their_outcome() {
    let gone = (Status::NotFound, "Could not resolve path".to_string());
    assert_eq!(reply_of(fs_create_dir_all(None)), gone);
    assert_eq!(reply_of(fs_exists(None)), gone);
    assert_eq!(reply_of(fs_delete(None)), gone);
    let fine = (Status::Success, "".to_string());
    assert_eq!(reply_of(fs_create_dir_all(Some(Ok(())))), fine);
    assert_eq!(reply_of(fs_exists(Some(Ok(())))), fine);
    assert_eq!(reply_of(fs_delete(Some(Ok(())))), fine);
    let error = (Status::InternalServerError, "denied".to_string());
    assert_eq!(reply_of(fs_create_dir_all(failed())), error);
    assert_eq!(reply_of(fs_delete(failed())), error);
    assert_eq!(reply_of(fs_exists(failed())), (Status::NotFound, "denied".to_string()));
}
