use jest_companion::cli::{Cli, JestOptions, DEFAULT_RUN_TIMEOUT, DEFAULT_SERVER_TIMEOUT};
use jest_companion::config::Config;
use jest_companion::json::Json;
use jest_companion::json_io::into_value;
use jest_companion::run::{
    begin_run, choose_projects, end_run, merge_options, watch_run, McpCoord, Outcome, RunClock,
    RunEnd, RunTestsError, RunTestsParams, ToolOptions, WaitStep,
};

fn options() -> JestOptions {
    JestOptions {
        clear_mocks: None,
        expand: None,
        no_stack_trace: None,
        old_function_spying: None,
        pass_with_no_tests: None,
        reset_mocks: None,
        test_match: None,
        test_name_pattern: None,
        test_path_ignore_patterns: None,
        test_path_pattern: None,
        test_timeout: None,
        verbose: None,
        update_snapshot: None,
    }
}

fn cli() -> Cli {
    Cli {
        path: ".".to_string(),
        mcp: true,
        server_timeout: DEFAULT_SERVER_TIMEOUT,
        run_timeout: DEFAULT_RUN_TIMEOUT,
        options: options(),
    }
}

fn config(names: &[&str]) -> Config {
    let mut config = Config::default();
    for name in names {
        config.insert(name.to_string(), format!("packages/{name}"));
    }
    config
}

fn everything() -> RunTestsParams {
    RunTestsParams { options: ToolOptions::default(), projects: None }
}

fn some_of(names: &[&str]) -> RunTestsParams {
    RunTestsParams {
        options: ToolOptions::default(),
        projects: Some(names.iter().map(|s| s.to_string()).collect()),
    }
}

fn started() -> McpCoord {
    let mut coord = McpCoord::new(true);
    begin_run(everything(), &mut coord, &cli(), &config(&["Foo"])).unwrap();
    coord
}

fn value(text: &str) -> serde_json::Value {
    serde_json::from_str(text).unwrap()
}

#[test]
fn tool_options_only_serialize_provided_fields() {
    let opts = ToolOptions {
        test_name_pattern: Some("auth".to_string()),
        verbose: Some(true),
        ..Default::default()
    };
    let value = into_value(Json::Object(opts.to_json()));
    let obj = value.as_object().unwrap();
    assert_eq!(obj.len(), 2);
    assert_eq!(obj.get("testNamePattern").unwrap(), "auth");
    assert_eq!(obj.get("verbose").unwrap(), true);
}

#[test]
fn command_line_options_are_null_where_silent() {
    let mut opts = options();
    opts.test_path_pattern = Some(None);
    opts.test_match = Some(vec!["a".to_string(), "b".to_string()]);
    opts.test_timeout = Some(5000);
    let json = into_value(Json::Object(opts.to_json()));
    assert_eq!(
        json,
        value(
            r#"{"clearMocks":null,"expand":null,"noStackTrace":null,"oldFunctionSpying":null,
            "passWithNoTests":null,"resetMocks":null,"testMatch":["a","b"],"testNamePattern":null,
            "testPathIgnorePatterns":null,"testPathPattern":null,"testTimeout":5000,
            "verbose":null,"updateSnapshot":null}"#
        )
    );
}

#[test]
fn tool_call_overrides_the_command_line() {
    let mut cli = cli();
    cli.options.verbose = Some(false);
    cli.options.test_path_pattern = Some(Some("old".to_string()));
    cli.options.expand = Some(true);
    let given = ToolOptions {
        verbose: Some(true),
        test_path_pattern: Some("new".to_string()),
        test_path_ignore_patterns: Some(vec!["skip".to_string()]),
        ..Default::default()
    };
    assert_eq!(
        into_value(merge_options(&cli, &given)),
        value(
            r#"{"clearMocks":null,"expand":true,"noStackTrace":null,"oldFunctionSpying":null,
            "passWithNoTests":null,"resetMocks":null,"testMatch":null,"testNamePattern":null,
            "testPathIgnorePatterns":["skip"],"testPathPattern":"new","testTimeout":null,
            "verbose":true,"updateSnapshot":null}"#
        )
    );
}

#[test]
fn a_project_is_configured_once() {
    let mut config = config(&["A", "B"]);
    config.insert("A".to_string(), "elsewhere".to_string());
    assert_eq!(config.project_names(), ["A", "B"]);
    assert_eq!(config.projects[0].path, "elsewhere");
}

#[test]
fn an_unreadable_config_has_no_projects() {
    assert!(Config::or_empty(None).project_names().is_empty());
    assert_eq!(Config::or_empty(Some(config(&["A"]))).project_names(), ["A"]);
}

#[test]
fn all_projects_run_unless_some_are_named() {
    let config = config(&["Foo", "Bar"]);
    assert_eq!(choose_projects(None, &config).unwrap(), ["Foo", "Bar"]);
    assert_eq!(choose_projects(some_of(&["Bar"]).projects, &config).unwrap(), ["Bar"]);
}

#[test]
fn each_refusal_says_why() {
    let mut closed = McpCoord::new(false);
    let e = begin_run(everything(), &mut closed, &cli(), &config(&["Foo"])).unwrap_err();
    assert!(matches!(e, RunTestsError::NoPort));
    assert_eq!(
        e.message(),
        "This jest-companion MCP server could not bind its port, so it can't reach the Studio \
         plugin. Another jest-companion MCP server is most likely already running — use that \
         one, or stop it and restart this server."
    );

    let mut coord = McpCoord::new(true);
    let e = begin_run(everything(), &mut coord, &cli(), &Config::default()).unwrap_err();
    assert_eq!(
        e.message(),
        "No projects are configured. Add a [projects] table to jest-companion.toml and restart the MCP server."
    );

    let e = begin_run(some_of(&[]), &mut coord, &cli(), &config(&["Foo"])).unwrap_err();
    assert_eq!(e.message(), "`projects` was provided but empty; omit it to run every project.");

    let e = begin_run(some_of(&["Foo", "Qux", "Zip"]), &mut coord, &cli(), &config(&["Foo", "Bar"]))
        .unwrap_err();
    assert_eq!(e.message(), "Unknown project 'Qux'. Configured projects: Foo, Bar.");
    assert!(coord.active.is_none());

    begin_run(everything(), &mut coord, &cli(), &config(&["Foo"])).unwrap();
    let e = begin_run(everything(), &mut coord, &cli(), &config(&["Bar"])).unwrap_err();
    assert_eq!(e.message(), "A test run is already in progress; wait for it to finish.");
    assert_eq!(coord.active.unwrap().projects, ["Foo"]);
}

#[test]
fn a_run_is_handed_out_once() {
    let mut coord = started();
    let (projects, options) = coord.poll().unwrap();
    assert_eq!(projects, ["Foo"]);
    assert_eq!(into_value(options), into_value(merge_options(&cli(), &ToolOptions::default())));
    assert!(coord.ever_polled);
    assert!(coord.poll().is_none());
    assert!(coord.active.unwrap().dispatched);
}

#[test]
fn a_poll_without_a_run_is_remembered() {
    let mut coord = McpCoord::new(true);
    assert!(!coord.ever_polled);
    assert!(coord.poll().is_none());
    assert!(coord.ever_polled);
}

#[test]
fn output_is_kept_in_order() {
    let mut coord = McpCoord::new(true);
    coord.write("lost");
    coord = started();
    coord.write("one ");
    coord.write("\u{1B}[31mtwo");
    assert_eq!(coord.clear(), "one two");
    assert!(coord.active.is_none());
    assert_eq!(coord.clear(), "");
}

#[test]
fn the_first_report_counts() {
    let mut coord = started();
    assert!(coord.settle(Outcome::Finished(true)));
    assert!(!coord.settle(Outcome::RunError));
    assert_eq!(coord.active.as_ref().unwrap().outcome, Some(Outcome::Finished(true)));
    assert!(!McpCoord::new(true).settle(Outcome::RunError));
}

#[test]
fn closed_studio_is_noticed_at_the_server_timeout() {
    let mut coord = started();
    let mut clock = RunClock { picked_up: None };
    assert_eq!(watch_run(&mut coord, &mut clock, &cli(), 0), WaitStep::Wait { millis: 30000 });
    assert_eq!(watch_run(&mut coord, &mut clock, &cli(), 29999), WaitStep::Wait { millis: 1 });
    let end = RunEnd::Reported(Outcome::NotConnected);
    assert_eq!(watch_run(&mut coord, &mut clock, &cli(), 30000), WaitStep::Stop(end));
    let e = end_run(&mut coord, end, &cli()).unwrap_err();
    assert_eq!(
        e.message(),
        "Roblox Studio did not pick up the test run within 30s. Make sure Studio is open with a place that has the jest-companion plugin installed."
    );
    assert!(coord.active.is_none());
}

#[test]
fn busy_studio_is_waited_for() {
    let mut coord = McpCoord::new(true);
    coord.poll();
    begin_run(everything(), &mut coord, &cli(), &config(&["Foo"])).unwrap();
    let mut clock = RunClock { picked_up: None };
    assert_eq!(watch_run(&mut coord, &mut clock, &cli(), 30000), WaitStep::Wait { millis: 270000 });
    assert_eq!(
        watch_run(&mut coord, &mut clock, &cli(), 300000),
        WaitStep::Stop(RunEnd::TimedOut { seconds: 300 })
    );
    let e = end_run(&mut coord, RunEnd::TimedOut { seconds: 300 }, &cli()).unwrap_err();
    assert_eq!(e.message(), "Timed out after 300s waiting for test results.");
}

#[test]
fn the_later_timeout_counts_for_a_queued_run() {
    let cli = Cli { server_timeout: 40, run_timeout: 10, ..cli() };
    let mut coord = McpCoord::new(true);
    coord.poll();
    begin_run(everything(), &mut coord, &cli, &config(&["Foo"])).unwrap();
    let mut clock = RunClock { picked_up: None };
    assert_eq!(watch_run(&mut coord, &mut clock, &cli, 10000), WaitStep::Wait { millis: 30000 });
    let end = RunEnd::TimedOut { seconds: 40 };
    assert_eq!(watch_run(&mut coord, &mut clock, &cli, 40000), WaitStep::Stop(end));
    let e = end_run(&mut coord, end, &cli).unwrap_err();
    assert_eq!(e.message(), "Timed out after 40s waiting for test results.");
}

#[test]
fn timeouts_have_defaults() {
    assert_eq!(DEFAULT_SERVER_TIMEOUT, 30);
    assert_eq!(DEFAULT_RUN_TIMEOUT, 300);
}

#[test]
fn run_timeout_counts_from_the_pick_up() {
    let mut coord = started();
    let mut clock = RunClock { picked_up: None };
    coord.poll();
    assert_eq!(watch_run(&mut coord, &mut clock, &cli(), 20000), WaitStep::Wait { millis: 300000 });
    assert_eq!(clock.picked_up, Some(20000));
    assert_eq!(watch_run(&mut coord, &mut clock, &cli(), 310000), WaitStep::Wait { millis: 10000 });
    assert_eq!(
        watch_run(&mut coord, &mut clock, &cli(), 320000),
        WaitStep::Stop(RunEnd::TimedOut { seconds: 300 })
    );
}

#[test]
fn results_end_the_wait() {
    let mut coord = started();
    let mut clock = RunClock { picked_up: None };
    coord.poll();
    coord.write("\u{1B}[32mall good\u{1B}[39m");
    coord.settle(Outcome::Finished(true));
    let end = RunEnd::Reported(Outcome::Finished(true));
    assert_eq!(watch_run(&mut coord, &mut clock, &cli(), 5000), WaitStep::Stop(end));
    assert_eq!(end_run(&mut coord, end, &cli()).unwrap(), ("all good".to_string(), true));
}

#[test]
fn runner_errors_show_what_was_captured() {
    let end = RunEnd::Reported(Outcome::RunError);
    let mut coord = started();
    coord.write("\u{1B}[1m \n");
    let e = end_run(&mut coord, end, &cli()).unwrap_err();
    assert_eq!(
        e.message(),
        "The test runner reported an error. Check the Studio output for details."
    );
    let mut coord = started();
    coord.write("boom");
    let e = end_run(&mut coord, end, &cli()).unwrap_err();
    assert_eq!(e.message(), "The test runner reported an error. Captured output:\n\nboom");
}

#[test]
fn a_run_that_vanished_ended_unexpectedly() {
    let mut coord = McpCoord::new(true);
    let mut clock = RunClock { picked_up: None };
    assert_eq!(
        watch_run(&mut coord, &mut clock, &cli(), 0),
        WaitStep::Stop(RunEnd::Dropped)
    );
    let e = end_run(&mut coord, RunEnd::Dropped, &cli()).unwrap_err();
    assert_eq!(e.message(), "The test run ended unexpectedly.");
}
