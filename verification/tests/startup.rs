use zero2prod::error::AppErr;
use zero2prod::startup::{advance, Stage, Startup};

const STAGES: [Stage; 5] = [
    Stage::InstallHandler,
    Stage::GetConfiguration,
    Stage::ConnectDatabase,
    Stage::Listen,
    Stage::RunServer,
];

fn failure_at(stage: Stage, cause: &str) -> AppErr {
    match advance(stage, Err(cause.to_string())) {
        Startup::Failed(error) => error,
        other => panic!("the start went on: {other:?}"),
    }
}

#[test]
fn a_start_begins_with_the_error_handler() {
    assert_eq!(Stage::first(), Stage::InstallHandler);
}

#[test]
fn each_step_that_succeeds_leads_to_the_following_one() {
    for pair in STAGES.windows(2) {
        match advance(pair[0], Ok(())) {
            Startup::Continue(next) => assert_eq!(next, pair[1]),
            other => panic!("after {:?}: {other:?}", pair[0]),
        }
    }
    assert!(matches!(advance(Stage::RunServer, Ok(())), Startup::Serving));
}

#[test]
fn five_successes_bring_the_server_up() {
    let mut stage = Stage::first();
    let mut steps = 0;
    loop {
        steps += 1;
        match advance(stage, Ok(())) {
            Startup::Continue(next) => stage = next,
            Startup::Serving => break,
            Startup::Failed(error) => panic!("failed: {error:?}"),
        }
    }
    assert_eq!(steps, 5);
}

#[test]
fn a_failed_step_ends_the_start_with_the_error_of_its_stage() {
    assert!(matches!(
        failure_at(Stage::InstallHandler, "x"),
        AppErr::ColorEyreInstall { source } if source == "x"
    ));
    assert!(matches!(
        failure_at(Stage::GetConfiguration, "x"),
        AppErr::GetConfiguration { source } if source == "x"
    ));
    assert!(matches!(
        failure_at(Stage::ConnectDatabase, "x"),
        AppErr::PostgresConnection { source } if source == "x"
    ));
    assert!(matches!(failure_at(Stage::Listen, "x"), AppErr::Listen { source } if source == "x"));
    assert!(matches!(
        failure_at(Stage::RunServer, "x"),
        AppErr::RunServer { source } if source == "x"
    ));
}

#[test]
fn an_unreachable_database_ends_the_start_before_the_listener_is_bound() {
    let mut taken = Vec::new();
    let mut stage = Stage::first();
    let error = loop {
        taken.push(stage);
        let outcome = if stage == Stage::ConnectDatabase {
            Err("connection refused".to_string())
        } else {
            Ok(())
        };
        match advance(stage, outcome) {
            Startup::Continue(next) => stage = next,
            Startup::Serving => panic!("the server came up"),
            Startup::Failed(error) => break error,
        }
    };
    assert_eq!(taken, vec![Stage::InstallHandler, Stage::GetConfiguration, Stage::ConnectDatabase]);
    assert_eq!(error.stage(), Stage::ConnectDatabase);
    assert_eq!(error.source(), "connection refused");
    assert_eq!(error.message(), "Error while connecting to Postgres: connection refused");
}

#[test]
fn messages_begin_with_the_headline_of_the_stage() {
    let source = || "cause".to_string();
    assert_eq!(
        AppErr::ColorEyreInstall { source: source() }.message(),
        "Error while installing color_eyre handler: cause"
    );
    assert_eq!(
        AppErr::GetConfiguration { source: source() }.message(),
        "Error while getting the configuration: cause"
    );
    assert_eq!(
        AppErr::PostgresConnection { source: source() }.message(),
        "Error while connecting to Postgres: cause"
    );
    assert_eq!(
        AppErr::Listen { source: source() }.message(),
        "Error while listening on TCP port: cause"
    );
    assert_eq!(
        AppErr::RunServer { source: source() }.message(),
        "Error while running the application server: cause"
    );
}

#[test]
fn an_error_is_built_at_its_stage() {
    for stage in STAGES {
        let error = AppErr::at(stage, "why".to_string());
        assert_eq!(error.stage(), stage);
        assert_eq!(error.source(), "why");
    }
    assert!(matches!(
        AppErr::at(Stage::Listen, String::new()),
        AppErr::Listen { source } if source.is_empty()
    ));
}
