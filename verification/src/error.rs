//! The ways in which starting the service can fail.

use crate::startup::Stage;
use vstd::prelude::*;
use vstd::string::StringExecFns;

verus! {

/// A failed start: one variant for each stage, with the cause as the failed
/// step reported it.
#[derive(Debug)]
pub enum AppErr {
    ColorEyreInstall { source: String },
    GetConfiguration { source: String },
    PostgresConnection { source: String },
    Listen { source: String },
    RunServer { source: String },
}

/// [`AppErr`] as the stage that failed and the text of the cause.
pub struct AppErrView {
    pub stage: Stage,
    pub source: Seq<char>,
}

impl View for AppErr {
    type V = AppErrView;

    open spec fn view(&self) -> AppErrView {
        match *self {
            AppErr::ColorEyreInstall { source } => AppErrView {
                stage: Stage::InstallHandler,
                source: source@,
            },
            AppErr::GetConfiguration { source } => AppErrView {
                stage: Stage::GetConfiguration,
                source: source@,
            },
            AppErr::PostgresConnection { source } => AppErrView {
                stage: Stage::ConnectDatabase,
                source: source@,
            },
            AppErr::Listen { source } => AppErrView { stage: Stage::Listen, source: source@ },
            AppErr::RunServer { source } => AppErrView { stage: Stage::RunServer, source: source@ },
        }
    }
}

/// What the report of a failure at `stage` begins with.
pub open spec fn headline(stage: Stage) -> Seq<char> {
    match stage {
        Stage::InstallHandler => "Error while installing color_eyre handler: "@,
        Stage::GetConfiguration => "Error while getting the configuration: "@,
        Stage::ConnectDatabase => "Error while connecting to Postgres: "@,
        Stage::Listen => "Error while listening on TCP port: "@,
        Stage::RunServer => "Error while running the application server: "@,
    }
}

impl AppErr {
    /// The failure of `stage` for the reason `source`.
    pub fn at(stage: Stage, source: String) -> (error: AppErr)
        ensures
            error@ == (AppErrView { stage, source: source@ }),
    {
        match stage {
            Stage::InstallHandler => AppErr::ColorEyreInstall { source },
            Stage::GetConfiguration => AppErr::GetConfiguration { source },
            Stage::ConnectDatabase => AppErr::PostgresConnection { source },
            Stage::Listen => AppErr::Listen { source },
            Stage::RunServer => AppErr::RunServer { source },
        }
    }

    /// The stage that failed.
    pub fn stage(&self) -> (stage: Stage)
        ensures
            stage == self@.stage,
    {
        match self {
            AppErr::ColorEyreInstall { .. } => Stage::InstallHandler,
            AppErr::GetConfiguration { .. } => Stage::GetConfiguration,
            AppErr::PostgresConnection { .. } => Stage::ConnectDatabase,
            AppErr::Listen { .. } => Stage::Listen,
            AppErr::RunServer { .. } => Stage::RunServer,
        }
    }

    /// The cause as the failed step reported it.
    pub fn source(&self) -> (source: &String)
        ensures
            source@ == self@.source,
    {
        match self {
            AppErr::ColorEyreInstall { source } => source,
            AppErr::GetConfiguration { source } => source,
            AppErr::PostgresConnection { source } => source,
            AppErr::Listen { source } => source,
            AppErr::RunServer { source } => source,
        }
    }

    /// The report of the failure: the headline of the stage, then the cause.
    pub fn message(&self) -> (message: String)
        ensures
            message@ == headline(self@.stage) + self@.source,
    {
        let mut message = match self.stage() {
            Stage::InstallHandler => String::from_str(
                "Error while installing color_eyre handler: ",
            ),
            Stage::GetConfiguration => String::from_str("Error while getting the configuration: "),
            Stage::ConnectDatabase => String::from_str("Error while connecting to Postgres: "),
            Stage::Listen => String::from_str("Error while listening on TCP port: "),
            Stage::RunServer => String::from_str("Error while running the application server: "),
        };
        message.append(self.source().as_str());
        message
    }
}

} // verus!
