//! The settings of the service: how they are read out of a loaded
//! configuration, and how they are written out as addresses.

use config::{Config, ConfigError};
use vstd::prelude::*;
use vstd::string::{to_string_from_display_ensures, StringExecFns};

verus! {

/// `config::Config`, a loaded configuration: a table of entries that is read
/// by key. Nothing inside it is visible here; what it holds is spoken of
/// through [`config_texts`] and [`config_ports`].
#[verifier::external_type_specification]
#[verifier::external_body]
pub struct ExConfig(config::Config);

/// `config::ConfigError`, the reason why a configuration could not be loaded
/// or an entry could not be read. It is carried through and turned into text.
#[verifier::external_type_specification]
#[verifier::external_body]
pub struct ExConfigError(config::ConfigError);

/// The entries of a configuration that can be read as text: the keys at which
/// `Config::get_string` succeeds, each with the text that it returns.
pub uninterp spec fn config_texts(config: Config) -> Map<Seq<char>, Seq<char>>;

/// The entries of a configuration that can be read as a port number: the keys
/// at which `Config::get::<u16>` succeeds, each with the number that it returns.
pub uninterp spec fn config_ports(config: Config) -> Map<Seq<char>, u16>;

/// The six entries that make up the settings.
#[derive(Clone, Copy, Debug, PartialEq, Eq, Structural)]
pub enum SettingsKey {
    DatabaseName,
    Host,
    Password,
    Port,
    Username,
    ApplicationPort,
}

impl SettingsKey {
    /// The key under which the entry stands in the configuration.
    pub open spec fn spec_path(self) -> Seq<char> {
        match self {
            SettingsKey::DatabaseName => "database.database_name"@,
            SettingsKey::Host => "database.host"@,
            SettingsKey::Password => "database.password"@,
            SettingsKey::Port => "database.port"@,
            SettingsKey::Username => "database.username"@,
            SettingsKey::ApplicationPort => "application_port"@,
        }
    }

    /// The key under which the entry stands in the configuration.
    pub fn path(self) -> (path: &'static str)
        ensures
            path@ == self.spec_path(),
    {
        match self {
            SettingsKey::DatabaseName => "database.database_name",
            SettingsKey::Host => "database.host",
            SettingsKey::Password => "database.password",
            SettingsKey::Port => "database.port",
            SettingsKey::Username => "database.username",
            SettingsKey::ApplicationPort => "application_port",
        }
    }
}

/// Whether `path` is the key of one of the six entries.
pub open spec fn is_settings_path(path: Seq<char>) -> bool {
    exists|key: SettingsKey| path == #[trigger] key.spec_path()
}

/// `Config::get_string`, for the keys of the settings. The call looks the key
/// up in the table and turns a scalar found there into text; it fails where
/// the key leads nowhere or to a table or a list. The contract says that the
/// outcome is the entry of [`config_texts`] at that key. Keys with a subscript
/// are left out: the lookup of one can overflow on a negative index.
#[verifier::external_body]
fn read_text(config: &Config, key: &str) -> (res: Result<String, ConfigError>)
    requires
        is_settings_path(key@),
    ensures
        res matches Ok(text) ==> config_texts(*config).contains_key(key@) && config_texts(
            *config,
        )[key@] == text@,
        res is Err ==> !config_texts(*config).contains_key(key@),
{
    config.get_string(key)
}

/// `Config::get::<u16>`, for the keys of the settings. The call looks the key
/// up in the table and turns an integer found there, or a text that spells
/// one, into a `u16`; it fails where the key leads nowhere or the number does
/// not fit. The contract says that the outcome is the entry of
/// [`config_ports`] at that key.
#[verifier::external_body]
fn read_port(config: &Config, key: &str) -> (res: Result<u16, ConfigError>)
    requires
        is_settings_path(key@),
    ensures
        res matches Ok(port) ==> config_ports(*config).contains_key(key@) && config_ports(
            *config,
        )[key@] == port,
        res is Err ==> !config_ports(*config).contains_key(key@),
{
    config.get::<u16>(key)
}

/// Keeps a value that was read, and puts the text of the error in place of it.
fn explain<T>(read: Result<T, ConfigError>) -> (res: Result<T, String>)
    ensures
        read matches Ok(value) ==> res == Ok::<T, String>(value),
        read matches Err(error) ==> res matches Err(cause) && to_string_from_display_ensures::<
            ConfigError,
        >(&error, cause),
{
    match read {
        Ok(value) => Ok(value),
        Err(error) => Err(error.to_string()),
    }
}

/// Where the database is and how to log in to it.
#[derive(Debug)]
pub struct DatabaseSettings {
    pub database_name: String,
    pub host: String,
    pub password: String,
    pub port: u16,
    pub username: String,
}

/// What the service is started with: the database and the port to listen on.
#[derive(Debug)]
pub struct Settings {
    pub database: DatabaseSettings,
    pub application_port: u16,
}

/// [`DatabaseSettings`] as plain text and numbers.
pub struct DatabaseSettingsView {
    pub database_name: Seq<char>,
    pub host: Seq<char>,
    pub password: Seq<char>,
    pub port: u16,
    pub username: Seq<char>,
}

/// [`Settings`] as plain text and numbers.
pub struct SettingsView {
    pub database: DatabaseSettingsView,
    pub application_port: u16,
}

impl View for DatabaseSettings {
    type V = DatabaseSettingsView;

    open spec fn view(&self) -> DatabaseSettingsView {
        DatabaseSettingsView {
            database_name: self.database_name@,
            host: self.host@,
            password: self.password@,
            port: self.port,
            username: self.username@,
        }
    }
}

impl View for Settings {
    type V = SettingsView;

    open spec fn view(&self) -> SettingsView {
        SettingsView { database: self.database@, application_port: self.application_port }
    }
}

/// Why there are no settings.
#[derive(Debug)]
pub enum SettingsError {
    /// The configuration itself could not be loaded.
    Source { cause: String },
    /// The configuration was loaded, and the entry at `key` could not be read.
    Entry { key: SettingsKey, cause: String },
}

/// [`SettingsError`] with its text as a sequence of characters.
pub enum SettingsErrorView {
    Source { cause: Seq<char> },
    Entry { key: SettingsKey, cause: Seq<char> },
}

impl View for SettingsError {
    type V = SettingsErrorView;

    open spec fn view(&self) -> SettingsErrorView {
        match *self {
            SettingsError::Source { cause } => SettingsErrorView::Source { cause: cause@ },
            SettingsError::Entry { key, cause } => SettingsErrorView::Entry { key, cause: cause@ },
        }
    }
}

impl SettingsError {
    /// The reason as the configuration gave it.
    pub fn cause(&self) -> (cause: &String)
        ensures
            self@ matches SettingsErrorView::Source { cause: text } ==> cause@ == text,
            self@ matches SettingsErrorView::Entry { cause: text, .. } ==> cause@ == text,
    {
        match self {
            SettingsError::Source { cause } => cause,
            SettingsError::Entry { cause, .. } => cause,
        }
    }
}

/// What reading the six entries gave: for each the value, or the reason why
/// there is none.
#[derive(Debug)]
pub struct Entries {
    pub database_name: Result<String, String>,
    pub host: Result<String, String>,
    pub password: Result<String, String>,
    pub port: Result<u16, String>,
    pub username: Result<String, String>,
    pub application_port: Result<u16, String>,
}

/// The six entries as far as they could be read.
pub struct Found {
    pub database_name: Option<Seq<char>>,
    pub host: Option<Seq<char>>,
    pub password: Option<Seq<char>>,
    pub port: Option<u16>,
    pub username: Option<Seq<char>>,
    pub application_port: Option<u16>,
}

impl Found {
    /// The first entry, in the order of the settings' fields, that could not
    /// be read.
    pub open spec fn first_missing(self) -> Option<SettingsKey> {
        if self.database_name is None {
            Some(SettingsKey::DatabaseName)
        } else if self.host is None {
            Some(SettingsKey::Host)
        } else if self.password is None {
            Some(SettingsKey::Password)
        } else if self.port is None {
            Some(SettingsKey::Port)
        } else if self.username is None {
            Some(SettingsKey::Username)
        } else if self.application_port is None {
            Some(SettingsKey::ApplicationPort)
        } else {
            None
        }
    }

    /// The settings that the entries spell out, where all six were read.
    pub open spec fn settings(self) -> SettingsView
        recommends
            self.first_missing() is None,
    {
        SettingsView {
            database: DatabaseSettingsView {
                database_name: self.database_name->0,
                host: self.host->0,
                password: self.password->0,
                port: self.port->0,
                username: self.username->0,
            },
            application_port: self.application_port->0,
        }
    }

    /// The entries that `config` holds under the six keys.
    pub open spec fn of(config: Config) -> Found {
        Found {
            database_name: text_at(config, SettingsKey::DatabaseName),
            host: text_at(config, SettingsKey::Host),
            password: text_at(config, SettingsKey::Password),
            port: port_at(config, SettingsKey::Port),
            username: text_at(config, SettingsKey::Username),
            application_port: port_at(config, SettingsKey::ApplicationPort),
        }
    }
}

/// The text that `config` holds under `key`, if it holds one.
pub open spec fn text_at(config: Config, key: SettingsKey) -> Option<Seq<char>> {
    if config_texts(config).contains_key(key.spec_path()) {
        Some(config_texts(config)[key.spec_path()])
    } else {
        None
    }
}

/// The port number that `config` holds under `key`, if it holds one.
pub open spec fn port_at(config: Config, key: SettingsKey) -> Option<u16> {
    if config_ports(config).contains_key(key.spec_path()) {
        Some(config_ports(config)[key.spec_path()])
    } else {
        None
    }
}

/// A text that was read, or nothing.
pub open spec fn text_found(read: Result<String, String>) -> Option<Seq<char>> {
    match read {
        Ok(text) => Some(text@),
        Err(_) => None,
    }
}

/// A port number that was read, or nothing.
pub open spec fn port_found(read: Result<u16, String>) -> Option<u16> {
    match read {
        Ok(port) => Some(port),
        Err(_) => None,
    }
}

impl Entries {
    /// The entries without the reasons.
    pub open spec fn found(self) -> Found {
        Found {
            database_name: text_found(self.database_name),
            host: text_found(self.host),
            password: text_found(self.password),
            port: port_found(self.port),
            username: text_found(self.username),
            application_port: port_found(self.application_port),
        }
    }

    /// The reason given for the entry at `key`, where it could not be read.
    pub open spec fn cause(self, key: SettingsKey) -> Seq<char> {
        match key {
            SettingsKey::DatabaseName => self.database_name->Err_0@,
            SettingsKey::Host => self.host->Err_0@,
            SettingsKey::Password => self.password->Err_0@,
            SettingsKey::Port => self.port->Err_0@,
            SettingsKey::Username => self.username->Err_0@,
            SettingsKey::ApplicationPort => self.application_port->Err_0@,
        }
    }
}

impl Settings {
    /// Puts the settings together from the six entries. Where some could not
    /// be read, the error names the first of them in the order of the
    /// settings' fields, with the reason given for it.
    pub fn assemble(entries: Entries) -> (res: Result<Settings, SettingsError>)
        ensures
            match entries.found().first_missing() {
                None => res matches Ok(settings) && settings@ == entries.found().settings(),
                Some(key) => res matches Err(error) && error@ == (SettingsErrorView::Entry {
                    key,
                    cause: entries.cause(key),
                }),
            },
    {
        let database_name = match entries.database_name {
            Ok(text) => text,
            Err(cause) => {
                return Err(SettingsError::Entry { key: SettingsKey::DatabaseName, cause });
            },
        };
        let host = match entries.host {
            Ok(text) => text,
            Err(cause) => {
                return Err(SettingsError::Entry { key: SettingsKey::Host, cause });
            },
        };
        let password = match entries.password {
            Ok(text) => text,
            Err(cause) => {
                return Err(SettingsError::Entry { key: SettingsKey::Password, cause });
            },
        };
        let port = match entries.port {
            Ok(port) => port,
            Err(cause) => {
                return Err(SettingsError::Entry { key: SettingsKey::Port, cause });
            },
        };
        let username = match entries.username {
            Ok(text) => text,
            Err(cause) => {
                return Err(SettingsError::Entry { key: SettingsKey::Username, cause });
            },
        };
        let application_port = match entries.application_port {
            Ok(port) => port,
            Err(cause) => {
                return Err(SettingsError::Entry { key: SettingsKey::ApplicationPort, cause });
            },
        };
        Ok(
            Settings {
                database: DatabaseSettings { database_name, host, password, port, username },
                application_port,
            },
        )
    }

    /// Reads the settings out of what loading the configuration gave.
    ///
    /// A configuration that could not be loaded gives `Source`, with the text
    /// of the loader's error. A loaded one gives the settings if it holds all
    /// six entries, and else `Entry` for the first that it lacks.
    pub fn new(source: Result<Config, ConfigError>) -> (res: Result<Settings, SettingsError>)
        ensures
            source matches Err(error) ==> res matches Err(SettingsError::Source { cause })
                && to_string_from_display_ensures::<ConfigError>(&error, cause),
            source matches Ok(config) ==> match Found::of(config).first_missing() {
                None => res matches Ok(settings) && settings@ == Found::of(config).settings(),
                Some(key) => res matches Err(SettingsError::Entry { key: failed, .. }) && failed
                    == key,
            },
    {
        match source {
            Err(error) => Err(SettingsError::Source { cause: error.to_string() }),
            Ok(config) => {
                let entries = Entries {
                    database_name: explain(read_text(&config, SettingsKey::DatabaseName.path())),
                    host: explain(read_text(&config, SettingsKey::Host.path())),
                    password: explain(read_text(&config, SettingsKey::Password.path())),
                    port: explain(read_port(&config, SettingsKey::Port.path())),
                    username: explain(read_text(&config, SettingsKey::Username.path())),
                    application_port: explain(
                        read_port(&config, SettingsKey::ApplicationPort.path()),
                    ),
                };
                Settings::assemble(entries)
            },
        }
    }
}

/// The character that stands for a single decimal digit.
pub open spec fn digit_char(d: nat) -> char
    recommends
        d < 10,
{
    if d == 0 {
        '0'
    } else if d == 1 {
        '1'
    } else if d == 2 {
        '2'
    } else if d == 3 {
        '3'
    } else if d == 4 {
        '4'
    } else if d == 5 {
        '5'
    } else if d == 6 {
        '6'
    } else if d == 7 {
        '7'
    } else if d == 8 {
        '8'
    } else {
        '9'
    }
}

/// The decimal numeral of `n`: no sign, no leading zero, `"0"` for zero.
pub open spec fn decimal(n: nat) -> Seq<char>
    decreases n,
{
    if n < 10 {
        seq![digit_char(n)]
    } else {
        decimal(n / 10).push(digit_char(n % 10))
    }
}

/// The one-character text of a decimal digit.
fn digit_text(d: u16) -> (text: &'static str)
    requires
        d < 10,
    ensures
        text@ == seq![digit_char(d as nat)],
{
    proof {
        reveal_strlit("0");
        reveal_strlit("1");
        reveal_strlit("2");
        reveal_strlit("3");
        reveal_strlit("4");
        reveal_strlit("5");
        reveal_strlit("6");
        reveal_strlit("7");
        reveal_strlit("8");
        reveal_strlit("9");
    }
    if d == 0 {
        "0"
    } else if d == 1 {
        "1"
    } else if d == 2 {
        "2"
    } else if d == 3 {
        "3"
    } else if d == 4 {
        "4"
    } else if d == 5 {
        "5"
    } else if d == 6 {
        "6"
    } else if d == 7 {
        "7"
    } else if d == 8 {
        "8"
    } else {
        "9"
    }
}

/// Appends the decimal numeral of `n` to `out`.
pub fn push_decimal(out: &mut String, n: u16)
    ensures
        final(out)@ == old(out)@ + decimal(n as nat),
    decreases n,
{
    if n >= 10 {
        push_decimal(out, n / 10);
    }
    out.append(digit_text(n % 10));
}

/// How the process ends where there are no settings to start with.
#[derive(Debug)]
pub struct Exit {
    /// The status that the process exits with.
    pub status: i32,
    /// The line that is printed before it exits.
    pub report: String,
}

/// The line that reports why the configuration could not be had.
pub open spec fn failure_report(cause: Seq<char>) -> Seq<char> {
    "Failed to load configuration: "@ + cause
}

/// The reason that an error carries.
pub open spec fn cause_of(error: SettingsErrorView) -> Seq<char> {
    match error {
        SettingsErrorView::Source { cause } => cause,
        SettingsErrorView::Entry { cause, .. } => cause,
    }
}

/// The end that a failed load brings: status 1, and a line that gives the
/// reason.
pub fn give_up(error: &SettingsError) -> (exit: Exit)
    ensures
        exit.status == 1,
        exit.report@ == failure_report(cause_of(error@)),
{
    let mut report = String::from_str("Failed to load configuration: ");
    report.append(error.cause().as_str());
    Exit { status: 1, report }
}

/// The settings for this run, or the end of the process.
///
/// The settings are those that [`Settings::new`] reads. Where it reads none
/// the process is to end with status 1, after a line that starts with
/// `Failed to load configuration: `; for a configuration that could not be
/// loaded the line goes on with the text of the loader's error.
pub fn get_configuration(source: Result<Config, ConfigError>) -> (res: Result<Settings, Exit>)
    ensures
        res is Ok <==> source is Ok && Found::of(source->Ok_0).first_missing() is None,
        res matches Ok(settings) ==> settings@ == Found::of(source->Ok_0).settings(),
        res matches Err(exit) ==> exit.status == 1 && exists|cause: Seq<char>|
            exit.report@ == #[trigger] failure_report(cause),
        source matches Err(error) ==> res matches Err(exit) && exists|cause: String|
            #[trigger] to_string_from_display_ensures::<ConfigError>(&error, cause) && exit.report@
                == failure_report(cause@),
{
    match Settings::new(source) {
        Ok(settings) => Ok(settings),
        Err(error) => {
            Err(give_up(&error))
        },
    }
}

/// Two configurations that hold the same six entries give the same settings,
/// or lack the same entry first: nothing else in a configuration, and nothing
/// outside it, has a part in what is read.
pub proof fn same_entries_same_settings(first: Config, second: Config)
    requires
        forall|key: SettingsKey|
            #![trigger key.spec_path()]
            text_at(first, key) == text_at(second, key) && port_at(first, key) == port_at(
                second,
                key,
            ),
    ensures
        Found::of(first) == Found::of(second),
        Found::of(first).first_missing() == Found::of(second).first_missing(),
        Found::of(first).settings() == Found::of(second).settings(),
{
}

impl DatabaseSettings {
    /// The address of the database: `postgres://`, the user name, a colon,
    /// the password, `@`, the host, a colon, the port in decimal, a slash and
    /// the database's name.
    pub open spec fn connection_text(settings: DatabaseSettingsView) -> Seq<char> {
        "postgres://"@ + settings.username + ":"@ + settings.password + "@"@ + settings.host
            + ":"@ + decimal(settings.port as nat) + "/"@ + settings.database_name
    }

    /// The address under which the database is reached.
    pub fn connection_string(&self) -> (address: String)
        ensures
            address@ == Self::connection_text(self@),
    {
        let mut address = String::from_str("postgres://");
        address.append(self.username.as_str());
        address.append(":");
        address.append(self.password.as_str());
        address.append("@");
        address.append(self.host.as_str());
        address.append(":");
        push_decimal(&mut address, self.port);
        address.append("/");
        address.append(self.database_name.as_str());
        address
    }
}

impl Settings {
    /// The address to listen on: the loopback interface and the port.
    pub open spec fn listen_text(settings: SettingsView) -> Seq<char> {
        "127.0.0.1:"@ + decimal(settings.application_port as nat)
    }

    /// The address that the service listens on.
    pub fn listen_address(&self) -> (address: String)
        ensures
            address@ == Self::listen_text(self@),
    {
        let mut address = String::from_str("127.0.0.1:");
        push_decimal(&mut address, self.application_port);
        address
    }
}

} // verus!
