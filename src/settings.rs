//! The resolved settings, their defaults, and the names of their fields.

use vstd::prelude::*;

verus! {

/// Port the service listens on when nothing else is configured.
pub const DEFAULT_PORT: u16 = 8000;

/// Port of the metrics daemon when nothing else is configured.
pub const DEFAULT_STATSD_PORT: u16 = 8125;

/// The single resolved configuration of the service.
#[derive(Clone, Debug)]
pub struct Settings {
    pub debug: bool,
    pub port: u16,
    pub host: String,
    pub database_url: String,
    pub database_pool_max_size: Option<u32>,
    pub database_use_test_transactions: bool,
    pub human_logs: bool,
    pub statsd_host: Option<String>,
    pub statsd_port: u16,
    pub statsd_label: String,
}

/// Mathematical model of `Settings`: strings as character sequences.
pub struct SettingsView {
    pub debug: bool,
    pub port: u16,
    pub host: Seq<char>,
    pub database_url: Seq<char>,
    pub database_pool_max_size: Option<u32>,
    pub database_use_test_transactions: bool,
    pub human_logs: bool,
    pub statsd_host: Option<Seq<char>>,
    pub statsd_port: u16,
    pub statsd_label: Seq<char>,
}

pub open spec fn opt_text(o: Option<String>) -> Option<Seq<char>> {
    match o {
        Some(s) => Some(s@),
        None => None,
    }
}

impl View for Settings {
    type V = SettingsView;

    open spec fn view(&self) -> SettingsView {
        SettingsView {
            debug: self.debug,
            port: self.port,
            host: self.host@,
            database_url: self.database_url@,
            database_pool_max_size: self.database_pool_max_size,
            database_use_test_transactions: self.database_use_test_transactions,
            human_logs: self.human_logs,
            statsd_host: opt_text(self.statsd_host),
            statsd_port: self.statsd_port,
            statsd_label: self.statsd_label@,
        }
    }
}

/// The compiled-in defaults, the lowest layer of every resolution.
pub open spec fn default_view() -> SettingsView {
    SettingsView {
        debug: false,
        port: 8000,
        host: "127.0.0.1"@,
        database_url: "mysql://root@127.0.0.1/autopush"@,
        database_pool_max_size: None,
        database_use_test_transactions: false,
        human_logs: false,
        statsd_host: None,
        statsd_port: 8125,
        statsd_label: "autoendpoint"@,
    }
}

impl Default for Settings {
    fn default() -> (r: Settings)
        ensures
            r@ == default_view(),
    {
        Settings {
            debug: false,
            port: DEFAULT_PORT,
            host: String::from_str("127.0.0.1"),
            database_url: String::from_str("mysql://root@127.0.0.1/autopush"),
            database_pool_max_size: None,
            database_use_test_transactions: false,
            human_logs: false,
            statsd_host: None,
            statsd_port: DEFAULT_STATSD_PORT,
            statsd_label: String::from_str("autoendpoint"),
        }
    }
}

/// One field of `Settings`, as named in a configuration file.
#[derive(Clone, Copy, Debug, PartialEq, Eq)]
pub enum Field {
    Debug,
    Port,
    Host,
    DatabaseUrl,
    DatabasePoolMaxSize,
    DatabaseUseTestTransactions,
    HumanLogs,
    StatsdHost,
    StatsdPort,
    StatsdLabel,
}

/// How the text of a field's value is turned into the field's type.
pub enum FieldKind {
    Flag,
    Port,
    OptionalCount,
    Text,
    OptionalText,
}

impl Field {
    /// The key of the field in a configuration file.
    pub open spec fn name_spec(self) -> Seq<char> {
        match self {
            Field::Debug => "debug"@,
            Field::Port => "port"@,
            Field::Host => "host"@,
            Field::DatabaseUrl => "database_url"@,
            Field::DatabasePoolMaxSize => "database_pool_max_size"@,
            Field::DatabaseUseTestTransactions => "database_use_test_transactions"@,
            Field::HumanLogs => "human_logs"@,
            Field::StatsdHost => "statsd_host"@,
            Field::StatsdPort => "statsd_port"@,
            Field::StatsdLabel => "statsd_label"@,
        }
    }

    /// The environment variable an operator would set for the field, upper case.
    pub open spec fn env_var_spec(self) -> Seq<char> {
        match self {
            Field::Debug => "AUTOEND__DEBUG"@,
            Field::Port => "AUTOEND__PORT"@,
            Field::Host => "AUTOEND__HOST"@,
            Field::DatabaseUrl => "AUTOEND__DATABASE_URL"@,
            Field::DatabasePoolMaxSize => "AUTOEND__DATABASE_POOL_MAX_SIZE"@,
            Field::DatabaseUseTestTransactions => "AUTOEND__DATABASE_USE_TEST_TRANSACTIONS"@,
            Field::HumanLogs => "AUTOEND__HUMAN_LOGS"@,
            Field::StatsdHost => "AUTOEND__STATSD_HOST"@,
            Field::StatsdPort => "AUTOEND__STATSD_PORT"@,
            Field::StatsdLabel => "AUTOEND__STATSD_LABEL"@,
        }
    }

    pub open spec fn kind_spec(self) -> FieldKind {
        match self {
            Field::Debug | Field::DatabaseUseTestTransactions | Field::HumanLogs => FieldKind::Flag,
            Field::Port | Field::StatsdPort => FieldKind::Port,
            Field::DatabasePoolMaxSize => FieldKind::OptionalCount,
            Field::Host | Field::DatabaseUrl | Field::StatsdLabel => FieldKind::Text,
            Field::StatsdHost => FieldKind::OptionalText,
        }
    }

    pub fn name(&self) -> (r: &'static str)
        ensures
            r@ == self.name_spec(),
    {
        match self {
            Field::Debug => "debug",
            Field::Port => "port",
            Field::Host => "host",
            Field::DatabaseUrl => "database_url",
            Field::DatabasePoolMaxSize => "database_pool_max_size",
            Field::DatabaseUseTestTransactions => "database_use_test_transactions",
            Field::HumanLogs => "human_logs",
            Field::StatsdHost => "statsd_host",
            Field::StatsdPort => "statsd_port",
            Field::StatsdLabel => "statsd_label",
        }
    }

    pub fn env_var(&self) -> (r: &'static str)
        ensures
            r@ == self.env_var_spec(),
    {
        match self {
            Field::Debug => "AUTOEND__DEBUG",
            Field::Port => "AUTOEND__PORT",
            Field::Host => "AUTOEND__HOST",
            Field::DatabaseUrl => "AUTOEND__DATABASE_URL",
            Field::DatabasePoolMaxSize => "AUTOEND__DATABASE_POOL_MAX_SIZE",
            Field::DatabaseUseTestTransactions => "AUTOEND__DATABASE_USE_TEST_TRANSACTIONS",
            Field::HumanLogs => "AUTOEND__HUMAN_LOGS",
            Field::StatsdHost => "AUTOEND__STATSD_HOST",
            Field::StatsdPort => "AUTOEND__STATSD_PORT",
            Field::StatsdLabel => "AUTOEND__STATSD_LABEL",
        }
    }
}

} // verus!
