//! Resolution of the settings from three layers: the compiled-in defaults, an
//! optional configuration file, and environment variables under a fixed prefix.
//! Later layers override earlier ones key by key.

use vstd::prelude::*;
use crate::settings::{Field, FieldKind, Settings, SettingsView, default_view, opt_text};
use crate::text::{is_joined, same_text};

verus! {

/// Lower-cased prefix that marks an environment variable as a setting.
pub const ENV_PREFIX: &'static str = "autoend__";

/// What `str::to_lowercase` returns for a string.
pub uninterp spec fn lower_of(s: Seq<char>) -> Seq<char>;

/// What config's `Value::into_bool` gives for a string value; `None` when it refuses it.
pub uninterp spec fn bool_of(s: Seq<char>) -> Option<bool>;

/// What config's `Value::into_int` gives for a string value; `None` when it refuses it.
pub uninterp spec fn int_of(s: Seq<char>) -> Option<int>;

/// Relies on `str::to_lowercase`: the result depends on the characters alone.
#[verifier::external_body]
fn lowercase(s: &str) -> (r: String)
    ensures
        r@ == lower_of(s@),
{
    s.to_lowercase()
}

/// Relies on `config::Value::into_bool` applied to a string value.
#[verifier::external_body]
fn coerce_bool(s: &str) -> (r: Option<bool>)
    ensures
        r == bool_of(s@),
{
    config::Value::new(None, s).into_bool().ok()
}

/// Relies on `config::Value::into_int` applied to a string value.
#[verifier::external_body]
fn coerce_int(s: &str) -> (r: Option<i64>)
    ensures
        match r {
            Some(n) => int_of(s@) == Some(n as int),
            None => int_of(s@).is_none(),
        },
{
    config::Value::new(None, s).into_int().ok()
}

/// The configuration file layer as the caller found it.
pub enum FileLayer {
    /// No file was named.
    Absent,
    /// The file was read; its keys and values as text, in file order.
    Loaded(Vec<(String, String)>),
    /// The named file could not be located or parsed.
    Failed { path: String, cause: String },
}

/// Why resolution produced no settings.
#[derive(Clone, Debug)]
pub enum ConfigurationError {
    /// The configuration file could not be located or parsed.
    SourceError { path: String, cause: String },
    /// A field's value could not be turned into the field's type.
    ValidationError { field: Field, message: String },
    /// Any other failure of the source engine, passed through unchanged.
    OtherError { message: String },
}

/// The entries of the file layer; none when it is absent or failed.
pub open spec fn file_entries(file: FileLayer) -> Seq<(String, String)> {
    match file {
        FileLayer::Loaded(v) => v@,
        _ => Seq::empty(),
    }
}

/// The environment variable name, once lower-cased, that sets `f`.
pub open spec fn env_key(f: Field) -> Seq<char> {
    "autoend__"@ + f.name_spec()
}

/// The value of the last environment variable that sets `f`.
pub open spec fn env_value(env: Seq<(String, String)>, f: Field) -> Option<Seq<char>>
    decreases env.len(),
{
    if env.len() == 0 {
        None
    } else if lower_of(env.last().0@) == env_key(f) {
        Some(env.last().1@)
    } else {
        env_value(env.drop_last(), f)
    }
}

/// The value of the last file entry keyed by the name of `f`.
pub open spec fn file_value(file: Seq<(String, String)>, f: Field) -> Option<Seq<char>>
    decreases file.len(),
{
    if file.len() == 0 {
        None
    } else if file.last().0@ == f.name_spec() {
        Some(file.last().1@)
    } else {
        file_value(file.drop_last(), f)
    }
}

/// The text that the layers above the defaults give `f`: environment first.
pub open spec fn raw_value(
    file: Seq<(String, String)>,
    env: Seq<(String, String)>,
    f: Field,
) -> Option<Seq<char>> {
    match env_value(env, f) {
        Some(v) => Some(v),
        None => file_value(file, f),
    }
}

pub open spec fn flag_of(raw: Option<Seq<char>>, default: bool) -> Option<bool> {
    match raw {
        None => Some(default),
        Some(v) => bool_of(v),
    }
}

pub open spec fn port_of(raw: Option<Seq<char>>, default: u16) -> Option<u16> {
    match raw {
        None => Some(default),
        Some(v) => match int_of(v) {
            Some(n) => if 0 <= n <= u16::MAX { Some(n as u16) } else { None },
            None => None,
        },
    }
}

pub open spec fn count_of(raw: Option<Seq<char>>) -> Option<Option<u32>> {
    match raw {
        None => Some(None),
        Some(v) => match int_of(v) {
            Some(n) => if 0 <= n <= u32::MAX { Some(Some(n as u32)) } else { None },
            None => None,
        },
    }
}

pub open spec fn text_of(raw: Option<Seq<char>>, default: Seq<char>) -> Seq<char> {
    match raw {
        None => default,
        Some(v) => v,
    }
}

/// True when the value the layers give `f` cannot be turned into its type.
pub open spec fn fails(file: Seq<(String, String)>, env: Seq<(String, String)>, f: Field) -> bool {
    let raw = raw_value(file, env, f);
    match f.kind_spec() {
        FieldKind::Flag => flag_of(raw, false).is_none(),
        FieldKind::Port => port_of(raw, 0).is_none(),
        FieldKind::OptionalCount => count_of(raw).is_none(),
        _ => false,
    }
}

/// The first field, in declaration order, whose value cannot be used.
pub open spec fn first_failure(file: Seq<(String, String)>, env: Seq<(String, String)>) -> Option<Field> {
    if fails(file, env, Field::Debug) {
        Some(Field::Debug)
    } else if fails(file, env, Field::Port) {
        Some(Field::Port)
    } else if fails(file, env, Field::DatabasePoolMaxSize) {
        Some(Field::DatabasePoolMaxSize)
    } else if fails(file, env, Field::DatabaseUseTestTransactions) {
        Some(Field::DatabaseUseTestTransactions)
    } else if fails(file, env, Field::HumanLogs) {
        Some(Field::HumanLogs)
    } else if fails(file, env, Field::StatsdPort) {
        Some(Field::StatsdPort)
    } else {
        None
    }
}

/// The settings the layers give when no field fails.
pub open spec fn resolved(file: Seq<(String, String)>, env: Seq<(String, String)>) -> SettingsView {
    let d = default_view();
    SettingsView {
        debug: flag_of(raw_value(file, env, Field::Debug), d.debug).unwrap(),
        port: port_of(raw_value(file, env, Field::Port), d.port).unwrap(),
        host: text_of(raw_value(file, env, Field::Host), d.host),
        database_url: text_of(raw_value(file, env, Field::DatabaseUrl), d.database_url),
        database_pool_max_size: count_of(raw_value(file, env, Field::DatabasePoolMaxSize)).unwrap(),
        database_use_test_transactions: flag_of(
            raw_value(file, env, Field::DatabaseUseTestTransactions),
            d.database_use_test_transactions,
        ).unwrap(),
        human_logs: flag_of(raw_value(file, env, Field::HumanLogs), d.human_logs).unwrap(),
        statsd_host: raw_value(file, env, Field::StatsdHost),
        statsd_port: port_of(raw_value(file, env, Field::StatsdPort), d.statsd_port).unwrap(),
        statsd_label: text_of(raw_value(file, env, Field::StatsdLabel), d.statsd_label),
    }
}

/// The message carried by a validation error, by the kind of the field.
pub open spec fn message_spec(f: Field) -> Seq<char> {
    match f.kind_spec() {
        FieldKind::Flag => "expected a boolean (true, false, on, off, yes, no, 1 or 0)"@,
        FieldKind::Port => "expected an integer from 0 to 65535"@,
        _ => "expected an integer from 0 to 4294967295"@,
    }
}

/// What resolution returns for a file layer and an environment.
pub open spec fn resolution(
    file: FileLayer,
    env: Seq<(String, String)>,
    r: Result<Settings, ConfigurationError>,
) -> bool {
    match file {
        FileLayer::Failed { path, cause } => match r {
            Err(ConfigurationError::SourceError { path: p, cause: c }) => p@ == path@ && c@ == cause@,
            _ => false,
        },
        _ => {
            let entries = file_entries(file);
            match first_failure(entries, env) {
                Some(f) => match r {
                    Err(ConfigurationError::ValidationError { field, message }) =>
                        field == f && message@ == message_spec(f),
                    _ => false,
                },
                None => match r {
                    Ok(s) => s@ == resolved(entries, env),
                    _ => false,
                },
            }
        },
    }
}

fn message(f: Field) -> (r: String)
    ensures
        r@ == message_spec(f),
{
    match f {
        Field::Debug | Field::DatabaseUseTestTransactions | Field::HumanLogs =>
            String::from_str("expected a boolean (true, false, on, off, yes, no, 1 or 0)"),
        Field::Port | Field::StatsdPort => String::from_str("expected an integer from 0 to 65535"),
        _ => String::from_str("expected an integer from 0 to 4294967295"),
    }
}

/// The value that the last matching environment variable gives `f`.
pub fn env_lookup(env: &Vec<(String, String)>, f: Field) -> (r: Option<String>)
    ensures
        opt_text(r) == env_value(env@, f),
{
    let name = f.name();
    let mut i: usize = env.len();
    assert(env@.subrange(0, i as int) =~= env@);
    while i > 0
        invariant
            i <= env@.len(),
            name@ == f.name_spec(),
            env_value(env@.subrange(0, i as int), f) == env_value(env@, f),
        decreases i,
    {
        let ghost prefix = env@.subrange(0, i as int);
        assert(prefix.drop_last() =~= env@.subrange(0, i - 1));
        let lowered = lowercase(env[i - 1].0.as_str());
        if is_joined(lowered.as_str(), ENV_PREFIX, name) {
            proof {
                reveal_strlit("autoend__");
            }
            assert(ENV_PREFIX@ == "autoend__"@);
            return Some(env[i - 1].1.clone());
        }
        proof {
            reveal_strlit("autoend__");
        }
        i = i - 1;
    }
    assert(env@.subrange(0, 0) =~= Seq::<(String, String)>::empty());
    None
}

/// The value that the last file entry named after `f` gives it.
pub fn file_lookup(file: &Vec<(String, String)>, f: Field) -> (r: Option<String>)
    ensures
        opt_text(r) == file_value(file@, f),
{
    let name = f.name();
    let mut i: usize = file.len();
    assert(file@.subrange(0, i as int) =~= file@);
    while i > 0
        invariant
            i <= file@.len(),
            name@ == f.name_spec(),
            file_value(file@.subrange(0, i as int), f) == file_value(file@, f),
        decreases i,
    {
        let ghost prefix = file@.subrange(0, i as int);
        assert(prefix.drop_last() =~= file@.subrange(0, i - 1));
        if same_text(file[i - 1].0.as_str(), name) {
            return Some(file[i - 1].1.clone());
        }
        i = i - 1;
    }
    assert(file@.subrange(0, 0) =~= Seq::<(String, String)>::empty());
    None
}

/// The text the file and environment layers give `f`; environment wins.
pub fn lookup(file: &Vec<(String, String)>, env: &Vec<(String, String)>, f: Field) -> (r: Option<String>)
    ensures
        opt_text(r) == raw_value(file@, env@, f),
{
    match env_lookup(env, f) {
        Some(v) => Some(v),
        None => file_lookup(file, f),
    }
}

/// Turns the text of a flag into a boolean; `default` when no layer set it.
pub fn flag_value(raw: &Option<String>, default: bool) -> (r: Option<bool>)
    ensures
        r == flag_of(opt_text(*raw), default),
{
    match raw {
        None => Some(default),
        Some(v) => coerce_bool(v.as_str()),
    }
}

/// Turns the text of a port into a `u16`; `default` when no layer set it.
pub fn port_value(raw: &Option<String>, default: u16) -> (r: Option<u16>)
    ensures
        r == port_of(opt_text(*raw), default),
{
    match raw {
        None => Some(default),
        Some(v) => match coerce_int(v.as_str()) {
            Some(n) => if 0 <= n && n <= 65535 { Some(n as u16) } else { None },
            None => None,
        },
    }
}

/// Turns the text of an optional count into a `u32`; absent when no layer set it.
pub fn count_value(raw: &Option<String>) -> (r: Option<Option<u32>>)
    ensures
        r == count_of(opt_text(*raw)),
{
    match raw {
        None => Some(None),
        Some(v) => match coerce_int(v.as_str()) {
            Some(n) => if 0 <= n && n <= 4294967295 { Some(Some(n as u32)) } else { None },
            None => None,
        },
    }
}

/// The text of a string field; `default` when no layer set it.
pub fn text_value(raw: Option<String>, default: &str) -> (r: String)
    ensures
        r@ == text_of(opt_text(raw), default@),
{
    match raw {
        None => String::from_str(default),
        Some(v) => v,
    }
}

fn invalid(f: Field) -> (r: Result<Settings, ConfigurationError>)
    ensures
        match r {
            Err(ConfigurationError::ValidationError { field, message }) =>
                field == f && message@ == message_spec(f),
            _ => false,
        },
{
    Err(ConfigurationError::ValidationError { field: f, message: message(f) })
}

/// Merges the entries of a configuration file over the defaults, then the
/// environment variables over both, and turns the result into settings.
pub fn resolve_entries(file: &Vec<(String, String)>, env: &Vec<(String, String)>) -> (r: Result<Settings, ConfigurationError>)
    ensures
        match first_failure(file@, env@) {
            Some(f) => match r {
                Err(ConfigurationError::ValidationError { field, message }) =>
                    field == f && message@ == message_spec(f),
                _ => false,
            },
            None => match r {
                Ok(s) => s@ == resolved(file@, env@),
                _ => false,
            },
        },
{
    let debug = match flag_value(&lookup(file, env, Field::Debug), false) {
        Some(b) => b,
        None => return invalid(Field::Debug),
    };
    let port = match port_value(&lookup(file, env, Field::Port), crate::settings::DEFAULT_PORT) {
        Some(p) => p,
        None => return invalid(Field::Port),
    };
    let database_pool_max_size = match count_value(&lookup(file, env, Field::DatabasePoolMaxSize)) {
        Some(c) => c,
        None => return invalid(Field::DatabasePoolMaxSize),
    };
    let database_use_test_transactions = match flag_value(
        &lookup(file, env, Field::DatabaseUseTestTransactions),
        false,
    ) {
        Some(b) => b,
        None => return invalid(Field::DatabaseUseTestTransactions),
    };
    let human_logs = match flag_value(&lookup(file, env, Field::HumanLogs), false) {
        Some(b) => b,
        None => return invalid(Field::HumanLogs),
    };
    let statsd_port = match port_value(
        &lookup(file, env, Field::StatsdPort),
        crate::settings::DEFAULT_STATSD_PORT,
    ) {
        Some(p) => p,
        None => return invalid(Field::StatsdPort),
    };
    let host = text_value(lookup(file, env, Field::Host), "127.0.0.1");
    let database_url = text_value(
        lookup(file, env, Field::DatabaseUrl),
        "mysql://root@127.0.0.1/autopush",
    );
    let statsd_host = lookup(file, env, Field::StatsdHost);
    let statsd_label = text_value(lookup(file, env, Field::StatsdLabel), "autoendpoint");
    let s = Settings {
        debug,
        port,
        host,
        database_url,
        database_pool_max_size,
        database_use_test_transactions,
        human_logs,
        statsd_host,
        statsd_port,
        statsd_label,
    };
    assert(s@ == resolved(file@, env@));
    Ok(s)
}

impl Settings {
    /// Resolves the settings from the defaults, the file layer and the
    /// environment variables, in that order of precedence.
    pub fn with_env_and_config_file(file: &FileLayer, env: &Vec<(String, String)>) -> (r: Result<Settings, ConfigurationError>)
        ensures
            resolution(*file, env@, r),
    {
        match file {
            FileLayer::Failed { path, cause } => Err(ConfigurationError::SourceError { path: path.clone(), cause: cause.clone() }),
            FileLayer::Loaded(entries) => resolve_entries(entries, env),
            FileLayer::Absent => {
                let none: Vec<(String, String)> = Vec::new();
                assert(none@ =~= file_entries(*file));
                resolve_entries(&none, env)
            },
        }
    }
}

/// The operator-facing text of an error.
pub open spec fn report_spec(e: ConfigurationError) -> Seq<char> {
    match e {
        ConfigurationError::SourceError { path, cause } =>
            "Cannot read configuration file `"@ + path@ + "`: "@ + cause@,
        ConfigurationError::ValidationError { field, message } =>
            "Bad configuration: `"@ + field.name_spec() + "` "@ + message@
                + ". Please set it in the config file or use the environment variable `"@
                + field.env_var_spec() + "`"@,
        ConfigurationError::OtherError { message } => "Configuration error: "@ + message@,
    }
}

impl ConfigurationError {
    /// A plain-language description for the operator console.
    pub fn report(&self) -> (r: String)
        ensures
            r@ == report_spec(*self),
    {
        match self {
            ConfigurationError::SourceError { path, cause } => {
                let mut out = String::from_str("Cannot read configuration file `");
                out.append(path.as_str());
                out.append("`: ");
                out.append(cause.as_str());
                out
            },
            ConfigurationError::ValidationError { field, message } => {
                let mut out = String::from_str("Bad configuration: `");
                out.append(field.name());
                out.append("` ");
                out.append(message.as_str());
                out.append(". Please set it in the config file or use the environment variable `");
                out.append(field.env_var());
                out.append("`");
                out
            },
            ConfigurationError::OtherError { message } => {
                let mut out = String::from_str("Configuration error: ");
                out.append(message.as_str());
                out
            },
        }
    }
}

} // verus!
