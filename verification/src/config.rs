use vstd::prelude::*;

verus! {

#[verifier::external_type_specification]
#[verifier::external_body]
pub struct ExConfig(::config::Config);

#[verifier::external_type_specification]
#[verifier::external_body]
pub struct ExConfigError(::config::ConfigError);

/// What a loaded configuration answers to `Config::get_string`: each key for
/// which that lookup succeeds, mapped to the string it returns.
pub uninterp spec fn config_strings(cfg: ::config::Config) -> Map<Seq<char>, Seq<char>>;

/// What a loaded configuration answers to `Config::get::<u64>`: each key for
/// which that lookup succeeds, mapped to the unsigned integer it returns.
pub uninterp spec fn config_unsigned(cfg: ::config::Config) -> Map<Seq<char>, u64>;

/// Builds a configuration from the YAML file named `file_path`, through
/// `config::Config::builder`, `ConfigBuilder::add_source` with
/// `config::File::new(file_path, FileFormat::Yaml)`, and `ConfigBuilder::build`.
/// The result depends on what is on disk: nothing is promised of it.
#[verifier::external_body]
fn load_yaml_file(file_path: &str) -> (res: Result<::config::Config, ::config::ConfigError>) {
    ::config::Config::builder().add_source(
        ::config::File::new(file_path, ::config::FileFormat::Yaml),
    ).build()
}

/// `config::Config::get_string`: it succeeds exactly for the keys of
/// `config_strings(cfg)` and then returns the string held there. Only the
/// plain keys of the settings are admitted: a key with a negative list
/// subscript can make the path lookup of the crate panic.
#[verifier::external_body]
fn config_get_string(cfg: &::config::Config, key: &str) -> (res: Result<String, ::config::ConfigError>)
    requires
        is_settings_key(key@),
    ensures
        res is Ok <==> config_strings(*cfg).contains_key(key@),
        res matches Ok(s) ==> s@ == config_strings(*cfg)[key@],
{
    cfg.get_string(key)
}

/// `config::Config::get::<u64>`: it succeeds exactly for the keys of
/// `config_unsigned(cfg)` and then returns the integer held there. Only the
/// plain keys of the settings are admitted, as for `config_get_string`.
#[verifier::external_body]
fn config_get_unsigned(cfg: &::config::Config, key: &str) -> (res: Result<u64, ::config::ConfigError>)
    requires
        is_settings_key(key@),
    ensures
        res is Ok <==> config_unsigned(*cfg).contains_key(key@),
        res matches Ok(n) ==> n == config_unsigned(*cfg)[key@],
{
    cfg.get::<u64>(key)
}

/// The settings the service runs with.
pub struct Settings {
    pub application_host: String,
    pub application_port: u16,
    pub redis_url: String,
    pub api_url: String,
}

/// The settings as mathematical values.
pub struct SettingsView {
    pub application_host: Seq<char>,
    pub application_port: u16,
    pub redis_url: Seq<char>,
    pub api_url: Seq<char>,
}

impl View for Settings {
    type V = SettingsView;

    open spec fn view(&self) -> SettingsView {
        SettingsView {
            application_host: self.application_host@,
            application_port: self.application_port,
            redis_url: self.redis_url@,
            api_url: self.api_url@,
        }
    }
}

/// One field of the settings, named by the key it is read from.
#[derive(Clone, Copy, Debug, PartialEq, Eq)]
pub enum SettingsField {
    ApplicationHost,
    ApplicationPort,
    RedisUrl,
    ApiUrl,
}

/// Why the settings could not be loaded.
#[derive(Debug)]
pub enum SettingsError {
    /// The file could not be read or parsed.
    Source(::config::ConfigError),
    /// The field could not be read from the loaded configuration.
    Field { field: SettingsField, cause: ::config::ConfigError },
}

pub open spec fn host_key() -> Seq<char> {
    "application_host"@
}

pub open spec fn port_key() -> Seq<char> {
    "application_port"@
}

pub open spec fn redis_key() -> Seq<char> {
    "redis_url"@
}

pub open spec fn api_key() -> Seq<char> {
    "api_url"@
}

/// Whether `key` is one of the keys the settings are read from.
pub open spec fn is_settings_key(key: Seq<char>) -> bool {
    key == host_key() || key == port_key() || key == redis_key() || key == api_key()
}

/// The first field, in the order the settings declare them, that the
/// configuration cannot give.
pub open spec fn first_unreadable(cfg: ::config::Config) -> Option<SettingsField> {
    if !config_strings(cfg).contains_key(host_key()) {
        Some(SettingsField::ApplicationHost)
    } else if !config_unsigned(cfg).contains_key(port_key()) {
        Some(SettingsField::ApplicationPort)
    } else if !config_strings(cfg).contains_key(redis_key()) {
        Some(SettingsField::RedisUrl)
    } else if !config_strings(cfg).contains_key(api_key()) {
        Some(SettingsField::ApiUrl)
    } else {
        None
    }
}

/// The settings a configuration describes, when it can give every field.
/// The port is the configured unsigned integer taken modulo 2^16, as the
/// deserializer of the configuration crate narrows it.
pub open spec fn settings_of(cfg: ::config::Config) -> Option<SettingsView> {
    if first_unreadable(cfg) is Some {
        None
    } else {
        Some(
            SettingsView {
                application_host: config_strings(cfg)[host_key()],
                application_port: (config_unsigned(cfg)[port_key()] % 65536) as u16,
                redis_url: config_strings(cfg)[redis_key()],
                api_url: config_strings(cfg)[api_key()],
            },
        )
    }
}

/// The settings of a configuration hold its four values as written, except
/// that a port above 65535 is narrowed to its low 16 bits: a port that fits
/// in 16 bits is kept as it is, and the narrowed port differs from the
/// configured one by a multiple of 65536. They exist exactly when all four
/// values can be read; otherwise the field reported is the first, in the
/// order host, port, redis URL, API URL, that cannot be read.
pub proof fn lemma_settings_of_fields(cfg: ::config::Config)
    ensures
        settings_of(cfg) is Some <==> (config_strings(cfg).contains_key("application_host"@)
            && config_unsigned(cfg).contains_key("application_port"@)
            && config_strings(cfg).contains_key("redis_url"@)
            && config_strings(cfg).contains_key("api_url"@)),
        settings_of(cfg) matches Some(v) ==> {
            &&& v.application_host == config_strings(cfg)["application_host"@]
            &&& v.redis_url == config_strings(cfg)["redis_url"@]
            &&& v.api_url == config_strings(cfg)["api_url"@]
            &&& config_unsigned(cfg)["application_port"@] < 65536 ==> v.application_port
                == config_unsigned(cfg)["application_port"@]
            &&& (config_unsigned(cfg)["application_port"@] - v.application_port) % 65536 == 0
        },
        (first_unreadable(cfg) == Some(SettingsField::ApplicationHost)) <==> !config_strings(
            cfg,
        ).contains_key("application_host"@),
        (first_unreadable(cfg) == Some(SettingsField::ApplicationPort)) <==> (config_strings(
            cfg,
        ).contains_key("application_host"@) && !config_unsigned(cfg).contains_key(
            "application_port"@,
        )),
        (first_unreadable(cfg) == Some(SettingsField::RedisUrl)) <==> (config_strings(
            cfg,
        ).contains_key("application_host"@) && config_unsigned(cfg).contains_key(
            "application_port"@,
        ) && !config_strings(cfg).contains_key("redis_url"@)),
        (first_unreadable(cfg) == Some(SettingsField::ApiUrl)) <==> (config_strings(
            cfg,
        ).contains_key("application_host"@) && config_unsigned(cfg).contains_key(
            "application_port"@,
        ) && config_strings(cfg).contains_key("redis_url"@) && !config_strings(
            cfg,
        ).contains_key("api_url"@)),
{
}

impl Settings {
    /// Loads the settings from the YAML file named `file_path`.
    pub fn new(file_path: &str) -> (res: Result<Settings, SettingsError>)
        ensures
            res matches Ok(s) ==> exists|cfg: ::config::Config| settings_of(cfg) == Some(s@),
            res matches Err(SettingsError::Field { field, .. }) ==> exists|cfg: ::config::Config|
                first_unreadable(cfg) == Some(field),
    {
        match load_yaml_file(file_path) {
            Err(e) => Err(SettingsError::Source(e)),
            Ok(cfg) => Settings::from_config(&cfg),
        }
    }

    /// Reads the settings out of a loaded configuration: every field must be
    /// readable, and the first one that is not is reported.
    pub fn from_config(cfg: &::config::Config) -> (res: Result<Settings, SettingsError>)
        ensures
            res is Ok <==> settings_of(*cfg) is Some,
            res matches Ok(s) ==> settings_of(*cfg) == Some(s@),
            res is Err ==> (res matches Err(SettingsError::Field { field, .. })
                && first_unreadable(*cfg) == Some(field)),
            res matches Ok(s) ==> {
                &&& s.application_host@ == config_strings(*cfg)["application_host"@]
                &&& s.redis_url@ == config_strings(*cfg)["redis_url"@]
                &&& s.api_url@ == config_strings(*cfg)["api_url"@]
                &&& config_unsigned(*cfg)["application_port"@] < 65536 ==> s.application_port
                    == config_unsigned(*cfg)["application_port"@]
                &&& (config_unsigned(*cfg)["application_port"@] - s.application_port) % 65536 == 0
            },
    {
        let application_host = match config_get_string(cfg, "application_host") {
            Ok(s) => s,
            Err(cause) => {
                return Err(SettingsError::Field { field: SettingsField::ApplicationHost, cause });
            },
        };
        let port = match config_get_unsigned(cfg, "application_port") {
            Ok(n) => n,
            Err(cause) => {
                return Err(SettingsError::Field { field: SettingsField::ApplicationPort, cause });
            },
        };
        let redis_url = match config_get_string(cfg, "redis_url") {
            Ok(s) => s,
            Err(cause) => {
                return Err(SettingsError::Field { field: SettingsField::RedisUrl, cause });
            },
        };
        let api_url = match config_get_string(cfg, "api_url") {
            Ok(s) => s,
            Err(cause) => {
                return Err(SettingsError::Field { field: SettingsField::ApiUrl, cause });
            },
        };
        let application_port: u16 = (port % 65536) as u16;
        proof {
            lemma_settings_of_fields(*cfg);
        }
        Ok(Settings { application_host, application_port, redis_url, api_url })
    }
}

} // verus!
