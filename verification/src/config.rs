//! Configuration resolution: mode parsing, environment defaults, and the
//! required-credential checks.

use vstd::prelude::*;

verus! {

/// The operation selected by the positional mode argument.
#[derive(Clone, Copy, Debug, PartialEq, Eq, Structural)]
pub enum Mode {
    Read,
    Write,
    Suspend,
    Invalid,
}

/// Which mode a given argument string selects: exactly the literals
/// `read`, `write` and `suspend` are recognized; everything else is invalid.
pub open spec fn mode_of(s: Seq<char>) -> Mode {
    if s == "read"@ {
        Mode::Read
    } else if s == "write"@ {
        Mode::Write
    } else if s == "suspend"@ {
        Mode::Suspend
    } else {
        Mode::Invalid
    }
}

/// Parse the positional mode argument.
pub fn parse_mode(mode: &str) -> (m: Mode)
    ensures
        m == mode_of(mode@),
{
    let m: String = mode.to_owned();
    if m == String::from_str("read") {
        Mode::Read
    } else if m == String::from_str("write") {
        Mode::Write
    } else if m == String::from_str("suspend") {
        Mode::Suspend
    } else {
        Mode::Invalid
    }
}

/// The message printed when the mode argument is not recognized; the
/// process then exits successfully.
pub fn invalid_mode_message() -> (r: String)
    ensures
        r@ == "Invalid mode. Use 'read' or 'write'."@,
{
    String::from_str("Invalid mode. Use 'read' or 'write'.")
}

/// A required credential is absent from the environment. Resolution fails
/// before any connection string is built or any network call is made.
#[derive(Clone, Copy, Debug, PartialEq, Eq, Structural)]
pub enum ConfigError {
    MissingPassword,
    MissingApiKey,
}

impl ConfigError {
    /// The fatal message reported for the missing credential.
    pub fn message(&self) -> (r: String)
        ensures
            *self == ConfigError::MissingPassword ==> r@
                == "NEON_PASSWORD must be set to environment variable"@,
            *self == ConfigError::MissingApiKey ==> r@
                == "NEON_API_KEY must be set to environment variable"@,
    {
        match self {
            ConfigError::MissingPassword => String::from_str(
                "NEON_PASSWORD must be set to environment variable",
            ),
            ConfigError::MissingApiKey => String::from_str(
                "NEON_API_KEY must be set to environment variable",
            ),
        }
    }
}

/// The resolved configuration: the mode plus every string the three
/// workloads need, immutable after resolution.
pub struct Config {
    pub mode: Mode,
    pub username: String,
    pub password: String,
    pub api_key: String,
    pub server_name: String,
    pub server_domain: String,
    pub project: String,
    pub table: String,
}

/// The value of an optional setting: the environment's value where one is
/// set, the default otherwise.
pub open spec fn setting_or(v: Option<String>, default: Seq<char>) -> Seq<char> {
    match v {
        Option::Some(s) => s@,
        Option::None => default,
    }
}

fn unwrap_or_default(v: Option<String>, default: &str) -> (r: String)
    ensures
        r@ == setting_or(v, default@),
{
    match v {
        Option::Some(s) => s,
        Option::None => default.to_owned(),
    }
}

/// Resolve the configuration from the mode argument and the environment
/// variables, handed in as plain optional strings. The password and the
/// API key are required; every other setting has a fixed default.
pub fn resolve_config(
    mode: &str,
    username: Option<String>,
    password: Option<String>,
    api_key: Option<String>,
    server_name: Option<String>,
    server_domain: Option<String>,
    project: Option<String>,
    table: Option<String>,
) -> (r: Result<Config, ConfigError>)
    ensures
        password is None <==> r == Err::<Config, ConfigError>(ConfigError::MissingPassword),
        password is Some && api_key is None <==> r == Err::<Config, ConfigError>(
            ConfigError::MissingApiKey,
        ),
        r is Ok <==> password is Some && api_key is Some,
        r matches Ok(cfg) ==> {
            &&& cfg.mode == mode_of(mode@)
            &&& cfg.username@ == setting_or(username, "neondb_owner"@)
            &&& cfg.password@ == password->0@
            &&& cfg.api_key@ == api_key->0@
            &&& cfg.server_name@ == setting_or(server_name, "ep-soft-mouse-w1azk5bq-pooler"@)
            &&& cfg.server_domain@ == setting_or(server_domain, "eu-west-1.aws.neon.build"@)
            &&& cfg.project@ == setting_or(project, "hello-world"@)
            &&& cfg.table@ == setting_or(table, "test_table"@)
        },
{
    let password = match password {
        Option::Some(p) => p,
        Option::None => {
            return Err(ConfigError::MissingPassword);
        },
    };
    let api_key = match api_key {
        Option::Some(k) => k,
        Option::None => {
            return Err(ConfigError::MissingApiKey);
        },
    };
    Ok(
        Config {
            mode: parse_mode(mode),
            username: unwrap_or_default(username, "neondb_owner"),
            password,
            api_key,
            server_name: unwrap_or_default(server_name, "ep-soft-mouse-w1azk5bq-pooler"),
            server_domain: unwrap_or_default(server_domain, "eu-west-1.aws.neon.build"),
            project: unwrap_or_default(project, "hello-world"),
            table: unwrap_or_default(table, "test_table"),
        },
    )
}

/// The host the database connection is made to: server name and domain
/// joined by a dot.
pub open spec fn endpoint_of(name: Seq<char>, domain: Seq<char>) -> Seq<char> {
    name + "."@ + domain
}

/// The connection descriptor: username, password and host embedded in a
/// fixed template that names the database and requires encryption.
pub open spec fn connection_string_of(
    username: Seq<char>,
    password: Seq<char>,
    endpoint: Seq<char>,
) -> Seq<char> {
    "postgresql://"@ + username + ":"@ + password + "@"@ + endpoint + "/neondb?sslmode=require"@
}

/// Build the database connection string from the resolved configuration.
pub fn connection_string(cfg: &Config) -> (r: String)
    ensures
        r@ == connection_string_of(
            cfg.username@,
            cfg.password@,
            endpoint_of(cfg.server_name@, cfg.server_domain@),
        ),
{
    let r = String::from_str("postgresql://")
        .concat(cfg.username.as_str())
        .concat(":")
        .concat(cfg.password.as_str())
        .concat("@")
        .concat(cfg.server_name.as_str())
        .concat(".")
        .concat(cfg.server_domain.as_str())
        .concat("/neondb?sslmode=require");
    proof {
        assert(r@ =~= connection_string_of(
            cfg.username@,
            cfg.password@,
            endpoint_of(cfg.server_name@, cfg.server_domain@),
        ));
    }
    r
}

/// The control-plane URL that suspends a compute endpoint: fixed API host,
/// project id and server name embedded in a fixed template.
pub open spec fn suspend_url_of(project: Seq<char>, server_name: Seq<char>) -> Seq<char> {
    "https://console-stage.neon.build/api/v2/projects/"@ + project + "/endpoints/"@ + server_name
        + "/suspend"@
}

/// Build the compute-suspend URL for the resolved project and server name.
pub fn suspend_url(project: &str, server_name: &str) -> (r: String)
    ensures
        r@ == suspend_url_of(project@, server_name@),
{
    let r = String::from_str("https://console-stage.neon.build/api/v2/projects/")
        .concat(project)
        .concat("/endpoints/")
        .concat(server_name)
        .concat("/suspend");
    proof {
        assert(r@ =~= suspend_url_of(project@, server_name@));
    }
    r
}

} // verus!
