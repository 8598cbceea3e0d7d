//! The settings the service starts from, and the environment that selects
//! which settings file is laid over the base file.

use vstd::prelude::*;
use vstd::string::StringExecFns;
use crate::text::{decimal, lowercase, str_eq, to_decimal, to_lowercase};

verus! {

/// The directory of the settings files, under the directory the service is
/// started in.
pub const CONFIGURATION_DIRECTORY: &'static str = "configuration";

/// The settings file that holds for every environment.
pub const BASE_FILE: &'static str = "base.yaml";

/// The environment variable that selects the environment.
pub const ENVIRONMENT_VARIABLE: &'static str = "APP_ENVIRONMENT";

/// All settings of the service.
#[derive(Debug, Clone)]
pub struct Settings {
    pub database: DbSettings,
    pub app: AppSettings,
    pub avatar: AvatarSettings,
    pub auth: AuthSettings,
}

/// Where the HTTP server listens.
#[derive(Debug, Clone)]
pub struct AppSettings {
    pub port: u16,
    pub host: String,
}

/// How to reach the database.
#[derive(Debug, Clone)]
pub struct DbSettings {
    pub username: String,
    pub password: String,
    pub port: u16,
    pub host: String,
    pub database_name: String,
}

/// The avatar service and the image it falls back on.
#[derive(Debug, Clone)]
pub struct AvatarSettings {
    pub base_url: String,
    pub default_img: String,
}

/// One class of token: its secret, its lifetime and the age of its cookie,
/// both in minutes.
#[derive(Debug, Clone)]
pub struct TokenConfig {
    pub key: String,
    pub exp: i64,
    pub maxage: i64,
}

/// The two classes of token.
#[derive(Debug, Clone)]
pub struct AuthSettings {
    pub access: TokenConfig,
    pub refresh: TokenConfig,
}

/// The deployment environment.
#[derive(Debug, Clone, Copy, PartialEq, Eq, Structural)]
pub enum Environment {
    Local,
    Production,
}

/// The environment that a lower-case name stands for, if any.
pub open spec fn environment_named(name: Seq<char>) -> Option<Environment> {
    if name == "local"@ {
        Some(Environment::Local)
    } else if name == "production"@ {
        Some(Environment::Production)
    } else {
        None
    }
}

/// The complaint about a name that stands for no environment.
pub open spec fn unsupported_environment(name: Seq<char>) -> Seq<char> {
    name + " is not a supported environment. Use either `local` or `production`."@
}

/// What a lower-case name parses to.
pub open spec fn parsed_environment(name: Seq<char>) -> Result<Environment, Seq<char>> {
    match environment_named(name) {
        Some(environment) => Ok(environment),
        None => Err(unsupported_environment(name)),
    }
}

/// A parse result with its message taken by its view.
pub open spec fn parse_view(r: Result<Environment, String>) -> Result<Environment, Seq<char>> {
    match r {
        Ok(environment) => Ok(environment),
        Err(message) => Err(message@),
    }
}

/// The address of a database: user, password, host, port and database name.
pub open spec fn postgres_url(
    username: Seq<char>,
    password: Seq<char>,
    host: Seq<char>,
    port: u16,
    database_name: Seq<char>,
) -> Seq<char> {
    "postgres://"@ + username + ":"@ + password + "@"@ + host + ":"@ + decimal(port as nat)
        + "/"@ + database_name
}

impl Environment {
    /// The name of the environment.
    pub open spec fn name(self) -> Seq<char> {
        match self {
            Environment::Local => "local"@,
            Environment::Production => "production"@,
        }
    }

    /// The name of the environment, as text.
    pub fn as_str(&self) -> (r: &'static str)
        ensures
            r@ == self.name(),
    {
        match self {
            Environment::Local => "local",
            Environment::Production => "production",
        }
    }

    /// Parses a name that is already in lower case.
    pub fn from_lowercase(name: &str) -> (r: Result<Environment, String>)
        ensures
            parse_view(r) == parsed_environment(name@),
    {
        if str_eq(name, "local") {
            Ok(Environment::Local)
        } else if str_eq(name, "production") {
            Ok(Environment::Production)
        } else {
            let mut message = String::from_str(name);
            message.append(" is not a supported environment. Use either `local` or `production`.");
            Err(message)
        }
    }

    /// Parses a name, whatever its case.
    pub fn try_from(s: String) -> (r: Result<Environment, String>)
        ensures
            parse_view(r) == parsed_environment(lowercase(s@)),
    {
        let name = to_lowercase(s.as_str());
        Environment::from_lowercase(name.as_str())
    }

    /// The environment that the value of the environment variable selects:
    /// the local one where the variable is not set.
    pub fn from_variable(value: Option<String>) -> (r: Result<Environment, String>)
        ensures
            match value {
                Some(s) => parse_view(r) == parsed_environment(lowercase(s@)),
                None => r == Ok::<Environment, String>(Environment::Local),
            },
    {
        match value {
            Some(s) => Environment::try_from(s),
            None => Ok(Environment::Local),
        }
    }

    /// The settings file of this environment.
    pub fn file_name(&self) -> (r: String)
        ensures
            r@ == self.name() + ".yaml"@,
    {
        let mut name = String::from_str(self.as_str());
        name.append(".yaml");
        name
    }
}

impl AppSettings {
    /// The address the server binds: host, colon, port.
    pub fn address(&self) -> (r: String)
        ensures
            r@ == self.host@ + ":"@ + decimal(self.port as nat),
    {
        let mut address = self.host.clone();
        address.append(":");
        let port = to_decimal(self.port as u64);
        address.append(port.as_str());
        address
    }
}

impl DbSettings {
    /// The address under which the connection pool reaches the database.
    pub fn connection_url(&self) -> (r: String)
        ensures
            r@ == postgres_url(
                self.username@,
                self.password@,
                self.host@,
                self.port,
                self.database_name@,
            ),
    {
        let mut url = String::from_str("postgres://");
        url.append(self.username.as_str());
        url.append(":");
        url.append(self.password.as_str());
        url.append("@");
        url.append(self.host.as_str());
        url.append(":");
        let port = to_decimal(self.port as u64);
        url.append(port.as_str());
        url.append("/");
        url.append(self.database_name.as_str());
        url
    }
}

} // verus!
