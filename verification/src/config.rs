//! Deployment environments and the plain settings records.
use vstd::prelude::*;
use vstd::std_specs::convert::FromSpecImpl;
use crate::utils::text::lowercase;

verus! {

/// The environment a process runs in.
#[derive(PartialEq, Eq, Structural, Clone, Copy, Debug)]
pub enum Env {
    Local,
    Production,
    Test,
}

impl Env {
    /// The lower-case name of the environment, as used in settings file names.
    pub fn as_str(&self) -> (name: &'static str)
        ensures
            name@ == self.name(),
    {
        match self {
            Env::Local => "local",
            Env::Production => "production",
            Env::Test => "test",
        }
    }

    /// The name of the environment as a sequence of characters.
    pub open spec fn name(&self) -> Seq<char> {
        match self {
            Env::Local => "local"@,
            Env::Production => "production"@,
            Env::Test => "test"@,
        }
    }
}

/// The environment that a text names, whatever its case; the local one
/// where it names none.
pub open spec fn env_named(text: Seq<char>) -> Env {
    let name = lowercase(text);
    if name == "production"@ {
        Env::Production
    } else if name == "test"@ {
        Env::Test
    } else {
        Env::Local
    }
}

impl From<String> for Env {
    fn from(value: String) -> (env: Self)
        ensures
            env == env_named(value@),
    {
        let name = value.as_str().to_lowercase();
        if name.as_str().eq("production") {
            Env::Production
        } else if name.as_str().eq("test") {
            Env::Test
        } else {
            Env::Local
        }
    }
}

impl FromSpecImpl<String> for Env {
    open spec fn obeys_from_spec() -> bool {
        true
    }

    open spec fn from_spec(value: String) -> Self {
        env_named(value@)
    }
}

/// Where the server listens.
#[derive(Clone, Debug)]
pub struct AppConfig {
    pub port: u16,
    pub host: String,
}

/// How the database is reached.
#[derive(Clone, Debug)]
pub struct DatabaseConfig {
    pub username: String,
    pub password: String,
    pub host: String,
    pub port: u16,
    pub database_name: String,
    pub require_ssl: bool,
}

/// Whether a connection to the database must be encrypted or merely may be.
#[derive(Clone, Copy, Debug, PartialEq, Eq, Structural)]
pub enum SslMode {
    Require,
    Prefer,
}

impl DatabaseConfig {
    /// The encryption to ask of the database: required where the settings
    /// say so, else preferred.
    pub fn ssl_mode(&self) -> (mode: SslMode)
        ensures
            mode == if self.require_ssl {
                SslMode::Require
            } else {
                SslMode::Prefer
            },
    {
        if self.require_ssl {
            SslMode::Require
        } else {
            SslMode::Prefer
        }
    }
}

/// How the mail service is reached, and in whose name the server writes.
#[derive(Clone, Debug)]
pub struct EmailClientConfig {
    pub base_url: String,
    pub sender_email: String,
}

/// All the settings of the server.
#[derive(Clone, Debug)]
pub struct Config {
    pub app: AppConfig,
    pub database: DatabaseConfig,
    pub email_client: EmailClientConfig,
}

} // verus!
