//! Settings of the server, the answers of its status endpoints, and the
//! errors of its startup.

use vstd::prelude::*;

verus! {

/// The protocol version this server speaks.
pub const API_VERSION: u8 = 2;

/// The configuration of the database connection.
#[derive(Clone, Debug, PartialEq, Eq)]
pub struct DBConfig {
    /// Host the database is located on.
    pub host: String,
    /// Port the database is located on.
    pub port: u16,
    /// The name of the database to connect to.
    pub name: String,
    /// The user of the database connection.
    pub user: String,
    /// The password of the database connection.
    pub password: String,
}

/// Settings that endpoints use at runtime.
#[derive(Clone, Debug, PartialEq, Eq)]
pub struct RuntimeSettings {
    /// The directory where game data files are stored.
    pub game_data_path: String,
}

/// The health data of the server.
#[derive(Clone, Copy, Debug, PartialEq, Eq)]
pub struct HealthResponse {
    /// The number of registered accounts.
    pub registered_accounts: u64,
    /// The number of open connections.
    pub open_connections: u64,
}

/// The version data for clients.
#[derive(Clone, Copy, Debug, PartialEq, Eq)]
pub struct VersionResponse {
    /// The protocol version.
    pub version: u8,
}

/// The errors that can occur during server startup.
#[derive(Clone, Debug, PartialEq, Eq)]
pub enum StartServerError {
    /// An I/O error; holds its message.
    IO(String),
    /// The secret key of the configuration is not valid.
    InvalidSecretKey,
    /// The admin token of the configuration is not valid.
    InvalidAdminToken,
}

impl HealthResponse {
    /// Puts the health data together from the number of accounts and the
    /// registry's answer to a count query.
    pub fn new(registered_accounts: u64, open_connections: u64) -> (health: HealthResponse)
        ensures
            health.registered_accounts == registered_accounts,
            health.open_connections == open_connections,
    {
        HealthResponse { registered_accounts, open_connections }
    }
}

impl VersionResponse {
    /// The version data of this server.
    pub fn current() -> (version: VersionResponse)
        ensures
            version.version == API_VERSION,
    {
        VersionResponse { version: API_VERSION }
    }
}

impl StartServerError {
    /// The message that is shown for the error.
    pub open spec fn message_text(self) -> Seq<char> {
        match self {
            StartServerError::IO(reason) => reason@,
            StartServerError::InvalidSecretKey =>
                "Invalid parameter SecretKey. Consider using the subcommand keygen and update your configuration file"@,
            StartServerError::InvalidAdminToken => "Invalid admin token was specified"@,
        }
    }

    /// Returns the message that is shown for the error.
    pub fn message(&self) -> (text: String)
        ensures
            text@ == self.message_text(),
    {
        match self {
            StartServerError::IO(reason) => reason.clone(),
            StartServerError::InvalidSecretKey =>
                "Invalid parameter SecretKey. Consider using the subcommand keygen and update your configuration file".to_owned(),
            StartServerError::InvalidAdminToken => "Invalid admin token was specified".to_owned(),
        }
    }
}

} // verus!
