//! Application settings and the PostgreSQL connection URL built from them.
//!
//! The settings are plain values here; reading them from the configuration
//! file, and keeping the secrets wrapped, happens at the application edge.

use vstd::prelude::*;
use vstd::string::StringExecFns;

use crate::text::{decimal, push_decimal};

verus! {

/// All settings of the service.
pub struct Settings {
    pub database: DatabaseSettings,
    pub application_port: u16,
    pub email_client: EmailClientSettings,
}

/// How to reach the PostgreSQL database.
pub struct DatabaseSettings {
    pub username: String,
    pub password: String,
    pub port: u16,
    pub host: String,
    pub database_name: String,
}

/// How to reach the e-mail delivery API.
pub struct EmailClientSettings {
    pub sender_api_url: String,
    pub sender: String,
    pub authorization_token: String,
    pub timeout_milli: i16,
}

impl DatabaseSettings {
    /// `postgres://{username}:{password}@{host}:{port}`.
    pub open spec fn server_url(&self) -> Seq<char> {
        "postgres://"@ + self.username@ + ":"@ + self.password@ + "@"@ + self.host@ + ":"@
            + decimal(self.port as nat)
    }

    /// `postgres://{username}:{password}@{host}:{port}/{database_name}`.
    pub open spec fn database_url(&self) -> Seq<char> {
        self.server_url() + "/"@ + self.database_name@
    }

    /// The URL of the configured database.
    pub fn connection_string(&self) -> (url: String)
        ensures
            url@ == self.database_url(),
    {
        let mut url = self.connection_string_without_db();
        url.append("/");
        url.append(self.database_name.as_str());
        url
    }

    /// The URL of the database server, naming no database.
    pub fn connection_string_without_db(&self) -> (url: String)
        ensures
            url@ == self.server_url(),
    {
        let mut url = String::from_str("postgres://");
        url.append(self.username.as_str());
        url.append(":");
        url.append(self.password.as_str());
        url.append("@");
        url.append(self.host.as_str());
        url.append(":");
        push_decimal(&mut url, self.port);
        url
    }
}

/// The database URL is the server URL followed by `/` and the database name:
/// both connection strings agree on everything before the database.
pub proof fn lemma_database_url_extends_server_url(settings: DatabaseSettings)
    ensures
        settings.database_url() == settings.server_url() + "/"@ + settings.database_name@,
        settings.database_url().take(settings.server_url().len() as int) == settings.server_url(),
{
    assert(settings.database_url().take(settings.server_url().len() as int) =~= settings.server_url());
}

} // verus!
