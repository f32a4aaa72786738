//! Configuration values of the server. Reading them from the environment
//! is the caller's part; the library takes them as plain values.

use vstd::prelude::*;

verus! {

/// Outbound mail settings.
#[derive(Clone, Debug)]
pub struct EmailConfig {
    pub smtp_host: String,
    pub smtp_port: u16,
    pub smtp_user: String,
    pub smtp_pass: String,
    pub from_address: String,
}

/// Settings of the authentication core.
#[derive(Clone, Debug)]
pub struct AuthConfig {
    /// Secret that signs access tokens.
    pub jwt_secret: String,
    /// Issuer that access tokens are bound to.
    pub jwt_issuer: String,
    /// Audience that access tokens are bound to.
    pub jwt_audience: String,
    /// Lifetime of an access token, in minutes.
    pub access_token_expiry_minutes: i64,
    /// Lifetime of a refresh token, in days.
    pub refresh_token_expiry_days: i64,
    /// Number of failed logins at which an account is locked.
    pub max_login_failures: u32,
    /// How long a lockout lasts, in seconds.
    pub lockout_duration_seconds: i64,
}

/// Where the database is.
#[derive(Clone, Debug)]
pub struct DatabaseConfig {
    pub url: String,
}

/// Where the server listens.
#[derive(Clone, Debug)]
pub struct ServerConfig {
    pub port: u16,
    pub host: String,
}

/// Every setting of the server.
#[derive(Clone, Debug)]
pub struct AppConfig {
    pub database: DatabaseConfig,
    pub server: ServerConfig,
    pub auth: AuthConfig,
    pub email: EmailConfig,
}

impl EmailConfig {
    /// The settings used where the environment gives none: a local
    /// server on port 1025 that asks for no login.
    pub fn defaults() -> (c: EmailConfig)
        ensures
            c.smtp_host@ == "localhost"@,
            c.smtp_port == 1025,
            c.smtp_user@ == ""@,
            c.smtp_pass@ == ""@,
            c.from_address@ == "np-reply@localhost.com"@,
    {
        EmailConfig {
            smtp_host: "localhost".to_owned(),
            smtp_port: 1025,
            smtp_user: "".to_owned(),
            smtp_pass: "".to_owned(),
            from_address: "np-reply@localhost.com".to_owned(),
        }
    }
}

impl AuthConfig {
    /// The settings used where the environment gives none. The secret
    /// among them is known to everybody and must be replaced before the
    /// server faces anybody.
    pub fn defaults() -> (c: AuthConfig)
        ensures
            c.jwt_secret@ == "default_secret_that_must_be_changed"@,
            c.jwt_issuer@ == "my_blog_app"@,
            c.jwt_audience@ == "my_blog_app_users"@,
            c.access_token_expiry_minutes == 15,
            c.refresh_token_expiry_days == 7,
            c.max_login_failures == 5,
            c.lockout_duration_seconds == 900,
    {
        AuthConfig {
            jwt_secret: "default_secret_that_must_be_changed".to_owned(),
            jwt_issuer: "my_blog_app".to_owned(),
            jwt_audience: "my_blog_app_users".to_owned(),
            access_token_expiry_minutes: 15,
            refresh_token_expiry_days: 7,
            max_login_failures: 5,
            lockout_duration_seconds: 900,
        }
    }
}

impl ServerConfig {
    /// The address used where the environment gives none.
    pub fn defaults() -> (c: ServerConfig)
        ensures
            c.port == 8080,
            c.host@ == "127.0.0.1"@,
    {
        ServerConfig { port: 8080, host: "127.0.0.1".to_owned() }
    }
}

impl AppConfig {
    /// The configuration for a database, with every other setting at its
    /// default.
    pub fn defaults(database_url: String) -> (c: AppConfig)
        ensures
            c.database.url == database_url,
            c.server.port == 8080,
            c.server.host@ == "127.0.0.1"@,
            c.auth.jwt_issuer@ == "my_blog_app"@,
            c.auth.jwt_audience@ == "my_blog_app_users"@,
            c.auth.access_token_expiry_minutes == 15,
            c.auth.refresh_token_expiry_days == 7,
            c.auth.max_login_failures == 5,
            c.auth.lockout_duration_seconds == 900,
            c.email.smtp_host@ == "localhost"@,
            c.email.smtp_port == 1025,
    {
        AppConfig {
            database: DatabaseConfig { url: database_url },
            server: ServerConfig::defaults(),
            auth: AuthConfig::defaults(),
            email: EmailConfig::defaults(),
        }
    }
}

} // verus!
