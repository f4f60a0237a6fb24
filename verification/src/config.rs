//! The application configuration, read from environment settings.
//!
//! Three settings are required (`BASE_URL`, `APP_SECRET`, `DATABASE_URL`);
//! the others fall back to defaults when unset or when they do not parse.

use vstd::prelude::*;
use crate::text::{owned, push_str, parse_u16, parse_u32, parse_bool, parse_unsigned, parse_bool_spec};

verus! {

pub const DEFAULT_MAX_POOL: u32 = 1;

/// The configuration parameters for the application.
#[derive(Debug)]
pub struct AppConfig {
    pub base_url: String,
    pub secret_key: String,
    pub database_url: String,
    pub database_max_pool: u32,
    pub smtp_host: String,
    pub smtp_port: u16,
    pub smtp_secure: bool,
    pub smtp_username: String,
    pub smtp_password: String,
    pub smtp_mail_from: String,
    pub github_client_id: String,
    pub github_client_secret: String,
}

/// Why the configuration could not be loaded.
#[derive(Debug)]
pub enum ConfigError {
    /// The named environment variable is not set.
    MissingEnvVar(&'static str),
}

impl ConfigError {
    /// The message the error is displayed with: `"{var} is missing"`.
    pub fn message(&self) -> (m: String)
        ensures
            match self {
                ConfigError::MissingEnvVar(var) => m@ == var@ + " is missing"@,
            },
    {
        match self {
            ConfigError::MissingEnvVar(var) => {
                let mut m = owned(var);
                push_str(&mut m, " is missing");
                m
            },
        }
    }
}

/// The values of the configuration's environment variables, `None` where unset.
#[derive(Debug)]
pub struct ConfigVars {
    pub base_url: Option<String>,
    pub app_secret: Option<String>,
    pub database_url: Option<String>,
    pub database_max_pool: Option<String>,
    pub smtp_host: Option<String>,
    pub smtp_port: Option<String>,
    pub smtp_secure: Option<String>,
    pub smtp_username: Option<String>,
    pub smtp_password: Option<String>,
    pub smtp_mail_from: Option<String>,
    pub github_client_id: Option<String>,
    pub github_client_secret: Option<String>,
}

/// A text setting, or its default when unset.
pub open spec fn text_or(v: Option<String>, default: Seq<char>) -> Seq<char> {
    match v {
        Some(s) => s@,
        None => default,
    }
}

/// A text setting that is set is taken as it is, whatever its default;
/// only an unset one takes the default.
pub proof fn lemma_set_text_is_kept(s: String, default: Seq<char>)
    ensures
        text_or(Some(s), default) == s@,
        text_or(None, default) == default,
{
}

/// A number setting that parses within `max`, or its default.
pub open spec fn number_or(v: Option<String>, max: nat, default: nat) -> nat {
    match v {
        Some(s) => match parse_unsigned(s@, max) {
            Some(n) => n,
            None => default,
        },
        None => default,
    }
}

/// A boolean setting that parses, or its default.
pub open spec fn bool_or(v: Option<String>, default: bool) -> bool {
    match v {
        Some(s) => match parse_bool_spec(s@) {
            Some(b) => b,
            None => default,
        },
        None => default,
    }
}

fn text_or_default(v: Option<String>, default: &str) -> (r: String)
    ensures
        r@ == text_or(v, default@),
        v matches Some(s) ==> r@ == s@,
        v is None ==> r@ == default@,
{
    match v {
        Some(s) => s,
        None => owned(default),
    }
}

/// Load the configuration from the environment settings. The first missing
/// required variable, in the order `BASE_URL`, `APP_SECRET`, `DATABASE_URL`,
/// is the error; otherwise every other setting is its value when set and
/// parsable, else its default (`DATABASE_MAX_POOL` 1, `SMTP_HOST`
/// `localhost`, `SMTP_PORT` 1025, `SMTP_SECURE` false, `SMTP_MAIL_FROM`
/// `Admin Sistem <admin@example.com>`, the rest empty).
pub fn load_config(vars: ConfigVars) -> (r: Result<AppConfig, ConfigError>)
    ensures
        vars.base_url is None ==> r == Err::<AppConfig, ConfigError>(ConfigError::MissingEnvVar("BASE_URL")),
        vars.base_url is Some && vars.app_secret is None ==> r == Err::<AppConfig, ConfigError>(
            ConfigError::MissingEnvVar("APP_SECRET")),
        vars.base_url is Some && vars.app_secret is Some && vars.database_url is None ==> r == Err::<
            AppConfig,
            ConfigError,
        >(ConfigError::MissingEnvVar("DATABASE_URL")),
        vars.base_url is Some && vars.app_secret is Some && vars.database_url is Some ==> (r matches Ok(c)
            && c.base_url@ == vars.base_url->0@
            && c.secret_key@ == vars.app_secret->0@
            && c.database_url@ == vars.database_url->0@
            && c.database_max_pool == number_or(vars.database_max_pool, u32::MAX as nat, 1)
            && c.smtp_host@ == text_or(vars.smtp_host, "localhost"@)
            && c.smtp_port == number_or(vars.smtp_port, u16::MAX as nat, 1025)
            && c.smtp_secure == bool_or(vars.smtp_secure, false)
            && c.smtp_username@ == text_or(vars.smtp_username, Seq::empty())
            && c.smtp_password@ == text_or(vars.smtp_password, Seq::empty())
            && c.smtp_mail_from@ == text_or(vars.smtp_mail_from, "Admin Sistem <admin@example.com>"@)
            && c.github_client_id@ == text_or(vars.github_client_id, Seq::empty())
            && c.github_client_secret@ == text_or(vars.github_client_secret, Seq::empty())),
        r matches Ok(c) ==> {
            &&& (vars.smtp_host matches Some(v) ==> c.smtp_host@ == v@)
            &&& (vars.smtp_username matches Some(v) ==> c.smtp_username@ == v@)
            &&& (vars.smtp_password matches Some(v) ==> c.smtp_password@ == v@)
            &&& (vars.smtp_mail_from matches Some(v) ==> c.smtp_mail_from@ == v@)
            &&& (vars.github_client_id matches Some(v) ==> c.github_client_id@ == v@)
            &&& (vars.github_client_secret matches Some(v) ==> c.github_client_secret@ == v@)
            &&& (vars.smtp_username is None ==> c.smtp_username@.len() == 0)
            &&& (vars.smtp_password is None ==> c.smtp_password@.len() == 0)
            &&& (vars.github_client_id is None ==> c.github_client_id@.len() == 0)
            &&& (vars.github_client_secret is None ==> c.github_client_secret@.len() == 0)
        },
{
    let ConfigVars {
        base_url,
        app_secret,
        database_url,
        database_max_pool,
        smtp_host,
        smtp_port,
        smtp_secure,
        smtp_username,
        smtp_password,
        smtp_mail_from,
        github_client_id,
        github_client_secret,
    } = vars;
    let base_url = match base_url {
        Some(v) => v,
        None => return Err(ConfigError::MissingEnvVar("BASE_URL")),
    };
    let secret_key = match app_secret {
        Some(v) => v,
        None => return Err(ConfigError::MissingEnvVar("APP_SECRET")),
    };
    let database_url = match database_url {
        Some(v) => v,
        None => return Err(ConfigError::MissingEnvVar("DATABASE_URL")),
    };
    let database_max_pool = match &database_max_pool {
        Some(v) => match parse_u32(v.as_str()) {
            Some(n) => n,
            None => DEFAULT_MAX_POOL,
        },
        None => DEFAULT_MAX_POOL,
    };
    let smtp_port = match &smtp_port {
        Some(v) => match parse_u16(v.as_str()) {
            Some(n) => n,
            None => 1025,
        },
        None => 1025,
    };
    let smtp_secure = match &smtp_secure {
        Some(v) => match parse_bool(v.as_str()) {
            Some(b) => b,
            None => false,
        },
        None => false,
    };
    proof {
        reveal_strlit("");
    }
    Ok(AppConfig {
        base_url,
        secret_key,
        database_url,
        database_max_pool,
        smtp_host: text_or_default(smtp_host, "localhost"),
        smtp_port,
        smtp_secure,
        smtp_username: text_or_default(smtp_username, ""),
        smtp_password: text_or_default(smtp_password, ""),
        smtp_mail_from: text_or_default(smtp_mail_from, "Admin Sistem <admin@example.com>"),
        github_client_id: text_or_default(github_client_id, ""),
        github_client_secret: text_or_default(github_client_secret, ""),
    })
}

} // verus!
