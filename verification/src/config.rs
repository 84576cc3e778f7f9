//! The bot's configuration, as it comes from the environment.

use vstd::prelude::*;
use crate::decimal::{parse_i64, spec_parse_i64};
use crate::retention::{is_valid_expiry_days, valid_expiry_days};

verus! {

/// The retention period, in days, where `EXPIRY_DAYS` is not a number.
pub const DEFAULT_EXPIRY_DAYS: i64 = 14;

/// The whole configuration of the bot.
pub struct Env {
    pub discord: Discord,
    pub postgres: Postgres,
    pub bot: Bot,
}

/// Where the database is.
pub struct Postgres {
    pub url: String,
}

/// How the bot signs in to the chat service.
pub struct Discord {
    pub token: String,
    pub client_id: String,
}

/// How the bot behaves.
pub struct Bot {
    pub expiry_days: i64,
}

/// The environment variables that the configuration is read from.
#[derive(Clone, Copy, Debug, PartialEq, Eq, Structural)]
pub enum EnvVar {
    DiscordToken,
    DiscordClientId,
    DatabaseUrl,
    ExpiryDays,
}

pub open spec fn env_var_name(var: EnvVar) -> Seq<char> {
    match var {
        EnvVar::DiscordToken => "DISCORD_TOKEN"@,
        EnvVar::DiscordClientId => "DISCORD_CLIENT_ID"@,
        EnvVar::DatabaseUrl => "DATABASE_URL"@,
        EnvVar::ExpiryDays => "EXPIRY_DAYS"@,
    }
}

impl EnvVar {
    /// The variable's name in the environment.
    pub fn name(&self) -> (r: &'static str)
        ensures
            r@ == env_var_name(*self),
    {
        match self {
            EnvVar::DiscordToken => "DISCORD_TOKEN",
            EnvVar::DiscordClientId => "DISCORD_CLIENT_ID",
            EnvVar::DatabaseUrl => "DATABASE_URL",
            EnvVar::ExpiryDays => "EXPIRY_DAYS",
        }
    }
}

/// Why the environment gives no configuration.
#[derive(Debug, PartialEq, Eq, Structural)]
pub enum ConfigError {
    /// The variable is not set.
    Missing(EnvVar),
    /// `EXPIRY_DAYS` gives a period outside 1 to 14 days.
    ExpiryDaysOutOfRange(i64),
}

/// The retention period that the text of `EXPIRY_DAYS` gives: the number it
/// holds, or 14 where it holds none.
pub open spec fn expiry_days_from_text(text: Seq<char>) -> i64 {
    match spec_parse_i64(text) {
        Some(days) => days,
        None => DEFAULT_EXPIRY_DAYS,
    }
}

/// The retention period that `EXPIRY_DAYS` gives, before it is checked.
pub fn expiry_days_from(text: &str) -> (r: i64)
    ensures
        r == expiry_days_from_text(text@),
        spec_parse_i64(text@) matches Some(days) ==> r == days,
        spec_parse_i64(text@) is None ==> r == 14,
{
    match parse_i64(text) {
        Some(days) => days,
        None => DEFAULT_EXPIRY_DAYS,
    }
}

/// `EXPIRY_DAYS` gives the number it holds, whatever that number is, and 14
/// only where it holds no `i64` in decimal.
pub proof fn lemma_expiry_days_text(text: Seq<char>)
    ensures
        spec_parse_i64(text) matches Some(days) ==> expiry_days_from_text(text) == days,
        spec_parse_i64(text) is None ==> expiry_days_from_text(text) == 14,
{
}

impl Env {
    /// The configuration that the values of `DISCORD_TOKEN`,
    /// `DISCORD_CLIENT_ID`, `DATABASE_URL` and `EXPIRY_DAYS` give, each `None`
    /// where the variable is not set. The first variable in that order that
    /// is not set is the error; after them, a retention period outside 1 to
    /// 14 days.
    pub fn new(
        discord_token: Option<String>,
        discord_client_id: Option<String>,
        database_url: Option<String>,
        expiry_days: Option<String>,
    ) -> (r: Result<Env, ConfigError>)
        ensures
            discord_token is None ==> r == Err::<Env, ConfigError>(ConfigError::Missing(EnvVar::DiscordToken)),
            discord_token is Some && discord_client_id is None ==> r == Err::<Env, ConfigError>(
                ConfigError::Missing(EnvVar::DiscordClientId),
            ),
            discord_token is Some && discord_client_id is Some && database_url is None ==> r
                == Err::<Env, ConfigError>(ConfigError::Missing(EnvVar::DatabaseUrl)),
            discord_token is Some && discord_client_id is Some && database_url is Some && expiry_days is None
                ==> r == Err::<Env, ConfigError>(ConfigError::Missing(EnvVar::ExpiryDays)),
            expiry_days matches Some(text) ==> ({
                let days = expiry_days_from_text(text@);
                discord_token is Some && discord_client_id is Some && database_url is Some
                    && !valid_expiry_days(days as int) ==> r == Err::<Env, ConfigError>(
                    ConfigError::ExpiryDaysOutOfRange(days),
                )
            }),
            r matches Ok(env) ==> {
                &&& discord_token == Some(env.discord.token)
                &&& discord_client_id == Some(env.discord.client_id)
                &&& database_url == Some(env.postgres.url)
                &&& expiry_days matches Some(text)
                &&& env.bot.expiry_days == expiry_days_from_text(text@)
                &&& spec_parse_i64(text@) matches Some(days) ==> env.bot.expiry_days == days
                &&& spec_parse_i64(text@) is None ==> env.bot.expiry_days == 14
                &&& valid_expiry_days(env.bot.expiry_days as int)
            },
            (discord_token is Some && discord_client_id is Some && database_url is Some && expiry_days is Some
                && valid_expiry_days(expiry_days_from_text(expiry_days->0@) as int)) ==> r is Ok,
    {
        let token = match discord_token {
            Some(v) => v,
            None => { return Err(ConfigError::Missing(EnvVar::DiscordToken)); },
        };
        let client_id = match discord_client_id {
            Some(v) => v,
            None => { return Err(ConfigError::Missing(EnvVar::DiscordClientId)); },
        };
        let url = match database_url {
            Some(v) => v,
            None => { return Err(ConfigError::Missing(EnvVar::DatabaseUrl)); },
        };
        let text = match expiry_days {
            Some(v) => v,
            None => { return Err(ConfigError::Missing(EnvVar::ExpiryDays)); },
        };
        let days = expiry_days_from(text.as_str());
        if !is_valid_expiry_days(days) {
            return Err(ConfigError::ExpiryDaysOutOfRange(days));
        }
        Ok(Env {
            discord: Discord { token, client_id },
            postgres: Postgres { url },
            bot: Bot { expiry_days: days },
        })
    }
}

} // verus!
