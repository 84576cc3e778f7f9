use retainer::config::{ConfigError, Env, EnvVar, DEFAULT_EXPIRY_DAYS};

fn some(s: &str) -> Option<String> {
    Some(s.to_string())
}

#[test]
fn env_from_complete_environment() {
    let env = Env::new(some("SECRET-REDACTED"), some("42"), some("postgres://db"), some("7")).unwrap();
    assert_eq!(env.discord.token, "SECRET-REDACTED");
    assert_eq!(env.discord.client_id, "42");
    assert_eq!(env.postgres.url, "postgres://db");
    assert_eq!(env.bot.expiry_days, 7);
}

#[test]
fn env_reports_first_missing_variable() {
    let r = Env::new(None, None, None, None);
    assert_eq!(r.err(), Some(ConfigError::Missing(EnvVar::DiscordToken)));
    let r = Env::new(some("t"), None, None, some("3"));
    assert_eq!(r.err(), Some(ConfigError::Missing(EnvVar::DiscordClientId)));
    let r = Env::new(some("t"), some("c"), None, None);
    assert_eq!(r.err(), Some(ConfigError::Missing(EnvVar::DatabaseUrl)));
    let r = Env::new(some("t"), some("c"), some("u"), None);
    assert_eq!(r.err(), Some(ConfigError::Missing(EnvVar::ExpiryDays)));
}

#[test]
fn env_defaults_unreadable_expiry_to_fourteen() {
    for text in ["abc", "", " 7", "7 ", "1.5", "-", "+", "99999999999999999999"] {
        let env = Env::new(some("t"), some("c"), some("u"), some(text)).unwrap();
        assert_eq!(env.bot.expiry_days, DEFAULT_EXPIRY_DAYS);
        assert_eq!(env.bot.expiry_days, 14);
    }
}

#[test]
fn env_reads_signed_expiry() {
    let env = Env::new(some("t"), some("c"), some("u"), some("+1")).unwrap();
    assert_eq!(env.bot.expiry_days, 1);
    let env = Env::new(some("t"), some("c"), some("u"), some("014")).unwrap();
    assert_eq!(env.bot.expiry_days, 14);
}

#[test]
fn env_refuses_expiry_out_of_range() {
    let r = Env::new(some("t"), some("c"), some("u"), some("0"));
    assert_eq!(r.err(), Some(ConfigError::ExpiryDaysOutOfRange(0)));
    let r = Env::new(some("t"), some("c"), some("u"), some("15"));
    assert_eq!(r.err(), Some(ConfigError::ExpiryDaysOutOfRange(15)));
    let r = Env::new(some("t"), some("c"), some("u"), some("-3"));
    assert_eq!(r.err(), Some(ConfigError::ExpiryDaysOutOfRange(-3)));
}

#[test]
fn env_var_names() {
    assert_eq!(EnvVar::DiscordToken.name(), "DISCORD_TOKEN");
    assert_eq!(EnvVar::DiscordClientId.name(), "DISCORD_CLIENT_ID");
    assert_eq!(EnvVar::DatabaseUrl.name(), "DATABASE_URL");
    assert_eq!(EnvVar::ExpiryDays.name(), "EXPIRY_DAYS");
}
