use infbot::config::{Config, ConfigError, EnvVar};
use infbot::text::IntErrorKind;

fn present(s: &str) -> EnvVar {
    EnvVar::Present(s.to_string())
}

#[test]
fn config_token_and_no_guild() {
    let c = Config::from_env(present("tok"), EnvVar::NotPresent).unwrap();
    assert_eq!(c.discord_bot_token, "tok");
    assert_eq!(c.discord_register_guild, None);
}

#[test]
fn config_guild_is_trimmed_and_parsed() {
    let c = Config::from_env(present("tok"), present("  1234567890 \n")).unwrap();
    assert_eq!(c.discord_register_guild, Some(1234567890));
}

#[test]
fn config_blank_guild_means_none() {
    let c = Config::from_env(present("tok"), present("   ")).unwrap();
    assert_eq!(c.discord_register_guild, None);
    let c = Config::from_env(present("tok"), present("")).unwrap();
    assert_eq!(c.discord_register_guild, None);
}

#[test]
fn config_missing_token() {
    match Config::from_env(EnvVar::NotPresent, present("1")) {
        Err(ConfigError::MissingVar(name)) => assert_eq!(name, "DISCORD_TOKEN"),
        other => panic!("unexpected {other:?}"),
    }
}

#[test]
fn config_token_not_unicode() {
    match Config::from_env(EnvVar::NotUnicode, EnvVar::NotPresent) {
        Err(ConfigError::NotUnicode(name)) => assert_eq!(name, "DISCORD_TOKEN"),
        other => panic!("unexpected {other:?}"),
    }
}

#[test]
fn config_guild_not_unicode() {
    match Config::from_env(present("tok"), EnvVar::NotUnicode) {
        Err(ConfigError::NotUnicode(name)) => assert_eq!(name, "DISCORD_REGISTER_GUILD"),
        other => panic!("unexpected {other:?}"),
    }
}

#[test]
fn config_guild_not_a_number() {
    match Config::from_env(present("tok"), present("guild")) {
        Err(ConfigError::ParseGuildId(k)) => assert_eq!(k, IntErrorKind::InvalidDigit),
        other => panic!("unexpected {other:?}"),
    }
    match Config::from_env(present("tok"), present("99999999999999999999")) {
        Err(ConfigError::ParseGuildId(k)) => assert_eq!(k, IntErrorKind::PosOverflow),
        other => panic!("unexpected {other:?}"),
    }
}

#[test]
fn config_error_messages() {
    assert_eq!(
        ConfigError::MissingVar("DISCORD_TOKEN").message(),
        "missing environment variable: DISCORD_TOKEN"
    );
    assert_eq!(
        ConfigError::NotUnicode("DISCORD_REGISTER_GUILD").message(),
        "environment variable is not valid UTF-8: DISCORD_REGISTER_GUILD"
    );
    assert_eq!(
        ConfigError::ParseGuildId(IntErrorKind::InvalidDigit).message(),
        "DISCORD_REGISTER_GUILD must be a u64: invalid digit found in string"
    );
    assert_eq!(
        ConfigError::ParseGuildId(IntErrorKind::Empty).message(),
        "DISCORD_REGISTER_GUILD must be a u64: cannot parse integer from empty string"
    );
    assert_eq!(
        ConfigError::ParseGuildId(IntErrorKind::PosOverflow).message(),
        "DISCORD_REGISTER_GUILD must be a u64: number too large to fit in target type"
    );
}
