//! The bot's settings, read from the values of its environment variables.

use vstd::prelude::*;
use crate::text::{IntErrorKind, trim, trim_start, trim_end, is_whitespace, is_digit, decimal, parse_unsigned, trim_chars, string_from_chars, parse_u64, push_str, lemma_decimal_shape, lemma_parse_decimal_roundtrip};

verus! {

/// What reading one environment variable gave: its value, or why there is none.
#[derive(Debug)]
pub enum EnvVar {
    Present(String),
    NotPresent,
    NotUnicode,
}

/// The settings the bot starts with.
#[derive(Debug)]
pub struct Config {
    pub discord_bot_token: String,
    pub discord_register_guild: Option<u64>,
}

/// Why the settings could not be read; the names are those of the variables.
#[derive(Debug)]
pub enum ConfigError {
    MissingVar(&'static str),
    NotUnicode(&'static str),
    ParseGuildId(IntErrorKind),
}

/// The guild to register the commands in, as `DISCORD_REGISTER_GUILD` gives it:
/// a value that is blank once trimmed means none; otherwise it must parse as a `u64`.
pub open spec fn register_guild_value(v: Seq<char>) -> Result<Option<u64>, IntErrorKind> {
    if trim(v).len() == 0 {
        Ok(None)
    } else {
        match parse_unsigned(trim(v), u64::MAX as nat) {
            Ok(n) => Ok(Some(n as u64)),
            Err(e) => Err(e),
        }
    }
}

impl Config {
    /// The settings from the values of `DISCORD_TOKEN` and `DISCORD_REGISTER_GUILD`.
    pub fn from_env(discord_token: EnvVar, discord_register_guild: EnvVar) -> (r: Result<
        Config,
        ConfigError,
    >)
        ensures
            discord_token is NotPresent ==> (r matches Err(ConfigError::MissingVar(n)) && n@
                == "DISCORD_TOKEN"@),
            discord_token is NotUnicode ==> (r matches Err(ConfigError::NotUnicode(n)) && n@
                == "DISCORD_TOKEN"@),
            discord_token matches EnvVar::Present(token) ==> match discord_register_guild {
                EnvVar::NotPresent => r matches Ok(c) && c.discord_bot_token@ == token@
                    && c.discord_register_guild is None,
                EnvVar::NotUnicode => r matches Err(ConfigError::NotUnicode(n)) && n@
                    == "DISCORD_REGISTER_GUILD"@,
                EnvVar::Present(g) => match register_guild_value(g@) {
                    Ok(guild) => r matches Ok(c) && c.discord_bot_token@ == token@
                        && c.discord_register_guild == guild,
                    Err(e) => r matches Err(ConfigError::ParseGuildId(k)) && k == e,
                },
            },
    {
        let discord_bot_token = match discord_token {
            EnvVar::Present(v) => v,
            EnvVar::NotPresent => {
                return Err(ConfigError::MissingVar("DISCORD_TOKEN"));
            },
            EnvVar::NotUnicode => {
                return Err(ConfigError::NotUnicode("DISCORD_TOKEN"));
            },
        };
        let discord_register_guild = match discord_register_guild {
            EnvVar::Present(s) => {
                let t = trim_chars(s.as_str());
                if t.len() == 0 {
                    None
                } else {
                    let ts = string_from_chars(&t);
                    match parse_u64(ts.as_str()) {
                        Ok(id) => Some(id),
                        Err(e) => {
                            return Err(ConfigError::ParseGuildId(e));
                        },
                    }
                }
            },
            EnvVar::NotPresent => None,
            EnvVar::NotUnicode => {
                return Err(ConfigError::NotUnicode("DISCORD_REGISTER_GUILD"));
            },
        };
        Ok(Config { discord_bot_token, discord_register_guild })
    }
}

impl ConfigError {
    /// The message with which the error is displayed.
    pub fn message(&self) -> (s: String)
        ensures
            self matches ConfigError::MissingVar(n) ==> s@ == "missing environment variable: "@
                + n@,
            self matches ConfigError::NotUnicode(n) ==> s@
                == "environment variable is not valid UTF-8: "@ + n@,
            self matches ConfigError::ParseGuildId(k) ==> s@
                == "DISCORD_REGISTER_GUILD must be a u64: "@ + k.description_spec()@,
    {
        let mut s = String::new();
        match self {
            ConfigError::MissingVar(n) => {
                push_str(&mut s, "missing environment variable: ");
                push_str(&mut s, n);
            },
            ConfigError::NotUnicode(n) => {
                push_str(&mut s, "environment variable is not valid UTF-8: ");
                push_str(&mut s, n);
            },
            ConfigError::ParseGuildId(k) => {
                push_str(&mut s, "DISCORD_REGISTER_GUILD must be a u64: ");
                push_str(&mut s, k.description());
            },
        }
        s
    }
}

/// Every `u64` written in decimal is read back as that guild id.
pub proof fn lemma_register_guild_reads_any_u64(n: u64)
    ensures
        register_guild_value(decimal(n as nat)) == Ok::<Option<u64>, IntErrorKind>(Some(n)),
{
    lemma_decimal_shape(n as nat);
    lemma_no_whitespace_trim(decimal(n as nat));
    lemma_parse_decimal_roundtrip(n as nat, u64::MAX as nat);
}

/// Trimming leaves a string of digits as it is.
pub proof fn lemma_no_whitespace_trim(s: Seq<char>)
    requires
        s.len() >= 1,
        forall|i: int| 0 <= i < s.len() ==> #[trigger] is_digit(s[i]),
    ensures
        trim(s) == s,
{
    assert(is_digit(s[0]));
    assert(!is_whitespace(s[0]));
    assert(trim_start(s) == s);
    assert(is_digit(s[s.len() - 1]));
    assert(!is_whitespace(s.last()));
    assert(trim_end(s) == s);
}

} // verus!
