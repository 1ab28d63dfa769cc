//! Startup configuration: the two secrets the bot needs, checked before any
//! connection is attempted.

use crate::text::{parse_u64, spec_parse_u64};
use vstd::prelude::*;
use vstd::string::*;

verus! {

/// Why startup was refused. Both cases are fatal: the bot never connects
/// without a full configuration.
#[derive(Clone, Copy, PartialEq, Eq, Structural, Debug)]
pub enum ConfigError {
    /// The bot credential was not in the secret store.
    MissingToken,
    /// The community identifier was not in the secret store.
    MissingGuildId,
    /// The community identifier does not read as an unsigned 64-bit integer.
    MalformedGuildId,
}

impl ConfigError {
    /// The message the process aborts with.
    pub open spec fn spec_message(&self) -> Seq<char> {
        match self {
            ConfigError::MissingToken => "DISCORD_TOKEN was not found"@,
            ConfigError::MissingGuildId => "GUILD_ID was not found"@,
            ConfigError::MalformedGuildId => "GUILD_ID is not a valid u64"@,
        }
    }

    pub fn message(&self) -> (m: String)
        ensures
            m@ == self.spec_message(),
    {
        match self {
            ConfigError::MissingToken => String::from_str("DISCORD_TOKEN was not found"),
            ConfigError::MissingGuildId => String::from_str("GUILD_ID was not found"),
            ConfigError::MalformedGuildId => String::from_str("GUILD_ID is not a valid u64"),
        }
    }
}

/// Each error reads differently, so a log line names the failure exactly:
/// a missing credential, a missing identifier and a malformed identifier
/// are told apart.
pub proof fn lemma_config_error_messages_distinct(a: ConfigError, b: ConfigError)
    requires
        a != b,
    ensures
        a.spec_message() != b.spec_message(),
{
    reveal_strlit("DISCORD_TOKEN was not found");
    reveal_strlit("GUILD_ID was not found");
    reveal_strlit("GUILD_ID is not a valid u64");
    assert("DISCORD_TOKEN was not found"@.len() == 27);
    assert("GUILD_ID was not found"@.len() == 22);
    assert("GUILD_ID is not a valid u64"@.len() == 27);
    assert("DISCORD_TOKEN was not found"@[0] == 'D');
    assert("GUILD_ID is not a valid u64"@[0] == 'G');
}

/// The two startup secrets, read once and never changed: the bot credential
/// and the identifier of the one community the commands are registered in.
pub struct Config {
    pub token: String,
    pub guild_id: u64,
}

/// Builds the configuration out of the raw secret values, exactly as the
/// secret store handed them over (`None` where the store had no entry).
///
/// The token is taken as it is; the community identifier must read as an
/// unsigned 64-bit decimal integer. The first missing or malformed value
/// decides the error, the token being checked first.
pub fn load_config(token: Option<String>, guild_id_raw: Option<String>) -> (r: Result<
    Config,
    ConfigError,
>)
    ensures
        token is None ==> r == Err::<Config, ConfigError>(ConfigError::MissingToken),
        token is Some && guild_id_raw is None ==> r == Err::<Config, ConfigError>(
            ConfigError::MissingGuildId,
        ),
        token is Some && guild_id_raw is Some && spec_parse_u64(guild_id_raw->0@) is None ==> r
            == Err::<Config, ConfigError>(ConfigError::MalformedGuildId),
        token is Some && guild_id_raw is Some && spec_parse_u64(guild_id_raw->0@) is Some ==> r
            is Ok && r->Ok_0.token == token->0 && r->Ok_0.guild_id == spec_parse_u64(
            guild_id_raw->0@,
        )->0,
{
    let token = match token {
        Some(t) => t,
        None => {
            return Err(ConfigError::MissingToken);
        },
    };
    let raw = match guild_id_raw {
        Some(g) => g,
        None => {
            return Err(ConfigError::MissingGuildId);
        },
    };
    match parse_u64(raw.as_str()) {
        Some(id) => Ok(Config { token, guild_id: id }),
        None => Err(ConfigError::MalformedGuildId),
    }
}

} // verus!
