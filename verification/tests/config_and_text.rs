use guildbot::config::{load_config, ConfigError};
use guildbot::descriptor::{command_set, ParamKind};
use guildbot::text::{parse_u64, u64_to_string};

#[test]
fn missing_token_is_fatal_and_names_the_key() {
    let r = load_config(None, Some(String::from("1")));
    assert_eq!(r.err(), Some(ConfigError::MissingToken));
    let message = ConfigError::MissingToken.message();
    assert_eq!(message, "DISCORD_TOKEN was not found");
    assert!(message.contains("DISCORD_TOKEN"));
}

#[test]
fn missing_guild_id_is_fatal() {
    let r = load_config(Some(String::from("token")), None);
    assert_eq!(r.err(), Some(ConfigError::MissingGuildId));
    assert_eq!(ConfigError::MissingGuildId.message(), "GUILD_ID was not found");
}

#[test]
fn malformed_guild_id_is_fatal() {
    for raw in ["", "abc", "12a", "-3", "1.5"] {
        let r = load_config(Some(String::from("token")), Some(String::from(raw)));
        assert_eq!(r.err(), Some(ConfigError::MalformedGuildId));
    }
    assert_eq!(ConfigError::MalformedGuildId.message(), "GUILD_ID is not a valid u64");
}

#[test]
fn malformed_and_missing_read_differently() {
    let malformed = ConfigError::MalformedGuildId.message();
    assert_ne!(malformed, ConfigError::MissingToken.message());
    assert_ne!(malformed, ConfigError::MissingGuildId.message());
    assert_ne!(ConfigError::MissingToken.message(), ConfigError::MissingGuildId.message());
}

#[test]
fn full_configuration_loads() {
    let r = load_config(Some(String::from("token")), Some(String::from("1096029239")));
    let config = r.expect("a full configuration");
    assert_eq!(config.token, "token");
    assert_eq!(config.guild_id, 1096029239);
}

#[test]
fn decimal_parse_accepts_plain_and_signed_digits() {
    assert_eq!(parse_u64("0"), Some(0));
    assert_eq!(parse_u64("123"), Some(123));
    assert_eq!(parse_u64("+123"), Some(123));
    assert_eq!(parse_u64("007"), Some(7));
    assert_eq!(parse_u64("18446744073709551615"), Some(u64::MAX));
}

#[test]
fn decimal_parse_rejects_everything_else() {
    assert_eq!(parse_u64(""), None);
    assert_eq!(parse_u64("+"), None);
    assert_eq!(parse_u64("++1"), None);
    assert_eq!(parse_u64("abc"), None);
    assert_eq!(parse_u64("12a"), None);
    assert_eq!(parse_u64(" 12"), None);
    assert_eq!(parse_u64("-1"), None);
    assert_eq!(parse_u64("18446744073709551616"), None);
    assert_eq!(parse_u64("99999999999999999999999999"), None);
}

#[test]
fn decimal_rendering_round_trips() {
    assert_eq!(u64_to_string(0), "0");
    assert_eq!(u64_to_string(7), "7");
    assert_eq!(u64_to_string(10), "10");
    assert_eq!(u64_to_string(1234567890), "1234567890");
    assert_eq!(u64_to_string(u64::MAX), "18446744073709551615");
    assert_eq!(parse_u64(&u64_to_string(1420070400000)), Some(1420070400000));
}

#[test]
fn command_set_registers_the_four_commands() {
    let cs = command_set();
    assert_eq!(cs.len(), 4);
    for c in &cs {
        assert!(c.slash && c.prefix);
    }
    assert_eq!(cs[0].name, "ping");
    assert!(cs[0].params.is_empty());
    assert_eq!(cs[1].name, "roll");
    assert_eq!(cs[1].params.len(), 1);
    assert_eq!(cs[1].params[0].name, "sides");
    assert_eq!(cs[1].params[0].kind, ParamKind::Integer);
    assert!(!cs[1].params[0].required);
    assert_eq!(cs[2].name, "thread");
    assert_eq!(cs[2].params.len(), 2);
    assert_eq!(cs[2].params[0].name, "name");
    assert_eq!(cs[2].params[0].kind, ParamKind::Text);
    assert!(cs[2].params[0].required);
    assert_eq!(cs[2].params[1].name, "private");
    assert_eq!(cs[2].params[1].kind, ParamKind::Boolean);
    assert!(!cs[2].params[1].required);
    assert_eq!(cs[3].name, "age");
    assert_eq!(cs[3].params.len(), 1);
    assert_eq!(cs[3].params[0].name, "user");
    assert_eq!(cs[3].params[0].kind, ParamKind::UserRef);
    assert!(!cs[3].params[0].required);
}
