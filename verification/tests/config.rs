use aether_discord::config::{
    auto_mod_enabled, welcome_enabled, Config, ConfigEnv, DiscordConfig, FeaturesConfig,
};

fn env() -> ConfigEnv {
    ConfigEnv {
        discord_token: None,
        discord_prefix: None,
        owner_id: None,
        log_channel_id: None,
        welcome_channel_id: None,
        welcome_message: None,
        ptero_url: None,
        ptero_api_key: None,
    }
}

#[test]
fn missing_token_is_an_error() {
    let r = Config::from_env(env());
    assert_eq!(
        r.err().unwrap(),
        "DISCORD_TOKEN not set. Create config.toml or set env vars."
    );
}

#[test]
fn token_alone_takes_defaults() {
    let mut e = env();
    e.discord_token = Some("tok".to_string());
    let c = Config::from_env(e).unwrap();
    assert_eq!(c.discord.token, "tok");
    assert_eq!(c.discord.prefix, "!");
    assert_eq!(c.discord.owner_id, None);
    assert!(c.pterodactyl.is_none());
    assert_eq!(
        c.features,
        Some(FeaturesConfig { auto_mod: Some(false), welcome_enabled: Some(true), economy_enabled: Some(false) })
    );
    assert!(!auto_mod_enabled(&c));
    assert!(welcome_enabled(&c));
}

#[test]
fn ids_that_do_not_read_are_dropped() {
    let mut e = env();
    e.discord_token = Some("tok".to_string());
    e.discord_prefix = Some("?".to_string());
    e.owner_id = Some("123456789012345678".to_string());
    e.log_channel_id = Some("abc".to_string());
    e.welcome_channel_id = Some("+42".to_string());
    e.welcome_message = Some("Hi %user%".to_string());
    let c = Config::from_env(e).unwrap();
    assert_eq!(c.discord.prefix, "?");
    assert_eq!(c.discord.owner_id, Some(123456789012345678));
    assert_eq!(c.discord.log_channel_id, None);
    assert_eq!(c.discord.welcome_channel_id, Some(42));
    assert_eq!(c.discord.welcome_message.as_deref(), Some("Hi %user%"));
}

#[test]
fn panel_needs_both_url_and_key() {
    let mut e = env();
    e.discord_token = Some("tok".to_string());
    e.ptero_url = Some("https://panel".to_string());
    assert!(Config::from_env(e).unwrap().pterodactyl.is_none());
    let mut e = env();
    e.discord_token = Some("tok".to_string());
    e.ptero_url = Some("https://panel".to_string());
    e.ptero_api_key = Some("key".to_string());
    let p = Config::from_env(e).unwrap().pterodactyl.unwrap();
    assert_eq!(p.panel_url, "https://panel");
    assert_eq!(p.api_key, "key");
}

#[test]
fn feature_switch_defaults() {
    let mut c = Config {
        discord: DiscordConfig {
            token: "t".to_string(),
            prefix: "!".to_string(),
            owner_id: None,
            log_channel_id: None,
            welcome_channel_id: None,
            welcome_message: None,
        },
        pterodactyl: None,
        features: None,
    };
    assert!(!auto_mod_enabled(&c));
    assert!(welcome_enabled(&c));
    c.features = Some(FeaturesConfig { auto_mod: None, welcome_enabled: None, economy_enabled: None });
    assert!(!auto_mod_enabled(&c));
    assert!(welcome_enabled(&c));
    c.features = Some(FeaturesConfig { auto_mod: Some(true), welcome_enabled: Some(false), economy_enabled: None });
    assert!(auto_mod_enabled(&c));
    assert!(!welcome_enabled(&c));
}
