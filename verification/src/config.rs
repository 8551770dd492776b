use vstd::prelude::*;

use crate::text::{parse_u64, parse_u64_spec};

verus! {

/// Settings of the bot's Discord side.
#[derive(Clone, Debug, PartialEq, Eq)]
pub struct DiscordConfig {
    pub token: String,
    pub prefix: String,
    pub owner_id: Option<u64>,
    pub log_channel_id: Option<u64>,
    pub welcome_channel_id: Option<u64>,
    pub welcome_message: Option<String>,
}

/// Where the Pterodactyl panel is and the client key it takes.
#[derive(Clone, Debug, PartialEq, Eq)]
pub struct PterodactylConfig {
    pub panel_url: String,
    pub api_key: String,
}

/// Feature switches; a switch that is absent takes its default.
#[derive(Clone, Debug, PartialEq, Eq)]
pub struct FeaturesConfig {
    pub auto_mod: Option<bool>,
    pub welcome_enabled: Option<bool>,
    pub economy_enabled: Option<bool>,
}

/// The whole configuration of the bot.
#[derive(Clone, Debug, PartialEq, Eq)]
pub struct Config {
    pub discord: DiscordConfig,
    pub pterodactyl: Option<PterodactylConfig>,
    pub features: Option<FeaturesConfig>,
}

/// The environment variables that configure the bot when there is no configuration file;
/// each is `None` when it is not set.
#[derive(Clone, Debug, PartialEq, Eq)]
pub struct ConfigEnv {
    pub discord_token: Option<String>,
    pub discord_prefix: Option<String>,
    pub owner_id: Option<String>,
    pub log_channel_id: Option<String>,
    pub welcome_channel_id: Option<String>,
    pub welcome_message: Option<String>,
    pub ptero_url: Option<String>,
    pub ptero_api_key: Option<String>,
}

/// The identifier that a variable's text gives: its decimal reading, when there is one.
pub open spec fn id_from_env(v: Option<String>) -> Option<u64> {
    match v {
        Some(s) => parse_u64_spec(s@),
        None => None,
    }
}

/// The message given when the token is missing from the environment.
pub open spec fn missing_token_message() -> Seq<char> {
    "DISCORD_TOKEN not set. Create config.toml or set env vars."@
}

fn id_from_env_exec(v: &Option<String>) -> (res: Option<u64>)
    ensures
        res == id_from_env(*v),
{
    match v {
        Some(s) => parse_u64(s.as_str()),
        None => None,
    }
}

impl Config {
    /// Builds the configuration from environment variables.
    ///
    /// Fails, with the message naming `DISCORD_TOKEN`, exactly when the token is not set.
    /// The prefix defaults to `!`; an identifier that does not read as a decimal `u64` is
    /// dropped; the Pterodactyl section is there exactly when both its URL and its key are;
    /// the features are auto-mod off, welcome on, economy off.
    pub fn from_env(env: ConfigEnv) -> (res: Result<Config, String>)
        ensures
            match res {
                Err(e) => env.discord_token is None && e@ == missing_token_message(),
                Ok(c) => {
                    &&& env.discord_token is Some
                    &&& c.discord.token@ == env.discord_token->0@
                    &&& c.discord.prefix@ == (match env.discord_prefix {
                        Some(p) => p@,
                        None => "!"@,
                    })
                    &&& c.discord.owner_id == id_from_env(env.owner_id)
                    &&& c.discord.log_channel_id == id_from_env(env.log_channel_id)
                    &&& c.discord.welcome_channel_id == id_from_env(env.welcome_channel_id)
                    &&& c.discord.welcome_message == env.welcome_message
                    &&& (c.pterodactyl is Some <==> (env.ptero_url is Some
                        && env.ptero_api_key is Some))
                    &&& (c.pterodactyl is Some ==> c.pterodactyl->0.panel_url@
                        == env.ptero_url->0@ && c.pterodactyl->0.api_key@
                        == env.ptero_api_key->0@)
                    &&& c.features == Some(
                        FeaturesConfig {
                            auto_mod: Some(false),
                            welcome_enabled: Some(true),
                            economy_enabled: Some(false),
                        },
                    )
                },
            },
    {
        let token = match env.discord_token {
            Some(t) => t,
            None => {
                return Err(String::from_str("DISCORD_TOKEN not set. Create config.toml or set env vars."));
            },
        };
        let prefix = match env.discord_prefix {
            Some(p) => p,
            None => String::from_str("!"),
        };
        let owner_id = id_from_env_exec(&env.owner_id);
        let log_channel_id = id_from_env_exec(&env.log_channel_id);
        let welcome_channel_id = id_from_env_exec(&env.welcome_channel_id);
        let pterodactyl = match (env.ptero_url, env.ptero_api_key) {
            (Some(url), Some(key)) => Some(PterodactylConfig { panel_url: url, api_key: key }),
            _ => None,
        };
        Ok(
            Config {
                discord: DiscordConfig {
                    token,
                    prefix,
                    owner_id,
                    log_channel_id,
                    welcome_channel_id,
                    welcome_message: env.welcome_message,
                },
                pterodactyl,
                features: Some(
                    FeaturesConfig {
                        auto_mod: Some(false),
                        welcome_enabled: Some(true),
                        economy_enabled: Some(false),
                    },
                ),
            },
        )
    }
}

/// Whether auto-moderation is on: the `auto_mod` switch, off when it is absent.
pub open spec fn auto_mod_on(c: Config) -> bool {
    match c.features {
        Some(f) => match f.auto_mod {
            Some(b) => b,
            None => false,
        },
        None => false,
    }
}

/// Whether welcome messages are on: the `welcome_enabled` switch, on when it is absent.
pub open spec fn welcome_on(c: Config) -> bool {
    match c.features {
        Some(f) => match f.welcome_enabled {
            Some(b) => b,
            None => true,
        },
        None => true,
    }
}

/// Whether auto-moderation is on.
pub fn auto_mod_enabled(c: &Config) -> (res: bool)
    ensures
        res == auto_mod_on(*c),
{
    match &c.features {
        Some(f) => match f.auto_mod {
            Some(b) => b,
            None => false,
        },
        None => false,
    }
}

/// Whether welcome messages are on.
pub fn welcome_enabled(c: &Config) -> (res: bool)
    ensures
        res == welcome_on(*c),
{
    match &c.features {
        Some(f) => match f.welcome_enabled {
            Some(b) => b,
            None => true,
        },
        None => true,
    }
}

} // verus!
