use aether_discord::config::{Config, DiscordConfig, FeaturesConfig};
use aether_discord::handlers::event::{
    breaks_rules_any_case, breaks_rules_lowered, handle_component, handle_member_join,
    handle_message, prefix_command, render_welcome,
};

fn config(prefix: &str, auto_mod: Option<bool>, welcome: Option<bool>, channel: Option<u64>, message: Option<&str>) -> Config {
    Config {
        discord: DiscordConfig {
            token: "t".to_string(),
            prefix: prefix.to_string(),
            owner_id: None,
            log_channel_id: None,
            welcome_channel_id: channel,
            welcome_message: message.map(|m| m.to_string()),
        },
        pterodactyl: None,
        features: Some(FeaturesConfig { auto_mod, welcome_enabled: welcome, economy_enabled: None }),
    }
}

#[test]
fn default_welcome_mentions_the_member() {
    assert_eq!(render_welcome(&None, 42, "Den"), "Welcome to the server, <@42>!");
}

#[test]
fn welcome_fills_both_placeholders() {
    let t = Some("Welcome to %server%, %user%! (%user%)".to_string());
    assert_eq!(render_welcome(&t, 5, "Rust Den"), "Welcome to Rust Den, <@5>! (<@5>)");
    let t = Some("Welcome to %server%, %user%!".to_string());
    assert_eq!(render_welcome(&t, 123, "My Server"), "Welcome to My Server, <@123>!");
    let t = Some("%server%%server%".to_string());
    assert_eq!(render_welcome(&t, 1, "ab"), "abab");
}

#[test]
fn welcome_without_placeholders_is_unchanged() {
    let t = Some("Hello there!".to_string());
    assert_eq!(render_welcome(&t, 5, "Den"), "Hello there!");
}

#[test]
fn member_join_posts_in_the_welcome_channel() {
    let c = config("!", None, None, Some(77), Some("Hi %user%"));
    let p = handle_member_join(&c, 3, "Den").unwrap();
    assert_eq!(p.channel_id, 77);
    assert_eq!(p.text, "Hi <@3>");
}

#[test]
fn member_join_without_channel_or_when_off() {
    assert!(handle_member_join(&config("!", None, None, None, None), 3, "Den").is_none());
    assert!(handle_member_join(&config("!", None, Some(false), Some(1), None), 3, "Den").is_none());
}

#[test]
fn banned_words() {
    assert!(breaks_rules_lowered("buy spam now"));
    assert!(breaks_rules_lowered("badword"));
    assert!(!breaks_rules_lowered("hello"));
    assert!(!breaks_rules_lowered("SPAM"));
    assert!(breaks_rules_any_case("SPAM"));
    assert!(breaks_rules_any_case("a BadWord b"));
}

#[test]
fn prefix_commands() {
    assert_eq!(prefix_command("!ping", "!").as_deref(), Some("🏓 Pong!"));
    assert_eq!(prefix_command("!PiNg now", "!").as_deref(), Some("🏓 Pong!"));
    assert_eq!(prefix_command("!help", "!").as_deref(), Some("Use `/help` for the full command list!"));
    assert_eq!(prefix_command("!pingpong", "!"), None);
    assert_eq!(prefix_command("ping", "!"), None);
    assert_eq!(prefix_command("!! ping", "!"), None);
    assert_eq!(prefix_command("ping", ""), Some("🏓 Pong!".to_string()));
}

#[test]
fn messages_from_bots_are_ignored() {
    let c = config("!", Some(true), None, None, None);
    let p = handle_message(&c, true, 1, "!ping spam");
    assert!(p.removal_notice.is_none());
    assert!(p.reply.is_none());
}

#[test]
fn auto_mod_removes_and_still_answers() {
    let c = config("!", Some(true), None, None, None);
    let p = handle_message(&c, false, 9, "!ping SPAM");
    assert_eq!(
        p.removal_notice.as_deref(),
        Some("<@9> Your message was removed for violating server rules.")
    );
    assert_eq!(p.reply.as_deref(), Some("🏓 Pong!"));
}

#[test]
fn auto_mod_off_keeps_the_message() {
    let c = config("!", Some(false), None, None, None);
    let p = handle_message(&c, false, 9, "spam");
    assert!(p.removal_notice.is_none());
    assert!(p.reply.is_none());
}

#[test]
fn poll_buttons_are_acknowledged() {
    assert_eq!(handle_component("poll_3").as_deref(), Some("Vote recorded! (voting system coming soon)"));
    assert_eq!(handle_component("other"), None);
    assert_eq!(handle_component("poll"), None);
}
