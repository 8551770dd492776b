use aether_discord::commands::utility::{
    calc_expression_exec, calc_failure, calc_success, custom_embed,
    handle, parse_color, poll, remind, UtilityCommand,
};
use aether_discord::commands::{CommandOption, OptionValue};

fn text(name: &str, v: &str) -> CommandOption {
    CommandOption { name: name.to_string(), value: OptionValue::Text(v.to_string()) }
}

fn cs(s: &str) -> Vec<char> {
    s.chars().collect()
}

#[test]
fn utility_names_pick_commands() {
    assert_eq!(handle("calc"), Some(UtilityCommand::Calc));
    assert_eq!(handle("Calc"), None);
}

#[test]
fn colors() {
    assert_eq!(parse_color(&cs("00d2ff")), 0x00d2ff);
    assert_eq!(parse_color(&cs("#ff0000")), 0xff0000);
    assert_eq!(parse_color(&cs("##abc")), 0xabc);
    assert_eq!(parse_color(&cs("zz")), 0x00d2ff);
    assert_eq!(parse_color(&cs("")), 0x00d2ff);
    assert_eq!(parse_color(&cs("123456789")), 0x00d2ff);
    assert_eq!(parse_color(&cs("#")), 0x00d2ff);
    assert_eq!(parse_color(&cs("#12ab")), parse_color(&cs("12ab")));
}

#[test]
fn embed_defaults() {
    let r = custom_embed(&Vec::new(), "ann");
    let e = r.embed.unwrap();
    assert_eq!(e.title.as_deref(), Some("Embed"));
    assert_eq!(e.description.as_deref(), Some(""));
    assert_eq!(e.color, Some(0x00d2ff));
    assert_eq!(e.footer.as_deref(), Some("Requested by ann"));
    let opts = vec![text("title", "T"), text("description", "D"), text("color", "#FF00FF")];
    let e = custom_embed(&opts, "bo").embed.unwrap();
    assert_eq!(e.title.as_deref(), Some("T"));
    assert_eq!(e.description.as_deref(), Some("D"));
    assert_eq!(e.color, Some(0xff00ff));
}

#[test]
fn poll_defaults() {
    let e = poll(&Vec::new(), "ann").embed.unwrap();
    assert_eq!(e.title.as_deref(), Some("📊 Poll"));
    assert_eq!(e.description.as_deref(), Some("1️⃣ Yes\n2️⃣ No"));
    assert_eq!(e.footer.as_deref(), Some("Poll by ann"));
    assert_eq!(e.color, Some(0x00d2ff));
}

#[test]
fn poll_trims_and_keeps_ten() {
    let opts = vec![text("question", "Lunch?"), text("options", " Pizza |Sushi| | a|b|c|d|e|f|g|h|i")];
    let e = poll(&opts, "x").embed.unwrap();
    assert_eq!(e.title.as_deref(), Some("📊 Lunch?"));
    let d = e.description.unwrap();
    let lines: Vec<&str> = d.split('\n').collect();
    assert_eq!(lines.len(), 10);
    assert_eq!(lines[0], "1️⃣ Pizza");
    assert_eq!(lines[1], "2️⃣ Sushi");
    assert_eq!(lines[2], "3️⃣ ");
    assert_eq!(lines[9], "🔟 g");
}

#[test]
fn reminder_defaults() {
    let r = remind(&Vec::new(), 9);
    assert_eq!(r.ack.content.as_deref(), Some("⏰ I'll remind you in 5 minute(s)!"));
    assert!(r.ack.ephemeral);
    assert_eq!(r.delay_secs, 300);
    assert_eq!(r.message, "⏰ <@9> Reminder: **Reminder!**");
}

#[test]
fn reminder_delay_wraps_like_a_release_build() {
    let opts = vec![CommandOption { name: "minutes".to_string(), value: OptionValue::Integer(-1) }, text("message", "tea")];
    let r = remind(&opts, 9);
    assert_eq!(r.ack.content.as_deref(), Some("⏰ I'll remind you in -1 minute(s)!"));
    assert_eq!(r.delay_secs, (-1i64 as u64).wrapping_mul(60));
    assert_eq!(r.message, "⏰ <@9> Reminder: **tea**");
}

#[test]
fn calculation_texts() {
    assert_eq!(calc_failure("Division by zero").content.as_deref(), Some("❌ Invalid expression: Division by zero"));
    assert_eq!(calc_expression_exec(&Vec::new()), "0");
}

#[test]
fn calc_success_reply() {
    let r = calc_success("2 + 3", "5");
    assert_eq!(r.content.as_deref(), Some("🧮 `2 + 3` = **5**"));
    assert!(!r.ephemeral);
    assert!(r.embed.is_none());
}
