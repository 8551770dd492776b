use aether_discord::commands::moderation::{
    finish, handle, plan, purge_amount_exec, slowmode_seconds_exec, ModAction, ModCommand,
    ModStep,
};
use aether_discord::commands::{CommandOption, OptionValue, Reply};

fn opt(name: &str, value: OptionValue) -> CommandOption {
    CommandOption { name: name.to_string(), value }
}

fn reply(step: ModStep) -> Reply {
    match step {
        ModStep::Respond(r) => r,
        ModStep::Act(a) => panic!("expected a reply, got {:?}", a),
    }
}

fn action(step: ModStep) -> ModAction {
    match step {
        ModStep::Act(a) => a,
        ModStep::Respond(r) => panic!("expected an action, got {:?}", r),
    }
}

#[test]
fn moderation_names_pick_commands() {
    assert_eq!(handle("slowmode"), Some(ModCommand::Slowmode));
    assert_eq!(handle("ban"), Some(ModCommand::Ban));
    assert_eq!(handle("dice"), None);
}

#[test]
fn outside_a_server() {
    let r = reply(plan(ModCommand::Ban, None, &Vec::new()));
    assert_eq!(r.content.as_deref(), Some("This command can only be used in a server."));
    assert!(r.ephemeral);
    let r = reply(plan(ModCommand::Unmute, None, &Vec::new()));
    assert_eq!(r.content.as_deref(), Some("Server only."));
    assert!(r.ephemeral);
}

#[test]
fn a_user_is_needed() {
    let r = reply(plan(ModCommand::Kick, Some(1), &Vec::new()));
    assert_eq!(r.content.as_deref(), Some("Please specify a user."));
    assert!(r.ephemeral);
    let r = reply(plan(ModCommand::Warn, None, &Vec::new()));
    assert_eq!(r.content.as_deref(), Some("Please specify a user."));
}

#[test]
fn ban_with_and_without_reason() {
    let opts = vec![opt("user", OptionValue::User(5))];
    let a = action(plan(ModCommand::Ban, Some(1), &opts));
    assert_eq!(a, ModAction::Ban { guild_id: 1, user_id: 5, reason: "No reason provided".to_string() });
    let r = finish(&a, None, 0).unwrap();
    assert_eq!(r.content.as_deref(), Some("✅ Banned <@5> — Reason: No reason provided"));
    assert!(!r.ephemeral);
    let r = finish(&a, Some("Missing Permissions"), 0).unwrap();
    assert_eq!(r.content.as_deref(), Some("❌ Failed to ban: Missing Permissions"));
    assert!(r.ephemeral);
    let opts = vec![opt("user", OptionValue::User(5)), opt("reason", OptionValue::Text("spam".to_string()))];
    let a = action(plan(ModCommand::Kick, Some(1), &opts));
    assert_eq!(finish(&a, None, 0).unwrap().content.as_deref(), Some("✅ Kicked <@5> — Reason: spam"));
    assert_eq!(finish(&a, Some("x"), 0).unwrap().content.as_deref(), Some("❌ Failed to kick: x"));
}

#[test]
fn mute_and_unmute() {
    let opts = vec![opt("user", OptionValue::User(2))];
    let a = action(plan(ModCommand::Mute, Some(1), &opts));
    assert_eq!(a, ModAction::Mute { guild_id: 1, user_id: 2, minutes: 10, reason: "No reason provided".to_string() });
    assert_eq!(
        finish(&a, None, 0).unwrap().content.as_deref(),
        Some("🔇 Muted <@2> for 10 minutes — Reason: No reason provided")
    );
    let opts = vec![opt("user", OptionValue::User(2)), opt("duration", OptionValue::Integer(-3))];
    let a = action(plan(ModCommand::Mute, Some(1), &opts));
    assert_eq!(
        finish(&a, None, 0).unwrap().content.as_deref(),
        Some("🔇 Muted <@2> for -3 minutes — Reason: No reason provided")
    );
    assert_eq!(finish(&a, Some("e"), 0).unwrap().content.as_deref(), Some("❌ Failed to mute: e"));
    let a = action(plan(ModCommand::Unmute, Some(1), &opts));
    assert_eq!(a, ModAction::Unmute { guild_id: 1, user_id: 2 });
    assert_eq!(finish(&a, None, 0).unwrap().content.as_deref(), Some("🔊 Unmuted <@2>"));
    assert_eq!(finish(&a, Some("e"), 0).unwrap().content.as_deref(), Some("❌ Failed to unmute: e"));
}

#[test]
fn warn_answers_publicly() {
    let opts = vec![opt("user", OptionValue::User(8)), opt("reason", OptionValue::Text("rude".to_string()))];
    let r = reply(plan(ModCommand::Warn, None, &opts));
    assert_eq!(r.content.as_deref(), Some("⚠️ <@8> has been warned — Reason: rude"));
    assert!(!r.ephemeral);
}

#[test]
fn purge_amount_is_kept_in_range() {
    assert_eq!(purge_amount_exec(None), 10);
    assert_eq!(purge_amount_exec(Some(500)), 100);
    assert_eq!(purge_amount_exec(Some(-3)), 1);
    assert_eq!(purge_amount_exec(Some(0)), 1);
    assert_eq!(purge_amount_exec(Some(50)), 50);
    for n in [-1000i64, -1, 0, 1, 2, 99, 100, 101, i64::MAX, i64::MIN] {
        assert_eq!(purge_amount_exec(Some(n)) as i64, n.min(100).max(1));
    }
}

#[test]
fn purge_replies() {
    let a = action(plan(ModCommand::Purge, None, &Vec::new()));
    assert_eq!(a, ModAction::Purge { amount: 10 });
    let r = finish(&a, None, 3).unwrap();
    assert_eq!(r.content.as_deref(), Some("🗑️ Deleted 3 messages."));
    assert!(r.ephemeral);
    assert!(finish(&a, Some("e"), 3).is_none());
}

#[test]
fn slowmode_seconds_are_cut_to_16_bits() {
    assert_eq!(slowmode_seconds_exec(None), 0);
    assert_eq!(slowmode_seconds_exec(Some(30)), 30);
    assert_eq!(slowmode_seconds_exec(Some(70000)), 4464);
    assert_eq!(slowmode_seconds_exec(Some(-1)), 65535);
    for n in [0i64, 1, 65535, 65536, -65536, i64::MAX, i64::MIN, 21600] {
        assert_eq!(slowmode_seconds_exec(Some(n)), n as u16);
    }
}

#[test]
fn slowmode_replies() {
    let a = action(plan(ModCommand::Slowmode, None, &Vec::new()));
    assert_eq!(finish(&a, None, 0).unwrap().content.as_deref(), Some("✅ Slowmode disabled."));
    let opts = vec![opt("seconds", OptionValue::Integer(30))];
    let a = action(plan(ModCommand::Slowmode, None, &opts));
    assert_eq!(finish(&a, None, 0).unwrap().content.as_deref(), Some("✅ Slowmode set to 30 seconds."));
    assert!(finish(&a, Some("e"), 0).is_none());
}
