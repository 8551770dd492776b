use aether_discord::commands::general::{
    avatar, created_at_millis, created_date, handle, help, info, ping_start, pong, serverinfo,
    serverinfo_embed_exec, uptime, userinfo, userinfo_on, GeneralCommand, GuildSummary,
    UserProfile,
};

fn profile(bot: bool) -> UserProfile {
    UserProfile { id: 175928847299117063, name: "ann".to_string(), bot, avatar_url: "https://cdn/a.png".to_string() }
}

#[test]
fn general_names_pick_commands() {
    assert_eq!(handle("serverinfo"), Some(GeneralCommand::ServerInfo));
    assert_eq!(handle("server"), None);
}

#[test]
fn ping_texts() {
    assert_eq!(ping_start().content.as_deref(), Some("🏓 Pinging..."));
    assert_eq!(pong(12).content.as_deref(), Some("🏓 **Pong!**\n> Latency: `12ms`"));
}

#[test]
fn uptime_texts() {
    assert_eq!(uptime(0), "0d 0h 0m");
    assert_eq!(uptime(90061), "1d 1h 1m");
    assert_eq!(uptime(86399), "0d 23h 59m");
    assert_eq!(uptime(-3661), "0d -1h -1m");
    assert_eq!(uptime(-90061), "-1d -1h -1m");
}

#[test]
fn uptime_accounts_for_time() {
    for s in [0i64, 59, 60, 3599, 3600, 86400, 1_000_000] {
        let t = uptime(s);
        let parts: Vec<i64> = t.split(|c: char| !c.is_ascii_digit()).filter(|x| !x.is_empty()).map(|x| x.parse().unwrap()).collect();
        let total = parts[0] * 86400 + parts[1] * 3600 + parts[2] * 60;
        assert!(total <= s && s - total < 60, "{} -> {}", s, t);
    }
}

#[test]
fn info_embed() {
    let e = info(None).embed.unwrap();
    assert_eq!(e.title.as_deref(), Some("⚡ Aether Discord Bot"));
    assert_eq!(e.fields[3].name, "Uptime");
    assert_eq!(e.fields[3].value, "Unknown");
    assert_eq!(info(Some(120)).embed.unwrap().fields[3].value, "0d 0h 2m");
}

#[test]
fn help_embed() {
    let r = help();
    assert!(r.ephemeral);
    let e = r.embed.unwrap();
    assert_eq!(e.fields.len(), 5);
    assert_eq!(e.fields[3].value, "`/8ball` `/dice` `/roast` `/compliment` `/coinflip` `/rps`");
    assert_eq!(e.footer.as_deref(), Some("Aether v1.0.0 • Built with Rust 🦀"));
}

#[test]
fn snowflake_times() {
    assert_eq!(created_at_millis(0), 1_420_070_400_000);
    assert_eq!(created_at_millis(175928847299117063), 1_462_015_105_796);
    assert_eq!(created_date(175928847299117063), "2016-04-30");
    assert_eq!(created_date(0), "2015-01-01");
}

#[test]
fn user_embeds() {
    let e = avatar(&profile(false)).embed.unwrap();
    assert_eq!(e.title.as_deref(), Some("ann's Avatar"));
    assert_eq!(e.image.as_deref(), Some("https://cdn/a.png"));
    assert_eq!(e.url.as_deref(), Some("https://cdn/a.png"));
    let e = userinfo(&profile(true)).embed.unwrap();
    assert_eq!(e.title.as_deref(), Some("ann"));
    assert_eq!(e.thumbnail.as_deref(), Some("https://cdn/a.png"));
    assert_eq!(e.fields[0].value, "175928847299117063");
    assert_eq!(e.fields[1].value, "Yes");
    assert_eq!(e.fields[2].value, "2016-04-30");
    assert_eq!(userinfo(&profile(false)).embed.unwrap().fields[1].value, "No");
}

#[test]
fn server_embed() {
    let r = serverinfo(None, &None);
    assert_eq!(r.content.as_deref(), Some("This command can only be used in a server."));
    assert!(r.ephemeral);
    let r = serverinfo(Some(1), &None);
    assert_eq!(r.content.as_deref(), Some("Could not fetch server info."));
    let g = GuildSummary {
        id: 175928847299117063,
        name: "Hub".to_string(),
        icon_url: None,
        owner_id: 4,
        member_count: 10,
        channel_count: 3,
        role_count: 2,
        boosts: None,
    };
    let e = serverinfo(Some(1), &Some(g)).embed.unwrap();
    assert_eq!(e.title.as_deref(), Some("Hub"));
    assert_eq!(e.thumbnail.as_deref(), Some("https://cdn.discordapp.com/embed/avatars/0.png"));
    let values: Vec<&str> = e.fields.iter().map(|f| f.value.as_str()).collect();
    assert_eq!(values, vec!["<@4>", "10", "3", "2", "0", "175928847299117063"]);
    assert_eq!(e.footer.as_deref(), Some("Created: 2016-04-30"));
}

#[test]
fn embeds_on_given_dates() {
    let e = userinfo_on(&profile(false), "1999-12-31").embed.unwrap();
    assert_eq!(e.fields[2].name, "Account Created");
    assert_eq!(e.fields[2].value, "1999-12-31");
    let g = GuildSummary {
        id: 9,
        name: "Den".to_string(),
        icon_url: Some("https://cdn/i.png".to_string()),
        owner_id: 5,
        member_count: 1,
        channel_count: 0,
        role_count: 1,
        boosts: Some(7),
    };
    let e = serverinfo_embed_exec(&g, "2020-02-02");
    assert_eq!(e.thumbnail.as_deref(), Some("https://cdn/i.png"));
    assert_eq!(e.fields[4].value, "7");
    assert_eq!(e.footer.as_deref(), Some("Created: 2020-02-02"));
}

#[test]
fn creation_dates_follow_the_calendar() {
    assert_eq!(created_date(683101126656000000), "2020-02-29");
    assert_eq!(created_date(794354201391005696), "2020-12-31");
    assert_eq!(created_date(794354201391005696 + (1 << 22)), "2021-01-01");
    assert_eq!(created_date(11272255753420800000), "2100-03-01");
    assert_eq!(created_date(u64::MAX), "2154-05-15");
}
