use aether_discord::commands::pterodactyl::{
    api_error, byte_unit, handle, list_reply, list_request, plain_bytes_text, power_body,
    power_reply, unit_bytes, unit_suffix_exec,
    power_request, status_reply, status_request, ByteUnit, PteroStep, ServerSummary, Signal,
};
use aether_discord::commands::{CommandOption, OptionValue};
use aether_discord::config::{Config, DiscordConfig, PterodactylConfig};

fn config(panel: bool) -> Config {
    Config {
        discord: DiscordConfig {
            token: "t".to_string(),
            prefix: "!".to_string(),
            owner_id: None,
            log_channel_id: None,
            welcome_channel_id: None,
            welcome_message: None,
        },
        pterodactyl: if panel {
            Some(PterodactylConfig { panel_url: "https://p.example".to_string(), api_key: "k1".to_string() })
        } else {
            None
        },
        features: None,
    }
}

fn sub(name: &str, id: Option<&str>) -> CommandOption {
    let inner = match id {
        Some(i) => vec![CommandOption { name: "id".to_string(), value: OptionValue::Text(i.to_string()) }],
        None => Vec::new(),
    };
    CommandOption { name: name.to_string(), value: OptionValue::SubCommand(inner) }
}

fn private_text(step: PteroStep) -> String {
    match step {
        PteroStep::Respond(r) => {
            assert!(r.ephemeral);
            r.content.unwrap()
        },
        other => panic!("expected a reply, got {:?}", other),
    }
}

#[test]
fn missing_configuration() {
    assert_eq!(private_text(handle(None, &Vec::new())), "❌ Bot config not loaded.");
    assert_eq!(
        private_text(handle(Some(&config(false)), &Vec::new())),
        "❌ Pterodactyl is not configured. Add `[pterodactyl]` to config.toml."
    );
    assert_eq!(private_text(handle(Some(&config(true)), &Vec::new())), "❌ Invalid subcommand.");
    assert_eq!(private_text(handle(Some(&config(true)), &vec![sub("reboot", None)])), "❌ Unknown subcommand.");
}

#[test]
fn subcommands() {
    let c = config(true);
    match handle(Some(&c), &vec![sub("list", None)]) {
        PteroStep::List { panel } => assert_eq!(panel.panel_url, "https://p.example"),
        other => panic!("{:?}", other),
    }
    match handle(Some(&c), &vec![CommandOption { name: "x".to_string(), value: OptionValue::Integer(1) }, sub("status", Some("ab12"))]) {
        PteroStep::Status { id, .. } => assert_eq!(id, "ab12"),
        other => panic!("{:?}", other),
    }
    match handle(Some(&c), &vec![sub("restart", Some("zz"))]) {
        PteroStep::Power { id, signal, .. } => {
            assert_eq!(id, "zz");
            assert_eq!(signal, Signal::Restart);
        },
        other => panic!("{:?}", other),
    }
    match handle(Some(&c), &vec![sub("stop", None)]) {
        PteroStep::Power { id, signal, .. } => {
            assert_eq!(id, "");
            assert_eq!(signal, Signal::Stop);
        },
        other => panic!("{:?}", other),
    }
}

#[test]
fn requests() {
    let p = PterodactylConfig { panel_url: "https://p.example".to_string(), api_key: "k1".to_string() };
    let r = list_request(&p);
    assert_eq!(r.url, "https://p.example/api/client/");
    assert_eq!(r.authorization, "Bearer k1");
    assert_eq!(status_request(&p, "ab").url, "https://p.example/api/client/servers/ab/resources");
    assert_eq!(power_request(&p, "ab").url, "https://p.example/api/client/servers/ab/power");
}

#[test]
fn listing() {
    let r = list_reply(&Vec::new());
    assert_eq!(r.content.as_deref(), Some("No servers found."));
    let servers = vec![
        ServerSummary { name: Some("Lobby".to_string()), identifier: Some("a1".to_string()), node: Some("n1".to_string()) },
        ServerSummary { name: None, identifier: None, node: None },
    ];
    let e = list_reply(&servers).embed.unwrap();
    assert_eq!(e.title.as_deref(), Some("📋 Pterodactyl Servers"));
    assert_eq!(e.description.as_deref(), Some("`a1` **Lobby** — Node: n1\n`?` **Unknown** — Node: ?\n"));
    assert_eq!(e.footer.as_deref(), Some("Total: 2 servers"));
}

#[test]
fn status() {
    let e = status_reply("a1", Some("running"), "1.0GB", "12.5%", "3.0MB").embed.unwrap();
    assert_eq!(e.title.as_deref(), Some("Server: a1"));
    assert_eq!(e.color, Some(0x00ff9d));
    assert_eq!(e.fields[0].value, "🟢 running");
    assert_eq!(e.fields[1].value, "1.0GB");
    assert_eq!(e.fields[2].value, "12.5%");
    assert_eq!(e.fields[3].name, "Disk");
    let e = status_reply("a1", None, "0B", "0.0%", "0B").embed.unwrap();
    assert_eq!(e.color, Some(0xff4466));
    assert_eq!(e.fields[0].value, "🔴 unknown");
    let e = status_reply("a1", Some("starting"), "", "", "").embed.unwrap();
    assert_eq!(e.fields[0].value, "🟡 starting");
    let e = status_reply("a1", Some("stopping"), "", "", "").embed.unwrap();
    assert_eq!(e.fields[0].value, "🟠 stopping");
}

#[test]
fn power_and_errors() {
    assert_eq!(power_reply(Signal::Start, "a1").content.as_deref(), Some("▶️ `start` signal sent to server `a1`"));
    assert_eq!(power_reply(Signal::Stop, "a1").content.as_deref(), Some("⏹️ `stop` signal sent to server `a1`"));
    assert_eq!(power_reply(Signal::Restart, "a1").content.as_deref(), Some("🔄 `restart` signal sent to server `a1`"));
    assert_eq!(api_error("timeout").content.as_deref(), Some("❌ API error: timeout"));
}

#[test]
fn byte_units() {
    assert_eq!(byte_unit(0), ByteUnit::Bytes);
    assert_eq!(byte_unit(1023), ByteUnit::Bytes);
    assert_eq!(byte_unit(1024), ByteUnit::Kilobytes);
    assert_eq!(byte_unit(1_048_575), ByteUnit::Kilobytes);
    assert_eq!(byte_unit(1_048_576), ByteUnit::Megabytes);
    assert_eq!(byte_unit(1_073_741_824), ByteUnit::Gigabytes);
    assert_eq!(byte_unit(u64::MAX), ByteUnit::Gigabytes);
    assert_eq!(plain_bytes_text(512), "512B");
}

#[test]
fn power_bodies() {
    assert_eq!(power_body(Signal::Start), "{\"signal\":\"start\"}");
    assert_eq!(power_body(Signal::Stop), "{\"signal\":\"stop\"}");
    assert_eq!(power_body(Signal::Restart), "{\"signal\":\"restart\"}");
}

#[test]
fn power_body_matches_serde_json() {
    for (sig, name) in [(Signal::Start, "start"), (Signal::Stop, "stop"), (Signal::Restart, "restart")] {
        let mut m = serde_json::Map::new();
        m.insert("signal".to_string(), serde_json::Value::String(name.to_string()));
        let expected = serde_json::to_string(&serde_json::Value::Object(m)).unwrap();
        assert_eq!(power_body(sig), expected);
    }
}

#[test]
fn unit_sizes_and_suffixes() {
    assert_eq!(unit_bytes(ByteUnit::Gigabytes), 1 << 30);
    assert_eq!(unit_bytes(ByteUnit::Megabytes), 1 << 20);
    assert_eq!(unit_bytes(ByteUnit::Kilobytes), 1 << 10);
    assert_eq!(unit_bytes(ByteUnit::Bytes), 1);
    assert_eq!(unit_suffix_exec(ByteUnit::Gigabytes), "GB");
    assert_eq!(unit_suffix_exec(ByteUnit::Megabytes), "MB");
    assert_eq!(unit_suffix_exec(ByteUnit::Kilobytes), "KB");
    assert_eq!(unit_suffix_exec(ByteUnit::Bytes), "B");
}
