use aether_discord::commands::{
    build_commands, find_option, fun, general, get_option_int, get_option_str, get_option_user,
    handle_command, moderation, pterodactyl, unknown_command, utility, CommandOption, Module,
    OptionKind, OptionValue, Permission,
};

fn opt(name: &str, value: OptionValue) -> CommandOption {
    CommandOption { name: name.to_string(), value }
}

#[test]
fn every_command_is_registered_once_in_order() {
    let names: Vec<String> = build_commands().iter().map(|c| c.name.clone()).collect();
    assert_eq!(
        names,
        vec![
            "ping", "info", "help", "avatar", "serverinfo", "userinfo", "ban", "kick", "mute",
            "unmute", "warn", "purge", "slowmode", "embed", "poll", "remind", "calc", "8ball",
            "dice", "roast", "compliment", "coinflip", "rps", "ptero",
        ]
    );
    let mut sorted = names.clone();
    sorted.sort();
    sorted.dedup();
    assert_eq!(sorted.len(), names.len());
}

#[test]
fn registered_commands_route_to_their_group() {
    for c in general::register() {
        assert_eq!(handle_command(&c.name), Module::General);
        assert!(general::handle(&c.name).is_some());
    }
    for c in moderation::register() {
        assert_eq!(handle_command(&c.name), Module::Moderation);
        assert!(moderation::handle(&c.name).is_some());
    }
    for c in utility::register() {
        assert_eq!(handle_command(&c.name), Module::Utility);
        assert!(utility::handle(&c.name).is_some());
    }
    for c in fun::register() {
        assert_eq!(handle_command(&c.name), Module::Fun);
        assert!(fun::handle(&c.name).is_some());
    }
    for c in pterodactyl::register() {
        assert_eq!(handle_command(&c.name), Module::Pterodactyl);
    }
}

#[test]
fn unknown_names_route_nowhere() {
    assert_eq!(handle_command("nope"), Module::Unknown);
    assert_eq!(handle_command("Ping"), Module::Unknown);
    assert_eq!(handle_command(""), Module::Unknown);
    let r = unknown_command();
    assert_eq!(r.content.as_deref(), Some("Unknown command."));
    assert!(r.ephemeral);
}

#[test]
fn command_details() {
    let m = moderation::register();
    assert_eq!(m[0].permission, Some(Permission::BanMembers));
    assert_eq!(m[2].options.len(), 3);
    assert_eq!(m[2].options[1].kind, OptionKind::Integer);
    assert!(m[2].options[1].required);
    assert!(!m[2].options[2].required);
    let f = fun::register();
    let rps = &f[5];
    assert_eq!(rps.options[0].choices.len(), 3);
    assert_eq!(rps.options[0].choices[2].name, "Scissors");
    assert_eq!(rps.options[0].choices[2].value, "scissors");
    let p = &pterodactyl::register()[0];
    assert_eq!(p.options.len(), 5);
    assert_eq!(p.options[0].kind, OptionKind::SubCommand);
    assert!(p.options[0].sub_options.is_empty());
    assert_eq!(p.options[1].sub_options[0].name, "id");
    assert!(p.options[1].sub_options[0].required);
    let u = utility::register();
    assert_eq!(u[0].permission, Some(Permission::ManageMessages));
    assert_eq!(u[1].permission, None);
    let g = general::register();
    assert_eq!(g[3].options[0].kind, OptionKind::User);
    assert!(!g[3].options[0].required);
}

#[test]
fn option_lookup_takes_the_first_of_a_name() {
    let opts = vec![
        opt("user", OptionValue::Integer(3)),
        opt("user", OptionValue::User(5)),
        opt("reason", OptionValue::Text("loud".to_string())),
        opt("amount", OptionValue::Integer(12)),
    ];
    assert_eq!(find_option(&opts, "user"), Some(0));
    assert_eq!(get_option_user(&opts, "user"), None);
    assert_eq!(get_option_str(&opts, "reason"), Some("loud"));
    assert_eq!(get_option_int(&opts, "amount"), Some(12));
    assert_eq!(get_option_int(&opts, "reason"), None);
    assert_eq!(get_option_str(&opts, "missing"), None);
}

#[test]
fn help_names_exactly_the_registered_commands() {
    let e = general::help().embed.unwrap();
    let groups = [general::register(), moderation::register(), utility::register(), fun::register()];
    assert_eq!(e.fields.len(), 5);
    for (j, g) in groups.iter().enumerate() {
        let line: Vec<String> = g.iter().map(|c| format!("`/{}`", c.name)).collect();
        assert_eq!(e.fields[j].value, line.join(" "));
    }
    let ptero = &pterodactyl::register()[0];
    let mut listed: Vec<String> =
        e.fields[4].value.split("` `").map(|x| x.trim_matches('`').to_string()).collect();
    listed.sort();
    let mut subs: Vec<String> = ptero.options.iter().map(|o| format!("/ptero {}", o.name)).collect();
    subs.sort();
    assert_eq!(listed, subs);
}
