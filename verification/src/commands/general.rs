use vstd::prelude::*;

use crate::commands::{CommandSpec, CommandView, EmbedSpec, EmbedView, OptionKind, OptionSpec, Reply, ReplyView, cmd, command_views, e_color, e_description, e_field, e_footer, e_image, e_thumbnail, e_title, e_url, embed, embed_reply, opt, owned, text_reply, with_opt};
use crate::calendar::utc_date_text;
use crate::text::{
    dec_digits, int_text, mention_text, push_i64, push_mention, push_str, push_u64, str_eq,
    string_from_chars,
};

verus! {

/// The general commands, in the order they are registered.
pub open spec fn general_commands() -> Seq<CommandView> {
    seq![
        cmd("ping"@, "Check bot latency"@),
        cmd("info"@, "Show bot information"@),
        cmd("help"@, "Show all available commands"@),
        with_opt(cmd("avatar"@, "Get a user's avatar"@), opt(OptionKind::User, "user"@, "Target user"@, false)),
        cmd("serverinfo"@, "Show server information"@),
        with_opt(cmd("userinfo"@, "Show user information"@), opt(OptionKind::User, "user"@, "Target user"@, false)),
    ]
}

/// The general commands: ping, info, help, avatar, serverinfo, userinfo.
pub fn register() -> (res: Vec<CommandSpec>)
    ensures
        command_views(res@) == general_commands(),
{
    let mut v: Vec<CommandSpec> = Vec::new();
    v.push(CommandSpec::new("ping", "Check bot latency"));
    v.push(CommandSpec::new("info", "Show bot information"));
    v.push(CommandSpec::new("help", "Show all available commands"));
    v.push(CommandSpec::new("avatar", "Get a user's avatar").add_option(
        OptionSpec::new(OptionKind::User, "user", "Target user", false),
    ));
    v.push(CommandSpec::new("serverinfo", "Show server information"));
    v.push(CommandSpec::new("userinfo", "Show user information").add_option(
        OptionSpec::new(OptionKind::User, "user", "Target user", false),
    ));
    assert(command_views(v@) =~= general_commands());
    v
}

/// The general command that a command name asks for.
#[derive(PartialEq, Eq, Structural, Clone, Copy, Debug)]
pub enum GeneralCommand {
    Ping,
    Info,
    Help,
    Avatar,
    ServerInfo,
    UserInfo,
}

/// The general command named `name`, if any.
pub open spec fn general_command_of(name: Seq<char>) -> Option<GeneralCommand> {
    if name == "ping"@ {
        Some(GeneralCommand::Ping)
    } else if name == "info"@ {
        Some(GeneralCommand::Info)
    } else if name == "help"@ {
        Some(GeneralCommand::Help)
    } else if name == "avatar"@ {
        Some(GeneralCommand::Avatar)
    } else if name == "serverinfo"@ {
        Some(GeneralCommand::ServerInfo)
    } else if name == "userinfo"@ {
        Some(GeneralCommand::UserInfo)
    } else {
        None
    }
}

/// Picks the general command that the command name asks for.
pub fn handle(name: &str) -> (res: Option<GeneralCommand>)
    ensures
        res == general_command_of(name@),
{
    if str_eq(name, "ping") {
        Some(GeneralCommand::Ping)
    } else if str_eq(name, "info") {
        Some(GeneralCommand::Info)
    } else if str_eq(name, "help") {
        Some(GeneralCommand::Help)
    } else if str_eq(name, "avatar") {
        Some(GeneralCommand::Avatar)
    } else if str_eq(name, "serverinfo") {
        Some(GeneralCommand::ServerInfo)
    } else if str_eq(name, "userinfo") {
        Some(GeneralCommand::UserInfo)
    } else {
        None
    }
}

/// The first answer to `/ping`, sent before the latency is known.
pub fn ping_start() -> (res: Reply)
    ensures
        res@ == text_reply("🏓 Pinging..."@, false),
{
    Reply::text(owned("🏓 Pinging..."), false)
}

/// The text that replaces it once the round trip took `latency_ms` milliseconds.
pub open spec fn pong_text(latency_ms: u64) -> Seq<char> {
    "🏓 **Pong!**\n> Latency: `"@ + dec_digits(latency_ms as nat) + "ms`"@
}

/// The answer to `/ping` once the latency is known.
pub fn pong(latency_ms: u64) -> (res: Reply)
    ensures
        res@ == text_reply(pong_text(latency_ms), false),
{
    let mut t: Vec<char> = Vec::new();
    push_str(&mut t, "🏓 **Pong!**\n> Latency: `");
    push_u64(&mut t, latency_ms);
    push_str(&mut t, "ms`");
    assert(t@ =~= pong_text(latency_ms));
    Reply::text(string_from_chars(&t), false)
}

/// Integer division that rounds toward zero, as Rust's `/` on signed numbers does.
pub open spec fn tdiv(a: int, b: int) -> int {
    if a >= 0 {
        a / b
    } else {
        -((-a) / b)
    }
}

/// The remainder that goes with `tdiv`, as Rust's `%` on signed numbers gives it.
pub open spec fn trem(a: int, b: int) -> int {
    a - tdiv(a, b) * b
}

/// Uptime after `secs` elapsed seconds, as `{days}d {hours}h {minutes}m`: whole days, the hours
/// past them and the minutes past those, each rounded toward zero as chrono's `num_days`,
/// `num_hours` and `num_minutes` are.
pub open spec fn uptime_text(secs: i64) -> Seq<char> {
    int_text(tdiv(secs as int, 86400)) + "d "@ + int_text(trem(tdiv(secs as int, 3600), 24))
        + "h "@ + int_text(trem(tdiv(secs as int, 60), 60)) + "m"@
}

/// For time elapsed forward, the days, hours and minutes shown account for all of it but the
/// seconds past the last whole minute.
pub proof fn law_uptime_accounts_for_elapsed_time(secs: i64)
    requires
        secs >= 0,
    ensures
        0 <= (secs as int) - (tdiv(secs as int, 86400) * 86400 + trem(tdiv(secs as int, 3600), 24)
            * 3600 + trem(tdiv(secs as int, 60), 60) * 60) < 60,
{
    let a = secs as int;
    let d = a / 86400;
    let h = (a / 3600) % 24;
    let m = (a / 60) % 60;
    assert(tdiv(a, 86400) == d);
    assert(trem(tdiv(a, 3600), 24) == h);
    assert(trem(tdiv(a, 60), 60) == m);
    assert(a / 3600 == d * 24 + h) by (nonlinear_arith)
        requires
            a >= 0,
            d == a / 86400,
            h == (a / 3600) % 24,
    ;
    assert(a / 60 == (a / 3600) * 60 + m) by (nonlinear_arith)
        requires
            a >= 0,
            m == (a / 60) % 60,
    ;
    assert(0 <= a - (a / 60) * 60 < 60) by (nonlinear_arith)
        requires
            a >= 0,
    ;
}

/// The uptime text; `Unknown` when the start time is not known.
pub open spec fn uptime_or_unknown(secs: Option<i64>) -> Seq<char> {
    match secs {
        Some(s) => uptime_text(s),
        None => "Unknown"@,
    }
}

/// Days, hours past the days, minutes past the hours, of a non-negative number of seconds.
fn split_uptime(m: u64) -> (res: (u64, u64, u64))
    ensures
        res.0 == m / 86400,
        res.1 == (m / 3600) % 24,
        res.2 == (m / 60) % 60,
{
    (m / 86400, (m / 3600) % 24, (m / 60) % 60)
}

/// The uptime text after `secs` elapsed seconds.
pub fn uptime(secs: i64) -> (res: String)
    ensures
        res@ == uptime_text(secs),
{
    let neg = secs < 0;
    let m: u64 = if neg {
        (-(secs as i128)) as u64
    } else {
        secs as u64
    };
    let (d, h, mi) = split_uptime(m);
    let d_i: i64 = if neg { -(d as i64) } else { d as i64 };
    let h_i: i64 = if neg { -(h as i64) } else { h as i64 };
    let mi_i: i64 = if neg { -(mi as i64) } else { mi as i64 };
    proof {
        let a = secs as int;
        if neg {
            assert(m == -a);
            assert(tdiv(a, 86400) == -(m / 86400));
            assert(tdiv(a, 3600) == -(m / 3600));
            assert(tdiv(a, 60) == -(m / 60));
            let q = (m / 3600) as int;
            assert(trem(-q, 24) == -(q % 24)) by {
                assert(tdiv(-q, 24) == -(q / 24));
            }
            let r = (m / 60) as int;
            assert(trem(-r, 60) == -(r % 60)) by {
                assert(tdiv(-r, 60) == -(r / 60));
            }
        } else {
            let q = (m / 3600) as int;
            let r = (m / 60) as int;
            assert(trem(q, 24) == q % 24);
            assert(trem(r, 60) == r % 60);
        }
    }
    let mut t: Vec<char> = Vec::new();
    push_i64(&mut t, d_i);
    push_str(&mut t, "d ");
    push_i64(&mut t, h_i);
    push_str(&mut t, "h ");
    push_i64(&mut t, mi_i);
    push_str(&mut t, "m");
    assert(t@ =~= uptime_text(secs));
    string_from_chars(&t)
}

/// The `/info` embed, showing uptime text `uptime`.
pub open spec fn info_view(uptime: Seq<char>) -> ReplyView {
    embed_reply(
        e_footer(
            e_field(
                e_field(
                    e_field(
                        e_field(
                            e_field(
                                e_field(
                                    e_color(
                                        e_description(
                                            e_title(embed(), "⚡ Aether Discord Bot"@),
                                            "A powerful Discord bot built with **Rust** 🦀"@,
                                        ),
                                        0x00d2ff,
                                    ),
                                    "Version"@,
                                    "1.0.0"@,
                                    true,
                                ),
                                "Language"@,
                                "Rust 🦀"@,
                                true,
                            ),
                            "Framework"@,
                            "Serenity"@,
                            true,
                        ),
                        "Uptime"@,
                        uptime,
                        true,
                    ),
                    "Author"@,
                    "Aetherix-ops"@,
                    true,
                ),
                "Source"@,
                "[GitHub](https://github.com/Aetherix-ops/aether-discord)"@,
                true,
            ),
            "github.com/Aetherix-ops/aether-discord"@,
        ),
        false,
    )
}

/// The reply to `/info`, given the seconds since start (none when the start time is unknown).
pub fn info(elapsed_secs: Option<i64>) -> (res: Reply)
    ensures
        res@ == info_view(uptime_or_unknown(elapsed_secs)),
{
    let up = match elapsed_secs {
        Some(secs) => uptime(secs),
        None => owned("Unknown"),
    };
    let e = EmbedSpec::new().title(owned("⚡ Aether Discord Bot")).description(
        owned("A powerful Discord bot built with **Rust** 🦀"),
    ).color(0x00d2ff).field(owned("Version"), owned("1.0.0"), true).field(
        owned("Language"),
        owned("Rust 🦀"),
        true,
    ).field(owned("Framework"), owned("Serenity"), true).field(owned("Uptime"), up, true).field(
        owned("Author"),
        owned("Aetherix-ops"),
        true,
    ).field(owned("Source"), owned("[GitHub](https://github.com/Aetherix-ops/aether-discord)"), true).footer(
        owned("github.com/Aetherix-ops/aether-discord"),
    );
    Reply::embed(e, false)
}

/// The `/help` embed: one field per group of commands, shown only to the caller.
pub open spec fn help_view() -> ReplyView {
    embed_reply(
        e_footer(
            e_field(
                e_field(
                    e_field(
                        e_field(
                            e_field(
                                e_color(e_title(embed(), "📖 Aether — Command List"@), 0x00d2ff),
                                "General"@,
                                "`/ping` `/info` `/help` `/avatar` `/serverinfo` `/userinfo`"@,
                                false,
                            ),
                            "Moderation"@,
                            "`/ban` `/kick` `/mute` `/unmute` `/warn` `/purge` `/slowmode`"@,
                            false,
                        ),
                        "Utility"@,
                        "`/embed` `/poll` `/remind` `/calc`"@,
                        false,
                    ),
                    "Fun"@,
                    "`/8ball` `/dice` `/roast` `/compliment` `/coinflip` `/rps`"@,
                    false,
                ),
                "Pterodactyl"@,
                "`/ptero status` `/ptero list` `/ptero start` `/ptero stop` `/ptero restart`"@,
                false,
            ),
            "Aether v1.0.0 • Built with Rust 🦀"@,
        ),
        true,
    )
}

/// The reply to `/help`.
pub fn help() -> (res: Reply)
    ensures
        res@ == help_view(),
{
    let e = EmbedSpec::new().title(owned("📖 Aether — Command List")).color(0x00d2ff).field(
        owned("General"),
        owned("`/ping` `/info` `/help` `/avatar` `/serverinfo` `/userinfo`"),
        false,
    ).field(
        owned("Moderation"),
        owned("`/ban` `/kick` `/mute` `/unmute` `/warn` `/purge` `/slowmode`"),
        false,
    ).field(owned("Utility"), owned("`/embed` `/poll` `/remind` `/calc`"), false).field(
        owned("Fun"),
        owned("`/8ball` `/dice` `/roast` `/compliment` `/coinflip` `/rps`"),
        false,
    ).field(
        owned("Pterodactyl"),
        owned("`/ptero status` `/ptero list` `/ptero start` `/ptero stop` `/ptero restart`"),
        false,
    ).footer(owned("Aether v1.0.0 • Built with Rust 🦀"));
    Reply::embed(e, true)
}

/// What the bot knows of a user: id, name, whether it is a bot, and the URL of its avatar
/// (its own, or Discord's default one when it has none).
#[derive(Clone, Debug, PartialEq, Eq)]
pub struct UserProfile {
    pub id: u64,
    pub name: String,
    pub bot: bool,
    pub avatar_url: String,
}

/// The `/avatar` embed for a user.
pub open spec fn avatar_view(u: UserProfile) -> ReplyView {
    embed_reply(
        e_url(
            e_color(e_image(e_title(embed(), u.name@ + "'s Avatar"@), u.avatar_url@), 0x00d2ff),
            u.avatar_url@,
        ),
        false,
    )
}

/// The reply to `/avatar`.
pub fn avatar(u: &UserProfile) -> (res: Reply)
    ensures
        res@ == avatar_view(*u),
{
    let mut title: Vec<char> = Vec::new();
    push_str(&mut title, u.name.as_str());
    push_str(&mut title, "'s Avatar");
    let e = EmbedSpec::new().title(string_from_chars(&title)).image(owned(u.avatar_url.as_str())).color(
        0x00d2ff,
    ).url(owned(u.avatar_url.as_str()));
    Reply::embed(e, false)
}

/// The Discord epoch, 2015-01-01, in milliseconds since 1970.
pub const DISCORD_EPOCH_MS: u64 = 1_420_070_400_000;

/// The time, in milliseconds since 1970, that a Discord id was made: its bits above the lowest
/// 22, plus the Discord epoch.
pub open spec fn snowflake_millis(id: u64) -> int {
    (id as int) / 4194304 + 1_420_070_400_000
}

/// The time a Discord id was made, as serenity's `created_at` computes it.
pub fn created_at_millis(id: u64) -> (res: i64)
    ensures
        res as int == snowflake_millis(id),
        0 <= res <= 5_818_116_911_103,
{
    let high = id >> 22;
    assert(id >> 22u64 == id / 4194304) by (bit_vector);
    assert(id / 4194304 <= 4398046511103) by (bit_vector);
    (high + DISCORD_EPOCH_MS) as i64
}

/// Formats the UTC date of a time in milliseconds with chrono:
/// `DateTime::from_timestamp_millis(ms)` formatted as `%Y-%m-%d`. Its contract claims that the
/// text is the Gregorian date of the day the time falls on, its year in four digits (the times
/// admitted lie in the years 1970 to 2154) and its month and day in two.
#[verifier::external_body]
fn utc_date(ms: i64) -> (res: String)
    requires
        0 <= ms <= 5_818_116_911_103,
    ensures
        res@ == utc_date_text(ms as int),
{
    chrono::DateTime::from_timestamp_millis(ms).unwrap().format("%Y-%m-%d").to_string()
}

/// The date a Discord id was made, as `YYYY-MM-DD`.
pub fn created_date(id: u64) -> (res: String)
    ensures
        res@ == utc_date_text(snowflake_millis(id)),
{
    let ms = created_at_millis(id);
    utc_date(ms)
}

/// The `/userinfo` embed for a user whose account was made on date `created`.
pub open spec fn userinfo_view(u: UserProfile, created: Seq<char>) -> ReplyView {
    embed_reply(
        e_field(
            e_field(
                e_field(
                    e_color(e_thumbnail(e_title(embed(), u.name@), u.avatar_url@), 0x00d2ff),
                    "User ID"@,
                    dec_digits(u.id as nat),
                    true,
                ),
                "Bot"@,
                if u.bot {
                    "Yes"@
                } else {
                    "No"@
                },
                true,
            ),
            "Account Created"@,
            created,
            true,
        ),
        false,
    )
}

/// The reply to `/userinfo`.
pub fn userinfo(u: &UserProfile) -> (res: Reply)
    ensures
        res@ == userinfo_view(*u, utc_date_text(snowflake_millis(u.id))),
{
    let created = created_date(u.id);
    userinfo_on(u, created.as_str())
}

/// The reply to `/userinfo` for a user whose account was made on date `created`.
pub fn userinfo_on(u: &UserProfile, created: &str) -> (res: Reply)
    ensures
        res@ == userinfo_view(*u, created@),
{
    let mut id: Vec<char> = Vec::new();
    push_u64(&mut id, u.id);
    let e = EmbedSpec::new().title(owned(u.name.as_str())).thumbnail(owned(u.avatar_url.as_str())).color(
        0x00d2ff,
    ).field(owned("User ID"), string_from_chars(&id), true).field(
        owned("Bot"),
        if u.bot {
            owned("Yes")
        } else {
            owned("No")
        },
        true,
    ).field(owned("Account Created"), owned(created), true);
    Reply::embed(e, false)
}

/// What the bot knows of a server.
#[derive(Clone, Debug, PartialEq, Eq)]
pub struct GuildSummary {
    pub id: u64,
    pub name: String,
    pub icon_url: Option<String>,
    pub owner_id: u64,
    pub member_count: u64,
    pub channel_count: u64,
    pub role_count: u64,
    pub boosts: Option<u64>,
}

/// The icon shown for a server without one.
pub open spec fn default_icon() -> Seq<char> {
    "https://cdn.discordapp.com/embed/avatars/0.png"@
}

/// The `/serverinfo` embed for a server made on date `created`.
pub open spec fn serverinfo_embed(g: GuildSummary, created: Seq<char>) -> EmbedView {
    e_footer(
        e_field(
            e_field(
                e_field(
                    e_field(
                        e_field(
                            e_field(
                                e_color(
                                    e_thumbnail(
                                        e_title(embed(), g.name@),
                                        match g.icon_url {
                                            Some(u) => u@,
                                            None => default_icon(),
                                        },
                                    ),
                                    0x00d2ff,
                                ),
                                "Owner"@,
                                mention_text(g.owner_id),
                                true,
                            ),
                            "Members"@,
                            dec_digits(g.member_count as nat),
                            true,
                        ),
                        "Channels"@,
                        dec_digits(g.channel_count as nat),
                        true,
                    ),
                    "Roles"@,
                    dec_digits(g.role_count as nat),
                    true,
                ),
                "Boosts"@,
                dec_digits(
                    match g.boosts {
                        Some(b) => b as nat,
                        None => 0,
                    },
                ),
                true,
            ),
            "Server ID"@,
            dec_digits(g.id as nat),
            true,
        ),
        "Created: "@ + created,
    )
}

/// The reply to `/serverinfo`: a private notice outside a server, or when the server is not
/// known to the bot; else the server's embed.
pub open spec fn serverinfo_view(guild_id: Option<u64>, guild: Option<GuildSummary>) -> ReplyView {
    match guild_id {
        None => text_reply("This command can only be used in a server."@, true),
        Some(_) => match guild {
            None => text_reply("Could not fetch server info."@, true),
            Some(g) => embed_reply(serverinfo_embed(g, utc_date_text(snowflake_millis(g.id))), false),
        },
    }
}

fn u64_text(n: u64) -> (res: String)
    ensures
        res@ == dec_digits(n as nat),
{
    let mut t: Vec<char> = Vec::new();
    push_u64(&mut t, n);
    string_from_chars(&t)
}

/// The reply to `/serverinfo` in server `guild_id` (none outside a server), whose details the
/// bot may or may not know.
pub fn serverinfo(guild_id: Option<u64>, guild: &Option<GuildSummary>) -> (res: Reply)
    ensures
        res@ == serverinfo_view(guild_id, *guild),
{
    if guild_id.is_none() {
        return Reply::text(owned("This command can only be used in a server."), true);
    }
    let g = match guild {
        Some(g) => g,
        None => return Reply::text(owned("Could not fetch server info."), true),
    };
    let date = created_date(g.id);
    Reply::embed(serverinfo_embed_exec(g, date.as_str()), false)
}

/// The `/serverinfo` embed for server `g`, made on date `created`.
pub fn serverinfo_embed_exec(g: &GuildSummary, created: &str) -> (res: EmbedSpec)
    ensures
        res@ == serverinfo_embed(*g, created@),
{
    let icon = match &g.icon_url {
        Some(u) => owned(u.as_str()),
        None => owned("https://cdn.discordapp.com/embed/avatars/0.png"),
    };
    let mut owner: Vec<char> = Vec::new();
    push_mention(&mut owner, g.owner_id);
    let boosts = match g.boosts {
        Some(b) => b,
        None => 0,
    };
    let mut footer: Vec<char> = Vec::new();
    push_str(&mut footer, "Created: ");
    push_str(&mut footer, created);
    let e = EmbedSpec::new().title(owned(g.name.as_str())).thumbnail(icon).color(0x00d2ff).field(
        owned("Owner"),
        string_from_chars(&owner),
        true,
    ).field(owned("Members"), u64_text(g.member_count), true).field(
        owned("Channels"),
        u64_text(g.channel_count),
        true,
    ).field(owned("Roles"), u64_text(g.role_count), true).field(owned("Boosts"), u64_text(boosts), true).field(
        owned("Server ID"),
        u64_text(g.id),
        true,
    ).footer(string_from_chars(&footer));
    e
}

/// The name a general command is registered under.
pub open spec fn general_command_name(c: GeneralCommand) -> Seq<char> {
    match c {
        GeneralCommand::Ping => "ping"@,
        GeneralCommand::Info => "info"@,
        GeneralCommand::Help => "help"@,
        GeneralCommand::Avatar => "avatar"@,
        GeneralCommand::ServerInfo => "serverinfo"@,
        GeneralCommand::UserInfo => "userinfo"@,
    }
}

} // verus!
