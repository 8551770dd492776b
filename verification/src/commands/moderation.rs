use vstd::prelude::*;

use crate::commands::{
    CommandOption, CommandSpec, CommandView, OptionKind, OptionSpec, Permission, Reply,
    ReplyView, cmd_perm, command_views, get_option_int, get_option_str, get_option_user,
    opt, option_int, option_text, option_user, owned, text_reply, with_opt,
};
use crate::text::{ends_with, lemma_ends_with_appended, dec_digits, int_text, mention_text, push_i64, push_mention, push_str, push_u64, string_from_chars, str_eq};

verus! {

/// The moderation commands, in the order they are registered.
pub open spec fn moderation_commands() -> Seq<CommandView> {
    seq![
        with_opt(
            with_opt(
                cmd_perm("ban"@, "Ban a member"@, Permission::BanMembers),
                opt(OptionKind::User, "user"@, "User to ban"@, true),
            ),
            opt(OptionKind::String, "reason"@, "Reason"@, false),
        ),
        with_opt(
            with_opt(
                cmd_perm("kick"@, "Kick a member"@, Permission::KickMembers),
                opt(OptionKind::User, "user"@, "User to kick"@, true),
            ),
            opt(OptionKind::String, "reason"@, "Reason"@, false),
        ),
        with_opt(
            with_opt(
                with_opt(
                    cmd_perm("mute"@, "Timeout a member"@, Permission::ModerateMembers),
                    opt(OptionKind::User, "user"@, "User to mute"@, true),
                ),
                opt(OptionKind::Integer, "duration"@, "Duration in minutes"@, true),
            ),
            opt(OptionKind::String, "reason"@, "Reason"@, false),
        ),
        with_opt(
            cmd_perm("unmute"@, "Remove timeout from a member"@, Permission::ModerateMembers),
            opt(OptionKind::User, "user"@, "User to unmute"@, true),
        ),
        with_opt(
            with_opt(
                cmd_perm("warn"@, "Warn a member"@, Permission::ModerateMembers),
                opt(OptionKind::User, "user"@, "User to warn"@, true),
            ),
            opt(OptionKind::String, "reason"@, "Reason"@, true),
        ),
        with_opt(
            cmd_perm("purge"@, "Delete multiple messages"@, Permission::ManageMessages),
            opt(OptionKind::Integer, "amount"@, "Number of messages (1-100)"@, true),
        ),
        with_opt(
            cmd_perm("slowmode"@, "Set channel slowmode"@, Permission::ManageChannels),
            opt(OptionKind::Integer, "seconds"@, "Slowmode in seconds (0 to disable)"@, true),
        ),
    ]
}

/// The moderation commands: ban, kick, mute, unmute, warn, purge, slowmode.
pub fn register() -> (res: Vec<CommandSpec>)
    ensures
        command_views(res@) == moderation_commands(),
{
    let mut v: Vec<CommandSpec> = Vec::new();
    v.push(
        CommandSpec::new("ban", "Ban a member").default_member_permissions(
            Permission::BanMembers,
        ).add_option(OptionSpec::new(OptionKind::User, "user", "User to ban", true)).add_option(
            OptionSpec::new(OptionKind::String, "reason", "Reason", false),
        ),
    );
    v.push(
        CommandSpec::new("kick", "Kick a member").default_member_permissions(
            Permission::KickMembers,
        ).add_option(OptionSpec::new(OptionKind::User, "user", "User to kick", true)).add_option(
            OptionSpec::new(OptionKind::String, "reason", "Reason", false),
        ),
    );
    v.push(
        CommandSpec::new("mute", "Timeout a member").default_member_permissions(
            Permission::ModerateMembers,
        ).add_option(OptionSpec::new(OptionKind::User, "user", "User to mute", true)).add_option(
            OptionSpec::new(OptionKind::Integer, "duration", "Duration in minutes", true),
        ).add_option(OptionSpec::new(OptionKind::String, "reason", "Reason", false)),
    );
    v.push(
        CommandSpec::new("unmute", "Remove timeout from a member").default_member_permissions(
            Permission::ModerateMembers,
        ).add_option(OptionSpec::new(OptionKind::User, "user", "User to unmute", true)),
    );
    v.push(
        CommandSpec::new("warn", "Warn a member").default_member_permissions(
            Permission::ModerateMembers,
        ).add_option(OptionSpec::new(OptionKind::User, "user", "User to warn", true)).add_option(
            OptionSpec::new(OptionKind::String, "reason", "Reason", true),
        ),
    );
    v.push(
        CommandSpec::new("purge", "Delete multiple messages").default_member_permissions(
            Permission::ManageMessages,
        ).add_option(
            OptionSpec::new(OptionKind::Integer, "amount", "Number of messages (1-100)", true),
        ),
    );
    v.push(
        CommandSpec::new("slowmode", "Set channel slowmode").default_member_permissions(
            Permission::ManageChannels,
        ).add_option(
            OptionSpec::new(
                OptionKind::Integer,
                "seconds",
                "Slowmode in seconds (0 to disable)",
                true,
            ),
        ),
    );
    assert(command_views(v@) =~= moderation_commands());
    v
}

/// The moderation command that a command name asks for.
#[derive(PartialEq, Eq, Structural, Clone, Copy, Debug)]
pub enum ModCommand {
    Ban,
    Kick,
    Mute,
    Unmute,
    Warn,
    Purge,
    Slowmode,
}

/// The moderation command named `name`, if any.
pub open spec fn mod_command_of(name: Seq<char>) -> Option<ModCommand> {
    if name == "ban"@ {
        Some(ModCommand::Ban)
    } else if name == "kick"@ {
        Some(ModCommand::Kick)
    } else if name == "mute"@ {
        Some(ModCommand::Mute)
    } else if name == "unmute"@ {
        Some(ModCommand::Unmute)
    } else if name == "warn"@ {
        Some(ModCommand::Warn)
    } else if name == "purge"@ {
        Some(ModCommand::Purge)
    } else if name == "slowmode"@ {
        Some(ModCommand::Slowmode)
    } else {
        None
    }
}

/// Picks the moderation command that the command name asks for.
pub fn handle(name: &str) -> (res: Option<ModCommand>)
    ensures
        res == mod_command_of(name@),
{
    if str_eq(name, "ban") {
        Some(ModCommand::Ban)
    } else if str_eq(name, "kick") {
        Some(ModCommand::Kick)
    } else if str_eq(name, "mute") {
        Some(ModCommand::Mute)
    } else if str_eq(name, "unmute") {
        Some(ModCommand::Unmute)
    } else if str_eq(name, "warn") {
        Some(ModCommand::Warn)
    } else if str_eq(name, "purge") {
        Some(ModCommand::Purge)
    } else if str_eq(name, "slowmode") {
        Some(ModCommand::Slowmode)
    } else {
        None
    }
}

/// A moderation step that needs Discord to act before the reply can be written.
#[derive(Clone, Debug, PartialEq, Eq)]
pub enum ModAction {
    Ban { guild_id: u64, user_id: u64, reason: String },
    Kick { guild_id: u64, user_id: u64, reason: String },
    Mute { guild_id: u64, user_id: u64, minutes: i64, reason: String },
    Unmute { guild_id: u64, user_id: u64 },
    Purge { amount: u8 },
    Slowmode { seconds: u16 },
}

/// What a moderation command does first: answer at once, or have Discord act.
#[derive(Clone, Debug, PartialEq, Eq)]
pub enum ModStep {
    Respond(Reply),
    Act(ModAction),
}

pub open spec fn no_reason() -> Seq<char> {
    "No reason provided"@
}

/// The reason given, `No reason provided` when none was.
pub open spec fn reason_of(opts: Seq<CommandOption>) -> Seq<char> {
    match option_text(opts, "reason"@) {
        Some(r) => r,
        None => no_reason(),
    }
}

/// The number of messages to delete: the amount asked for (10 by default), kept within 1 to 100.
pub open spec fn purge_amount(asked: Option<i64>) -> u8 {
    let n = match asked {
        Some(n) => n,
        None => 10,
    };
    if n > 100 {
        100
    } else if n < 1 {
        1
    } else {
        n as u8
    }
}

/// The slow-mode delay: the seconds asked for (0 by default) cut to 16 bits as `as u16` does,
/// that is, the number modulo 65536.
pub open spec fn slowmode_seconds(asked: Option<i64>) -> u16 {
    let n = match asked {
        Some(n) => n,
        None => 0,
    };
    ((n as int) % 65536) as u16
}

/// The mute duration in minutes: the one asked for, 10 by default.
pub open spec fn mute_minutes(asked: Option<i64>) -> i64 {
    match asked {
        Some(n) => n,
        None => 10,
    }
}

pub open spec fn server_only_text(c: ModCommand) -> Seq<char> {
    if c == ModCommand::Ban || c == ModCommand::Kick {
        "This command can only be used in a server."@
    } else {
        "Server only."@
    }
}

pub open spec fn warn_text(user_id: u64, reason: Seq<char>) -> Seq<char> {
    "⚠️ "@ + mention_text(user_id) + " has been warned — Reason: "@ + reason
}

pub enum ModActionView {
    Ban { guild_id: u64, user_id: u64, reason: Seq<char> },
    Kick { guild_id: u64, user_id: u64, reason: Seq<char> },
    Mute { guild_id: u64, user_id: u64, minutes: i64, reason: Seq<char> },
    Unmute { guild_id: u64, user_id: u64 },
    Purge { amount: u8 },
    Slowmode { seconds: u16 },
}

pub enum ModStepView {
    Respond(ReplyView),
    Act(ModActionView),
}

impl View for ModAction {
    type V = ModActionView;

    open spec fn view(&self) -> ModActionView {
        match self {
            ModAction::Ban { guild_id, user_id, reason } => ModActionView::Ban {
                guild_id: *guild_id,
                user_id: *user_id,
                reason: reason@,
            },
            ModAction::Kick { guild_id, user_id, reason } => ModActionView::Kick {
                guild_id: *guild_id,
                user_id: *user_id,
                reason: reason@,
            },
            ModAction::Mute { guild_id, user_id, minutes, reason } => ModActionView::Mute {
                guild_id: *guild_id,
                user_id: *user_id,
                minutes: *minutes,
                reason: reason@,
            },
            ModAction::Unmute { guild_id, user_id } => ModActionView::Unmute {
                guild_id: *guild_id,
                user_id: *user_id,
            },
            ModAction::Purge { amount } => ModActionView::Purge { amount: *amount },
            ModAction::Slowmode { seconds } => ModActionView::Slowmode { seconds: *seconds },
        }
    }
}

impl View for ModStep {
    type V = ModStepView;

    open spec fn view(&self) -> ModStepView {
        match self {
            ModStep::Respond(r) => ModStepView::Respond(r@),
            ModStep::Act(a) => ModStepView::Act(a@),
        }
    }
}

/// The first step of moderation command `c`, called in server `guild_id` (none outside a
/// server) with options `opts`.
///
/// Ban, kick, mute and unmute answer privately that they work only in a server when called
/// outside one, and then that a user is needed when none was given; else they ask Discord to
/// act on that user, with the reason (or `No reason provided`) and, for mute, the minutes.
/// Warn needs only the user and answers publicly. Purge asks to delete between 1 and 100
/// messages; slowmode asks to set the delay.
pub open spec fn mod_step(c: ModCommand, guild_id: Option<u64>, opts: Seq<CommandOption>) -> ModStepView {
    let user = option_user(opts, "user"@);
    let need_user = ModStepView::Respond(text_reply("Please specify a user."@, true));
    match c {
        ModCommand::Warn => match user {
            Some(u) => ModStepView::Respond(text_reply(warn_text(u, reason_of(opts)), false)),
            None => need_user,
        },
        ModCommand::Purge => ModStepView::Act(
            ModActionView::Purge { amount: purge_amount(option_int(opts, "amount"@)) },
        ),
        ModCommand::Slowmode => ModStepView::Act(
            ModActionView::Slowmode { seconds: slowmode_seconds(option_int(opts, "seconds"@)) },
        ),
        _ => match guild_id {
            None => ModStepView::Respond(text_reply(server_only_text(c), true)),
            Some(g) => match user {
                None => need_user,
                Some(u) => ModStepView::Act(
                    match c {
                        ModCommand::Ban => ModActionView::Ban {
                            guild_id: g,
                            user_id: u,
                            reason: reason_of(opts),
                        },
                        ModCommand::Kick => ModActionView::Kick {
                            guild_id: g,
                            user_id: u,
                            reason: reason_of(opts),
                        },
                        ModCommand::Mute => ModActionView::Mute {
                            guild_id: g,
                            user_id: u,
                            minutes: mute_minutes(option_int(opts, "duration"@)),
                            reason: reason_of(opts),
                        },
                        _ => ModActionView::Unmute { guild_id: g, user_id: u },
                    },
                ),
            },
        },
    }
}

fn reason_exec(opts: &Vec<CommandOption>) -> (res: String)
    ensures
        res@ == reason_of(opts@),
{
    match get_option_str(opts, "reason") {
        Some(r) => owned(r),
        None => owned("No reason provided"),
    }
}

/// A public text reply that ends with reason `r`.
pub open spec fn shows_reason(rep: ReplyView, r: Seq<char>) -> bool {
    !rep.ephemeral && match rep.content {
        Some(t) => ends_with(t, r),
        None => false,
    }
}

/// The reason a moderator gives is the reason Discord gets and the one the confirmation
/// shows: when the options name user `u` and hold the text option `reason` with value `r`
/// (or no reason, and `r` is `No reason provided`), ban, kick and mute in server `g` act on
/// `u` in `g` with reason `r`, warn answers publicly with a text ending in `r`, and the
/// confirmation of a successful ban, kick or mute ends in `r`.
pub proof fn law_reason_is_carried(g: u64, opts: Seq<CommandOption>, u: u64, r: Seq<char>, minutes: i64)
    requires
        option_user(opts, "user"@) == Some(u),
        option_text(opts, "reason"@) == Some(r) || (option_text(opts, "reason"@) is None && r
            == "No reason provided"@),
    ensures
        mod_step(ModCommand::Ban, Some(g), opts) == ModStepView::Act(
            ModActionView::Ban { guild_id: g, user_id: u, reason: r },
        ),
        mod_step(ModCommand::Kick, Some(g), opts) == ModStepView::Act(
            ModActionView::Kick { guild_id: g, user_id: u, reason: r },
        ),
        mod_step(ModCommand::Mute, Some(g), opts) matches ModStepView::Act(
            ModActionView::Mute { guild_id, user_id, reason, .. },
        ) && guild_id == g && user_id == u && reason == r,
        mod_step(ModCommand::Warn, Some(g), opts) matches ModStepView::Respond(rep) && shows_reason(rep, r),
        finish_view(ModActionView::Ban { guild_id: g, user_id: u, reason: r }, None, 0) matches Some(
            rep,
        ) && shows_reason(rep, r),
        finish_view(ModActionView::Kick { guild_id: g, user_id: u, reason: r }, None, 0) matches Some(
            rep,
        ) && shows_reason(rep, r),
        finish_view(
            ModActionView::Mute { guild_id: g, user_id: u, minutes, reason: r },
            None,
            0,
        ) matches Some(rep) && shows_reason(rep, r),
{
    lemma_ends_with_appended("⚠️ "@ + mention_text(u) + " has been warned — Reason: "@, r);
    lemma_ends_with_appended("✅ Banned "@ + mention_text(u) + " — Reason: "@, r);
    lemma_ends_with_appended("✅ Kicked "@ + mention_text(u) + " — Reason: "@, r);
    lemma_ends_with_appended(
        "🔇 Muted "@ + mention_text(u) + " for "@ + int_text(minutes as int) + " minutes — Reason: "@,
        r,
    );
}

/// The number of messages to delete.
pub fn purge_amount_exec(asked: Option<i64>) -> (res: u8)
    ensures
        res == purge_amount(asked),
        1 <= res <= 100,
{
    let n = match asked {
        Some(n) => n,
        None => 10,
    };
    if n > 100 {
        100
    } else if n < 1 {
        1
    } else {
        n as u8
    }
}

/// A purge deletes between 1 and 100 messages, exactly the amount asked for when that lies in
/// this range.
pub proof fn law_purge_amount_in_range(asked: Option<i64>)
    ensures
        1 <= purge_amount(asked) <= 100,
        forall|n: i64| asked == Some(n) && 1 <= n <= 100 ==> purge_amount(asked) == n,
{
}

/// The slow-mode delay in seconds.
pub fn slowmode_seconds_exec(asked: Option<i64>) -> (res: u16)
    ensures
        res == slowmode_seconds(asked),
{
    let n = match asked {
        Some(n) => n,
        None => 0,
    };
    let r = n as u16;
    assert((n as u16) == ((n as int) % 65536) as u16) by (bit_vector);
    r
}

/// The first step of moderation command `c`.
pub fn plan(c: ModCommand, guild_id: Option<u64>, opts: &Vec<CommandOption>) -> (res: ModStep)
    ensures
        res@ == mod_step(c, guild_id, opts@),
{
    let user = get_option_user(opts, "user");
    match c {
        ModCommand::Warn => match user {
            Some(u) => {
                let reason = reason_exec(opts);
                let mut t: Vec<char> = Vec::new();
                push_str(&mut t, "⚠️ ");
                push_mention(&mut t, u);
                push_str(&mut t, " has been warned — Reason: ");
                push_str(&mut t, reason.as_str());
                assert(t@ =~= warn_text(u, reason_of(opts@)));
                ModStep::Respond(Reply::text(string_from_chars(&t), false))
            },
            None => ModStep::Respond(Reply::text(owned("Please specify a user."), true)),
        },
        ModCommand::Purge => ModStep::Act(
            ModAction::Purge { amount: purge_amount_exec(get_option_int(opts, "amount")) },
        ),
        ModCommand::Slowmode => ModStep::Act(
            ModAction::Slowmode { seconds: slowmode_seconds_exec(get_option_int(opts, "seconds")) },
        ),
        _ => match guild_id {
            None => {
                let t = if c == ModCommand::Ban || c == ModCommand::Kick {
                    owned("This command can only be used in a server.")
                } else {
                    owned("Server only.")
                };
                ModStep::Respond(Reply::text(t, true))
            },
            Some(g) => match user {
                None => ModStep::Respond(Reply::text(owned("Please specify a user."), true)),
                Some(u) => {
                    let a = match c {
                        ModCommand::Ban => ModAction::Ban {
                            guild_id: g,
                            user_id: u,
                            reason: reason_exec(opts),
                        },
                        ModCommand::Kick => ModAction::Kick {
                            guild_id: g,
                            user_id: u,
                            reason: reason_exec(opts),
                        },
                        ModCommand::Mute => {
                            let minutes = match get_option_int(opts, "duration") {
                                Some(n) => n,
                                None => 10,
                            };
                            ModAction::Mute {
                                guild_id: g,
                                user_id: u,
                                minutes,
                                reason: reason_exec(opts),
                            }
                        },
                        _ => ModAction::Unmute { guild_id: g, user_id: u },
                    };
                    ModStep::Act(a)
                },
            },
        },
    }
}

/// The reply after Discord acted: for ban, kick, mute and unmute, a public confirmation, or a
/// private notice with the error text `failure`; for purge, the number of messages deleted; for
/// slowmode, the new delay. A failed purge or slowmode gets no reply.
pub open spec fn finish_view(a: ModActionView, failure: Option<Seq<char>>, deleted: nat) -> Option<ReplyView> {
    match a {
        ModActionView::Ban { user_id, reason, .. } => Some(
            match failure {
                None => text_reply("✅ Banned "@ + mention_text(user_id) + " — Reason: "@ + reason, false),
                Some(e) => text_reply(fail_text("ban"@, e), true),
            },
        ),
        ModActionView::Kick { user_id, reason, .. } => Some(
            match failure {
                None => text_reply("✅ Kicked "@ + mention_text(user_id) + " — Reason: "@ + reason, false),
                Some(e) => text_reply(fail_text("kick"@, e), true),
            },
        ),
        ModActionView::Mute { user_id, minutes, reason, .. } => Some(
            match failure {
                None => text_reply(
                    "🔇 Muted "@ + mention_text(user_id) + " for "@ + int_text(minutes as int)
                        + " minutes — Reason: "@ + reason,
                    false,
                ),
                Some(e) => text_reply(fail_text("mute"@, e), true),
            },
        ),
        ModActionView::Unmute { user_id, .. } => Some(
            match failure {
                None => text_reply("🔊 Unmuted "@ + mention_text(user_id), false),
                Some(e) => text_reply(fail_text("unmute"@, e), true),
            },
        ),
        ModActionView::Purge { .. } => match failure {
            None => Some(text_reply("🗑️ Deleted "@ + dec_digits(deleted) + " messages."@, true)),
            Some(_) => None,
        },
        ModActionView::Slowmode { seconds } => match failure {
            None => Some(
                text_reply(
                    if seconds == 0 {
                        "✅ Slowmode disabled."@
                    } else {
                        "✅ Slowmode set to "@ + dec_digits(seconds as nat) + " seconds."@
                    },
                    false,
                ),
            ),
            Some(_) => None,
        },
    }
}

/// The notice that an action failed: what was tried and the error's text.
pub open spec fn fail_text(what: Seq<char>, e: Seq<char>) -> Seq<char> {
    "❌ Failed to "@ + what + ": "@ + e
}

pub open spec fn str_opt(o: Option<&str>) -> Option<Seq<char>> {
    match o {
        Some(t) => Some(t@),
        None => None,
    }
}

fn fail_reply(what: &str, e: &str) -> (res: Reply)
    ensures
        res@ == text_reply(fail_text(what@, e@), true),
{
    let mut t: Vec<char> = Vec::new();
    push_str(&mut t, "❌ Failed to ");
    push_str(&mut t, what);
    push_str(&mut t, ": ");
    push_str(&mut t, e);
    assert(t@ =~= fail_text(what@, e@));
    Reply::text(string_from_chars(&t), true)
}

/// The reply once Discord acted on `a`: `failure` holds the error text when it failed, and
/// `deleted` the number of messages a purge deleted.
pub fn finish(a: &ModAction, failure: Option<&str>, deleted: usize) -> (res: Option<Reply>)
    ensures
        match res {
            Some(r) => finish_view(a@, str_opt(failure), deleted as nat) == Some(r@),
            None => finish_view(a@, str_opt(failure), deleted as nat) is None,
        },
{
    match a {
        ModAction::Ban { user_id, reason, .. } => match failure {
            None => {
                let mut t: Vec<char> = Vec::new();
                push_str(&mut t, "✅ Banned ");
                push_mention(&mut t, *user_id);
                push_str(&mut t, " — Reason: ");
                push_str(&mut t, reason.as_str());
                assert(t@ =~= "✅ Banned "@ + mention_text(*user_id) + " — Reason: "@ + reason@);
                Some(Reply::text(string_from_chars(&t), false))
            },
            Some(e) => Some(fail_reply("ban", e)),
        },
        ModAction::Kick { user_id, reason, .. } => match failure {
            None => {
                let mut t: Vec<char> = Vec::new();
                push_str(&mut t, "✅ Kicked ");
                push_mention(&mut t, *user_id);
                push_str(&mut t, " — Reason: ");
                push_str(&mut t, reason.as_str());
                assert(t@ =~= "✅ Kicked "@ + mention_text(*user_id) + " — Reason: "@ + reason@);
                Some(Reply::text(string_from_chars(&t), false))
            },
            Some(e) => Some(fail_reply("kick", e)),
        },
        ModAction::Mute { user_id, minutes, reason, .. } => match failure {
            None => {
                let mut t: Vec<char> = Vec::new();
                push_str(&mut t, "🔇 Muted ");
                push_mention(&mut t, *user_id);
                push_str(&mut t, " for ");
                push_i64(&mut t, *minutes);
                push_str(&mut t, " minutes — Reason: ");
                push_str(&mut t, reason.as_str());
                assert(t@ =~= "🔇 Muted "@ + mention_text(*user_id) + " for "@ + int_text(
                    *minutes as int,
                ) + " minutes — Reason: "@ + reason@);
                Some(Reply::text(string_from_chars(&t), false))
            },
            Some(e) => Some(fail_reply("mute", e)),
        },
        ModAction::Unmute { user_id, .. } => match failure {
            None => {
                let mut t: Vec<char> = Vec::new();
                push_str(&mut t, "🔊 Unmuted ");
                push_mention(&mut t, *user_id);
                assert(t@ =~= "🔊 Unmuted "@ + mention_text(*user_id));
                Some(Reply::text(string_from_chars(&t), false))
            },
            Some(e) => Some(fail_reply("unmute", e)),
        },
        ModAction::Purge { .. } => match failure {
            None => {
                let mut t: Vec<char> = Vec::new();
                push_str(&mut t, "🗑️ Deleted ");
                push_u64(&mut t, deleted as u64);
                push_str(&mut t, " messages.");
                assert(t@ =~= "🗑️ Deleted "@ + dec_digits(deleted as nat) + " messages."@);
                Some(Reply::text(string_from_chars(&t), true))
            },
            Some(_) => None,
        },
        ModAction::Slowmode { seconds } => match failure {
            None => {
                if *seconds == 0 {
                    Some(Reply::text(owned("✅ Slowmode disabled."), false))
                } else {
                    let mut t: Vec<char> = Vec::new();
                    push_str(&mut t, "✅ Slowmode set to ");
                    push_u64(&mut t, *seconds as u64);
                    push_str(&mut t, " seconds.");
                    assert(t@ =~= "✅ Slowmode set to "@ + dec_digits(*seconds as nat)
                        + " seconds."@);
                    Some(Reply::text(string_from_chars(&t), false))
                }
            },
            Some(_) => None,
        },
    }
}

/// The name a moderation command is registered under.
pub open spec fn moderation_command_name(c: ModCommand) -> Seq<char> {
    match c {
        ModCommand::Ban => "ban"@,
        ModCommand::Kick => "kick"@,
        ModCommand::Mute => "mute"@,
        ModCommand::Unmute => "unmute"@,
        ModCommand::Warn => "warn"@,
        ModCommand::Purge => "purge"@,
        ModCommand::Slowmode => "slowmode"@,
    }
}

/// Slow mode is set to the seconds asked for when they fit Discord's 16-bit field, and off
/// (0) when none were asked; a mute lasts the minutes asked for, 10 when none were asked.
pub proof fn law_slowmode_and_mute_take_what_was_asked(asked: Option<i64>)
    ensures
        asked is None ==> slowmode_seconds(asked) == 0 && mute_minutes(asked) == 10,
        forall|n: i64| asked == Some(n) && 0 <= n <= 65535 ==> slowmode_seconds(asked) == n,
        forall|n: i64| asked == Some(n) ==> mute_minutes(asked) == n,
{
}

} // verus!