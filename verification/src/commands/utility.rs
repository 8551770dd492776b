use vstd::prelude::*;

use crate::commands::{CommandOption, CommandSpec, CommandView, EmbedSpec, OptionKind, OptionSpec, Permission, Reply, ReplyView, cmd, cmd_perm, command_views, e_color, e_description, e_footer, e_title, embed, embed_reply, get_option_int, get_option_str, opt, option_int, option_text, text_reply, with_opt};
use crate::text::{digit_char, has_prefix, law_split_then_join, chars_of, int_text, join, join_chars, mention_text, parse_hex_u32, parse_hex_u32_spec, push_all, push_i64, push_mention, push_str, split_chars, split_on, str_eq, string_from_chars, strip_leading, strip_leading_chars, trim_chars, trim_ws, views};

verus! {

/// The utility commands, in the order they are registered.
pub open spec fn utility_commands() -> Seq<CommandView> {
    seq![
        with_opt(
            with_opt(
                with_opt(
                    cmd_perm("embed"@, "Create a custom embed message"@, Permission::ManageMessages),
                    opt(OptionKind::String, "title"@, "Embed title"@, true),
                ),
                opt(OptionKind::String, "description"@, "Embed description"@, true),
            ),
            opt(OptionKind::String, "color"@, "Hex color (e.g. 00d2ff)"@, false),
        ),
        with_opt(
            with_opt(
                cmd("poll"@, "Create a poll"@),
                opt(OptionKind::String, "question"@, "Poll question"@, true),
            ),
            opt(OptionKind::String, "options"@, "Options separated by | (e.g. Yes|No|Maybe)"@, true),
        ),
        with_opt(
            with_opt(
                cmd("remind"@, "Set a reminder"@),
                opt(OptionKind::Integer, "minutes"@, "Remind after X minutes"@, true),
            ),
            opt(OptionKind::String, "message"@, "Reminder message"@, true),
        ),
        with_opt(
            cmd("calc"@, "Calculate a math expression"@),
            opt(OptionKind::String, "expression"@, "Math expression (e.g. 2 + 2 * 3)"@, true),
        ),
    ]
}

/// The utility commands: embed, poll, remind, calc.
pub fn register() -> (res: Vec<CommandSpec>)
    ensures
        command_views(res@) == utility_commands(),
{
    let mut v: Vec<CommandSpec> = Vec::new();
    v.push(
        CommandSpec::new("embed", "Create a custom embed message").default_member_permissions(
            Permission::ManageMessages,
        ).add_option(OptionSpec::new(OptionKind::String, "title", "Embed title", true)).add_option(
            OptionSpec::new(OptionKind::String, "description", "Embed description", true),
        ).add_option(
            OptionSpec::new(OptionKind::String, "color", "Hex color (e.g. 00d2ff)", false),
        ),
    );
    v.push(
        CommandSpec::new("poll", "Create a poll").add_option(
            OptionSpec::new(OptionKind::String, "question", "Poll question", true),
        ).add_option(
            OptionSpec::new(
                OptionKind::String,
                "options",
                "Options separated by | (e.g. Yes|No|Maybe)",
                true,
            ),
        ),
    );
    v.push(
        CommandSpec::new("remind", "Set a reminder").add_option(
            OptionSpec::new(OptionKind::Integer, "minutes", "Remind after X minutes", true),
        ).add_option(OptionSpec::new(OptionKind::String, "message", "Reminder message", true)),
    );
    v.push(
        CommandSpec::new("calc", "Calculate a math expression").add_option(
            OptionSpec::new(
                OptionKind::String,
                "expression",
                "Math expression (e.g. 2 + 2 * 3)",
                true,
            ),
        ),
    );
    assert(command_views(v@) =~= utility_commands());
    v
}

/// The utility command that a command name asks for.
#[derive(PartialEq, Eq, Structural, Clone, Copy, Debug)]
pub enum UtilityCommand {
    Embed,
    Poll,
    Remind,
    Calc,
}

/// The utility command named `name`, if any.
pub open spec fn utility_command_of(name: Seq<char>) -> Option<UtilityCommand> {
    if name == "embed"@ {
        Some(UtilityCommand::Embed)
    } else if name == "poll"@ {
        Some(UtilityCommand::Poll)
    } else if name == "remind"@ {
        Some(UtilityCommand::Remind)
    } else if name == "calc"@ {
        Some(UtilityCommand::Calc)
    } else {
        None
    }
}

/// Picks the utility command that the command name asks for.
pub fn handle(name: &str) -> (res: Option<UtilityCommand>)
    ensures
        res == utility_command_of(name@),
{
    if str_eq(name, "embed") {
        Some(UtilityCommand::Embed)
    } else if str_eq(name, "poll") {
        Some(UtilityCommand::Poll)
    } else if str_eq(name, "remind") {
        Some(UtilityCommand::Remind)
    } else if str_eq(name, "calc") {
        Some(UtilityCommand::Calc)
    } else {
        None
    }
}

/// The text given for option `name`, or `default` when there is none.
pub open spec fn text_or(opts: Seq<CommandOption>, name: Seq<char>, default: Seq<char>) -> Seq<char> {
    match option_text(opts, name) {
        Some(t) => t,
        None => default,
    }
}

fn text_or_exec(opts: &Vec<CommandOption>, name: &str, default: &str) -> (res: Vec<char>)
    ensures
        res@ == text_or(opts@, name@, default@),
{
    match get_option_str(opts, name) {
        Some(t) => chars_of(t),
        None => chars_of(default),
    }
}

/// The default embed color, `#00d2ff`.
pub const DEFAULT_COLOR: u32 = 0x00d2ff;

/// The color that a hex text names, after any leading `#` signs, as
/// `u32::from_str_radix(.., 16)` reads it; the default color when it does not read.
pub open spec fn color_of(text: Seq<char>) -> u32 {
    match parse_hex_u32_spec(strip_leading(text, '#')) {
        Some(c) => c,
        None => DEFAULT_COLOR,
    }
}

/// A color written with a leading `#` is the same color as without it.
pub proof fn law_color_ignores_leading_hash(text: Seq<char>)
    ensures
        color_of(seq!['#'] + text) == color_of(text),
{
    let s = seq!['#'] + text;
    assert(s.skip(1) =~= text);
    assert(strip_leading(s, '#') == strip_leading(s.skip(1), '#'));
}

/// Reads an embed color.
pub fn parse_color(text: &Vec<char>) -> (res: u32)
    ensures
        res == color_of(text@),
{
    let stripped = strip_leading_chars(text, '#');
    match parse_hex_u32(&stripped) {
        Some(c) => c,
        None => DEFAULT_COLOR,
    }
}

/// The custom embed that `/embed` posts for `requester`: the title (`Embed` by default), the
/// description (empty by default), the color (`00d2ff` by default) and a footer naming
/// the requester.
pub open spec fn embed_view(opts: Seq<CommandOption>, requester: Seq<char>) -> ReplyView {
    embed_reply(
        e_footer(
            e_color(
                e_description(
                    e_title(embed(), text_or(opts, "title"@, "Embed"@)),
                    text_or(opts, "description"@, ""@),
                ),
                color_of(text_or(opts, "color"@, "00d2ff"@)),
            ),
            "Requested by "@ + requester,
        ),
        false,
    )
}

/// The reply to `/embed`.
pub fn custom_embed(opts: &Vec<CommandOption>, requester: &str) -> (res: Reply)
    ensures
        res@ == embed_view(opts@, requester@),
{
    let title = text_or_exec(opts, "title", "Embed");
    let description = text_or_exec(opts, "description", "");
    let color_text = text_or_exec(opts, "color", "00d2ff");
    let color = parse_color(&color_text);
    let mut footer: Vec<char> = Vec::new();
    push_str(&mut footer, "Requested by ");
    push_str(&mut footer, requester);
    let e = EmbedSpec::new().title(string_from_chars(&title)).description(
        string_from_chars(&description),
    ).color(color).footer(string_from_chars(&footer));
    Reply::embed(e, false)
}

/// The most options a poll lists.
pub const MAX_POLL_OPTIONS: usize = 10;

/// The keycap emoji that marks option number `i` of a poll.
pub open spec fn poll_emoji(i: int) -> Seq<char> {
    if i == 0 {
        "1️⃣"@
    } else if i == 1 {
        "2️⃣"@
    } else if i == 2 {
        "3️⃣"@
    } else if i == 3 {
        "4️⃣"@
    } else if i == 4 {
        "5️⃣"@
    } else if i == 5 {
        "6️⃣"@
    } else if i == 6 {
        "7️⃣"@
    } else if i == 7 {
        "8️⃣"@
    } else if i == 8 {
        "9️⃣"@
    } else {
        "🔟"@
    }
}

fn poll_emoji_exec(i: usize) -> (res: &'static str)
    requires
        i < MAX_POLL_OPTIONS,
    ensures
        res@ == poll_emoji(i as int),
{
    if i == 0 {
        "1️⃣"
    } else if i == 1 {
        "2️⃣"
    } else if i == 2 {
        "3️⃣"
    } else if i == 3 {
        "4️⃣"
    } else if i == 4 {
        "5️⃣"
    } else if i == 5 {
        "6️⃣"
    } else if i == 6 {
        "7️⃣"
    } else if i == 7 {
        "8️⃣"
    } else if i == 8 {
        "9️⃣"
    } else {
        "🔟"
    }
}

/// The options of a poll: the text cut at each `|`, at most the first ten pieces.
pub open spec fn poll_options(text: Seq<char>) -> Seq<Seq<char>> {
    let parts = split_on(text, '|');
    if parts.len() > MAX_POLL_OPTIONS {
        parts.take(MAX_POLL_OPTIONS as int)
    } else {
        parts
    }
}

/// The lines of a poll: for each option, its keycap, a space, and the option trimmed.
pub open spec fn poll_lines(text: Seq<char>) -> Seq<Seq<char>> {
    let options = poll_options(text);
    Seq::new(options.len(), |i: int| poll_emoji(i) + " "@ + trim_ws(options[i]))
}

/// The poll that `/poll` posts for `requester`: titled with the question (`Poll` by default),
/// its lines one per line (the options default to `Yes|No`), and a footer naming the requester.
pub open spec fn poll_view(opts: Seq<CommandOption>, requester: Seq<char>) -> ReplyView {
    embed_reply(
        e_footer(
            e_color(
                e_description(
                    e_title(embed(), "📊 "@ + text_or(opts, "question"@, "Poll"@)),
                    join(poll_lines(text_or(opts, "options"@, "Yes|No"@)), "\n"@),
                ),
                DEFAULT_COLOR,
            ),
            "Poll by "@ + requester,
        ),
        false,
    )
}

/// The lines of a poll.
pub fn poll_lines_exec(text: &Vec<char>) -> (res: Vec<Vec<char>>)
    ensures
        views(res@) == poll_lines(text@),
{
    let parts = split_chars(text, '|');
    let ghost options = poll_options(text@);
    let n = if parts.len() > MAX_POLL_OPTIONS {
        MAX_POLL_OPTIONS
    } else {
        parts.len()
    };
    assert(options.len() == n);
    let mut lines: Vec<Vec<char>> = Vec::new();
    let mut i: usize = 0;
    while i < n
        invariant
            i <= n,
            n <= parts@.len(),
            n <= MAX_POLL_OPTIONS,
            options.len() == n,
            views(parts@) == split_on(text@, '|'),
            options == poll_options(text@),
            views(lines@) =~= poll_lines(text@).take(i as int),
        decreases n - i,
    {
        assert(options[i as int] == parts@[i as int]@);
        let mut line: Vec<char> = Vec::new();
        push_str(&mut line, poll_emoji_exec(i));
        push_str(&mut line, " ");
        let trimmed = trim_chars(&parts[i]);
        push_all(&mut line, &trimmed);
        assert(line@ =~= poll_emoji(i as int) + " "@ + trim_ws(options[i as int]));
        assert(poll_lines(text@)[i as int] == line@);
        let ghost before = views(lines@);
        lines.push(line);
        assert(views(lines@) =~= before.push(poll_lines(text@)[i as int]));
        assert(poll_lines(text@).take(i + 1) =~= poll_lines(text@).take(i as int).push(
            poll_lines(text@)[i as int],
        ));
        i = i + 1;
    }
    assert(poll_lines(text@).take(n as int) =~= poll_lines(text@));
    lines
}

/// The reply to `/poll`.
pub fn poll(opts: &Vec<CommandOption>, requester: &str) -> (res: Reply)
    ensures
        res@ == poll_view(opts@, requester@),
{
    let question = text_or_exec(opts, "question", "Poll");
    let options = text_or_exec(opts, "options", "Yes|No");
    let lines = poll_lines_exec(&options);
    let sep = chars_of("\n");
    let description = join_chars(&lines, &sep);
    let mut title: Vec<char> = Vec::new();
    push_str(&mut title, "📊 ");
    push_all(&mut title, &question);
    let mut footer: Vec<char> = Vec::new();
    push_str(&mut footer, "Poll by ");
    push_str(&mut footer, requester);
    let e = EmbedSpec::new().title(string_from_chars(&title)).description(
        string_from_chars(&description),
    ).color(DEFAULT_COLOR).footer(string_from_chars(&footer));
    Reply::embed(e, false)
}

/// A poll lists one line per `|`-separated piece of its options, and never more than ten.
pub proof fn law_poll_lists_at_most_ten(text: Seq<char>)
    ensures
        poll_lines(text).len() <= MAX_POLL_OPTIONS,
        poll_lines(text).len() == if split_on(text, '|').len() > MAX_POLL_OPTIONS {
            MAX_POLL_OPTIONS as int
        } else {
            split_on(text, '|').len() as int
        },
{
}

/// The keycap emoji of number `n` from 1 to 10: for 1 to 9 the digit followed by the emoji
/// presentation selector U+FE0F and the combining keycap U+20E3; for 10 the keycap ten U+1F51F.
pub open spec fn keycap(n: int) -> Seq<char> {
    if n == 10 {
        seq!['\u{1F51F}']
    } else {
        seq![digit_char(n as nat), '\u{FE0F}', '\u{20E3}']
    }
}

proof fn lemma_poll_emoji_is_keycap(i: int)
    requires
        0 <= i < MAX_POLL_OPTIONS,
    ensures
        poll_emoji(i) == keycap(i + 1),
{
    reveal_strlit("1️⃣");
    reveal_strlit("2️⃣");
    reveal_strlit("3️⃣");
    reveal_strlit("4️⃣");
    reveal_strlit("5️⃣");
    reveal_strlit("6️⃣");
    reveal_strlit("7️⃣");
    reveal_strlit("8️⃣");
    reveal_strlit("9️⃣");
    reveal_strlit("🔟");
    assert(poll_emoji(i) =~= keycap(i + 1));
}

/// The lines of a poll are numbered in order: line `i` begins with the keycap of number
/// `i + 1` and a space, and no two lines carry the same keycap. The options are the pieces of
/// the text between `|` signs: none holds a `|`, and when there are at most ten they give the
/// text back when joined with `|`.
pub proof fn law_poll_lines_are_numbered(text: Seq<char>)
    ensures
        forall|i: int| 0 <= i < poll_options(text).len() ==> !(#[trigger] poll_options(text)[i]).contains('|'),
        split_on(text, '|').len() <= MAX_POLL_OPTIONS ==> join(poll_options(text), seq!['|']) == text,
        forall|i: int|
            0 <= i < poll_lines(text).len() ==> has_prefix(
                #[trigger] poll_lines(text)[i],
                keycap(i + 1) + " "@,
            ),
        forall|i: int, j: int|
            0 <= i < j < poll_lines(text).len() ==> #[trigger] keycap(i + 1) != #[trigger] keycap(
                j + 1,
            ),
{
    law_poll_lists_at_most_ten(text);
    law_split_then_join(text, '|');
    assert forall|i: int| 0 <= i < poll_options(text).len() implies !(#[trigger] poll_options(text)[i]).contains('|') by {
        assert(poll_options(text)[i] == split_on(text, '|')[i]);
    }
    assert forall|i: int| 0 <= i < poll_lines(text).len() implies has_prefix(
        #[trigger] poll_lines(text)[i],
        keycap(i + 1) + " "@,
    ) by {
        lemma_poll_emoji_is_keycap(i);
        let line = poll_lines(text)[i];
        let p = keycap(i + 1) + " "@;
        assert(line == p + trim_ws(poll_options(text)[i]));
        assert(line.take(p.len() as int) =~= p);
    }
    assert forall|i: int, j: int| 0 <= i < j < poll_lines(text).len() implies #[trigger] keycap(i + 1)
        != #[trigger] keycap(j + 1) by {
        if j + 1 == 10 {
            assert(keycap(i + 1).len() != keycap(j + 1).len());
        } else {
            assert(keycap(i + 1)[0] != keycap(j + 1)[0]);
        }
    }
}

/// A reminder to schedule: the private acknowledgement, the delay in seconds, and the text
/// posted in the channel when it is due.
#[derive(Clone, Debug, PartialEq, Eq)]
pub struct ReminderPlan {
    pub ack: Reply,
    pub delay_secs: u64,
    pub message: String,
}

/// The minutes asked for, 5 by default.
pub open spec fn remind_minutes(opts: Seq<CommandOption>) -> i64 {
    match option_int(opts, "minutes"@) {
        Some(m) => m,
        None => 5,
    }
}

/// The delay of a reminder: the minutes taken as `u64` (modulo 2^64, as `as u64` does) times
/// 60, modulo 2^64 as the multiplication wraps in a release build.
pub open spec fn remind_delay(minutes: i64) -> u64 {
    ((((minutes as int) % 0x1_0000_0000_0000_0000) * 60) % 0x1_0000_0000_0000_0000) as u64
}

pub open spec fn remind_ack_text(minutes: i64) -> Seq<char> {
    "⏰ I'll remind you in "@ + int_text(minutes as int) + " minute(s)!"@
}

pub open spec fn reminder_text(user_id: u64, message: Seq<char>) -> Seq<char> {
    "⏰ "@ + mention_text(user_id) + " Reminder: **"@ + message + "**"@
}

/// The reminder that `/remind` schedules for user `user_id`: acknowledged privately, due after
/// the minutes asked for (5 by default), and naming the message (`Reminder!` by default).
pub fn remind(opts: &Vec<CommandOption>, user_id: u64) -> (res: ReminderPlan)
    ensures
        res.ack@ == text_reply(remind_ack_text(remind_minutes(opts@)), true),
        res.delay_secs == remind_delay(remind_minutes(opts@)),
        res.message@ == reminder_text(user_id, text_or(opts@, "message"@, "Reminder!"@)),
{
    let minutes = match get_option_int(opts, "minutes") {
        Some(m) => m,
        None => 5,
    };
    let message = text_or_exec(opts, "message", "Reminder!");
    let mut ack: Vec<char> = Vec::new();
    push_str(&mut ack, "⏰ I'll remind you in ");
    push_i64(&mut ack, minutes);
    push_str(&mut ack, " minute(s)!");
    assert(ack@ =~= remind_ack_text(minutes));
    let m = minutes as u64;
    assert((minutes as u64) == ((minutes as int) % 0x1_0000_0000_0000_0000) as u64) by (bit_vector);
    let delay = m.wrapping_mul(60);
    let mut text: Vec<char> = Vec::new();
    push_str(&mut text, "⏰ ");
    push_mention(&mut text, user_id);
    push_str(&mut text, " Reminder: **");
    push_all(&mut text, &message);
    push_str(&mut text, "**");
    assert(text@ =~= reminder_text(user_id, message@));
    ReminderPlan {
        ack: Reply::text(string_from_chars(&ack), true),
        delay_secs: delay,
        message: string_from_chars(&text),
    }
}

/// The expression `/calc` works on: the one given, `0` by default.
pub open spec fn calc_expression(opts: Seq<CommandOption>) -> Seq<char> {
    text_or(opts, "expression"@, "0"@)
}

/// The expression given to `/calc`.
pub fn calc_expression_exec(opts: &Vec<CommandOption>) -> (res: String)
    ensures
        res@ == calc_expression(opts@),
{
    let e = text_or_exec(opts, "expression", "0");
    string_from_chars(&e)
}

/// The reply to a calculation of expression `expr` whose value reads `value`.
pub open spec fn calc_success_text(expr: Seq<char>, value: Seq<char>) -> Seq<char> {
    "🧮 `"@ + expr + "` = **"@ + value + "**"@
}

/// The reply to a calculation that gave a value, written as text.
pub fn calc_success(expr: &str, value: &str) -> (res: Reply)
    ensures
        res@ == text_reply(calc_success_text(expr@, value@), false),
{
    let mut t: Vec<char> = Vec::new();
    push_str(&mut t, "🧮 `");
    push_str(&mut t, expr);
    push_str(&mut t, "` = **");
    push_str(&mut t, value);
    push_str(&mut t, "**");
    assert(t@ =~= calc_success_text(expr@, value@));
    Reply::text(string_from_chars(&t), false)
}

/// The reply to a calculation that failed with message `e`.
pub open spec fn calc_failure_text(e: Seq<char>) -> Seq<char> {
    "❌ Invalid expression: "@ + e
}

/// The reply to a calculation that failed.
pub fn calc_failure(e: &str) -> (res: Reply)
    ensures
        res@ == text_reply(calc_failure_text(e@), false),
{
    let mut t: Vec<char> = Vec::new();
    push_str(&mut t, "❌ Invalid expression: ");
    push_str(&mut t, e);
    assert(t@ =~= calc_failure_text(e@));
    Reply::text(string_from_chars(&t), false)
}

/// The name a utility command is registered under.
pub open spec fn utility_command_name(c: UtilityCommand) -> Seq<char> {
    match c {
        UtilityCommand::Embed => "embed"@,
        UtilityCommand::Poll => "poll"@,
        UtilityCommand::Remind => "remind"@,
        UtilityCommand::Calc => "calc"@,
    }
}

/// A reminder comes after the minutes asked for (5 when none were asked), counted in
/// seconds: sixty seconds a minute, for every count of minutes whose seconds fit 64 bits.
pub proof fn law_reminder_delay_is_the_minutes_asked(opts: Seq<CommandOption>)
    ensures
        option_int(opts, "minutes"@) is None ==> remind_delay(remind_minutes(opts)) == 300,
        forall|m: i64|
            option_int(opts, "minutes"@) == Some(m) && 0 <= m && m * 60 < 0x1_0000_0000_0000_0000
                ==> remind_delay(remind_minutes(opts)) == m * 60,
{
}

} // verus!
