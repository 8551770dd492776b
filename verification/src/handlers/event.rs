use vstd::prelude::*;

use crate::commands::{EmbedSpec, EmbedView, e_color, e_description, e_thumbnail, e_title, embed, owned};
use crate::config::{Config, auto_mod_on, auto_mod_enabled, welcome_on, welcome_enabled};
use crate::text::{occurs_at, law_replace_every_placeholder, lemma_mention_has_no_percent, lemma_no_percent, before_space, before_space_chars, chars_of, contains_chars, contains_seq, has_prefix, law_replace_absent_is_identity, lowercase, mention_text, push_mention, push_str, replace_all, replace_chars, starts_with_chars, string_from_chars, strip_prefix_chars, strip_prefix_spec, to_lowercase};

verus! {

/// The welcome text used when the configuration gives none.
pub open spec fn default_welcome() -> Seq<char> {
    "Welcome to the server, %user%!"@
}

/// The welcome text for a member: the template with every `%user%` replaced by the member's
/// mention, and then every `%server%` replaced by the server's name.
pub open spec fn welcome_text(template: Option<Seq<char>>, user_id: u64, server_name: Seq<char>)
    -> Seq<char> {
    let t = match template {
        Some(t) => t,
        None => default_welcome(),
    };
    replace_all(replace_all(t, "%user%"@, mention_text(user_id)), "%server%"@, server_name)
}

pub open spec fn opt_view(o: Option<String>) -> Option<Seq<char>> {
    match o {
        Some(s) => Some(s@),
        None => None,
    }
}

/// Fills the welcome template for a member who joined the server named `server_name`.
pub fn render_welcome(template: &Option<String>, user_id: u64, server_name: &str) -> (res: String)
    ensures
        res@ == welcome_text(opt_view(*template), user_id, server_name@),
{
    let t = match template {
        Some(t) => chars_of(t.as_str()),
        None => chars_of("Welcome to the server, %user%!"),
    };
    let user_pat = chars_of("%user%");
    let server_pat = chars_of("%server%");
    proof {
        reveal_strlit("%user%");
        reveal_strlit("%server%");
    }
    let mut mention: Vec<char> = Vec::new();
    push_mention(&mut mention, user_id);
    assert(mention@ =~= mention_text(user_id));
    let name = chars_of(server_name);
    let step = replace_chars(&t, &user_pat, &mention);
    let done = replace_chars(&step, &server_pat, &name);
    string_from_chars(&done)
}

/// A welcome template without `%user%` and `%server%` is posted as it is written.
pub proof fn law_welcome_without_placeholders(t: Seq<char>, user_id: u64, server_name: Seq<char>)
    requires
        !contains_seq(t, "%user%"@),
        !contains_seq(t, "%server%"@),
    ensures
        welcome_text(Some(t), user_id, server_name) == t,
{
    law_replace_absent_is_identity(t, "%user%"@, mention_text(user_id));
    law_replace_absent_is_identity(t, "%server%"@, server_name);
}

/// Every `%user%` of a welcome template is replaced by the member's mention: for texts `a`,
/// `b`, `c` without `%`, the template `a%user%b%user%c` welcomes with `a`, the mention, `b`,
/// the mention again, and `c`, whatever the server's name.
pub proof fn law_welcome_mentions_the_member_everywhere(
    a: Seq<char>,
    b: Seq<char>,
    c: Seq<char>,
    user_id: u64,
    server_name: Seq<char>,
)
    requires
        !a.contains('%'),
        !b.contains('%'),
        !c.contains('%'),
    ensures
        welcome_text(Some(a + "%user%"@ + b + "%user%"@ + c), user_id, server_name) == a
            + mention_text(user_id) + b + mention_text(user_id) + c,
{
    reveal_strlit("%user%");
    reveal_strlit("%server%");
    let m = mention_text(user_id);
    law_replace_every_placeholder(a, b, c, "%user%"@, m);
    lemma_mention_has_no_percent(user_id);
    let t = a + m + b + m + c;
    assert(!t.contains('%')) by {
        assert forall|i: int| 0 <= i < t.len() implies t[i] != '%' by {
            if i < a.len() {
                assert(t[i] == a[i]);
            } else if i < a.len() + m.len() {
                assert(t[i] == m[i - a.len()]);
            } else if i < a.len() + m.len() + b.len() {
                assert(t[i] == b[i - a.len() - m.len()]);
            } else if i < a.len() + m.len() + b.len() + m.len() {
                assert(t[i] == m[i - a.len() - m.len() - b.len()]);
            } else {
                assert(t[i] == c[i - a.len() - m.len() - b.len() - m.len()]);
            }
        }
    }
    lemma_no_percent(t, "%server%"@);
    law_replace_absent_is_identity(t, "%server%"@, server_name);
}

/// A welcome message to post: the channel it goes to and its text.
#[derive(Clone, Debug, PartialEq, Eq)]
pub struct WelcomePost {
    pub channel_id: u64,
    pub text: String,
}

/// What to post when user `user_id` joins the server named `server_name`: nothing when welcome
/// messages are off or no welcome channel is set, else the filled template in that channel.
pub fn handle_member_join(cfg: &Config, user_id: u64, server_name: &str) -> (res: Option<WelcomePost>)
    ensures
        res is Some <==> (welcome_on(*cfg) && cfg.discord.welcome_channel_id is Some),
        res is Some ==> res->0.channel_id == cfg.discord.welcome_channel_id->0
            && res->0.text@ == welcome_text(
            opt_view(cfg.discord.welcome_message),
            user_id,
            server_name@,
        ),
{
    if !welcome_enabled(cfg) {
        return None;
    }
    match cfg.discord.welcome_channel_id {
        Some(channel_id) => {
            let text = render_welcome(&cfg.discord.welcome_message, user_id, server_name);
            Some(WelcomePost { channel_id, text })
        },
        None => None,
    }
}

/// The embed of a welcome message with text `text`, showing the member's avatar `avatar_url`
/// (empty when the member has none).
pub open spec fn welcome_embed_view(text: Seq<char>, avatar_url: Seq<char>) -> EmbedView {
    e_thumbnail(e_color(e_description(e_title(embed(), "Welcome!"@), text), 0x00d2ff), avatar_url)
}

/// The embed that carries a welcome message.
pub fn welcome_embed(text: &str, avatar_url: &str) -> (res: EmbedSpec)
    ensures
        res@ == welcome_embed_view(text@, avatar_url@),
{
    EmbedSpec::new().title(owned("Welcome!")).description(owned(text)).color(0x00d2ff).thumbnail(
        owned(avatar_url),
    )
}

/// `true` when a lower-cased message holds one of the banned words `spam` and `badword`.
pub open spec fn breaks_rules(lowered: Seq<char>) -> bool {
    contains_seq(lowered, "spam"@) || contains_seq(lowered, "badword"@)
}

/// A (lower-cased) message that holds a banned word anywhere breaks the rules, whatever
/// stands before and after it: `a spam b` and `a badword b` for any texts `a` and `b`.
pub proof fn law_banned_words_anywhere_break_the_rules(a: Seq<char>, b: Seq<char>)
    ensures
        breaks_rules(a + "spam"@ + b),
        breaks_rules(a + "badword"@ + b),
{
    let s1 = a + "spam"@ + b;
    let s2 = a + "badword"@ + b;
    assert(s1.subrange(a.len() as int, (a.len() + "spam"@.len()) as int) =~= "spam"@);
    assert(occurs_at(s1, "spam"@, a.len() as int));
    assert(s2.subrange(a.len() as int, (a.len() + "badword"@.len()) as int) =~= "badword"@);
    assert(occurs_at(s2, "badword"@, a.len() as int));
}

/// Whether a message, already lower-cased, holds a banned word.
pub fn breaks_rules_lowered(lowered: &str) -> (res: bool)
    ensures
        res == breaks_rules(lowered@),
{
    let text = chars_of(lowered);
    let spam = chars_of("spam");
    if contains_chars(&text, &spam) {
        return true;
    }
    let badword = chars_of("badword");
    contains_chars(&text, &badword)
}

/// Whether a message holds a banned word in any letter case.
pub fn breaks_rules_any_case(content: &str) -> (res: bool)
    ensures
        res == breaks_rules(lowercase(content@)),
{
    let lowered = to_lowercase(content);
    breaks_rules_lowered(lowered.as_str())
}

/// The notice posted after a message of user `author_id` was removed.
pub open spec fn removal_notice(author_id: u64) -> Seq<char> {
    mention_text(author_id) + " Your message was removed for violating server rules."@
}

/// The answer to a prefix command, given the command word in lower case.
pub open spec fn prefix_reply(word: Seq<char>) -> Option<Seq<char>> {
    if word == "ping"@ {
        Some("🏓 Pong!"@)
    } else if word == "help"@ {
        Some("Use `/help` for the full command list!"@)
    } else {
        None
    }
}

/// The answer to a message that may be a prefix command: when the message begins with
/// the prefix, the answer to its first word (up to a space) in lower case.
pub open spec fn prefix_answer(content: Seq<char>, prefix: Seq<char>) -> Option<Seq<char>> {
    match strip_prefix_spec(content, prefix) {
        Some(rest) => prefix_reply(lowercase(before_space(rest))),
        None => None,
    }
}

/// The answer to a command word that is already in lower case.
pub fn prefix_reply_exec(word: &str) -> (res: Option<String>)
    ensures
        match res {
            Some(r) => prefix_reply(word@) == Some(r@),
            None => prefix_reply(word@) is None,
        },
{
    if crate::text::str_eq(word, "ping") {
        Some(String::from_str("🏓 Pong!"))
    } else if crate::text::str_eq(word, "help") {
        Some(String::from_str("Use `/help` for the full command list!"))
    } else {
        None
    }
}

/// The answer to a message that may be a prefix command.
pub fn prefix_command(content: &str, prefix: &str) -> (res: Option<String>)
    ensures
        match res {
            Some(r) => prefix_answer(content@, prefix@) == Some(r@),
            None => prefix_answer(content@, prefix@) is None,
        },
{
    let c = chars_of(content);
    let p = chars_of(prefix);
    match strip_prefix_chars(&c, &p) {
        Some(rest) => {
            let word = before_space_chars(&rest);
            let word_text = string_from_chars(&word);
            let lowered = to_lowercase(word_text.as_str());
            prefix_reply_exec(lowered.as_str())
        },
        None => None,
    }
}

/// What to do with a message.
#[derive(Clone, Debug, PartialEq, Eq)]
pub struct MessagePlan {
    /// When set, the message is deleted and this notice is posted in its channel.
    pub removal_notice: Option<String>,
    /// When set, this answer is posted in the message's channel.
    pub reply: Option<String>,
}

/// Decides what to do with a message under configuration `cfg`: nothing when a bot wrote
/// it; else, with auto-moderation on and a banned word in it, delete it and post a notice;
/// and, either way, answer it when it is a command with the configured prefix.
pub fn handle_message(cfg: &Config, author_is_bot: bool, author_id: u64, content: &str) -> (res:
    MessagePlan)
    ensures
        author_is_bot ==> res.removal_notice is None && res.reply is None,
        !author_is_bot ==> {
            &&& (res.removal_notice is Some <==> (auto_mod_on(*cfg) && breaks_rules(
                lowercase(content@),
            )))
            &&& (res.removal_notice is Some ==> res.removal_notice->0@ == removal_notice(author_id))
            &&& (res.reply is Some <==> prefix_answer(content@, cfg.discord.prefix@) is Some)
            &&& (res.reply is Some ==> prefix_answer(content@, cfg.discord.prefix@) == Some(
                res.reply->0@,
            ))
        },
{
    if author_is_bot {
        return MessagePlan { removal_notice: None, reply: None };
    }
    let mut removal_notice_text: Option<String> = None;
    if auto_mod_enabled(cfg) && breaks_rules_any_case(content) {
        let mut notice: Vec<char> = Vec::new();
        push_mention(&mut notice, author_id);
        push_str(&mut notice, " Your message was removed for violating server rules.");
        removal_notice_text = Some(string_from_chars(&notice));
    }
    let reply = prefix_command(content, cfg.discord.prefix.as_str());
    MessagePlan { removal_notice: removal_notice_text, reply }
}

/// The answer to a click on a message component: poll buttons, whose id begins with
/// `poll_`, get an acknowledgement; anything else gets none.
pub fn handle_component(custom_id: &str) -> (res: Option<String>)
    ensures
        res is Some <==> has_prefix(custom_id@, "poll_"@),
        res is Some ==> res->0@ == "Vote recorded! (voting system coming soon)"@,
{
    let id = chars_of(custom_id);
    let poll = chars_of("poll_");
    if starts_with_chars(&id, &poll) {
        Some(String::from_str("Vote recorded! (voting system coming soon)"))
    } else {
        None
    }
}

} // verus!
