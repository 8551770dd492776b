pub mod calc;
pub mod fun;
pub mod general;
pub mod moderation;
pub mod pterodactyl;
pub mod utility;

use vstd::prelude::*;

use crate::text::{join, str_eq};
use crate::commands::fun::{fun_commands, fun_command_of, FunCommand, fun_command_name};
use crate::commands::general::{general_commands, general_command_of, help_view, GeneralCommand, general_command_name};
use crate::commands::moderation::{moderation_commands, mod_command_of, ModCommand, moderation_command_name};
use crate::commands::pterodactyl::pterodactyl_commands;
use crate::commands::utility::{utility_commands, utility_command_of, UtilityCommand, utility_command_name};

verus! {

/// The type of value a command option takes.
#[derive(PartialEq, Eq, Structural, Clone, Copy, Debug)]
pub enum OptionKind {
    String,
    Integer,
    User,
    SubCommand,
}

/// A permission that a member needs by default to use a command.
#[derive(PartialEq, Eq, Structural, Clone, Copy, Debug)]
pub enum Permission {
    BanMembers,
    KickMembers,
    ModerateMembers,
    ManageMessages,
    ManageChannels,
}

/// A fixed answer offered for a string option: the label shown and the value sent.
#[derive(Clone, Debug, PartialEq, Eq)]
pub struct ChoiceSpec {
    pub name: String,
    pub value: String,
}

/// An option nested under a subcommand.
#[derive(Clone, Debug, PartialEq, Eq)]
pub struct SubOptionSpec {
    pub kind: OptionKind,
    pub name: String,
    pub description: String,
    pub required: bool,
}

/// An option of a slash command.
#[derive(Clone, Debug, PartialEq, Eq)]
pub struct OptionSpec {
    pub kind: OptionKind,
    pub name: String,
    pub description: String,
    pub required: bool,
    pub choices: Vec<ChoiceSpec>,
    pub sub_options: Vec<SubOptionSpec>,
}

/// A slash command as it is registered with Discord.
#[derive(Clone, Debug, PartialEq, Eq)]
pub struct CommandSpec {
    pub name: String,
    pub description: String,
    pub permission: Option<Permission>,
    pub options: Vec<OptionSpec>,
}

pub struct ChoiceView {
    pub name: Seq<char>,
    pub value: Seq<char>,
}

pub struct SubOptionView {
    pub kind: OptionKind,
    pub name: Seq<char>,
    pub description: Seq<char>,
    pub required: bool,
}

pub struct OptionView {
    pub kind: OptionKind,
    pub name: Seq<char>,
    pub description: Seq<char>,
    pub required: bool,
    pub choices: Seq<ChoiceView>,
    pub sub_options: Seq<SubOptionView>,
}

pub struct CommandView {
    pub name: Seq<char>,
    pub description: Seq<char>,
    pub permission: Option<Permission>,
    pub options: Seq<OptionView>,
}

impl View for ChoiceSpec {
    type V = ChoiceView;

    open spec fn view(&self) -> ChoiceView {
        ChoiceView { name: self.name@, value: self.value@ }
    }
}

impl View for SubOptionSpec {
    type V = SubOptionView;

    open spec fn view(&self) -> SubOptionView {
        SubOptionView {
            kind: self.kind,
            name: self.name@,
            description: self.description@,
            required: self.required,
        }
    }
}

impl View for OptionSpec {
    type V = OptionView;

    open spec fn view(&self) -> OptionView {
        OptionView {
            kind: self.kind,
            name: self.name@,
            description: self.description@,
            required: self.required,
            choices: self.choices@.map_values(|c: ChoiceSpec| c@),
            sub_options: self.sub_options@.map_values(|o: SubOptionSpec| o@),
        }
    }
}

impl View for CommandSpec {
    type V = CommandView;

    open spec fn view(&self) -> CommandView {
        CommandView {
            name: self.name@,
            description: self.description@,
            permission: self.permission,
            options: self.options@.map_values(|o: OptionSpec| o@),
        }
    }
}

/// The views of a list of commands.
pub open spec fn command_views(v: Seq<CommandSpec>) -> Seq<CommandView> {
    v.map_values(|c: CommandSpec| c@)
}

/// A command with no options and no permission requirement.
pub open spec fn cmd(name: Seq<char>, description: Seq<char>) -> CommandView {
    CommandView { name, description, permission: None, options: seq![] }
}

/// A command with a default permission and no options yet.
pub open spec fn cmd_perm(name: Seq<char>, description: Seq<char>, p: Permission) -> CommandView {
    CommandView { name, description, permission: Some(p), options: seq![] }
}

/// `c` with one more option at the end.
pub open spec fn with_opt(c: CommandView, o: OptionView) -> CommandView {
    CommandView { options: c.options.push(o), ..c }
}

/// An option without choices or nested options.
pub open spec fn opt(kind: OptionKind, name: Seq<char>, description: Seq<char>, required: bool)
    -> OptionView {
    OptionView { kind, name, description, required, choices: seq![], sub_options: seq![] }
}

impl ChoiceSpec {
    /// A choice with label `name` that sends `value`.
    pub fn new(name: &str, value: &str) -> (res: Self)
        ensures
            res@ == (ChoiceView { name: name@, value: value@ }),
    {
        ChoiceSpec { name: String::from_str(name), value: String::from_str(value) }
    }
}

impl SubOptionSpec {
    /// A nested option of a subcommand.
    pub fn new(kind: OptionKind, name: &str, description: &str, required: bool) -> (res: Self)
        ensures
            res@ == (SubOptionView { kind, name: name@, description: description@, required }),
    {
        SubOptionSpec {
            kind,
            name: String::from_str(name),
            description: String::from_str(description),
            required,
        }
    }
}

impl OptionSpec {
    /// An option without choices or nested options.
    pub fn new(kind: OptionKind, name: &str, description: &str, required: bool) -> (res: Self)
        ensures
            res@ == opt(kind, name@, description@, required),
    {
        let res = OptionSpec {
            kind,
            name: String::from_str(name),
            description: String::from_str(description),
            required,
            choices: Vec::new(),
            sub_options: Vec::new(),
        };
        assert(res@.choices =~= seq![]);
        assert(res@.sub_options =~= seq![]);
        res
    }

    /// This option with one more fixed answer.
    pub fn add_choice(self, c: ChoiceSpec) -> (res: Self)
        ensures
            res@ == (OptionView { choices: self@.choices.push(c@), ..self@ }),
    {
        let mut s = self;
        let ghost before = s@;
        s.choices.push(c);
        assert(s@.choices =~= before.choices.push(c@));
        s
    }

    /// This option with one more nested option.
    pub fn add_sub_option(self, o: SubOptionSpec) -> (res: Self)
        ensures
            res@ == (OptionView { sub_options: self@.sub_options.push(o@), ..self@ }),
    {
        let mut s = self;
        let ghost before = s@;
        s.sub_options.push(o);
        assert(s@.sub_options =~= before.sub_options.push(o@));
        s
    }
}

impl CommandSpec {
    /// A command with no options and no permission requirement.
    pub fn new(name: &str, description: &str) -> (res: Self)
        ensures
            res@ == cmd(name@, description@),
    {
        let res = CommandSpec {
            name: String::from_str(name),
            description: String::from_str(description),
            permission: None,
            options: Vec::new(),
        };
        assert(res@.options =~= seq![]);
        res
    }

    /// This command, usable by default only by members with permission `p`.
    pub fn default_member_permissions(self, p: Permission) -> (res: Self)
        ensures
            res@ == (CommandView { permission: Some(p), ..self@ }),
    {
        let mut s = self;
        s.permission = Some(p);
        s
    }

    /// This command with one more option at the end.
    pub fn add_option(self, o: OptionSpec) -> (res: Self)
        ensures
            res@ == with_opt(self@, o@),
    {
        let mut s = self;
        let ghost before = s@;
        s.options.push(o);
        assert(s@.options =~= before.options.push(o@));
        s
    }
}

/// The value given for an option of an invoked command.
#[derive(Debug, PartialEq, Eq)]
pub enum OptionValue {
    Text(String),
    Integer(i64),
    User(u64),
    SubCommand(Vec<CommandOption>),
    Other,
}

/// An option of an invoked command: its name and the value given.
#[derive(Debug, PartialEq, Eq)]
pub struct CommandOption {
    pub name: String,
    pub value: OptionValue,
}

/// The position of the first option from `k` on that is named `name`.
pub open spec fn first_named_from(opts: Seq<CommandOption>, name: Seq<char>, k: int) -> Option<int>
    decreases opts.len() - k,
{
    if k < 0 || k >= opts.len() {
        None
    } else if opts[k].name@ == name {
        Some(k)
    } else {
        first_named_from(opts, name, k + 1)
    }
}

/// The position of the first option named `name`.
pub open spec fn first_named(opts: Seq<CommandOption>, name: Seq<char>) -> Option<int> {
    first_named_from(opts, name, 0)
}

/// The text given for the first option named `name`; none when that option is not text.
pub open spec fn option_text(opts: Seq<CommandOption>, name: Seq<char>) -> Option<Seq<char>> {
    match first_named(opts, name) {
        Some(i) => match opts[i].value {
            OptionValue::Text(t) => Some(t@),
            _ => None,
        },
        None => None,
    }
}

/// The integer given for the first option named `name`; none when that option is not one.
pub open spec fn option_int(opts: Seq<CommandOption>, name: Seq<char>) -> Option<i64> {
    match first_named(opts, name) {
        Some(i) => match opts[i].value {
            OptionValue::Integer(n) => Some(n),
            _ => None,
        },
        None => None,
    }
}

/// The user given for the first option named `name`; none when that option is not a user.
pub open spec fn option_user(opts: Seq<CommandOption>, name: Seq<char>) -> Option<u64> {
    match first_named(opts, name) {
        Some(i) => match opts[i].value {
            OptionValue::User(u) => Some(u),
            _ => None,
        },
        None => None,
    }
}

/// Finds the first option named `name`.
pub fn find_option(opts: &Vec<CommandOption>, name: &str) -> (res: Option<usize>)
    ensures
        match res {
            Some(i) => first_named(opts@, name@) == Some(i as int) && i < opts@.len(),
            None => first_named(opts@, name@) is None,
        },
{
    let n = opts.len();
    let mut k: usize = 0;
    while k < n
        invariant
            k <= n,
            n == opts@.len(),
            first_named(opts@, name@) == first_named_from(opts@, name@, k as int),
        decreases n - k,
    {
        if str_eq(opts[k].name.as_str(), name) {
            return Some(k);
        }
        k = k + 1;
    }
    None
}

/// The text given for the first option named `name`.
pub fn get_option_str<'a>(opts: &'a Vec<CommandOption>, name: &str) -> (res: Option<&'a str>)
    ensures
        match res {
            Some(t) => option_text(opts@, name@) == Some(t@),
            None => option_text(opts@, name@) is None,
        },
{
    match find_option(opts, name) {
        Some(i) => match &opts[i].value {
            OptionValue::Text(t) => Some(t.as_str()),
            _ => None,
        },
        None => None,
    }
}

/// The integer given for the first option named `name`.
pub fn get_option_int(opts: &Vec<CommandOption>, name: &str) -> (res: Option<i64>)
    ensures
        res == option_int(opts@, name@),
{
    match find_option(opts, name) {
        Some(i) => match &opts[i].value {
            OptionValue::Integer(n) => Some(*n),
            _ => None,
        },
        None => None,
    }
}

/// The user given for the first option named `name`.
pub fn get_option_user(opts: &Vec<CommandOption>, name: &str) -> (res: Option<u64>)
    ensures
        res == option_user(opts@, name@),
{
    match find_option(opts, name) {
        Some(i) => match &opts[i].value {
            OptionValue::User(u) => Some(*u),
            _ => None,
        },
        None => None,
    }
}

/// A field of an embed: name, value, and whether it sits beside its neighbours.
#[derive(Clone, Debug, PartialEq, Eq)]
pub struct FieldSpec {
    pub name: String,
    pub value: String,
    pub inline: bool,
}

/// A rich embed as a reply carries it.
#[derive(Clone, Debug, PartialEq, Eq)]
pub struct EmbedSpec {
    pub title: Option<String>,
    pub description: Option<String>,
    pub color: Option<u32>,
    pub fields: Vec<FieldSpec>,
    pub footer: Option<String>,
    pub thumbnail: Option<String>,
    pub image: Option<String>,
    pub url: Option<String>,
}

/// A reply to an interaction: its text, its embed, and whether only the caller sees it.
#[derive(Clone, Debug, PartialEq, Eq)]
pub struct Reply {
    pub content: Option<String>,
    pub embed: Option<EmbedSpec>,
    pub ephemeral: bool,
}

pub struct FieldView {
    pub name: Seq<char>,
    pub value: Seq<char>,
    pub inline: bool,
}

pub struct EmbedView {
    pub title: Option<Seq<char>>,
    pub description: Option<Seq<char>>,
    pub color: Option<u32>,
    pub fields: Seq<FieldView>,
    pub footer: Option<Seq<char>>,
    pub thumbnail: Option<Seq<char>>,
    pub image: Option<Seq<char>>,
    pub url: Option<Seq<char>>,
}

pub struct ReplyView {
    pub content: Option<Seq<char>>,
    pub embed: Option<EmbedView>,
    pub ephemeral: bool,
}

pub open spec fn opt_str_view(o: Option<String>) -> Option<Seq<char>> {
    match o {
        Some(s) => Some(s@),
        None => None,
    }
}

impl View for FieldSpec {
    type V = FieldView;

    open spec fn view(&self) -> FieldView {
        FieldView { name: self.name@, value: self.value@, inline: self.inline }
    }
}

impl View for EmbedSpec {
    type V = EmbedView;

    open spec fn view(&self) -> EmbedView {
        EmbedView {
            title: opt_str_view(self.title),
            description: opt_str_view(self.description),
            color: self.color,
            fields: self.fields@.map_values(|f: FieldSpec| f@),
            footer: opt_str_view(self.footer),
            thumbnail: opt_str_view(self.thumbnail),
            image: opt_str_view(self.image),
            url: opt_str_view(self.url),
        }
    }
}

impl View for Reply {
    type V = ReplyView;

    open spec fn view(&self) -> ReplyView {
        ReplyView {
            content: opt_str_view(self.content),
            embed: match self.embed {
                Some(e) => Some(e@),
                None => None,
            },
            ephemeral: self.ephemeral,
        }
    }
}

/// An embed with nothing set.
pub open spec fn embed() -> EmbedView {
    EmbedView {
        title: None,
        description: None,
        color: None,
        fields: seq![],
        footer: None,
        thumbnail: None,
        image: None,
        url: None,
    }
}

pub open spec fn e_title(e: EmbedView, t: Seq<char>) -> EmbedView {
    EmbedView { title: Some(t), ..e }
}

pub open spec fn e_description(e: EmbedView, d: Seq<char>) -> EmbedView {
    EmbedView { description: Some(d), ..e }
}

pub open spec fn e_color(e: EmbedView, c: u32) -> EmbedView {
    EmbedView { color: Some(c), ..e }
}

pub open spec fn e_field(e: EmbedView, name: Seq<char>, value: Seq<char>, inline: bool) -> EmbedView {
    EmbedView { fields: e.fields.push(FieldView { name, value, inline }), ..e }
}

pub open spec fn e_footer(e: EmbedView, f: Seq<char>) -> EmbedView {
    EmbedView { footer: Some(f), ..e }
}

pub open spec fn e_thumbnail(e: EmbedView, t: Seq<char>) -> EmbedView {
    EmbedView { thumbnail: Some(t), ..e }
}

pub open spec fn e_image(e: EmbedView, i: Seq<char>) -> EmbedView {
    EmbedView { image: Some(i), ..e }
}

pub open spec fn e_url(e: EmbedView, u: Seq<char>) -> EmbedView {
    EmbedView { url: Some(u), ..e }
}

/// A reply made of text alone.
pub open spec fn text_reply(t: Seq<char>, ephemeral: bool) -> ReplyView {
    ReplyView { content: Some(t), embed: None, ephemeral }
}

/// A reply made of an embed alone.
pub open spec fn embed_reply(e: EmbedView, ephemeral: bool) -> ReplyView {
    ReplyView { content: None, embed: Some(e), ephemeral }
}

impl EmbedSpec {
    /// An embed with nothing set.
    pub fn new() -> (res: Self)
        ensures
            res@ == embed(),
    {
        let res = EmbedSpec {
            title: None,
            description: None,
            color: None,
            fields: Vec::new(),
            footer: None,
            thumbnail: None,
            image: None,
            url: None,
        };
        assert(res@.fields =~= seq![]);
        res
    }

    /// The embed with its title set.
    pub fn title(self, t: String) -> (res: Self)
        ensures
            res@ == e_title(self@, t@),
    {
        let mut s = self;
        s.title = Some(t);
        s
    }

    /// The embed with its description set.
    pub fn description(self, d: String) -> (res: Self)
        ensures
            res@ == e_description(self@, d@),
    {
        let mut s = self;
        s.description = Some(d);
        s
    }

    /// The embed with its color set.
    pub fn color(self, c: u32) -> (res: Self)
        ensures
            res@ == e_color(self@, c),
    {
        let mut s = self;
        s.color = Some(c);
        s
    }

    /// The embed with one more field at the end.
    pub fn field(self, name: String, value: String, inline: bool) -> (res: Self)
        ensures
            res@ == e_field(self@, name@, value@, inline),
    {
        let mut s = self;
        let ghost before = s@;
        let f = FieldSpec { name, value, inline };
        s.fields.push(f);
        assert(s@.fields =~= before.fields.push(FieldView { name: name@, value: value@, inline }));
        s
    }

    /// The embed with its footer text set.
    pub fn footer(self, f: String) -> (res: Self)
        ensures
            res@ == e_footer(self@, f@),
    {
        let mut s = self;
        s.footer = Some(f);
        s
    }

    /// The embed with its thumbnail URL set.
    pub fn thumbnail(self, t: String) -> (res: Self)
        ensures
            res@ == e_thumbnail(self@, t@),
    {
        let mut s = self;
        s.thumbnail = Some(t);
        s
    }

    /// The embed with its image URL set.
    pub fn image(self, i: String) -> (res: Self)
        ensures
            res@ == e_image(self@, i@),
    {
        let mut s = self;
        s.image = Some(i);
        s
    }

    /// The embed with its link URL set.
    pub fn url(self, u: String) -> (res: Self)
        ensures
            res@ == e_url(self@, u@),
    {
        let mut s = self;
        s.url = Some(u);
        s
    }
}

impl Reply {
    /// A reply made of text alone.
    pub fn text(t: String, ephemeral: bool) -> (res: Self)
        ensures
            res@ == text_reply(t@, ephemeral),
    {
        Reply { content: Some(t), embed: None, ephemeral }
    }

    /// A reply made of an embed alone.
    pub fn embed(e: EmbedSpec, ephemeral: bool) -> (res: Self)
        ensures
            res@ == embed_reply(e@, ephemeral),
    {
        Reply { content: None, embed: Some(e), ephemeral }
    }
}

/// Every slash command, in the order it is registered: general, moderation, utility, fun,
/// Pterodactyl.
pub open spec fn all_commands() -> Seq<CommandView> {
    general_commands() + moderation_commands() + utility_commands() + fun_commands()
        + pterodactyl_commands()
}

/// Builds every slash command for registration.
pub fn build_commands() -> (res: Vec<CommandSpec>)
    ensures
        command_views(res@) == all_commands(),
{
    let mut commands: Vec<CommandSpec> = Vec::new();
    let mut g = general::register();
    let mut m = moderation::register();
    let mut u = utility::register();
    let mut f = fun::register();
    let mut p = pterodactyl::register();
    let ghost (gv, mv, uv, fv, pv) = (g@, m@, u@, f@, p@);
    commands.append(&mut g);
    commands.append(&mut m);
    commands.append(&mut u);
    commands.append(&mut f);
    commands.append(&mut p);
    assert(commands@ =~= gv + mv + uv + fv + pv);
    assert(command_views(commands@) =~= command_views(gv) + command_views(mv) + command_views(uv)
        + command_views(fv) + command_views(pv));
    commands
}

/// The group of commands that handles a command.
#[derive(PartialEq, Eq, Structural, Clone, Copy, Debug)]
pub enum Module {
    General,
    Moderation,
    Utility,
    Fun,
    Pterodactyl,
    Unknown,
}

/// The group that handles the command named `name`; `Unknown` for any other name.
pub open spec fn module_of(name: Seq<char>) -> Module {
    if name == "ping"@ || name == "info"@ || name == "help"@ || name == "avatar"@ || name
        == "serverinfo"@ || name == "userinfo"@ {
        Module::General
    } else if name == "ban"@ || name == "kick"@ || name == "mute"@ || name == "unmute"@ || name
        == "warn"@ || name == "purge"@ || name == "slowmode"@ {
        Module::Moderation
    } else if name == "embed"@ || name == "poll"@ || name == "remind"@ || name == "calc"@ {
        Module::Utility
    } else if name == "8ball"@ || name == "dice"@ || name == "roast"@ || name == "compliment"@
        || name == "coinflip"@ || name == "rps"@ {
        Module::Fun
    } else if name == "ptero"@ {
        Module::Pterodactyl
    } else {
        Module::Unknown
    }
}

/// Routes a slash command to the group that handles it, by its name.
pub fn handle_command(name: &str) -> (res: Module)
    ensures
        res == module_of(name@),
{
    if str_eq(name, "ping") || str_eq(name, "info") || str_eq(name, "help") || str_eq(
        name,
        "avatar",
    ) || str_eq(name, "serverinfo") || str_eq(name, "userinfo") {
        Module::General
    } else if str_eq(name, "ban") || str_eq(name, "kick") || str_eq(name, "mute") || str_eq(
        name,
        "unmute",
    ) || str_eq(name, "warn") || str_eq(name, "purge") || str_eq(name, "slowmode") {
        Module::Moderation
    } else if str_eq(name, "embed") || str_eq(name, "poll") || str_eq(name, "remind") || str_eq(
        name,
        "calc",
    ) {
        Module::Utility
    } else if str_eq(name, "8ball") || str_eq(name, "dice") || str_eq(name, "roast") || str_eq(
        name,
        "compliment",
    ) || str_eq(name, "coinflip") || str_eq(name, "rps") {
        Module::Fun
    } else if str_eq(name, "ptero") {
        Module::Pterodactyl
    } else {
        Module::Unknown
    }
}

/// The reply to a command that no group handles.
pub fn unknown_command() -> (res: Reply)
    ensures
        res@ == text_reply("Unknown command."@, true),
{
    Reply::text(owned("Unknown command."), true)
}

proof fn lemma_routes_ping()
    ensures
        module_of("ping"@) == Module::General && general_command_of("ping"@) is Some,
{
    reveal_strlit("ping");

}

proof fn lemma_routes_info()
    ensures
        module_of("info"@) == Module::General && general_command_of("info"@) is Some,
{
    reveal_strlit("info");
    reveal_strlit("ping");
    assert("info"@[0] != "ping"@[0]);
}

proof fn lemma_routes_help()
    ensures
        module_of("help"@) == Module::General && general_command_of("help"@) is Some,
{
    reveal_strlit("help");
    reveal_strlit("ping");
    reveal_strlit("info");
    assert("help"@[0] != "ping"@[0]);
    assert("help"@[0] != "info"@[0]);
}

proof fn lemma_routes_avatar()
    ensures
        module_of("avatar"@) == Module::General && general_command_of("avatar"@) is Some,
{
    reveal_strlit("avatar");
    reveal_strlit("ping");
    reveal_strlit("info");
    reveal_strlit("help");
    assert("avatar"@.len() != "ping"@.len());
    assert("avatar"@.len() != "info"@.len());
    assert("avatar"@.len() != "help"@.len());
}

proof fn lemma_routes_serverinfo()
    ensures
        module_of("serverinfo"@) == Module::General && general_command_of("serverinfo"@) is Some,
{
    reveal_strlit("serverinfo");
    reveal_strlit("ping");
    reveal_strlit("info");
    reveal_strlit("help");
    reveal_strlit("avatar");
    assert("serverinfo"@.len() != "ping"@.len());
    assert("serverinfo"@.len() != "info"@.len());
    assert("serverinfo"@.len() != "help"@.len());
    assert("serverinfo"@.len() != "avatar"@.len());
}

proof fn lemma_routes_userinfo()
    ensures
        module_of("userinfo"@) == Module::General && general_command_of("userinfo"@) is Some,
{
    reveal_strlit("userinfo");
    reveal_strlit("ping");
    reveal_strlit("info");
    reveal_strlit("help");
    reveal_strlit("avatar");
    reveal_strlit("serverinfo");
    assert("userinfo"@.len() != "ping"@.len());
    assert("userinfo"@.len() != "info"@.len());
    assert("userinfo"@.len() != "help"@.len());
    assert("userinfo"@.len() != "avatar"@.len());
    assert("userinfo"@.len() != "serverinfo"@.len());
}

proof fn lemma_routes_ban()
    ensures
        module_of("ban"@) == Module::Moderation && mod_command_of("ban"@) is Some,
{
    reveal_strlit("ban");
    reveal_strlit("ping");
    reveal_strlit("info");
    reveal_strlit("help");
    reveal_strlit("avatar");
    reveal_strlit("serverinfo");
    reveal_strlit("userinfo");
    assert("ban"@.len() != "ping"@.len());
    assert("ban"@.len() != "info"@.len());
    assert("ban"@.len() != "help"@.len());
    assert("ban"@.len() != "avatar"@.len());
    assert("ban"@.len() != "serverinfo"@.len());
    assert("ban"@.len() != "userinfo"@.len());
}

proof fn lemma_routes_kick()
    ensures
        module_of("kick"@) == Module::Moderation && mod_command_of("kick"@) is Some,
{
    reveal_strlit("kick");
    reveal_strlit("ping");
    reveal_strlit("info");
    reveal_strlit("help");
    reveal_strlit("avatar");
    reveal_strlit("serverinfo");
    reveal_strlit("userinfo");
    reveal_strlit("ban");
    assert("kick"@[0] != "ping"@[0]);
    assert("kick"@[0] != "info"@[0]);
    assert("kick"@[0] != "help"@[0]);
    assert("kick"@.len() != "avatar"@.len());
    assert("kick"@.len() != "serverinfo"@.len());
    assert("kick"@.len() != "userinfo"@.len());
    assert("kick"@.len() != "ban"@.len());
}

proof fn lemma_routes_mute()
    ensures
        module_of("mute"@) == Module::Moderation && mod_command_of("mute"@) is Some,
{
    reveal_strlit("mute");
    reveal_strlit("ping");
    reveal_strlit("info");
    reveal_strlit("help");
    reveal_strlit("avatar");
    reveal_strlit("serverinfo");
    reveal_strlit("userinfo");
    reveal_strlit("ban");
    reveal_strlit("kick");
    assert("mute"@[0] != "ping"@[0]);
    assert("mute"@[0] != "info"@[0]);
    assert("mute"@[0] != "help"@[0]);
    assert("mute"@.len() != "avatar"@.len());
    assert("mute"@.len() != "serverinfo"@.len());
    assert("mute"@.len() != "userinfo"@.len());
    assert("mute"@.len() != "ban"@.len());
    assert("mute"@[0] != "kick"@[0]);
}

proof fn lemma_routes_unmute()
    ensures
        module_of("unmute"@) == Module::Moderation && mod_command_of("unmute"@) is Some,
{
    reveal_strlit("unmute");
    reveal_strlit("ping");
    reveal_strlit("info");
    reveal_strlit("help");
    reveal_strlit("avatar");
    reveal_strlit("serverinfo");
    reveal_strlit("userinfo");
    reveal_strlit("ban");
    reveal_strlit("kick");
    reveal_strlit("mute");
    assert("unmute"@.len() != "ping"@.len());
    assert("unmute"@.len() != "info"@.len());
    assert("unmute"@.len() != "help"@.len());
    assert("unmute"@[0] != "avatar"@[0]);
    assert("unmute"@.len() != "serverinfo"@.len());
    assert("unmute"@.len() != "userinfo"@.len());
    assert("unmute"@.len() != "ban"@.len());
    assert("unmute"@.len() != "kick"@.len());
    assert("unmute"@.len() != "mute"@.len());
}

proof fn lemma_routes_warn()
    ensures
        module_of("warn"@) == Module::Moderation && mod_command_of("warn"@) is Some,
{
    reveal_strlit("warn");
    reveal_strlit("ping");
    reveal_strlit("info");
    reveal_strlit("help");
    reveal_strlit("avatar");
    reveal_strlit("serverinfo");
    reveal_strlit("userinfo");
    reveal_strlit("ban");
    reveal_strlit("kick");
    reveal_strlit("mute");
    reveal_strlit("unmute");
    assert("warn"@[0] != "ping"@[0]);
    assert("warn"@[0] != "info"@[0]);
    assert("warn"@[0] != "help"@[0]);
    assert("warn"@.len() != "avatar"@.len());
    assert("warn"@.len() != "serverinfo"@.len());
    assert("warn"@.len() != "userinfo"@.len());
    assert("warn"@.len() != "ban"@.len());
    assert("warn"@[0] != "kick"@[0]);
    assert("warn"@[0] != "mute"@[0]);
    assert("warn"@.len() != "unmute"@.len());
}

proof fn lemma_routes_purge()
    ensures
        module_of("purge"@) == Module::Moderation && mod_command_of("purge"@) is Some,
{
    reveal_strlit("purge");
    reveal_strlit("ping");
    reveal_strlit("info");
    reveal_strlit("help");
    reveal_strlit("avatar");
    reveal_strlit("serverinfo");
    reveal_strlit("userinfo");
    reveal_strlit("ban");
    reveal_strlit("kick");
    reveal_strlit("mute");
    reveal_strlit("unmute");
    reveal_strlit("warn");
    assert("purge"@.len() != "ping"@.len());
    assert("purge"@.len() != "info"@.len());
    assert("purge"@.len() != "help"@.len());
    assert("purge"@.len() != "avatar"@.len());
    assert("purge"@.len() != "serverinfo"@.len());
    assert("purge"@.len() != "userinfo"@.len());
    assert("purge"@.len() != "ban"@.len());
    assert("purge"@.len() != "kick"@.len());
    assert("purge"@.len() != "mute"@.len());
    assert("purge"@.len() != "unmute"@.len());
    assert("purge"@.len() != "warn"@.len());
}

proof fn lemma_routes_slowmode()
    ensures
        module_of("slowmode"@) == Module::Moderation && mod_command_of("slowmode"@) is Some,
{
    reveal_strlit("slowmode");
    reveal_strlit("ping");
    reveal_strlit("info");
    reveal_strlit("help");
    reveal_strlit("avatar");
    reveal_strlit("serverinfo");
    reveal_strlit("userinfo");
    reveal_strlit("ban");
    reveal_strlit("kick");
    reveal_strlit("mute");
    reveal_strlit("unmute");
    reveal_strlit("warn");
    reveal_strlit("purge");
    assert("slowmode"@.len() != "ping"@.len());
    assert("slowmode"@.len() != "info"@.len());
    assert("slowmode"@.len() != "help"@.len());
    assert("slowmode"@.len() != "avatar"@.len());
    assert("slowmode"@.len() != "serverinfo"@.len());
    assert("slowmode"@[0] != "userinfo"@[0]);
    assert("slowmode"@.len() != "ban"@.len());
    assert("slowmode"@.len() != "kick"@.len());
    assert("slowmode"@.len() != "mute"@.len());
    assert("slowmode"@.len() != "unmute"@.len());
    assert("slowmode"@.len() != "warn"@.len());
    assert("slowmode"@.len() != "purge"@.len());
}

proof fn lemma_routes_embed()
    ensures
        module_of("embed"@) == Module::Utility && utility_command_of("embed"@) is Some,
{
    reveal_strlit("embed");
    reveal_strlit("ping");
    reveal_strlit("info");
    reveal_strlit("help");
    reveal_strlit("avatar");
    reveal_strlit("serverinfo");
    reveal_strlit("userinfo");
    reveal_strlit("ban");
    reveal_strlit("kick");
    reveal_strlit("mute");
    reveal_strlit("unmute");
    reveal_strlit("warn");
    reveal_strlit("purge");
    reveal_strlit("slowmode");
    assert("embed"@.len() != "ping"@.len());
    assert("embed"@.len() != "info"@.len());
    assert("embed"@.len() != "help"@.len());
    assert("embed"@.len() != "avatar"@.len());
    assert("embed"@.len() != "serverinfo"@.len());
    assert("embed"@.len() != "userinfo"@.len());
    assert("embed"@.len() != "ban"@.len());
    assert("embed"@.len() != "kick"@.len());
    assert("embed"@.len() != "mute"@.len());
    assert("embed"@.len() != "unmute"@.len());
    assert("embed"@.len() != "warn"@.len());
    assert("embed"@[0] != "purge"@[0]);
    assert("embed"@.len() != "slowmode"@.len());
}

proof fn lemma_routes_poll()
    ensures
        module_of("poll"@) == Module::Utility && utility_command_of("poll"@) is Some,
{
    reveal_strlit("poll");
    reveal_strlit("ping");
    reveal_strlit("info");
    reveal_strlit("help");
    reveal_strlit("avatar");
    reveal_strlit("serverinfo");
    reveal_strlit("userinfo");
    reveal_strlit("ban");
    reveal_strlit("kick");
    reveal_strlit("mute");
    reveal_strlit("unmute");
    reveal_strlit("warn");
    reveal_strlit("purge");
    reveal_strlit("slowmode");
    reveal_strlit("embed");
    assert("poll"@[1] != "ping"@[1]);
    assert("poll"@[0] != "info"@[0]);
    assert("poll"@[0] != "help"@[0]);
    assert("poll"@.len() != "avatar"@.len());
    assert("poll"@.len() != "serverinfo"@.len());
    assert("poll"@.len() != "userinfo"@.len());
    assert("poll"@.len() != "ban"@.len());
    assert("poll"@[0] != "kick"@[0]);
    assert("poll"@[0] != "mute"@[0]);
    assert("poll"@.len() != "unmute"@.len());
    assert("poll"@[0] != "warn"@[0]);
    assert("poll"@.len() != "purge"@.len());
    assert("poll"@.len() != "slowmode"@.len());
    assert("poll"@.len() != "embed"@.len());
}

proof fn lemma_routes_remind()
    ensures
        module_of("remind"@) == Module::Utility && utility_command_of("remind"@) is Some,
{
    reveal_strlit("remind");
    reveal_strlit("ping");
    reveal_strlit("info");
    reveal_strlit("help");
    reveal_strlit("avatar");
    reveal_strlit("serverinfo");
    reveal_strlit("userinfo");
    reveal_strlit("ban");
    reveal_strlit("kick");
    reveal_strlit("mute");
    reveal_strlit("unmute");
    reveal_strlit("warn");
    reveal_strlit("purge");
    reveal_strlit("slowmode");
    reveal_strlit("embed");
    reveal_strlit("poll");
    assert("remind"@.len() != "ping"@.len());
    assert("remind"@.len() != "info"@.len());
    assert("remind"@.len() != "help"@.len());
    assert("remind"@[0] != "avatar"@[0]);
    assert("remind"@.len() != "serverinfo"@.len());
    assert("remind"@.len() != "userinfo"@.len());
    assert("remind"@.len() != "ban"@.len());
    assert("remind"@.len() != "kick"@.len());
    assert("remind"@.len() != "mute"@.len());
    assert("remind"@[0] != "unmute"@[0]);
    assert("remind"@.len() != "warn"@.len());
    assert("remind"@.len() != "purge"@.len());
    assert("remind"@.len() != "slowmode"@.len());
    assert("remind"@.len() != "embed"@.len());
    assert("remind"@.len() != "poll"@.len());
}

proof fn lemma_routes_calc()
    ensures
        module_of("calc"@) == Module::Utility && utility_command_of("calc"@) is Some,
{
    reveal_strlit("calc");
    reveal_strlit("ping");
    reveal_strlit("info");
    reveal_strlit("help");
    reveal_strlit("avatar");
    reveal_strlit("serverinfo");
    reveal_strlit("userinfo");
    reveal_strlit("ban");
    reveal_strlit("kick");
    reveal_strlit("mute");
    reveal_strlit("unmute");
    reveal_strlit("warn");
    reveal_strlit("purge");
    reveal_strlit("slowmode");
    reveal_strlit("embed");
    reveal_strlit("poll");
    reveal_strlit("remind");
    assert("calc"@[0] != "ping"@[0]);
    assert("calc"@[0] != "info"@[0]);
    assert("calc"@[0] != "help"@[0]);
    assert("calc"@.len() != "avatar"@.len());
    assert("calc"@.len() != "serverinfo"@.len());
    assert("calc"@.len() != "userinfo"@.len());
    assert("calc"@.len() != "ban"@.len());
    assert("calc"@[0] != "kick"@[0]);
    assert("calc"@[0] != "mute"@[0]);
    assert("calc"@.len() != "unmute"@.len());
    assert("calc"@[0] != "warn"@[0]);
    assert("calc"@.len() != "purge"@.len());
    assert("calc"@.len() != "slowmode"@.len());
    assert("calc"@.len() != "embed"@.len());
    assert("calc"@[0] != "poll"@[0]);
    assert("calc"@.len() != "remind"@.len());
}

proof fn lemma_routes_eightball()
    ensures
        module_of("8ball"@) == Module::Fun && fun_command_of("8ball"@) is Some,
{
    reveal_strlit("8ball");
    reveal_strlit("ping");
    reveal_strlit("info");
    reveal_strlit("help");
    reveal_strlit("avatar");
    reveal_strlit("serverinfo");
    reveal_strlit("userinfo");
    reveal_strlit("ban");
    reveal_strlit("kick");
    reveal_strlit("mute");
    reveal_strlit("unmute");
    reveal_strlit("warn");
    reveal_strlit("purge");
    reveal_strlit("slowmode");
    reveal_strlit("embed");
    reveal_strlit("poll");
    reveal_strlit("remind");
    reveal_strlit("calc");
    assert("8ball"@.len() != "ping"@.len());
    assert("8ball"@.len() != "info"@.len());
    assert("8ball"@.len() != "help"@.len());
    assert("8ball"@.len() != "avatar"@.len());
    assert("8ball"@.len() != "serverinfo"@.len());
    assert("8ball"@.len() != "userinfo"@.len());
    assert("8ball"@.len() != "ban"@.len());
    assert("8ball"@.len() != "kick"@.len());
    assert("8ball"@.len() != "mute"@.len());
    assert("8ball"@.len() != "unmute"@.len());
    assert("8ball"@.len() != "warn"@.len());
    assert("8ball"@[0] != "purge"@[0]);
    assert("8ball"@.len() != "slowmode"@.len());
    assert("8ball"@[0] != "embed"@[0]);
    assert("8ball"@.len() != "poll"@.len());
    assert("8ball"@.len() != "remind"@.len());
    assert("8ball"@.len() != "calc"@.len());
}

proof fn lemma_routes_dice()
    ensures
        module_of("dice"@) == Module::Fun && fun_command_of("dice"@) is Some,
{
    reveal_strlit("dice");
    reveal_strlit("ping");
    reveal_strlit("info");
    reveal_strlit("help");
    reveal_strlit("avatar");
    reveal_strlit("serverinfo");
    reveal_strlit("userinfo");
    reveal_strlit("ban");
    reveal_strlit("kick");
    reveal_strlit("mute");
    reveal_strlit("unmute");
    reveal_strlit("warn");
    reveal_strlit("purge");
    reveal_strlit("slowmode");
    reveal_strlit("embed");
    reveal_strlit("poll");
    reveal_strlit("remind");
    reveal_strlit("calc");
    reveal_strlit("8ball");
    assert("dice"@[0] != "ping"@[0]);
    assert("dice"@[0] != "info"@[0]);
    assert("dice"@[0] != "help"@[0]);
    assert("dice"@.len() != "avatar"@.len());
    assert("dice"@.len() != "serverinfo"@.len());
    assert("dice"@.len() != "userinfo"@.len());
    assert("dice"@.len() != "ban"@.len());
    assert("dice"@[0] != "kick"@[0]);
    assert("dice"@[0] != "mute"@[0]);
    assert("dice"@.len() != "unmute"@.len());
    assert("dice"@[0] != "warn"@[0]);
    assert("dice"@.len() != "purge"@.len());
    assert("dice"@.len() != "slowmode"@.len());
    assert("dice"@.len() != "embed"@.len());
    assert("dice"@[0] != "poll"@[0]);
    assert("dice"@.len() != "remind"@.len());
    assert("dice"@[0] != "calc"@[0]);
    assert("dice"@.len() != "8ball"@.len());
}

proof fn lemma_routes_roast()
    ensures
        module_of("roast"@) == Module::Fun && fun_command_of("roast"@) is Some,
{
    reveal_strlit("roast");
    reveal_strlit("ping");
    reveal_strlit("info");
    reveal_strlit("help");
    reveal_strlit("avatar");
    reveal_strlit("serverinfo");
    reveal_strlit("userinfo");
    reveal_strlit("ban");
    reveal_strlit("kick");
    reveal_strlit("mute");
    reveal_strlit("unmute");
    reveal_strlit("warn");
    reveal_strlit("purge");
    reveal_strlit("slowmode");
    reveal_strlit("embed");
    reveal_strlit("poll");
    reveal_strlit("remind");
    reveal_strlit("calc");
    reveal_strlit("8ball");
    reveal_strlit("dice");
    assert("roast"@.len() != "ping"@.len());
    assert("roast"@.len() != "info"@.len());
    assert("roast"@.len() != "help"@.len());
    assert("roast"@.len() != "avatar"@.len());
    assert("roast"@.len() != "serverinfo"@.len());
    assert("roast"@.len() != "userinfo"@.len());
    assert("roast"@.len() != "ban"@.len());
    assert("roast"@.len() != "kick"@.len());
    assert("roast"@.len() != "mute"@.len());
    assert("roast"@.len() != "unmute"@.len());
    assert("roast"@.len() != "warn"@.len());
    assert("roast"@[0] != "purge"@[0]);
    assert("roast"@.len() != "slowmode"@.len());
    assert("roast"@[0] != "embed"@[0]);
    assert("roast"@.len() != "poll"@.len());
    assert("roast"@.len() != "remind"@.len());
    assert("roast"@.len() != "calc"@.len());
    assert("roast"@[0] != "8ball"@[0]);
    assert("roast"@.len() != "dice"@.len());
}

proof fn lemma_routes_compliment()
    ensures
        module_of("compliment"@) == Module::Fun && fun_command_of("compliment"@) is Some,
{
    reveal_strlit("compliment");
    reveal_strlit("ping");
    reveal_strlit("info");
    reveal_strlit("help");
    reveal_strlit("avatar");
    reveal_strlit("serverinfo");
    reveal_strlit("userinfo");
    reveal_strlit("ban");
    reveal_strlit("kick");
    reveal_strlit("mute");
    reveal_strlit("unmute");
    reveal_strlit("warn");
    reveal_strlit("purge");
    reveal_strlit("slowmode");
    reveal_strlit("embed");
    reveal_strlit("poll");
    reveal_strlit("remind");
    reveal_strlit("calc");
    reveal_strlit("8ball");
    reveal_strlit("dice");
    reveal_strlit("roast");
    assert("compliment"@.len() != "ping"@.len());
    assert("compliment"@.len() != "info"@.len());
    assert("compliment"@.len() != "help"@.len());
    assert("compliment"@.len() != "avatar"@.len());
    assert("compliment"@[0] != "serverinfo"@[0]);
    assert("compliment"@.len() != "userinfo"@.len());
    assert("compliment"@.len() != "ban"@.len());
    assert("compliment"@.len() != "kick"@.len());
    assert("compliment"@.len() != "mute"@.len());
    assert("compliment"@.len() != "unmute"@.len());
    assert("compliment"@.len() != "warn"@.len());
    assert("compliment"@.len() != "purge"@.len());
    assert("compliment"@.len() != "slowmode"@.len());
    assert("compliment"@.len() != "embed"@.len());
    assert("compliment"@.len() != "poll"@.len());
    assert("compliment"@.len() != "remind"@.len());
    assert("compliment"@.len() != "calc"@.len());
    assert("compliment"@.len() != "8ball"@.len());
    assert("compliment"@.len() != "dice"@.len());
    assert("compliment"@.len() != "roast"@.len());
}

proof fn lemma_routes_coinflip()
    ensures
        module_of("coinflip"@) == Module::Fun && fun_command_of("coinflip"@) is Some,
{
    reveal_strlit("coinflip");
    reveal_strlit("ping");
    reveal_strlit("info");
    reveal_strlit("help");
    reveal_strlit("avatar");
    reveal_strlit("serverinfo");
    reveal_strlit("userinfo");
    reveal_strlit("ban");
    reveal_strlit("kick");
    reveal_strlit("mute");
    reveal_strlit("unmute");
    reveal_strlit("warn");
    reveal_strlit("purge");
    reveal_strlit("slowmode");
    reveal_strlit("embed");
    reveal_strlit("poll");
    reveal_strlit("remind");
    reveal_strlit("calc");
    reveal_strlit("8ball");
    reveal_strlit("dice");
    reveal_strlit("roast");
    reveal_strlit("compliment");
    assert("coinflip"@.len() != "ping"@.len());
    assert("coinflip"@.len() != "info"@.len());
    assert("coinflip"@.len() != "help"@.len());
    assert("coinflip"@.len() != "avatar"@.len());
    assert("coinflip"@.len() != "serverinfo"@.len());
    assert("coinflip"@[0] != "userinfo"@[0]);
    assert("coinflip"@.len() != "ban"@.len());
    assert("coinflip"@.len() != "kick"@.len());
    assert("coinflip"@.len() != "mute"@.len());
    assert("coinflip"@.len() != "unmute"@.len());
    assert("coinflip"@.len() != "warn"@.len());
    assert("coinflip"@.len() != "purge"@.len());
    assert("coinflip"@[0] != "slowmode"@[0]);
    assert("coinflip"@.len() != "embed"@.len());
    assert("coinflip"@.len() != "poll"@.len());
    assert("coinflip"@.len() != "remind"@.len());
    assert("coinflip"@.len() != "calc"@.len());
    assert("coinflip"@.len() != "8ball"@.len());
    assert("coinflip"@.len() != "dice"@.len());
    assert("coinflip"@.len() != "roast"@.len());
    assert("coinflip"@.len() != "compliment"@.len());
}

proof fn lemma_routes_rps()
    ensures
        module_of("rps"@) == Module::Fun && fun_command_of("rps"@) is Some,
{
    reveal_strlit("rps");
    reveal_strlit("ping");
    reveal_strlit("info");
    reveal_strlit("help");
    reveal_strlit("avatar");
    reveal_strlit("serverinfo");
    reveal_strlit("userinfo");
    reveal_strlit("ban");
    reveal_strlit("kick");
    reveal_strlit("mute");
    reveal_strlit("unmute");
    reveal_strlit("warn");
    reveal_strlit("purge");
    reveal_strlit("slowmode");
    reveal_strlit("embed");
    reveal_strlit("poll");
    reveal_strlit("remind");
    reveal_strlit("calc");
    reveal_strlit("8ball");
    reveal_strlit("dice");
    reveal_strlit("roast");
    reveal_strlit("compliment");
    reveal_strlit("coinflip");
    assert("rps"@.len() != "ping"@.len());
    assert("rps"@.len() != "info"@.len());
    assert("rps"@.len() != "help"@.len());
    assert("rps"@.len() != "avatar"@.len());
    assert("rps"@.len() != "serverinfo"@.len());
    assert("rps"@.len() != "userinfo"@.len());
    assert("rps"@[0] != "ban"@[0]);
    assert("rps"@.len() != "kick"@.len());
    assert("rps"@.len() != "mute"@.len());
    assert("rps"@.len() != "unmute"@.len());
    assert("rps"@.len() != "warn"@.len());
    assert("rps"@.len() != "purge"@.len());
    assert("rps"@.len() != "slowmode"@.len());
    assert("rps"@.len() != "embed"@.len());
    assert("rps"@.len() != "poll"@.len());
    assert("rps"@.len() != "remind"@.len());
    assert("rps"@.len() != "calc"@.len());
    assert("rps"@.len() != "8ball"@.len());
    assert("rps"@.len() != "dice"@.len());
    assert("rps"@.len() != "roast"@.len());
    assert("rps"@.len() != "compliment"@.len());
    assert("rps"@.len() != "coinflip"@.len());
}

proof fn lemma_routes_ptero()
    ensures
        module_of("ptero"@) == Module::Pterodactyl,
{
    reveal_strlit("ptero");
    reveal_strlit("ping");
    reveal_strlit("info");
    reveal_strlit("help");
    reveal_strlit("avatar");
    reveal_strlit("serverinfo");
    reveal_strlit("userinfo");
    reveal_strlit("ban");
    reveal_strlit("kick");
    reveal_strlit("mute");
    reveal_strlit("unmute");
    reveal_strlit("warn");
    reveal_strlit("purge");
    reveal_strlit("slowmode");
    reveal_strlit("embed");
    reveal_strlit("poll");
    reveal_strlit("remind");
    reveal_strlit("calc");
    reveal_strlit("8ball");
    reveal_strlit("dice");
    reveal_strlit("roast");
    reveal_strlit("compliment");
    reveal_strlit("coinflip");
    reveal_strlit("rps");
    assert("ptero"@.len() != "ping"@.len());
    assert("ptero"@.len() != "info"@.len());
    assert("ptero"@.len() != "help"@.len());
    assert("ptero"@.len() != "avatar"@.len());
    assert("ptero"@.len() != "serverinfo"@.len());
    assert("ptero"@.len() != "userinfo"@.len());
    assert("ptero"@.len() != "ban"@.len());
    assert("ptero"@.len() != "kick"@.len());
    assert("ptero"@.len() != "mute"@.len());
    assert("ptero"@.len() != "unmute"@.len());
    assert("ptero"@.len() != "warn"@.len());
    assert("ptero"@[1] != "purge"@[1]);
    assert("ptero"@.len() != "slowmode"@.len());
    assert("ptero"@[0] != "embed"@[0]);
    assert("ptero"@.len() != "poll"@.len());
    assert("ptero"@.len() != "remind"@.len());
    assert("ptero"@.len() != "calc"@.len());
    assert("ptero"@[0] != "8ball"@[0]);
    assert("ptero"@.len() != "dice"@.len());
    assert("ptero"@[0] != "roast"@[0]);
    assert("ptero"@.len() != "compliment"@.len());
    assert("ptero"@.len() != "coinflip"@.len());
    assert("ptero"@.len() != "rps"@.len());
}

/// Every registered command is routed to the group that registered it, and that group's
/// `handle` knows it.
pub proof fn law_registered_commands_are_routed()
    ensures
        forall|i: int| 0 <= i < general_commands().len() ==> module_of(#[trigger] general_commands()[i].name) == Module::General && general_command_of(general_commands()[i].name) is Some,
        forall|i: int| 0 <= i < moderation_commands().len() ==> module_of(#[trigger] moderation_commands()[i].name) == Module::Moderation && mod_command_of(moderation_commands()[i].name) is Some,
        forall|i: int| 0 <= i < utility_commands().len() ==> module_of(#[trigger] utility_commands()[i].name) == Module::Utility && utility_command_of(utility_commands()[i].name) is Some,
        forall|i: int| 0 <= i < fun_commands().len() ==> module_of(#[trigger] fun_commands()[i].name) == Module::Fun && fun_command_of(fun_commands()[i].name) is Some,
        forall|i: int| 0 <= i < pterodactyl_commands().len() ==> module_of(#[trigger] pterodactyl_commands()[i].name) == Module::Pterodactyl,
{
    assert forall|i: int| 0 <= i < general_commands().len() implies module_of(general_commands()[i].name) == Module::General && general_command_of(general_commands()[i].name) is Some by {
        if i == 0 {
            lemma_routes_ping();
        } else if i == 1 {
            lemma_routes_info();
        } else if i == 2 {
            lemma_routes_help();
        } else if i == 3 {
            lemma_routes_avatar();
        } else if i == 4 {
            lemma_routes_serverinfo();
        } else if i == 5 {
            lemma_routes_userinfo();
        }
    }
    assert forall|i: int| 0 <= i < moderation_commands().len() implies module_of(moderation_commands()[i].name) == Module::Moderation && mod_command_of(moderation_commands()[i].name) is Some by {
        if i == 0 {
            lemma_routes_ban();
        } else if i == 1 {
            lemma_routes_kick();
        } else if i == 2 {
            lemma_routes_mute();
        } else if i == 3 {
            lemma_routes_unmute();
        } else if i == 4 {
            lemma_routes_warn();
        } else if i == 5 {
            lemma_routes_purge();
        } else if i == 6 {
            lemma_routes_slowmode();
        }
    }
    assert forall|i: int| 0 <= i < utility_commands().len() implies module_of(utility_commands()[i].name) == Module::Utility && utility_command_of(utility_commands()[i].name) is Some by {
        if i == 0 {
            lemma_routes_embed();
        } else if i == 1 {
            lemma_routes_poll();
        } else if i == 2 {
            lemma_routes_remind();
        } else if i == 3 {
            lemma_routes_calc();
        }
    }
    assert forall|i: int| 0 <= i < fun_commands().len() implies module_of(fun_commands()[i].name) == Module::Fun && fun_command_of(fun_commands()[i].name) is Some by {
        if i == 0 {
            lemma_routes_eightball();
        } else if i == 1 {
            lemma_routes_dice();
        } else if i == 2 {
            lemma_routes_roast();
        } else if i == 3 {
            lemma_routes_compliment();
        } else if i == 4 {
            lemma_routes_coinflip();
        } else if i == 5 {
            lemma_routes_rps();
        }
    }
    assert forall|i: int| 0 <= i < pterodactyl_commands().len() implies module_of(pterodactyl_commands()[i].name) == Module::Pterodactyl by {
        if i == 0 {
            lemma_routes_ptero();
        }
    }
}

/// The text of field `j` of the `/help` embed.
pub open spec fn help_field(j: int) -> Seq<char> {
    help_view().embed->0.fields[j].value
}

/// How the help list writes a slash command: a backtick, a slash, its name and a backtick.
pub open spec fn command_item(name: Seq<char>) -> Seq<char> {
    "`/"@ + name + "`"@
}

/// How the help list writes subcommand `sub` of slash command `name`.
pub open spec fn subcommand_item(name: Seq<char>, sub: Seq<char>) -> Seq<char> {
    "`/"@ + name + " "@ + sub + "`"@
}

/// The help line of a group of commands: each command's item, in the order the commands are
/// registered, with a space between two items.
pub open spec fn help_line(cs: Seq<CommandView>) -> Seq<char> {
    join(cs.map_values(|c: CommandView| command_item(c.name)), " "@)
}

proof fn lemma_help_general()
    ensures
        help_field(0) == help_line(general_commands()),
{
    let items = general_commands().map_values(|c: CommandView| command_item(c.name));
    reveal_strlit("`/ping` `/info` `/help` `/avatar` `/serverinfo` `/userinfo`");
    reveal_strlit("ping");
    reveal_strlit("info");
    reveal_strlit("help");
    reveal_strlit("avatar");
    reveal_strlit("serverinfo");
    reveal_strlit("userinfo");
    reveal_strlit("`/");
    reveal_strlit("`");
    reveal_strlit(" ");
    reveal_with_fuel(join, 7);
    assert(items.drop_last().drop_last().drop_last().drop_last().drop_last() =~= seq![command_item("ping"@)]);
    assert(help_line(general_commands()) =~= help_field(0));
}

proof fn lemma_help_moderation()
    ensures
        help_field(1) == help_line(moderation_commands()),
{
    let items = moderation_commands().map_values(|c: CommandView| command_item(c.name));
    reveal_strlit("`/ban` `/kick` `/mute` `/unmute` `/warn` `/purge` `/slowmode`");
    reveal_strlit("ban");
    reveal_strlit("kick");
    reveal_strlit("mute");
    reveal_strlit("unmute");
    reveal_strlit("warn");
    reveal_strlit("purge");
    reveal_strlit("slowmode");
    reveal_strlit("`/");
    reveal_strlit("`");
    reveal_strlit(" ");
    reveal_with_fuel(join, 8);
    assert(items.drop_last().drop_last().drop_last().drop_last().drop_last().drop_last() =~= seq![command_item("ban"@)]);
    assert(help_line(moderation_commands()) =~= help_field(1));
}

proof fn lemma_help_utility()
    ensures
        help_field(2) == help_line(utility_commands()),
{
    let items = utility_commands().map_values(|c: CommandView| command_item(c.name));
    reveal_strlit("`/embed` `/poll` `/remind` `/calc`");
    reveal_strlit("embed");
    reveal_strlit("poll");
    reveal_strlit("remind");
    reveal_strlit("calc");
    reveal_strlit("`/");
    reveal_strlit("`");
    reveal_strlit(" ");
    reveal_with_fuel(join, 5);
    assert(items.drop_last().drop_last().drop_last() =~= seq![command_item("embed"@)]);
    assert(help_line(utility_commands()) =~= help_field(2));
}

proof fn lemma_help_fun()
    ensures
        help_field(3) == help_line(fun_commands()),
{
    let items = fun_commands().map_values(|c: CommandView| command_item(c.name));
    reveal_strlit("`/8ball` `/dice` `/roast` `/compliment` `/coinflip` `/rps`");
    reveal_strlit("8ball");
    reveal_strlit("dice");
    reveal_strlit("roast");
    reveal_strlit("compliment");
    reveal_strlit("coinflip");
    reveal_strlit("rps");
    reveal_strlit("`/");
    reveal_strlit("`");
    reveal_strlit(" ");
    reveal_with_fuel(join, 7);
    assert(items.drop_last().drop_last().drop_last().drop_last().drop_last() =~= seq![command_item("8ball"@)]);
    assert(help_line(fun_commands()) =~= help_field(3));
}

/// `order` lists each of the positions `0..n` once.
pub open spec fn is_order(order: Seq<int>, n: int) -> bool {
    order.len() == n && order.no_duplicates() && forall|k: int| 0 <= k < n ==> 0 <= #[trigger] order[k] < n
}

/// The help line of the subcommands of command `c`, taken in the order `order`.
pub open spec fn subcommand_line(c: CommandView, order: Seq<int>) -> Seq<char> {
    join(order.map_values(|k: int| subcommand_item(c.name, c.options[k].name)), " "@)
}

proof fn lemma_help_ptero()
    ensures
        is_order(seq![1int, 0, 2, 3, 4], pterodactyl_commands()[0].options.len() as int),
        help_field(4) == subcommand_line(pterodactyl_commands()[0], seq![1int, 0, 2, 3, 4]),
{
    let order = seq![1int, 0, 2, 3, 4];
    let c = pterodactyl_commands()[0];
    let items = order.map_values(|k: int| subcommand_item(c.name, c.options[k].name));
    reveal_strlit("`/ptero status` `/ptero list` `/ptero start` `/ptero stop` `/ptero restart`");
    reveal_strlit("ptero");
    reveal_strlit("list");
    reveal_strlit("status");
    reveal_strlit("start");
    reveal_strlit("stop");
    reveal_strlit("restart");
    reveal_strlit("`/");
    reveal_strlit("`");
    reveal_strlit(" ");
    reveal_with_fuel(join, 6);
    assert(c.options.len() == 5);
    assert(order.no_duplicates());
    assert(items.drop_last().drop_last().drop_last().drop_last() =~= seq![subcommand_item("ptero"@, "status"@)]);
    assert(subcommand_line(c, order) =~= help_field(4));
}

/// The `/help` list is the full list of slash commands and nothing else: one field per
/// group, each listing exactly the commands that group registers, in their order; and the
/// Pterodactyl field listing each subcommand of `/ptero` once.
pub proof fn law_help_lists_exactly_the_commands()
    ensures
        help_view().embed->0.fields.len() == 5,
        help_field(0) == help_line(general_commands()),
        help_field(1) == help_line(moderation_commands()),
        help_field(2) == help_line(utility_commands()),
        help_field(3) == help_line(fun_commands()),
        pterodactyl_commands().len() == 1,
        exists|order: Seq<int>|
            is_order(order, pterodactyl_commands()[0].options.len() as int) && help_field(4)
                == subcommand_line(pterodactyl_commands()[0], order),
{
    lemma_help_general();
    lemma_help_moderation();
    lemma_help_utility();
    lemma_help_fun();
    lemma_help_ptero();
    let order = seq![1int, 0, 2, 3, 4];
    assert(is_order(order, pterodactyl_commands()[0].options.len() as int) && help_field(4)
        == subcommand_line(pterodactyl_commands()[0], order));
}

/// The registered general names are pairwise different, and each picks the command of that name.
proof fn lemma_general_names_route()
    ensures
        forall|i: int|
            0 <= i < general_commands().len() ==> #[trigger] general_command_of(general_commands()[i].name) is Some && general_command_name(
                general_command_of(general_commands()[i].name)->0,
            ) == general_commands()[i].name,
        forall|i: int, j: int|
            0 <= i < j < general_commands().len() ==> #[trigger] general_commands()[i].name != #[trigger] general_commands()[j].name,
{
    reveal_strlit("ping");
    reveal_strlit("info");
    reveal_strlit("help");
    reveal_strlit("avatar");
    reveal_strlit("serverinfo");
    reveal_strlit("userinfo");
    assert("ping"@[0] != "info"@[0]);
    assert("ping"@[0] != "help"@[0]);
    assert("ping"@.len() != "avatar"@.len());
    assert("ping"@.len() != "serverinfo"@.len());
    assert("ping"@.len() != "userinfo"@.len());
    assert("info"@[0] != "help"@[0]);
    assert("info"@.len() != "avatar"@.len());
    assert("info"@.len() != "serverinfo"@.len());
    assert("info"@.len() != "userinfo"@.len());
    assert("help"@.len() != "avatar"@.len());
    assert("help"@.len() != "serverinfo"@.len());
    assert("help"@.len() != "userinfo"@.len());
    assert("avatar"@.len() != "serverinfo"@.len());
    assert("avatar"@.len() != "userinfo"@.len());
    assert("serverinfo"@.len() != "userinfo"@.len());
    assert(general_command_of("ping"@) == Some(GeneralCommand::Ping));
    assert(general_command_of("info"@) == Some(GeneralCommand::Info));
    assert(general_command_of("help"@) == Some(GeneralCommand::Help));
    assert(general_command_of("avatar"@) == Some(GeneralCommand::Avatar));
    assert(general_command_of("serverinfo"@) == Some(GeneralCommand::ServerInfo));
    assert(general_command_of("userinfo"@) == Some(GeneralCommand::UserInfo));
}

/// The registered moderation names are pairwise different, and each picks the command of that name.
proof fn lemma_moderation_names_route()
    ensures
        forall|i: int|
            0 <= i < moderation_commands().len() ==> #[trigger] mod_command_of(moderation_commands()[i].name) is Some && moderation_command_name(
                mod_command_of(moderation_commands()[i].name)->0,
            ) == moderation_commands()[i].name,
        forall|i: int, j: int|
            0 <= i < j < moderation_commands().len() ==> #[trigger] moderation_commands()[i].name != #[trigger] moderation_commands()[j].name,
{
    reveal_strlit("ban");
    reveal_strlit("kick");
    reveal_strlit("mute");
    reveal_strlit("unmute");
    reveal_strlit("warn");
    reveal_strlit("purge");
    reveal_strlit("slowmode");
    assert("ban"@.len() != "kick"@.len());
    assert("ban"@.len() != "mute"@.len());
    assert("ban"@.len() != "unmute"@.len());
    assert("ban"@.len() != "warn"@.len());
    assert("ban"@.len() != "purge"@.len());
    assert("ban"@.len() != "slowmode"@.len());
    assert("kick"@[0] != "mute"@[0]);
    assert("kick"@.len() != "unmute"@.len());
    assert("kick"@[0] != "warn"@[0]);
    assert("kick"@.len() != "purge"@.len());
    assert("kick"@.len() != "slowmode"@.len());
    assert("mute"@.len() != "unmute"@.len());
    assert("mute"@[0] != "warn"@[0]);
    assert("mute"@.len() != "purge"@.len());
    assert("mute"@.len() != "slowmode"@.len());
    assert("unmute"@.len() != "warn"@.len());
    assert("unmute"@.len() != "purge"@.len());
    assert("unmute"@.len() != "slowmode"@.len());
    assert("warn"@.len() != "purge"@.len());
    assert("warn"@.len() != "slowmode"@.len());
    assert("purge"@.len() != "slowmode"@.len());
    assert(mod_command_of("ban"@) == Some(ModCommand::Ban));
    assert(mod_command_of("kick"@) == Some(ModCommand::Kick));
    assert(mod_command_of("mute"@) == Some(ModCommand::Mute));
    assert(mod_command_of("unmute"@) == Some(ModCommand::Unmute));
    assert(mod_command_of("warn"@) == Some(ModCommand::Warn));
    assert(mod_command_of("purge"@) == Some(ModCommand::Purge));
    assert(mod_command_of("slowmode"@) == Some(ModCommand::Slowmode));
}

/// The registered utility names are pairwise different, and each picks the command of that name.
proof fn lemma_utility_names_route()
    ensures
        forall|i: int|
            0 <= i < utility_commands().len() ==> #[trigger] utility_command_of(utility_commands()[i].name) is Some && utility_command_name(
                utility_command_of(utility_commands()[i].name)->0,
            ) == utility_commands()[i].name,
        forall|i: int, j: int|
            0 <= i < j < utility_commands().len() ==> #[trigger] utility_commands()[i].name != #[trigger] utility_commands()[j].name,
{
    reveal_strlit("embed");
    reveal_strlit("poll");
    reveal_strlit("remind");
    reveal_strlit("calc");
    assert("embed"@.len() != "poll"@.len());
    assert("embed"@.len() != "remind"@.len());
    assert("embed"@.len() != "calc"@.len());
    assert("poll"@.len() != "remind"@.len());
    assert("poll"@[0] != "calc"@[0]);
    assert("remind"@.len() != "calc"@.len());
    assert(utility_command_of("embed"@) == Some(UtilityCommand::Embed));
    assert(utility_command_of("poll"@) == Some(UtilityCommand::Poll));
    assert(utility_command_of("remind"@) == Some(UtilityCommand::Remind));
    assert(utility_command_of("calc"@) == Some(UtilityCommand::Calc));
}

/// The registered fun names are pairwise different, and each picks the command of that name.
proof fn lemma_fun_names_route()
    ensures
        forall|i: int|
            0 <= i < fun_commands().len() ==> #[trigger] fun_command_of(fun_commands()[i].name) is Some && fun_command_name(
                fun_command_of(fun_commands()[i].name)->0,
            ) == fun_commands()[i].name,
        forall|i: int, j: int|
            0 <= i < j < fun_commands().len() ==> #[trigger] fun_commands()[i].name != #[trigger] fun_commands()[j].name,
{
    reveal_strlit("8ball");
    reveal_strlit("dice");
    reveal_strlit("roast");
    reveal_strlit("compliment");
    reveal_strlit("coinflip");
    reveal_strlit("rps");
    assert("8ball"@.len() != "dice"@.len());
    assert("8ball"@[0] != "roast"@[0]);
    assert("8ball"@.len() != "compliment"@.len());
    assert("8ball"@.len() != "coinflip"@.len());
    assert("8ball"@.len() != "rps"@.len());
    assert("dice"@.len() != "roast"@.len());
    assert("dice"@.len() != "compliment"@.len());
    assert("dice"@.len() != "coinflip"@.len());
    assert("dice"@.len() != "rps"@.len());
    assert("roast"@.len() != "compliment"@.len());
    assert("roast"@.len() != "coinflip"@.len());
    assert("roast"@.len() != "rps"@.len());
    assert("compliment"@.len() != "coinflip"@.len());
    assert("compliment"@.len() != "rps"@.len());
    assert("coinflip"@.len() != "rps"@.len());
    assert(fun_command_of("8ball"@) == Some(FunCommand::EightBall));
    assert(fun_command_of("dice"@) == Some(FunCommand::Dice));
    assert(fun_command_of("roast"@) == Some(FunCommand::Roast));
    assert(fun_command_of("compliment"@) == Some(FunCommand::Compliment));
    assert(fun_command_of("coinflip"@) == Some(FunCommand::Coinflip));
    assert(fun_command_of("rps"@) == Some(FunCommand::Rps));
}

/// Each group's `handle` picks, for every command the group registers, the command of that
/// same name; so two registered names never pick the same command.
pub proof fn law_handle_picks_the_command_of_that_name()
    ensures
        forall|i: int|
            0 <= i < general_commands().len() ==> #[trigger] general_command_of(general_commands()[i].name) is Some && general_command_name(
                general_command_of(general_commands()[i].name)->0,
            ) == general_commands()[i].name,
        forall|i: int, j: int|
            0 <= i < j < general_commands().len() ==> #[trigger] general_command_of(general_commands()[i].name) != #[trigger] general_command_of(
                general_commands()[j].name,
            ),
        forall|i: int|
            0 <= i < moderation_commands().len() ==> #[trigger] mod_command_of(moderation_commands()[i].name) is Some && moderation_command_name(
                mod_command_of(moderation_commands()[i].name)->0,
            ) == moderation_commands()[i].name,
        forall|i: int, j: int|
            0 <= i < j < moderation_commands().len() ==> #[trigger] mod_command_of(moderation_commands()[i].name) != #[trigger] mod_command_of(
                moderation_commands()[j].name,
            ),
        forall|i: int|
            0 <= i < utility_commands().len() ==> #[trigger] utility_command_of(utility_commands()[i].name) is Some && utility_command_name(
                utility_command_of(utility_commands()[i].name)->0,
            ) == utility_commands()[i].name,
        forall|i: int, j: int|
            0 <= i < j < utility_commands().len() ==> #[trigger] utility_command_of(utility_commands()[i].name) != #[trigger] utility_command_of(
                utility_commands()[j].name,
            ),
        forall|i: int|
            0 <= i < fun_commands().len() ==> #[trigger] fun_command_of(fun_commands()[i].name) is Some && fun_command_name(
                fun_command_of(fun_commands()[i].name)->0,
            ) == fun_commands()[i].name,
        forall|i: int, j: int|
            0 <= i < j < fun_commands().len() ==> #[trigger] fun_command_of(fun_commands()[i].name) != #[trigger] fun_command_of(
                fun_commands()[j].name,
            ),
{
    lemma_general_names_route();
    assert forall|i: int, j: int| 0 <= i < j < general_commands().len() implies #[trigger] general_command_of(general_commands()[i].name) != #[trigger] general_command_of(general_commands()[j].name) by {
        assert(general_commands()[i].name != general_commands()[j].name);
    }
    lemma_moderation_names_route();
    assert forall|i: int, j: int| 0 <= i < j < moderation_commands().len() implies #[trigger] mod_command_of(moderation_commands()[i].name) != #[trigger] mod_command_of(moderation_commands()[j].name) by {
        assert(moderation_commands()[i].name != moderation_commands()[j].name);
    }
    lemma_utility_names_route();
    assert forall|i: int, j: int| 0 <= i < j < utility_commands().len() implies #[trigger] utility_command_of(utility_commands()[i].name) != #[trigger] utility_command_of(utility_commands()[j].name) by {
        assert(utility_commands()[i].name != utility_commands()[j].name);
    }
    lemma_fun_names_route();
    assert forall|i: int, j: int| 0 <= i < j < fun_commands().len() implies #[trigger] fun_command_of(fun_commands()[i].name) != #[trigger] fun_command_of(fun_commands()[j].name) by {
        assert(fun_commands()[i].name != fun_commands()[j].name);
    }
}

/// The text of a string literal, owned.
pub fn owned(t: &str) -> (res: String)
    ensures
        res@ == t@,
{
    String::from_str(t)
}

} // verus!
