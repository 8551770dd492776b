use rand::Rng;
use vstd::prelude::*;

use crate::commands::{CommandOption, get_option_int, get_option_str, get_option_user, option_int, option_text, option_user, ChoiceSpec, ChoiceView, CommandSpec, CommandView, EmbedSpec, OptionKind, OptionSpec, OptionView, Reply, ReplyView, cmd, command_views, e_color, e_field, e_title, embed, embed_reply, opt, owned, text_reply, with_opt};
use crate::text::{mention_text, push_mention, push_str, push_u64, dec_digits, str_eq, string_from_chars};

verus! {

/// The rock-paper-scissors option with its three fixed answers.
pub open spec fn rps_choice_option() -> OptionView {
    OptionView {
        choices: seq![
            ChoiceView { name: "Rock"@, value: "rock"@ },
            ChoiceView { name: "Paper"@, value: "paper"@ },
            ChoiceView { name: "Scissors"@, value: "scissors"@ },
        ],
        ..opt(OptionKind::String, "choice"@, "rock, paper, or scissors"@, true)
    }
}

/// The fun commands, in the order they are registered.
pub open spec fn fun_commands() -> Seq<CommandView> {
    seq![
        with_opt(cmd("8ball"@, "Ask the magic 8ball a question"@), opt(OptionKind::String, "question"@, "Your question"@, true)),
        with_opt(cmd("dice"@, "Roll a dice"@), opt(OptionKind::Integer, "sides"@, "Number of sides (default: 6)"@, false)),
        with_opt(cmd("roast"@, "Roast a user"@), opt(OptionKind::User, "user"@, "User to roast"@, true)),
        with_opt(cmd("compliment"@, "Compliment a user"@), opt(OptionKind::User, "user"@, "User to compliment"@, true)),
        cmd("coinflip"@, "Flip a coin"@),
        with_opt(cmd("rps"@, "Rock, Paper, Scissors"@), rps_choice_option()),
    ]
}

/// The fun commands: 8ball, dice, roast, compliment, coinflip, rps.
pub fn register() -> (res: Vec<CommandSpec>)
    ensures
        command_views(res@) == fun_commands(),
{
    let mut v: Vec<CommandSpec> = Vec::new();
    v.push(CommandSpec::new("8ball", "Ask the magic 8ball a question").add_option(
        OptionSpec::new(OptionKind::String, "question", "Your question", true),
    ));
    v.push(CommandSpec::new("dice", "Roll a dice").add_option(
        OptionSpec::new(OptionKind::Integer, "sides", "Number of sides (default: 6)", false),
    ));
    v.push(CommandSpec::new("roast", "Roast a user").add_option(
        OptionSpec::new(OptionKind::User, "user", "User to roast", true),
    ));
    v.push(CommandSpec::new("compliment", "Compliment a user").add_option(
        OptionSpec::new(OptionKind::User, "user", "User to compliment", true),
    ));
    v.push(CommandSpec::new("coinflip", "Flip a coin"));
    let choice = OptionSpec::new(OptionKind::String, "choice", "rock, paper, or scissors", true)
        .add_choice(ChoiceSpec::new("Rock", "rock"))
        .add_choice(ChoiceSpec::new("Paper", "paper"))
        .add_choice(ChoiceSpec::new("Scissors", "scissors"));
    assert(choice@.choices =~= rps_choice_option().choices);
    v.push(CommandSpec::new("rps", "Rock, Paper, Scissors").add_option(choice));
    assert(command_views(v@) =~= fun_commands());
    v
}

/// The fun command that a command name asks for.
#[derive(PartialEq, Eq, Structural, Clone, Copy, Debug)]
pub enum FunCommand {
    EightBall,
    Dice,
    Roast,
    Compliment,
    Coinflip,
    Rps,
}

/// The fun command named `name`, if any.
pub open spec fn fun_command_of(name: Seq<char>) -> Option<FunCommand> {
    if name == "8ball"@ {
        Some(FunCommand::EightBall)
    } else if name == "dice"@ {
        Some(FunCommand::Dice)
    } else if name == "roast"@ {
        Some(FunCommand::Roast)
    } else if name == "compliment"@ {
        Some(FunCommand::Compliment)
    } else if name == "coinflip"@ {
        Some(FunCommand::Coinflip)
    } else if name == "rps"@ {
        Some(FunCommand::Rps)
    } else {
        None
    }
}

/// Picks the fun command that the command name asks for; other names ask for nothing.
pub fn handle(name: &str) -> (res: Option<FunCommand>)
    ensures
        res == fun_command_of(name@),
{
    if str_eq(name, "8ball") {
        Some(FunCommand::EightBall)
    } else if str_eq(name, "dice") {
        Some(FunCommand::Dice)
    } else if str_eq(name, "roast") {
        Some(FunCommand::Roast)
    } else if str_eq(name, "compliment") {
        Some(FunCommand::Compliment)
    } else if str_eq(name, "coinflip") {
        Some(FunCommand::Coinflip)
    } else if str_eq(name, "rps") {
        Some(FunCommand::Rps)
    } else {
        None
    }
}

/// A number drawn from `lo..=hi` by `rand::thread_rng().gen_range(lo..=hi)`.
/// The contract claims only that the number lies in the range; which one comes is chance.
#[verifier::external_body]
fn random_inclusive(lo: u64, hi: u64) -> (r: u64)
    requires
        lo <= hi,
    ensures
        lo <= r <= hi,
{
    rand::thread_rng().gen_range(lo..=hi)
}

/// The number of answers the magic 8-ball has.
pub const EIGHTBALL_ANSWERS: u64 = 15;

/// The magic 8-ball's answer number `i`.
pub open spec fn eightball_answer(i: int) -> Seq<char> {
    if i == 0 {
        "✅ It is certain."@
    } else if i == 1 {
        "✅ Without a doubt."@
    } else if i == 2 {
        "✅ Yes, definitely."@
    } else if i == 3 {
        "✅ You may rely on it."@
    } else if i == 4 {
        "✅ As I see it, yes."@
    } else if i == 5 {
        "✅ Most likely."@
    } else if i == 6 {
        "🤔 Reply hazy, try again."@
    } else if i == 7 {
        "🤔 Ask again later."@
    } else if i == 8 {
        "🤔 Cannot predict now."@
    } else if i == 9 {
        "❌ Don't count on it."@
    } else if i == 10 {
        "❌ Very doubtful."@
    } else if i == 11 {
        "❌ My sources say no."@
    } else if i == 12 {
        "❌ Outlook not so good."@
    } else if i == 13 {
        "❌ No."@
    } else {
        "❌ My reply is no."@
    }
}

fn eightball_answer_exec(i: u64) -> (res: &'static str)
    requires
        i < EIGHTBALL_ANSWERS,
    ensures
        res@ == eightball_answer(i as int),
{
    if i == 0 {
        "✅ It is certain."
    } else if i == 1 {
        "✅ Without a doubt."
    } else if i == 2 {
        "✅ Yes, definitely."
    } else if i == 3 {
        "✅ You may rely on it."
    } else if i == 4 {
        "✅ As I see it, yes."
    } else if i == 5 {
        "✅ Most likely."
    } else if i == 6 {
        "🤔 Reply hazy, try again."
    } else if i == 7 {
        "🤔 Ask again later."
    } else if i == 8 {
        "🤔 Cannot predict now."
    } else if i == 9 {
        "❌ Don't count on it."
    } else if i == 10 {
        "❌ Very doubtful."
    } else if i == 11 {
        "❌ My sources say no."
    } else if i == 12 {
        "❌ Outlook not so good."
    } else if i == 13 {
        "❌ No."
    } else {
        "❌ My reply is no."
    }
}

pub open spec fn str_opt_view(o: Option<&str>) -> Option<Seq<char>> {
    match o {
        Some(q) => Some(q@),
        None => None,
    }
}

/// The 8-ball embed for a question and answer number `i`.
pub open spec fn eightball_view(question: Option<Seq<char>>, i: int) -> ReplyView {
    let q = match question {
        Some(q) => q,
        None => "..."@,
    };
    embed_reply(
        e_field(
            e_field(e_color(e_title(embed(), "🎱 Magic 8-Ball"@), 0x00d2ff), "Question"@, q, false),
            "Answer"@,
            eightball_answer(i),
            false,
        ),
        false,
    )
}

/// The 8-ball's reply to a question (`...` when none was asked) with answer number `i`.
pub fn eightball_reply(question: Option<&str>, i: u64) -> (res: Reply)
    requires
        i < EIGHTBALL_ANSWERS,
    ensures
        res@ == eightball_view(
            str_opt_view(question),
            i as int,
        ),
{
    let q = match question {
        Some(q) => q,
        None => "...",
    };
    let e = EmbedSpec::new().title(owned("🎱 Magic 8-Ball")).color(0x00d2ff).field(
        owned("Question"),
        owned(q),
        false,
    ).field(owned("Answer"), owned(eightball_answer_exec(i)), false);
    Reply::embed(e, false)
}

/// Asks the magic 8-ball: the reply carries one of its answers, drawn at random.
pub fn eightball(question: Option<&str>) -> (res: Reply)
    ensures
        exists|i: int|
            0 <= i < EIGHTBALL_ANSWERS && res@ == #[trigger] eightball_view(str_opt_view(question), i),
{
    let i = random_inclusive(0, EIGHTBALL_ANSWERS - 1);
    eightball_reply(question, i)
}

/// The number of sides of the die: the one asked for, 6 by default, and never fewer than 2.
pub open spec fn dice_sides_spec(sides: Option<i64>) -> u64 {
    let n = match sides {
        Some(n) => n,
        None => 6,
    };
    if n < 2 {
        2
    } else {
        n as u64
    }
}

/// The number of sides of the die: the number asked for (6 by default), at least 2.
pub fn dice_sides(sides: Option<i64>) -> (res: u64)
    ensures
        res == dice_sides_spec(sides),
        res >= 2,
{
    let n = match sides {
        Some(n) => n,
        None => 6,
    };
    if n < 2 {
        2
    } else {
        n as u64
    }
}

/// The text announcing a roll of `roll` on a die with `sides` sides.
pub open spec fn dice_text(roll: u64, sides: u64) -> Seq<char> {
    "🎲 You rolled a **"@ + dec_digits(roll as nat) + "** (d"@ + dec_digits(sides as nat) + ")"@
}

/// The reply announcing a roll.
pub fn dice_reply(roll: u64, sides: u64) -> (res: Reply)
    ensures
        res@ == text_reply(dice_text(roll, sides), false),
{
    let mut t: Vec<char> = Vec::new();
    push_str(&mut t, "🎲 You rolled a **");
    push_u64(&mut t, roll);
    push_str(&mut t, "** (d");
    push_u64(&mut t, sides);
    push_str(&mut t, ")");
    assert(t@ =~= dice_text(roll, sides));
    Reply::text(string_from_chars(&t), false)
}

/// Rolls a die: the roll lies between 1 and the number of sides.
pub fn dice(sides: Option<i64>) -> (res: Reply)
    ensures
        exists|roll: u64|
            1 <= roll <= dice_sides_spec(sides) && res@ == text_reply(
                #[trigger] dice_text(roll, dice_sides_spec(sides)),
                false,
            ),
{
    let n = dice_sides(sides);
    let roll = random_inclusive(1, n);
    dice_reply(roll, n)
}

/// The number of roasts.
pub const ROASTS: u64 = 5;

pub open spec fn roast_line(i: int) -> Seq<char> {
    if i == 0 {
        "Your code has more bugs than a rainforest."@
    } else if i == 1 {
        "I've seen better decisions made by a coin flip."@
    } else if i == 2 {
        "You're the human equivalent of a 404 error."@
    } else if i == 3 {
        "Your wifi signal is stronger than your arguments."@
    } else {
        "Even your shadow doesn't want to follow you around."@
    }
}

fn roast_line_exec(i: u64) -> (res: &'static str)
    requires
        i < ROASTS,
    ensures
        res@ == roast_line(i as int),
{
    if i == 0 {
        "Your code has more bugs than a rainforest."
    } else if i == 1 {
        "I've seen better decisions made by a coin flip."
    } else if i == 2 {
        "You're the human equivalent of a 404 error."
    } else if i == 3 {
        "Your wifi signal is stronger than your arguments."
    } else {
        "Even your shadow doesn't want to follow you around."
    }
}

/// The roast of user `target` with roast number `i`.
pub open spec fn roast_text(target: u64, i: int) -> Seq<char> {
    "🔥 "@ + mention_text(target) + ": "@ + roast_line(i)
}

/// The roast number `i` aimed at user `target`.
pub fn roast_reply(target: u64, i: u64) -> (res: Reply)
    requires
        i < ROASTS,
    ensures
        res@ == text_reply(roast_text(target, i as int), false),
{
    let mut t: Vec<char> = Vec::new();
    push_str(&mut t, "🔥 ");
    push_mention(&mut t, target);
    push_str(&mut t, ": ");
    push_str(&mut t, roast_line_exec(i));
    assert(t@ =~= roast_text(target, i as int));
    Reply::text(string_from_chars(&t), false)
}

/// Roasts user `target` with a roast drawn at random.
pub fn roast(target: u64) -> (res: Reply)
    ensures
        exists|i: int| 0 <= i < ROASTS && res@ == text_reply(#[trigger] roast_text(target, i), false),
{
    let i = random_inclusive(0, ROASTS - 1);
    roast_reply(target, i)
}

/// The number of compliments.
pub const COMPLIMENTS: u64 = 5;

pub open spec fn compliment_line(i: int) -> Seq<char> {
    if i == 0 {
        "You're a ray of sunshine in a world full of clouds! ☀️"@
    } else if i == 1 {
        "Your potential is limitless. Keep shining! ⭐"@
    } else if i == 2 {
        "The world is a better place with you in it! 🌍"@
    } else if i == 3 {
        "You make everything look effortless! 💪"@
    } else {
        "You have the best energy in any room! ✨"@
    }
}

fn compliment_line_exec(i: u64) -> (res: &'static str)
    requires
        i < COMPLIMENTS,
    ensures
        res@ == compliment_line(i as int),
{
    if i == 0 {
        "You're a ray of sunshine in a world full of clouds! ☀️"
    } else if i == 1 {
        "Your potential is limitless. Keep shining! ⭐"
    } else if i == 2 {
        "The world is a better place with you in it! 🌍"
    } else if i == 3 {
        "You make everything look effortless! 💪"
    } else {
        "You have the best energy in any room! ✨"
    }
}

/// The compliment to user `target` with compliment number `i`.
pub open spec fn compliment_text(target: u64, i: int) -> Seq<char> {
    "💙 "@ + mention_text(target) + ": "@ + compliment_line(i)
}

/// The compliment number `i` for user `target`.
pub fn compliment_reply(target: u64, i: u64) -> (res: Reply)
    requires
        i < COMPLIMENTS,
    ensures
        res@ == text_reply(compliment_text(target, i as int), false),
{
    let mut t: Vec<char> = Vec::new();
    push_str(&mut t, "💙 ");
    push_mention(&mut t, target);
    push_str(&mut t, ": ");
    push_str(&mut t, compliment_line_exec(i));
    assert(t@ =~= compliment_text(target, i as int));
    Reply::text(string_from_chars(&t), false)
}

/// Compliments user `target` with a compliment drawn at random.
pub fn compliment(target: u64) -> (res: Reply)
    ensures
        exists|i: int|
            0 <= i < COMPLIMENTS && res@ == text_reply(#[trigger] compliment_text(target, i), false),
{
    let i = random_inclusive(0, COMPLIMENTS - 1);
    compliment_reply(target, i)
}

/// The text of a coin flip.
pub open spec fn coinflip_text(heads: bool) -> Seq<char> {
    if heads {
        "🪙 Heads!"@
    } else {
        "🪙 Tails!"@
    }
}

/// The reply to a coin flip that came up heads or tails.
pub fn coinflip_reply(heads: bool) -> (res: Reply)
    ensures
        res@ == text_reply(coinflip_text(heads), false),
{
    if heads {
        Reply::text(owned("🪙 Heads!"), false)
    } else {
        Reply::text(owned("🪙 Tails!"), false)
    }
}

/// Flips a coin: heads or tails, at random.
pub fn coinflip() -> (res: Reply)
    ensures
        res@ == text_reply(coinflip_text(true), false) || res@ == text_reply(
            coinflip_text(false),
            false,
        ),
{
    let heads = random_inclusive(0, 1) == 0;
    coinflip_reply(heads)
}

/// A move in rock-paper-scissors.
#[derive(PartialEq, Eq, Structural, Clone, Copy, Debug)]
pub enum Move {
    Rock,
    Paper,
    Scissors,
}

/// How a game of rock-paper-scissors ends.
#[derive(PartialEq, Eq, Structural, Clone, Copy, Debug)]
pub enum Outcome {
    Tie,
    PlayerWins,
    BotWins,
}

/// The move a player's answer names: `rock`, `paper` or `scissors`, exactly.
pub open spec fn move_of(s: Seq<char>) -> Option<Move> {
    if s == "rock"@ {
        Some(Move::Rock)
    } else if s == "paper"@ {
        Some(Move::Paper)
    } else if s == "scissors"@ {
        Some(Move::Scissors)
    } else {
        None
    }
}

pub open spec fn move_name(m: Move) -> Seq<char> {
    match m {
        Move::Rock => "rock"@,
        Move::Paper => "paper"@,
        Move::Scissors => "scissors"@,
    }
}

pub open spec fn move_emoji(m: Move) -> Seq<char> {
    match m {
        Move::Rock => "🪨"@,
        Move::Paper => "📄"@,
        Move::Scissors => "✂️"@,
    }
}

/// Rock beats scissors, paper beats rock, scissors beat paper.
pub open spec fn beats(a: Move, b: Move) -> bool {
    (a == Move::Rock && b == Move::Scissors) || (a == Move::Paper && b == Move::Rock) || (a
        == Move::Scissors && b == Move::Paper)
}

/// The end of a game: a tie when both chose the same move, a win for the player whose
/// move beats the other's, and a win for the bot when the player named no move.
pub open spec fn rps_outcome(player: Option<Move>, bot: Move) -> Outcome {
    match player {
        Some(p) => if p == bot {
            Outcome::Tie
        } else if beats(p, bot) {
            Outcome::PlayerWins
        } else {
            Outcome::BotWins
        },
        None => Outcome::BotWins,
    }
}

pub open spec fn outcome_text(o: Outcome) -> Seq<char> {
    match o {
        Outcome::Tie => "🤝 It's a tie!"@,
        Outcome::PlayerWins => "🎉 You win!"@,
        Outcome::BotWins => "😈 I win!"@,
    }
}

/// The emoji shown beside the player's answer: that of its move, `❓` when it names none.
pub open spec fn player_emoji(player: Seq<char>) -> Seq<char> {
    match move_of(player) {
        Some(m) => move_emoji(m),
        None => "❓"@,
    }
}

/// The text of a game between the player's answer and the bot's move.
pub open spec fn rps_text(player: Seq<char>, bot: Move) -> Seq<char> {
    "You: "@ + player_emoji(player) + " "@ + player + " vs Bot: "@ + move_emoji(bot) + " "@
        + move_name(bot) + "\n\n**"@ + outcome_text(rps_outcome(move_of(player), bot)) + "**"@
}

/// The bot's move number `i` (rock, paper, scissors).
pub open spec fn bot_move(i: int) -> Move {
    if i == 0 {
        Move::Rock
    } else if i == 1 {
        Move::Paper
    } else {
        Move::Scissors
    }
}

/// Reads the move a player's answer names.
pub fn parse_move(player: &str) -> (res: Option<Move>)
    ensures
        res == move_of(player@),
{
    if str_eq(player, "rock") {
        Some(Move::Rock)
    } else if str_eq(player, "paper") {
        Some(Move::Paper)
    } else if str_eq(player, "scissors") {
        Some(Move::Scissors)
    } else {
        None
    }
}

/// Who wins a round of rock, paper, scissors.
pub fn rps_outcome_exec(player: Option<Move>, bot: Move) -> (res: Outcome)
    ensures
        res == rps_outcome(player, bot),
{
    match player {
        Some(p) => if p == bot {
            Outcome::Tie
        } else if (p == Move::Rock && bot == Move::Scissors) || (p == Move::Paper && bot
            == Move::Rock) || (p == Move::Scissors && bot == Move::Paper) {
            Outcome::PlayerWins
        } else {
            Outcome::BotWins
        },
        None => Outcome::BotWins,
    }
}

fn move_name_exec(m: Move) -> (res: &'static str)
    ensures
        res@ == move_name(m),
{
    match m {
        Move::Rock => "rock",
        Move::Paper => "paper",
        Move::Scissors => "scissors",
    }
}

fn move_emoji_exec(m: Move) -> (res: &'static str)
    ensures
        res@ == move_emoji(m),
{
    match m {
        Move::Rock => "🪨",
        Move::Paper => "📄",
        Move::Scissors => "✂️",
    }
}

fn outcome_text_exec(o: Outcome) -> (res: &'static str)
    ensures
        res@ == outcome_text(o),
{
    match o {
        Outcome::Tie => "🤝 It's a tie!",
        Outcome::PlayerWins => "🎉 You win!",
        Outcome::BotWins => "😈 I win!",
    }
}

/// The reply to a game between the player's answer and the bot's move.
pub fn rps_reply(player: &str, bot: Move) -> (res: Reply)
    ensures
        res@ == text_reply(rps_text(player@, bot), false),
{
    let pm = parse_move(player);
    let pe = match pm {
        Some(m) => move_emoji_exec(m),
        None => "❓",
    };
    let outcome = rps_outcome_exec(pm, bot);
    let mut t: Vec<char> = Vec::new();
    push_str(&mut t, "You: ");
    push_str(&mut t, pe);
    push_str(&mut t, " ");
    push_str(&mut t, player);
    push_str(&mut t, " vs Bot: ");
    push_str(&mut t, move_emoji_exec(bot));
    push_str(&mut t, " ");
    push_str(&mut t, move_name_exec(bot));
    push_str(&mut t, "\n\n**");
    push_str(&mut t, outcome_text_exec(outcome));
    push_str(&mut t, "**");
    assert(t@ =~= rps_text(player@, bot));
    Reply::text(string_from_chars(&t), false)
}

/// The player's answer, `rock` when none was given.
pub open spec fn rps_player(player: Option<&str>) -> Seq<char> {
    match player {
        Some(p) => p@,
        None => "rock"@,
    }
}

/// Plays rock-paper-scissors against a move the bot draws at random; the player's answer
/// defaults to `rock`.
pub fn rps(player: Option<&str>) -> (res: Reply)
    ensures
        exists|i: int|
            0 <= i < 3 && res@ == text_reply(
                #[trigger] rps_text(rps_player(player), bot_move(i)),
                false,
            ),
{
    let p = match player {
        Some(p) => p,
        None => "rock",
    };
    let i = random_inclusive(0, 2);
    let bot = if i == 0 {
        Move::Rock
    } else if i == 1 {
        Move::Paper
    } else {
        Move::Scissors
    };
    assert(bot == bot_move(i as int));
    assert(p@ == rps_player(player));
    let res = rps_reply(p, bot);
    assert(res@ == text_reply(rps_text(rps_player(player), bot_move(i as int)), false));
    res
}

/// The user a roast or compliment is for: the one named, else the caller.
pub open spec fn target_of(opts: Seq<CommandOption>, caller: u64) -> u64 {
    match option_user(opts, "user"@) {
        Some(u) => u,
        None => caller,
    }
}

/// The player's answer to rock-paper-scissors, `rock` when none was given.
pub open spec fn choice_of(opts: Seq<CommandOption>) -> Seq<char> {
    match option_text(opts, "choice"@) {
        Some(t) => t,
        None => "rock"@,
    }
}

/// The reply of a fun command is one of those its contract allows.
pub open spec fn fun_reply_ok(c: FunCommand, opts: Seq<CommandOption>, caller: u64, r: ReplyView) -> bool {
    match c {
        FunCommand::EightBall => exists|i: int|
            0 <= i < EIGHTBALL_ANSWERS && r == #[trigger] eightball_view(option_text(opts, "question"@), i),
        FunCommand::Dice => {
            let n = dice_sides_spec(option_int(opts, "sides"@));
            exists|roll: u64| 1 <= roll <= n && r == text_reply(#[trigger] dice_text(roll, n), false)
        },
        FunCommand::Roast => exists|i: int|
            0 <= i < ROASTS && r == text_reply(#[trigger] roast_text(target_of(opts, caller), i), false),
        FunCommand::Compliment => exists|i: int|
            0 <= i < COMPLIMENTS && r == text_reply(
                #[trigger] compliment_text(target_of(opts, caller), i),
                false,
            ),
        FunCommand::Coinflip => r == text_reply(coinflip_text(true), false) || r == text_reply(
            coinflip_text(false),
            false,
        ),
        FunCommand::Rps => exists|i: int|
            0 <= i < 3 && r == text_reply(#[trigger] rps_text(choice_of(opts), bot_move(i)), false),
    }
}

/// Runs fun command `c` with options `opts` for user `caller`.
pub fn respond(c: FunCommand, opts: &Vec<CommandOption>, caller: u64) -> (res: Reply)
    ensures
        fun_reply_ok(c, opts@, caller, res@),
{
    match c {
        FunCommand::EightBall => {
            let q = get_option_str(opts, "question");
            assert(str_opt_view(q) == option_text(opts@, "question"@));
            let r = eightball(q);
            proof {
                let i = choose|i: int|
                    0 <= i < EIGHTBALL_ANSWERS && r@ == #[trigger] eightball_view(str_opt_view(q), i);
                assert(r@ == eightball_view(option_text(opts@, "question"@), i));
            }
            r
        },
        FunCommand::Dice => dice(get_option_int(opts, "sides")),
        FunCommand::Roast => {
            let t = match get_option_user(opts, "user") {
                Some(u) => u,
                None => caller,
            };
            let r = roast(t);
            assert(fun_reply_ok(c, opts@, caller, r@));
            r
        },
        FunCommand::Compliment => {
            let t = match get_option_user(opts, "user") {
                Some(u) => u,
                None => caller,
            };
            let r = compliment(t);
            assert(fun_reply_ok(c, opts@, caller, r@));
            r
        },
        FunCommand::Coinflip => coinflip(),
        FunCommand::Rps => {
            let p = get_option_str(opts, "choice");
            let ghost pv = choice_of(opts@);
            assert(rps_player(p) == pv);
            let r = rps(p);
            proof {
                let i = choose|i: int|
                    0 <= i < 3 && r@ == text_reply(#[trigger] rps_text(rps_player(p), bot_move(i)), false);
                assert(r@ == text_reply(rps_text(pv, bot_move(i)), false));
            }
            r
        },
    }
}

/// In a game of two moves, it is a tie exactly when both moves are the same.
pub proof fn law_rps_tie_iff_same_move(p: Move, b: Move)
    ensures
        (rps_outcome(Some(p), b) == Outcome::Tie) <==> p == b,
{
}

/// Swapping the two moves swaps the winner: the player wins with `p` against `b` exactly
/// when the bot would win with `p` against a player who chose `b`.
pub proof fn law_rps_swap_sides(p: Move, b: Move)
    ensures
        (rps_outcome(Some(p), b) == Outcome::PlayerWins) <==> (rps_outcome(Some(b), p)
            == Outcome::BotWins),
{
}

/// Every move beats exactly one move and loses to exactly one other.
pub proof fn law_rps_each_move_beats_one(p: Move)
    ensures
        exists|b: Move| #[trigger] beats(p, b),
        forall|b: Move, c: Move| beats(p, b) && beats(p, c) ==> b == c,
        forall|b: Move, c: Move| beats(b, p) && beats(c, p) ==> b == c,
{
    match p {
        Move::Rock => assert(beats(p, Move::Scissors)),
        Move::Paper => assert(beats(p, Move::Rock)),
        Move::Scissors => assert(beats(p, Move::Paper)),
    }
}

/// The name a fun command is registered under.
pub open spec fn fun_command_name(c: FunCommand) -> Seq<char> {
    match c {
        FunCommand::EightBall => "8ball"@,
        FunCommand::Dice => "dice"@,
        FunCommand::Roast => "roast"@,
        FunCommand::Compliment => "compliment"@,
        FunCommand::Coinflip => "coinflip"@,
        FunCommand::Rps => "rps"@,
    }
}

/// The fixed texts the fun commands draw from are all different: the fifteen 8-ball answers
/// among themselves, the five roasts among themselves, the five compliments among
/// themselves, and no roast is a compliment; and the two faces of the coin read differently.
pub proof fn law_fun_texts_are_distinct()
    ensures
        forall|i: int, j: int| 0 <= i < j < EIGHTBALL_ANSWERS ==> #[trigger] eightball_answer(i) != #[trigger] eightball_answer(j),
        forall|i: int, j: int| 0 <= i < j < ROASTS ==> #[trigger] roast_line(i) != #[trigger] roast_line(j),
        forall|i: int, j: int| 0 <= i < j < COMPLIMENTS ==> #[trigger] compliment_line(i) != #[trigger] compliment_line(j),
        forall|i: int, j: int| 0 <= i < ROASTS && 0 <= j < COMPLIMENTS ==> #[trigger] roast_line(i) != #[trigger] compliment_line(j),
        coinflip_text(true) != coinflip_text(false),
{
    reveal_strlit("✅ It is certain.");
    reveal_strlit("✅ Without a doubt.");
    reveal_strlit("✅ Yes, definitely.");
    reveal_strlit("✅ You may rely on it.");
    reveal_strlit("✅ As I see it, yes.");
    reveal_strlit("✅ Most likely.");
    reveal_strlit("🤔 Reply hazy, try again.");
    reveal_strlit("🤔 Ask again later.");
    reveal_strlit("🤔 Cannot predict now.");
    reveal_strlit("❌ Don't count on it.");
    reveal_strlit("❌ Very doubtful.");
    reveal_strlit("❌ My sources say no.");
    reveal_strlit("❌ Outlook not so good.");
    reveal_strlit("❌ No.");
    reveal_strlit("❌ My reply is no.");
    reveal_strlit("Your code has more bugs than a rainforest.");
    reveal_strlit("I've seen better decisions made by a coin flip.");
    reveal_strlit("You're the human equivalent of a 404 error.");
    reveal_strlit("Your wifi signal is stronger than your arguments.");
    reveal_strlit("Even your shadow doesn't want to follow you around.");
    reveal_strlit("You're a ray of sunshine in a world full of clouds! ☀️");
    reveal_strlit("Your potential is limitless. Keep shining! ⭐");
    reveal_strlit("The world is a better place with you in it! 🌍");
    reveal_strlit("You make everything look effortless! 💪");
    reveal_strlit("You have the best energy in any room! ✨");
    reveal_strlit("🪙 Heads!");
    reveal_strlit("🪙 Tails!");
    assert("🪙 Heads!"@[2] != "🪙 Tails!"@[2]);
    assert forall|i: int, j: int| 0 <= i < j < EIGHTBALL_ANSWERS implies #[trigger] eightball_answer(i) != #[trigger] eightball_answer(j) by {
        if i == 0 && j == 1 { assert(eightball_answer(0).len() != eightball_answer(1).len()); }
        if i == 0 && j == 2 { assert(eightball_answer(0).len() != eightball_answer(2).len()); }
        if i == 0 && j == 3 { assert(eightball_answer(0).len() != eightball_answer(3).len()); }
        if i == 0 && j == 4 { assert(eightball_answer(0).len() != eightball_answer(4).len()); }
        if i == 0 && j == 5 { assert(eightball_answer(0).len() != eightball_answer(5).len()); }
        if i == 0 && j == 6 { assert(eightball_answer(0).len() != eightball_answer(6).len()); }
        if i == 0 && j == 7 { assert(eightball_answer(0).len() != eightball_answer(7).len()); }
        if i == 0 && j == 8 { assert(eightball_answer(0).len() != eightball_answer(8).len()); }
        if i == 0 && j == 9 { assert(eightball_answer(0).len() != eightball_answer(9).len()); }
        if i == 0 && j == 10 { assert(eightball_answer(0)[0] != eightball_answer(10)[0]); }
        if i == 0 && j == 11 { assert(eightball_answer(0).len() != eightball_answer(11).len()); }
        if i == 0 && j == 12 { assert(eightball_answer(0).len() != eightball_answer(12).len()); }
        if i == 0 && j == 13 { assert(eightball_answer(0).len() != eightball_answer(13).len()); }
        if i == 0 && j == 14 { assert(eightball_answer(0).len() != eightball_answer(14).len()); }
        if i == 1 && j == 2 { assert(eightball_answer(1)[2] != eightball_answer(2)[2]); }
        if i == 1 && j == 3 { assert(eightball_answer(1).len() != eightball_answer(3).len()); }
        if i == 1 && j == 4 { assert(eightball_answer(1).len() != eightball_answer(4).len()); }
        if i == 1 && j == 5 { assert(eightball_answer(1).len() != eightball_answer(5).len()); }
        if i == 1 && j == 6 { assert(eightball_answer(1).len() != eightball_answer(6).len()); }
        if i == 1 && j == 7 { assert(eightball_answer(1)[0] != eightball_answer(7)[0]); }
        if i == 1 && j == 8 { assert(eightball_answer(1).len() != eightball_answer(8).len()); }
        if i == 1 && j == 9 { assert(eightball_answer(1).len() != eightball_answer(9).len()); }
        if i == 1 && j == 10 { assert(eightball_answer(1).len() != eightball_answer(10).len()); }
        if i == 1 && j == 11 { assert(eightball_answer(1).len() != eightball_answer(11).len()); }
        if i == 1 && j == 12 { assert(eightball_answer(1).len() != eightball_answer(12).len()); }
        if i == 1 && j == 13 { assert(eightball_answer(1).len() != eightball_answer(13).len()); }
        if i == 1 && j == 14 { assert(eightball_answer(1).len() != eightball_answer(14).len()); }
        if i == 2 && j == 3 { assert(eightball_answer(2).len() != eightball_answer(3).len()); }
        if i == 2 && j == 4 { assert(eightball_answer(2).len() != eightball_answer(4).len()); }
        if i == 2 && j == 5 { assert(eightball_answer(2).len() != eightball_answer(5).len()); }
        if i == 2 && j == 6 { assert(eightball_answer(2).len() != eightball_answer(6).len()); }
        if i == 2 && j == 7 { assert(eightball_answer(2)[0] != eightball_answer(7)[0]); }
        if i == 2 && j == 8 { assert(eightball_answer(2).len() != eightball_answer(8).len()); }
        if i == 2 && j == 9 { assert(eightball_answer(2).len() != eightball_answer(9).len()); }
        if i == 2 && j == 10 { assert(eightball_answer(2).len() != eightball_answer(10).len()); }
        if i == 2 && j == 11 { assert(eightball_answer(2).len() != eightball_answer(11).len()); }
        if i == 2 && j == 12 { assert(eightball_answer(2).len() != eightball_answer(12).len()); }
        if i == 2 && j == 13 { assert(eightball_answer(2).len() != eightball_answer(13).len()); }
        if i == 2 && j == 14 { assert(eightball_answer(2).len() != eightball_answer(14).len()); }
        if i == 3 && j == 4 { assert(eightball_answer(3).len() != eightball_answer(4).len()); }
        if i == 3 && j == 5 { assert(eightball_answer(3).len() != eightball_answer(5).len()); }
        if i == 3 && j == 6 { assert(eightball_answer(3).len() != eightball_answer(6).len()); }
        if i == 3 && j == 7 { assert(eightball_answer(3).len() != eightball_answer(7).len()); }
        if i == 3 && j == 8 { assert(eightball_answer(3)[0] != eightball_answer(8)[0]); }
        if i == 3 && j == 9 { assert(eightball_answer(3).len() != eightball_answer(9).len()); }
        if i == 3 && j == 10 { assert(eightball_answer(3).len() != eightball_answer(10).len()); }
        if i == 3 && j == 11 { assert(eightball_answer(3).len() != eightball_answer(11).len()); }
        if i == 3 && j == 12 { assert(eightball_answer(3).len() != eightball_answer(12).len()); }
        if i == 3 && j == 13 { assert(eightball_answer(3).len() != eightball_answer(13).len()); }
        if i == 3 && j == 14 { assert(eightball_answer(3).len() != eightball_answer(14).len()); }
        if i == 4 && j == 5 { assert(eightball_answer(4).len() != eightball_answer(5).len()); }
        if i == 4 && j == 6 { assert(eightball_answer(4).len() != eightball_answer(6).len()); }
        if i == 4 && j == 7 { assert(eightball_answer(4).len() != eightball_answer(7).len()); }
        if i == 4 && j == 8 { assert(eightball_answer(4).len() != eightball_answer(8).len()); }
        if i == 4 && j == 9 { assert(eightball_answer(4).len() != eightball_answer(9).len()); }
        if i == 4 && j == 10 { assert(eightball_answer(4).len() != eightball_answer(10).len()); }
        if i == 4 && j == 11 { assert(eightball_answer(4).len() != eightball_answer(11).len()); }
        if i == 4 && j == 12 { assert(eightball_answer(4).len() != eightball_answer(12).len()); }
        if i == 4 && j == 13 { assert(eightball_answer(4).len() != eightball_answer(13).len()); }
        if i == 4 && j == 14 { assert(eightball_answer(4).len() != eightball_answer(14).len()); }
        if i == 5 && j == 6 { assert(eightball_answer(5).len() != eightball_answer(6).len()); }
        if i == 5 && j == 7 { assert(eightball_answer(5).len() != eightball_answer(7).len()); }
        if i == 5 && j == 8 { assert(eightball_answer(5).len() != eightball_answer(8).len()); }
        if i == 5 && j == 9 { assert(eightball_answer(5).len() != eightball_answer(9).len()); }
        if i == 5 && j == 10 { assert(eightball_answer(5).len() != eightball_answer(10).len()); }
        if i == 5 && j == 11 { assert(eightball_answer(5).len() != eightball_answer(11).len()); }
        if i == 5 && j == 12 { assert(eightball_answer(5).len() != eightball_answer(12).len()); }
        if i == 5 && j == 13 { assert(eightball_answer(5).len() != eightball_answer(13).len()); }
        if i == 5 && j == 14 { assert(eightball_answer(5).len() != eightball_answer(14).len()); }
        if i == 6 && j == 7 { assert(eightball_answer(6).len() != eightball_answer(7).len()); }
        if i == 6 && j == 8 { assert(eightball_answer(6).len() != eightball_answer(8).len()); }
        if i == 6 && j == 9 { assert(eightball_answer(6).len() != eightball_answer(9).len()); }
        if i == 6 && j == 10 { assert(eightball_answer(6).len() != eightball_answer(10).len()); }
        if i == 6 && j == 11 { assert(eightball_answer(6).len() != eightball_answer(11).len()); }
        if i == 6 && j == 12 { assert(eightball_answer(6).len() != eightball_answer(12).len()); }
        if i == 6 && j == 13 { assert(eightball_answer(6).len() != eightball_answer(13).len()); }
        if i == 6 && j == 14 { assert(eightball_answer(6).len() != eightball_answer(14).len()); }
        if i == 7 && j == 8 { assert(eightball_answer(7).len() != eightball_answer(8).len()); }
        if i == 7 && j == 9 { assert(eightball_answer(7).len() != eightball_answer(9).len()); }
        if i == 7 && j == 10 { assert(eightball_answer(7).len() != eightball_answer(10).len()); }
        if i == 7 && j == 11 { assert(eightball_answer(7).len() != eightball_answer(11).len()); }
        if i == 7 && j == 12 { assert(eightball_answer(7).len() != eightball_answer(12).len()); }
        if i == 7 && j == 13 { assert(eightball_answer(7).len() != eightball_answer(13).len()); }
        if i == 7 && j == 14 { assert(eightball_answer(7).len() != eightball_answer(14).len()); }
        if i == 8 && j == 9 { assert(eightball_answer(8).len() != eightball_answer(9).len()); }
        if i == 8 && j == 10 { assert(eightball_answer(8).len() != eightball_answer(10).len()); }
        if i == 8 && j == 11 { assert(eightball_answer(8).len() != eightball_answer(11).len()); }
        if i == 8 && j == 12 { assert(eightball_answer(8).len() != eightball_answer(12).len()); }
        if i == 8 && j == 13 { assert(eightball_answer(8).len() != eightball_answer(13).len()); }
        if i == 8 && j == 14 { assert(eightball_answer(8).len() != eightball_answer(14).len()); }
        if i == 9 && j == 10 { assert(eightball_answer(9).len() != eightball_answer(10).len()); }
        if i == 9 && j == 11 { assert(eightball_answer(9)[2] != eightball_answer(11)[2]); }
        if i == 9 && j == 12 { assert(eightball_answer(9).len() != eightball_answer(12).len()); }
        if i == 9 && j == 13 { assert(eightball_answer(9).len() != eightball_answer(13).len()); }
        if i == 9 && j == 14 { assert(eightball_answer(9).len() != eightball_answer(14).len()); }
        if i == 10 && j == 11 { assert(eightball_answer(10).len() != eightball_answer(11).len()); }
        if i == 10 && j == 12 { assert(eightball_answer(10).len() != eightball_answer(12).len()); }
        if i == 10 && j == 13 { assert(eightball_answer(10).len() != eightball_answer(13).len()); }
        if i == 10 && j == 14 { assert(eightball_answer(10).len() != eightball_answer(14).len()); }
        if i == 11 && j == 12 { assert(eightball_answer(11).len() != eightball_answer(12).len()); }
        if i == 11 && j == 13 { assert(eightball_answer(11).len() != eightball_answer(13).len()); }
        if i == 11 && j == 14 { assert(eightball_answer(11).len() != eightball_answer(14).len()); }
        if i == 12 && j == 13 { assert(eightball_answer(12).len() != eightball_answer(13).len()); }
        if i == 12 && j == 14 { assert(eightball_answer(12).len() != eightball_answer(14).len()); }
        if i == 13 && j == 14 { assert(eightball_answer(13).len() != eightball_answer(14).len()); }
    }
    assert forall|i: int, j: int| 0 <= i < j < ROASTS implies #[trigger] roast_line(i) != #[trigger] roast_line(j) by {
        if i == 0 && j == 1 { assert(roast_line(0).len() != roast_line(1).len()); }
        if i == 0 && j == 2 { assert(roast_line(0).len() != roast_line(2).len()); }
        if i == 0 && j == 3 { assert(roast_line(0).len() != roast_line(3).len()); }
        if i == 0 && j == 4 { assert(roast_line(0).len() != roast_line(4).len()); }
        if i == 1 && j == 2 { assert(roast_line(1).len() != roast_line(2).len()); }
        if i == 1 && j == 3 { assert(roast_line(1).len() != roast_line(3).len()); }
        if i == 1 && j == 4 { assert(roast_line(1).len() != roast_line(4).len()); }
        if i == 2 && j == 3 { assert(roast_line(2).len() != roast_line(3).len()); }
        if i == 2 && j == 4 { assert(roast_line(2).len() != roast_line(4).len()); }
        if i == 3 && j == 4 { assert(roast_line(3).len() != roast_line(4).len()); }
    }
    assert forall|i: int, j: int| 0 <= i < j < COMPLIMENTS implies #[trigger] compliment_line(i) != #[trigger] compliment_line(j) by {
        if i == 0 && j == 1 { assert(compliment_line(0).len() != compliment_line(1).len()); }
        if i == 0 && j == 2 { assert(compliment_line(0).len() != compliment_line(2).len()); }
        if i == 0 && j == 3 { assert(compliment_line(0).len() != compliment_line(3).len()); }
        if i == 0 && j == 4 { assert(compliment_line(0).len() != compliment_line(4).len()); }
        if i == 1 && j == 2 { assert(compliment_line(1).len() != compliment_line(2).len()); }
        if i == 1 && j == 3 { assert(compliment_line(1).len() != compliment_line(3).len()); }
        if i == 1 && j == 4 { assert(compliment_line(1).len() != compliment_line(4).len()); }
        if i == 2 && j == 3 { assert(compliment_line(2).len() != compliment_line(3).len()); }
        if i == 2 && j == 4 { assert(compliment_line(2).len() != compliment_line(4).len()); }
        if i == 3 && j == 4 { assert(compliment_line(3).len() != compliment_line(4).len()); }
    }
    assert forall|i: int, j: int| 0 <= i < ROASTS && 0 <= j < COMPLIMENTS implies #[trigger] roast_line(i) != #[trigger] compliment_line(j) by {
        if i == 0 && j == 0 { assert(roast_line(0).len() != compliment_line(0).len()); }
        if i == 0 && j == 1 { assert(roast_line(0).len() != compliment_line(1).len()); }
        if i == 0 && j == 2 { assert(roast_line(0).len() != compliment_line(2).len()); }
        if i == 0 && j == 3 { assert(roast_line(0).len() != compliment_line(3).len()); }
        if i == 0 && j == 4 { assert(roast_line(0).len() != compliment_line(4).len()); }
        if i == 1 && j == 0 { assert(roast_line(1).len() != compliment_line(0).len()); }
        if i == 1 && j == 1 { assert(roast_line(1).len() != compliment_line(1).len()); }
        if i == 1 && j == 2 { assert(roast_line(1).len() != compliment_line(2).len()); }
        if i == 1 && j == 3 { assert(roast_line(1).len() != compliment_line(3).len()); }
        if i == 1 && j == 4 { assert(roast_line(1).len() != compliment_line(4).len()); }
        if i == 2 && j == 0 { assert(roast_line(2).len() != compliment_line(0).len()); }
        if i == 2 && j == 1 { assert(roast_line(2).len() != compliment_line(1).len()); }
        if i == 2 && j == 2 { assert(roast_line(2).len() != compliment_line(2).len()); }
        if i == 2 && j == 3 { assert(roast_line(2).len() != compliment_line(3).len()); }
        if i == 2 && j == 4 { assert(roast_line(2).len() != compliment_line(4).len()); }
        if i == 3 && j == 0 { assert(roast_line(3).len() != compliment_line(0).len()); }
        if i == 3 && j == 1 { assert(roast_line(3).len() != compliment_line(1).len()); }
        if i == 3 && j == 2 { assert(roast_line(3).len() != compliment_line(2).len()); }
        if i == 3 && j == 3 { assert(roast_line(3).len() != compliment_line(3).len()); }
        if i == 3 && j == 4 { assert(roast_line(3).len() != compliment_line(4).len()); }
        if i == 4 && j == 0 { assert(roast_line(4).len() != compliment_line(0).len()); }
        if i == 4 && j == 1 { assert(roast_line(4).len() != compliment_line(1).len()); }
        if i == 4 && j == 2 { assert(roast_line(4).len() != compliment_line(2).len()); }
        if i == 4 && j == 3 { assert(roast_line(4).len() != compliment_line(3).len()); }
        if i == 4 && j == 4 { assert(roast_line(4).len() != compliment_line(4).len()); }
    }
}

/// Each move is read from its own name and from nothing else: `move_of` gives back the move
/// of every move's name, and a text that names a move is that move's name.
pub proof fn law_moves_are_read_by_name(t: Seq<char>)
    ensures
        forall|m: Move| #[trigger] move_of(move_name(m)) == Some(m),
        move_of(t) matches Some(m) ==> t == move_name(m),
{
    reveal_strlit("rock");
    reveal_strlit("paper");
    reveal_strlit("scissors");
    assert("rock"@.len() != "paper"@.len());
    assert("rock"@.len() != "scissors"@.len());
    assert("paper"@.len() != "scissors"@.len());
}

/// The die has the number of sides asked for when that is at least 2, six when none was
/// asked, and two when fewer were asked.
pub proof fn law_dice_sides(asked: Option<i64>)
    ensures
        dice_sides_spec(asked) >= 2,
        asked is None ==> dice_sides_spec(asked) == 6,
        forall|n: i64| asked == Some(n) && n >= 2 ==> dice_sides_spec(asked) == n,
        forall|n: i64| asked == Some(n) && n < 2 ==> dice_sides_spec(asked) == 2,
{
}

} // verus!
