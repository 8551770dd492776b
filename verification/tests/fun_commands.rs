use aether_discord::commands::fun::{
    coinflip, coinflip_reply, compliment_reply, dice, dice_reply, dice_sides, eightball,
    eightball_reply, handle, parse_move, respond, roast, roast_reply, rps, rps_outcome_exec,
    rps_reply, FunCommand, Move, Outcome,
};
use aether_discord::commands::{CommandOption, OptionValue};

const ANSWERS: [&str; 15] = [
    "✅ It is certain.", "✅ Without a doubt.", "✅ Yes, definitely.",
    "✅ You may rely on it.", "✅ As I see it, yes.", "✅ Most likely.",
    "🤔 Reply hazy, try again.", "🤔 Ask again later.", "🤔 Cannot predict now.",
    "❌ Don't count on it.", "❌ Very doubtful.", "❌ My sources say no.",
    "❌ Outlook not so good.", "❌ No.", "❌ My reply is no.",
];

#[test]
fn fun_names_pick_commands() {
    assert_eq!(handle("8ball"), Some(FunCommand::EightBall));
    assert_eq!(handle("rps"), Some(FunCommand::Rps));
    assert_eq!(handle("ping"), None);
}

#[test]
fn eightball_embed() {
    let r = eightball_reply(None, 0);
    let e = r.embed.unwrap();
    assert_eq!(e.title.as_deref(), Some("🎱 Magic 8-Ball"));
    assert_eq!(e.color, Some(0x00d2ff));
    assert_eq!(e.fields[0].name, "Question");
    assert_eq!(e.fields[0].value, "...");
    assert!(!e.fields[0].inline);
    assert_eq!(e.fields[1].value, "✅ It is certain.");
    let r = eightball_reply(Some("Will it rain?"), 14);
    let e = r.embed.unwrap();
    assert_eq!(e.fields[0].value, "Will it rain?");
    assert_eq!(e.fields[1].value, "❌ My reply is no.");
}

#[test]
fn eightball_answers_from_its_list() {
    for _ in 0..50 {
        let e = eightball(Some("q")).embed.unwrap();
        assert!(ANSWERS.contains(&e.fields[1].value.as_str()));
    }
}

#[test]
fn dice_sides_defaults_and_minimum() {
    assert_eq!(dice_sides(None), 6);
    assert_eq!(dice_sides(Some(1)), 2);
    assert_eq!(dice_sides(Some(-5)), 2);
    assert_eq!(dice_sides(Some(20)), 20);
}

#[test]
fn dice_text() {
    assert_eq!(dice_reply(3, 6).content.as_deref(), Some("🎲 You rolled a **3** (d6)"));
}

#[test]
fn dice_roll_stays_on_the_die() {
    for _ in 0..200 {
        let t = dice(Some(2)).content.unwrap();
        assert!(t == "🎲 You rolled a **1** (d2)" || t == "🎲 You rolled a **2** (d2)", "{}", t);
    }
}

#[test]
fn roast_and_compliment_texts() {
    assert_eq!(
        roast_reply(7, 2).content.as_deref(),
        Some("🔥 <@7>: You're the human equivalent of a 404 error.")
    );
    assert_eq!(
        compliment_reply(7, 4).content.as_deref(),
        Some("💙 <@7>: You have the best energy in any room! ✨")
    );
    assert!(roast(11).content.unwrap().starts_with("🔥 <@11>: "));
}

#[test]
fn coin_has_two_faces() {
    assert_eq!(coinflip_reply(true).content.as_deref(), Some("🪙 Heads!"));
    assert_eq!(coinflip_reply(false).content.as_deref(), Some("🪙 Tails!"));
    let mut seen = (false, false);
    for _ in 0..200 {
        match coinflip().content.as_deref() {
            Some("🪙 Heads!") => seen.0 = true,
            Some("🪙 Tails!") => seen.1 = true,
            other => panic!("unexpected {:?}", other),
        }
    }
    assert!(seen.0 && seen.1);
}

#[test]
fn rps_rules() {
    let moves = [Move::Rock, Move::Paper, Move::Scissors];
    for p in moves {
        for b in moves {
            let o = rps_outcome_exec(Some(p), b);
            assert_eq!(o == Outcome::Tie, p == b);
            assert_eq!(o == Outcome::PlayerWins, rps_outcome_exec(Some(b), p) == Outcome::BotWins);
        }
    }
    assert_eq!(rps_outcome_exec(Some(Move::Rock), Move::Scissors), Outcome::PlayerWins);
    assert_eq!(rps_outcome_exec(Some(Move::Rock), Move::Paper), Outcome::BotWins);
    assert_eq!(rps_outcome_exec(None, Move::Rock), Outcome::BotWins);
    assert_eq!(parse_move("paper"), Some(Move::Paper));
    assert_eq!(parse_move("Paper"), None);
}

#[test]
fn rps_texts() {
    assert_eq!(
        rps_reply("rock", Move::Scissors).content.as_deref(),
        Some("You: 🪨 rock vs Bot: ✂️ scissors\n\n**🎉 You win!**")
    );
    assert_eq!(
        rps_reply("paper", Move::Paper).content.as_deref(),
        Some("You: 📄 paper vs Bot: 📄 paper\n\n**🤝 It's a tie!**")
    );
    assert_eq!(
        rps_reply("lizard", Move::Rock).content.as_deref(),
        Some("You: ❓ lizard vs Bot: 🪨 rock\n\n**😈 I win!**")
    );
    assert!(rps(None).content.unwrap().starts_with("You: 🪨 rock vs Bot: "));
}

#[test]
fn respond_reads_options() {
    let opts = vec![CommandOption { name: "user".to_string(), value: OptionValue::User(99) }];
    assert!(respond(FunCommand::Compliment, &opts, 1).content.unwrap().starts_with("💙 <@99>: "));
    assert!(respond(FunCommand::Roast, &Vec::new(), 1).content.unwrap().starts_with("🔥 <@1>: "));
    let opts = vec![CommandOption { name: "sides".to_string(), value: OptionValue::Integer(1) }];
    let t = respond(FunCommand::Dice, &opts, 1).content.unwrap();
    assert!(t.ends_with("(d2)"));
}
