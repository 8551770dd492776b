# aether_discord

A Discord bot whose decisions are proved with Verus.

`src/` is the verified library. Every command of the bot is a function from plain values
(the options a user gave, the configuration, what Discord or the panel answered) to the
reply or action the bot takes, with a contract that states that reply exactly:

- `commands/`: the slash-command registry and the routing of a command name to its group
  (`mod.rs`), and the groups: `general`, `moderation`, `utility`, `fun`, `pterodactyl`;
  `calc.rs` is the grammar of `/calc` expressions (tokens, precedence, parentheses) and
  its parser.
- `handlers/event.rs`: welcome messages, auto-moderation, prefix commands, button clicks.
- `calendar.rs`: the Gregorian calendar that creation dates are stated in.
- `config.rs`: the configuration and how it is read from environment values.
- `text.rs`: the text model the contracts are written in (decimal and hex numbers,
  search, replace, split, trim, words).

`app/` is the program around it: the Discord client, the HTTP calls to the Pterodactyl
panel, reading `config.toml` and the environment, and the floating-point evaluation and formatting.

`tests/` runs the library on concrete values.
