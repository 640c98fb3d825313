# gateway_bot

An onboarding-verification bot for Discord servers. A newcomer presses a
button, gets a private channel with questions drawn at random, and a moderator
accepts or denies them; the channel is then deleted after a delay.

- `src/` is the verified library (Verus): naming of channels and reading the
  applicant back from a channel name, decimal rendering and parsing, who counts
  as an administrator or a moderator, which button was pressed and whether the
  presser may use it, the plan for a new verification channel, the drawing of
  questions, the texts the bot posts, and the registry of pending deletions.
  Calls into serenity and rand sit behind small trusted wrappers in
  `src/discord.rs` and `src/chance.rs`.
- `app/` is the program: it reads `config.json` and `DISCORD_TOKEN`, talks to
  Discord through serenity, runs deletion timers on tokio, and does what the
  library decides.
- `tests/` exercises the library on concrete values.
