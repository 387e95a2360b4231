# seris

A Discord bot (anime and manga suggestions, NASA pictures, EPIC Earth galleries,
reminders, an operations dashboard) whose decisions are verified with Verus.

- `src/` is the verified library: command cooldowns, the EPIC gallery sessions
  and their navigation, the HTTP retry and circuit-breaker state machine, the
  health and dashboard replies, reminder scheduling, configuration checks,
  usage statistics, release selection for self-updates, and the text of every
  reply and embed. Each public function states its result in its contract;
  the laws that span several calls are public proof functions.
- `app/` is the program around it: Discord (poise, serenity), HTTP (reqwest),
  SQLite (rusqlite), configuration files and the process environment, timers
  and the dashboard's socket. It performs the I/O and hands plain values to the
  library.
- `tests/` runs the library on concrete values.
