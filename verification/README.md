# wthiromc

What is running on a Windows computer, and what it means in plain English.

`src/` is the verified library (Verus):

- `types` – facts about processes and startup entries, rule hits, risk levels.
- `rules` – the rule engine: each rule a pure check, the score the sum of
  the weights of the rules that hit (never below zero), the level taken from
  the score.
- `explain` – one sentence per warning and a one-line summary per item.
- `allowlist`, `history` – the user's "mark as safe" list and the "new since
  last time" check, applied on top of the engine's output.
- `collector` – the decisions made about raw facts: run locations, command
  lines, `schtasks` listings, startup-folder files, the signature cache.
- `scan` – the computing steps of a full scan.
- `text` – character-level helpers (trimming, search, replacement, decimal).

`app/` is the program around it: it reads processes, the registry, the
Startup folders and scheduled tasks, verifies signatures, keeps the allowlist
and the history in SQLite, and prints each command's result as JSON.
