# mickey_companion

The scheduling and configuration core of Mickey Companion, a floating desktop
pet that sneezes, kneads, stretches and yawns on a timer. The library is
written in Verus and proved against its contracts; `app/` holds the Tauri
desktop shell around it.

## Layout

- `src/config.rs`: the actions and their names, the rules (`Rules`, with its
  view `RulesView`), their normalization, the built-in rules, and the choice
  between the external file, the bundled file and the built-in rules.
- `src/timer.rs`: the `Clock` trait with a system and a manual clock, and the
  `Scheduler` that decides which automatic action fires on each tick. Every
  operation is specified by a spec function over `SchedulerState`
  (`started`, `ticked`, `triggered`, `reloaded`); the laws that relate them are
  proof functions at the end of the file.
- `app/`: the window, tray menu, commands and event loops; reading and writing
  `rules.json` and `window.json`; the floating-point parts (minutes and
  seconds as written in `rules.json`, window geometry and scale).

## Time

The library measures time in whole nanoseconds (`u128`). A length taken from
`rules.json` is a `Span`: `Finite(n)` for a finite number (negative numbers
count as zero), `NotFinite` for NaN or an infinity. Intervals between
automatic actions never go below one minute. A moment past the end of the
`u128` time line is taken as its last moment.

## Rules

`rules.json` requires `sneezeEveryMinutes`, `kneadEveryMinutes`,
`singleClick` and `doubleClick`. A click binding is `"sneezing"` or
`"kneading"`; any other value normalizes to kneading for a single click and
sneezing for a double click. `workBreakMinutes` (50), `nightYawnMinutes`
(30), `actionCooldownSeconds` (8), `behaviorEnabled` (true),
`nightQuietEnabled` (true), `nightStartHour` (22) and `nightEndHour` (7) take
the values in brackets when absent.
