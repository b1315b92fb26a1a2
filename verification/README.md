# pomoru

A minimal terminal Pomodoro timer. You pick the hours of the day you mean to
study, then the timer alternates study phases and breaks, one planned hour
after another, until the planned hours run out. Finished sessions go to a
history file, from which the day's cycles, the streak of study days and the
minutes of recent days are computed.

## Layout

- `src/` is the verified library (Verus):
  - `timer.rs`: the countdown of one phase, in nanoseconds.
  - `schedule.rs`: the 24 hour blocks (free, planned, active, completed).
  - `app.rs`: the study/break state machine, driven by key presses and clock
    ticks; each step returns the notification the front end owes the user.
  - `history.rs`: finished sessions and the statistics over calendar days.
  - `ascii.rs`, `view.rs`: the text the screen shows and the colour role of
    each piece.
  - `notify.rs`, `config.rs`, `text.rs`: notification texts, the default
    theme, decimal formatting.
  - `clock.rs`: the readings of the monotonic and the local wall clock.
- `app/` is the terminal program: argument parsing, the event loop, drawing
  with ratatui, desktop notifications, and the history and config files.
- `tests/` exercises the library.
