# nerdterm

The logic of a terminal client for BBS, MUD and SSH hosts, verified with
[Verus](https://github.com/verus-lang/verus), and the program around it.

- `src/` is the library. Everything in it is proved against the contracts that it
  states: the address book and its popups (`popup`, `app::book`), the state machine
  that ties keys and network events together (`app`), the telnet filter and the steps
  of an SSH login (`network`), the scanner for terminal queries and the emulator's
  bookkeeping (`terminal`), what becomes of configuration files and captures
  (`config`), and what is on screen (`ui`).
- `app/` is the program: sockets, files, the clock and drawing. It hands the library
  events, and does what the library asks for in return.
- `tests/` runs the library on concrete values.

`app::App` takes events and returns effects, to be carried out in order. Where an
effect can fail, the program reports how it went (`settings_saved`,
`settings_not_saved` and so on). Some output cannot be drawn on some screens: `vt100`
panics. The program offers each event first (`offer_terminal_event`,
`offer_app_event`), and the application takes it where it is known beforehand that
nothing of the kind happens; otherwise the event comes back, and handing it over is at
the program's own risk.

What the proofs rest on are the contracts of a few functions of other crates. They
stand in `terminal::vt` (the `vt100` screen), `config::clock` (`chrono`) and `text`
(two functions of `String`), each with a comment that says what is taken for granted.

What holds of the application as a whole is in `app::laws`; laws of a single part
stand beside it.
