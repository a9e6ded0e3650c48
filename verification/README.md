# time_manager

A learning-time manager: review cards kept in a data directory of trees,
study sessions timed and stored per category, calendar events and to-do
items as iCalendar text, and the rules that decide what is due next.

The library under `src/` is written in Verus: every function carries a
contract, and Verus proves the code against it.

- `data/`: the data model, iCalendar reading and writing (`schedule`,
  `todo`), the layout of the data directory, export tables, and the
  identifiers and instants that go through `uuid` and `chrono`.
- `learning/`: the category forest, the study-session timer, session
  parameters and presets, vault imports and the learning command line's
  report.
- `timer`, `display`, `cli`, `training`: the file-backed stopwatch, how
  durations and urgencies read, the `tmd` commands' computations, and which
  cards a preset trains on.
- `gui/`, `tabs`, `schedule_form`, `app_state`, `app_model`: the state of
  the interface and what each message does to it, as a function from state
  and message to new state and the effects the caller carries out.
- `laws`: properties that relate several operations.

`app/` is the program around the library: argument parsing, the files and
the database, serialisation, and the spaced-repetition engine, whose state
is floating point. Run as `tmd-cli`, it serves the learning database's
commands instead of `tmd`'s.
