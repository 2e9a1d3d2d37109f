# todo

A small task manager for the terminal: tasks with priorities, deadlines,
reminders and recurrence, grouped into projects, kept in SQLite, with a
command line (`todo add`, `list`, `done`, `today`, ...) and an interactive
board (`todo ui`).

Layout:

- `src/` is the library, verified with Verus: dates and their text forms
  (`civil`), tasks and recurrence (`task`), the settings file (`config`),
  the command-line logic and its output (`cli`, `project`), reminder
  planning (`notify`, `sound`, `platform`), and the board's state machine,
  search ranking, date picker and screen texts (`tui`).
- `app/` is the program around it: argument parsing, the SQLite store,
  desktop notifications, and the terminal loop that feeds keys to the
  library and performs the changes it asks for.
- `tests/` exercises the library on concrete values.
