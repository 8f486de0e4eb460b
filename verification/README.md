# steam_calendar

Records Steam game sessions in an iCalendar file and serves that file.

- `src/` is the library, verified with Verus: the session tracker's
  decisions (`tracker`), the texts of session events and messages
  (`session`, `achievements`, `text`), instants and their wall-clock
  rendering (`clock`), the calendar file's backups, reading, merging and
  publishing (`calendar`), the configuration (`config`) and the Steam Web
  API records (`api`).
- `app/` is the program around it: configuration from the environment,
  HTTP requests to Steam and to a CalDAV server, the HTTP server of the
  calendar, the files and the clock.
- `tests/` exercises the library on concrete values.
