# ticket-tracker

`tt` watches Maoyan cinemas for a movie's tickets going on sale, and keeps
its watches, cinemas and settings in `~/.config/ticket-tracker/config.json`
(`%APPDATA%\ticket-tracker\config.json` on Windows; `$XDG_CONFIG_HOME`
moves it on every platform).

- `src/` is the library, verified with Verus: the configuration schema and
  its migrations, watches and cinemas, time windows, the Maoyan payloads,
  the seat-booker's command line and verdicts, notices, and every decision
  of the command line and of the terminal UI (keys, forms, pickers, the
  command line inside the UI). Each public function states what it returns
  or changes; the laws that relate several functions are public proof
  functions named `law_*`.
- `app/` is the program around it: argument parsing, files, the network,
  processes, the terminal.
- `tests/` runs the library on concrete values.
