# royalnet

The RYG community's Telegram bot and its Dota 2 match notifier ("Brooch"),
with the decisions of both written as a library verified by Verus.

- `src/` is the verified library: the parsing of command arguments, dice,
  diary lines and keyboard callback data; the texts that the bot sends; the
  picture addresses of `/cat` and `/dog`; the
  way a STRATZ answer becomes a match notification (which matches are
  notified, how players are ordered, what each line says); the identifiers
  and their database encodings. The contracts state the results exactly,
  except where a result rests on chance, the clock or the time zone (dice,
  fortunes, dates), where they state what holds of every outcome. The
  `law_*` proof functions state the properties that span several functions
  (decimal round trips, callback data round trips, the side and outcome of a
  match, the restart wait, the role labels and the sort order, the length
  of callback data).
- The calls into `regex`, `rand`, `chrono`, `parse_datetime` and
  `reqwest`'s URL type are made from `src/` through small trusted wrappers
  (`ext_*.rs`), whose doc comments say what is assumed of them. Where the
  outside code panics on some inputs (spans of time out of range, a weekday
  read where local midnight does not exist), the library checks the input
  first and answers with an error instead.
- `app/` is the program around the library: configuration, the database,
  the HTTP requests to STRATZ and to the image APIs, and the Telegram
  dispatcher. It hands the library plain values and sends what it returns.
- `tests/` runs the library on concrete values.
