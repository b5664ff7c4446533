# clipygo-plugin-obsidian

A clipygo plugin that sends clipboard content to an Obsidian vault: appended to
today's daily note, appended to an inbox note, or written to a new note named
after its first line. The plugin speaks a line-based JSON protocol on stdin and
stdout.

- `src/` is the verified library (Verus): settings and their updates
  (`config`), time texts from chrono (`clock`), note locations and entries
  (`notes`), new-note titles (`titles`), text helpers such as replacing and
  trimming (`text`), file-system locations (`paths`), JSON documents from
  serde_json (`json`) and the answers to each request (`protocol`).
- `app/main.rs` is the plugin process: the request loop, the JSON encoding and
  every file-system access.
- `tests/` runs the library on concrete values.
