# Lunaris notification daemon

Notification daemon for Lunaris OS. It serves `org.freedesktop.Notifications`
on the session bus, keeps a history in SQLite, and feeds the desktop shell over
a Unix socket.

- `src/` is the verified core: priorities, sanitizing, rate limits, Do Not
  Disturb, focus mode, icons, rows and statements, framing, and what each
  client message asks for. Contracts are checked by Verus. The files named
  `laws.rs`, and the public proof functions next to the code they speak of,
  state what holds across functions.
- `app/` is the program around it: D-Bus, SQLite, sockets, the configuration
  file.
- `tests/` runs the core, with a real SQLite database where statements are
  concerned.
