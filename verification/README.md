# seeder

A client that keeps Battlefield 1 and Battlefield 4 community servers seeded. It polls
its group's seeding command from a backend, joins, leaves or restarts the game
through EA Desktop, Origin or Steam, keeps the running game from idling out, and
posts messages in a server within configured hours.

- `src/` is the verified library (Verus): the configuration and the backend's
  messages (`structs`), launcher command lines, EA Desktop's launch options and the
  wait for a started game (`actions`), the planning of a seeding poll, the message
  rotation and the message hours (`functions`), with the string and clock helpers
  they rest on (`text`, `clock`).
- `app/` is the program around it: configuration file, HTTP, windows, processes,
  the registry and keyboard input, and the three threads that run the activities.
- `tests/` exercises the library on concrete values.
