# streamdeck-equibop

An OpenDeck plugin that drives the Equibop Discord client from a stream deck
through a localhost WebSocket bridge (the plugin is the server, an Equibop
userplugin the client).

- `src/` is the verified library: the bridge protocol's message types, the
  caches filled from the client (guilds and soundboard sounds kept stably
  sorted by lowercase name, the notification queue), the shared plugin state
  and its handling of every client message, and the decision each deck action
  makes when pressed or turned. Each public function carries a Verus contract;
  the laws the plugin keeps (last connection wins, deafened shows muted, each
  Voice Channel press flips membership, the caches are determined by what the
  client reported, ...) are proof functions beside the code they speak of.
- `app/` is the program around it: the OpenDeck action handlers, the
  WebSocket server, JSON (de)serialisation of the protocol, and the
  single-precision volume arithmetic.
- `tests/` runs the library on concrete values.
