# constellations

The decision logic of a Matrix chat client, written in Verus and verified.

- `src/constellations/` — the client state (session, rooms, timelines,
  composer, search, panels, preferences) and one handler per message of the
  user interface.  Each handler changes the state as its contract says and
  returns the work (`Effect`) the runtime is to perform; the answers come
  back as messages.  `update.rs` routes every message; `laws.rs` states
  properties that span several messages.
- `src/matrix/` — what the client knows about the homeserver: rooms, the
  space hierarchy, list changes, message search paging, the homeserver
  address used to sign in, room-list summaries.
- `src/preview.rs` — the flat preview of a Markdown message.
- `src/text.rs` — string helpers specified against the `str` methods they
  stand for.
- `app/` — the runtime side that the library cannot hold: scroll positions in
  floating point, and feeding messages to the library.

`pulldown-cmark` parses Markdown and `url` parses URLs; both are called from
the library through small trusted wrappers whose contracts name their
results.

The space hierarchy keeps its edges in a vector of `(space, child, data)`
links rather than in hash maps: its walks (whether a room lies in a space,
every room below a space) go over all edges, and vstd's `StringHashMap` and
`StringHashSet` offer lookups but no specified way to go over their entries.
The vector carries the maps' invariant instead (no edge listed twice, every
space with a child known), and the abstract view is the map from edges to
their data.

Call participants are kept as a vector of `(room, user)` pairs, each held
once, rather than a map of sets, for the same reason: the participants of a
room are read by going over the entries, which vstd's hash collections do not
offer with a specification.
