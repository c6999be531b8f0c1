# network_behaviour

A node of a peer-to-peer network runs several protocols at once. This library decides what happens
where they meet: which of their events are announced to the rest of the node, in which order, and
which calls on the other protocols an event leads to. Its contracts are proved with Verus.

- `src/` holds the library. `behaviour` is the entry point, `routing` says what each event leads to,
  `laws` holds what is proved of several calls in a row, and `progress` that what is announced is
  handed out in the end.
- `tests/` runs the library on concrete values.
- `app/` joins the library to actual protocols: a `libp2p` network behaviour that owns them, feeds
  their events to the library and performs the actions that it asks for.
