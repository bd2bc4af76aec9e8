# lightning_js

The decisions behind a Lightning payment node for Node.js, written in Verus and proved: how
channels, invoices and events are shown, what a destination is resolved to, what is sent and when,
how long payments are awaited, and in which order the node is started, synced, put to work and
stopped.

- `src/` is the library. `src/ldk.rs`, `src/scid.rs` and `src/text.rs` hold the calls whose
  contracts are taken on trust; everything else is proved. Public functions named `law_*` state
  what holds across several functions.
- `tests/` runs the library with the real Lightning and Bitcoin crates.
- `app/` is the binding: it owns the node, the clock and the network, and does what the library
  decides. `app/lsps4.rs` needs MoneyDevKit's build of ldk-node.
