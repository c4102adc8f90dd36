# ivy

Building blocks of a small actor framework for connected devices, verified with Verus.

- `src/` is the library. Its functions are verified against their contracts, except for the small
  ones that call other crates (see below).
  - `messaging`: how a connection turns frames into handled requests.
  - `ivy_core`: slots and connections, MQTT, flash and storage, logging, Bluetooth, the network.
  - `ivy_types`: requests to an actor.
  - `rapid_core`: a second generation of the same modules, with buffers of a fixed size.
  - `ivy_macros`, `rapid_macros`: the code that the macros for actors generate, with `syntax`,
    `methods`, `codegen` and `text` under them.
  - `device`, `storage`: what both generations share.
- `app/` is ordinary Rust that runs the library: tasks, radios, flash memories, the network. It waits
  and sends, and asks the library what comes next.
- `tests/` runs the library on concrete values.

The library calls `syn`, `proc-macro2`, `quote` and `heck` to take Rust source apart, `heapless` for
the name of a device, `trouble-host` to encode an advertisement and `tracing` to compare log levels.
Each of these calls stands in a small function of its own that says what is believed of it.
