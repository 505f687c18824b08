# neosynth

A realtime audio engine for Linux: ALSA capture and playback, a mixer with
reverb, stereo delay, tape delay and a master compressor, control over MIDI and OSC,
and persisted user state — with its control logic verified in Verus.

## Layout

- `src/` — the verified library (`neosynth`):
  - `midi` — the streaming MIDI parser, specified as a state machine, with
    its running-status and real-time-byte laws;
  - `mapping` — Control Change bindings, the default mapping and the router
    (latched and toggle switches);
  - `params`, `mixer`, `parameters` — parameter identifiers, their OSC
    addresses and the parameter events;
  - `wire` — OSC datagrams: messages and nested bundles as the library
    reads them, their messages in visiting order, and the calls into `rosc`
    that decode and encode the bytes;
  - `osc` — the OSC routing table, its lookups, the uniqueness of every
    address, how a message's first argument reads as a number or a switch,
    the server's action for each message of a datagram, and its replies;
  - `persist` — the persisted state, how each event changes it, and its
    replay, which reproduces the state;
  - `pcm` — integer packing of the wire sample formats and its round trip;
  - `engine`, `meters`, `xrun`, `latency` — engine configuration rules,
    lock-free meter cells, xrun events and the latency measurement's
    bookkeeping;
  - `remote`, `panel` — the remote control surface: grouping, ordering and
    labels of parameters, the panel layout, and the reading of pushed
    messages;
  - `buffer` — a fixed-capacity sample stack;
  - `text` — verified string helpers (decimal rendering and parsing,
    prefixes, replacement).
- `tests/` — tests of the library.
- `app/` — the program around it: devices, threads, sockets, files, and the
  floating-point signal chain.
