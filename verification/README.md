# p2p

A peer-to-peer chat over QUIC. Nodes join a HyParView membership overlay,
broadcast chat lines with Plumtree, authenticate each other with raw Ed25519
keys carried in TLS server names, and find their public address with STUN. A
terminal screen and a client for a language model come with it.

## Layout

- `src/` is the library, written in Verus. Verus proves the functions there
  against their contracts: the view models of the screen (input line,
  message list, log panel, peers), the layout of the screen (line counts,
  scrolling, styled lines), the node's decisions (membership and broadcast
  effects, tick schedule, event-loop order, connection peers, leaving), vector
  clocks and message ids, node ids and their hexadecimal text, peer names and
  certificate checks, the STUN request, answer and server order, the model's chat
  history and event stream, and the Markdown renderer. Calls into other
  crates (`ed25519-dalek`, `data-encoding`, `chrono`, `unicode-width`,
  `serde_json`, `rand`, `stun_codec`) go through small wrappers that Verus
  does not check: their contracts are taken on trust, and state no more than
  those crates' sources show, often only by naming the result.
- `tests/` runs the library on concrete values.
- `app/` is the program around the library: command line, QUIC endpoint and
  TLS configuration, the protocol state machines of `hyparview` and
  `plumtree`, serialisation, the HTTP client, and terminal painting. It
  carries out what the library decides.
