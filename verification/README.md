# electrs_json_rpc

JSON-RPC 2.0 over lines of text, for both ends of a connection, and an Electrum server on top of it.
The library decides and computes; it is written in Verus, and what its functions do is stated in
their contracts and proved. Streams, tasks and sockets are around it, in ordinary Rust.

## Layout

- `src/json_value.rs`, `src/json_codec.rs`: JSON values, and how `serde_json` reads and writes them.
- `src/json_types/`: ids, errors, parameters, requests, responses, batches and messages, each with
  what it is as JSON and what is said of JSON that is none.
- `src/message_io.rs`: messages as lines.
- `src/session/`: who waits for which response (`response_map`), responses in the order of their
  ids (`id_order`), and what a session does with each message and each finished request (`state`).
- `src/client.rs`, `src/service.rs`: what a client sends, and what a service answers.
- `src/macros/`: services and clients that are declared by attributes: how declarations are read,
  and how a request finds its method.
- `src/new_rpc.rs`: a server that answers line by line.
- `src/electrum/`, `src/server.rs`, `src/signals.rs`: the Electrum protocol and its server.
- `src/text.rs`, `src/sequences.rs`: what the others build on.
- `tests/`: the library at work on given values.
- `app/`: asynchronous streams, code generation and the server loop around the library.

## What is trusted

The functions of `serde_json`, `bitcoin`, `syn`, `proc-macro2` and `std` that the library calls are
behind small wrappers, or have their contracts assumed; those contracts say what is believed of them.
Each has a doc comment that names the function. All else is proved.

## Laws

Besides the contracts, public proof functions state what holds across functions. Among them:

- what is written is read back (`message_round_trip`, and the contract of `encode_message`), and what
  was read is written back (`message_is_written_back`);
- what came of each call of a batch comes back at the index of the call
  (`batch_comes_back_in_order`), and of a single call to whoever waits for it (`call_comes_back`);
- the responses of a batch may come in any order (`batch_comes_in_any_order`);
- what is marked is declared and nothing else is (`every_marked_item_is_declared`,
  `nothing_else_is_declared`), and nothing else of the source is changed (the contract of
  `parse_item_impl`);
- a message is answered once (`message_is_answered_once`), and notifications never
  (`notifications_are_not_answered`);
- parameters by name do what the same parameters by position do (`by_name_is_by_position`,
  `notified_by_name_is_by_position`);
- a client is told of a tip once (`news_are_told_once`), and a subscription stays as it is
  (`subscriptions_stay`).
