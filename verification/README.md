# futures-state-stream

State streams: streams that, when they complete, hand back a state value.

- `src/` is the verified library. `poll.rs` holds the poll types (`Async`,
  `StreamEvent`); `state_stream.rs` the `StateStream` trait, whose `can_poll`
  says when a stream may be polled; `map.rs`, `filter.rs`, `collect.rs` and
  `into.rs` the combinators; `source.rs` the state machines of the streams built
  from an outside stream, a closure or a future; `laws.rs` the properties that
  span several of them. Every combinator answers one poll of the stream below it
  through an `on_event` function with an exact contract, and each `poll` states,
  through `poll_gives`, that its answer is that of the stream's own poll.
- `app/` connects the library to the `futures` crate: the `Future` and `Stream`
  impls, the polling of outside futures and streams, and the loops that poll again
  until a filter keeps an item or the stream ends.
