use vstd::prelude::*;

verus! {

/// The readiness of a value being computed asynchronously.
#[derive(Debug, PartialEq, Eq)]
pub enum Async<T> {
    /// The value is ready.
    Ready(T),
    /// The value is not ready yet; the current task will be woken when it may be.
    NotReady,
}

/// The result of polling an asynchronous computation: readiness, or an error.
pub type Poll<T, E> = Result<Async<T>, E>;

/// An event from a `StateStream`.
#[derive(Debug, PartialEq, Eq)]
pub enum StreamEvent<I, S> {
    /// The next item in the stream.
    Next(I),
    /// The state of the stream, returned when streaming has completed.
    Done(S),
}

/// What one poll of a `StateStream` gives: an event, or an error paired with the state.
pub type StatePoll<I, S, E> = Poll<StreamEvent<I, S>, (E, S)>;

/// The poll neither ended the stream nor failed: it yielded an item or was not ready.
pub open spec fn continues<I, S, E>(r: StatePoll<I, S, E>) -> bool {
    match r {
        Ok(Async::NotReady) => true,
        Ok(Async::Ready(StreamEvent::Next(_))) => true,
        _ => false,
    }
}

/// The state that an ending poll carries: that of `Done`, or the one paired with an error.
pub open spec fn ending_state<I, S, E>(r: StatePoll<I, S, E>) -> Option<S> {
    match r {
        Ok(Async::Ready(StreamEvent::Done(s))) => Some(s),
        Err((_, s)) => Some(s),
        _ => None,
    }
}

/// The poll yielded an item.
pub open spec fn is_item<I, S, E>(r: StatePoll<I, S, E>) -> bool {
    r matches Ok(Async::Ready(StreamEvent::Next(_)))
}

/// The item that a poll yielded, where it yielded one.
pub open spec fn item_of<I, S, E>(r: StatePoll<I, S, E>) -> I
    recommends
        is_item(r),
{
    r->Ok_0->Ready_0->Next_0
}

} // verus!
