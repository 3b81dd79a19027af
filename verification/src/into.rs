use vstd::prelude::*;
use crate::poll::{continues, Async, Poll, StatePoll, StreamEvent};
use crate::state_stream::StateStream;

verus! {

/// What a plain stream yields for the event `ev` of a state stream: an item for an
/// item, the end (`None`) for `Done`, whose state is discarded, and the error alone
/// for an error.
pub open spec fn item_of_event<I, S, E>(ev: StatePoll<I, S, E>) -> Poll<Option<I>, E> {
    match ev {
        Ok(Async::Ready(StreamEvent::Next(i))) => Ok(Async::Ready(Some(i))),
        Ok(Async::Ready(StreamEvent::Done(_))) => Ok(Async::Ready(None)),
        Ok(Async::NotReady) => Ok(Async::NotReady),
        Err((e, _)) => Err(e),
    }
}

/// A `Stream` yielding the elements of a `StateStream` and discarding its state.
pub struct IntoStream<S>(S);

impl<S> IntoStream<S> {
    /// The underlying state stream.
    pub closed spec fn inner(&self) -> S {
        self.0
    }

    /// A plain stream over the items of `stream`.
    pub fn new(stream: S) -> (r: Self)
        ensures
            r.inner() == stream,
    {
        IntoStream(stream)
    }
}

impl<S: StateStream> IntoStream<S> {
    /// Answers the event `ev` that the underlying stream gave.
    pub fn on_event(ev: StatePoll<S::Item, S::State, S::Error>) -> (r: Poll<Option<S::Item>, S::Error>)
        ensures
            r == item_of_event(ev),
    {
        match ev {
            Ok(Async::Ready(StreamEvent::Next(i))) => Ok(Async::Ready(Some(i))),
            Ok(Async::Ready(StreamEvent::Done(_))) => Ok(Async::Ready(None)),
            Ok(Async::NotReady) => Ok(Async::NotReady),
            Err((e, _)) => Err(e),
        }
    }

    /// Similar to `Stream::poll`: the next item, `None` at the end, or the error.
    pub fn poll(&mut self) -> (r: Poll<Option<S::Item>, S::Error>)
        requires
            old(self).inner().can_poll(),
        ensures
            (r matches Ok(Async::NotReady) || r matches Ok(Async::Ready(Some(_))))
                ==> final(self).inner().can_poll(),
            exists|ev: StatePoll<S::Item, S::State, S::Error>|
                #[trigger] old(self).inner().poll_gives(&final(self).inner(), ev) && r
                    == item_of_event(ev),
    {
        let ev = self.0.poll();
        let r = Self::on_event(ev);
        assert(old(self).inner().poll_gives(&self.inner(), ev) && r == item_of_event(ev));
        r
    }
}

/// What the future of the next element resolves to when the stream gave `ev` and is
/// `stream` afterwards: `None` while the stream is not ready (the future keeps the
/// stream), else the event or the error, each handed back with the stream.
pub open spec fn next_of_event<I, T, E, S>(ev: StatePoll<I, T, E>, stream: S) -> Poll<
    (StreamEvent<I, T>, S),
    (E, T, S),
> {
    match ev {
        Ok(Async::NotReady) => Ok(Async::NotReady),
        Ok(Async::Ready(i)) => Ok(Async::Ready((i, stream))),
        Err((e, s)) => Err((e, s, stream)),
    }
}

/// A future yielding the next element of a stream.
pub struct IntoFuture<S>(Option<S>);

impl<S> IntoFuture<S> {
    /// The stream, until the future has resolved.
    pub closed spec fn inner(&self) -> Option<S> {
        self.0
    }

    /// A future of the next element of `stream`.
    pub fn new(stream: S) -> (r: Self)
        ensures
            r.inner() == Some(stream),
    {
        IntoFuture(Some(stream))
    }

    /// The future still holds the stream: it has not resolved yet.
    pub fn has_stream(&self) -> (r: bool)
        ensures
            r == self.inner() is Some,
    {
        self.0.is_some()
    }
}

impl<S: StateStream> IntoFuture<S> {
    /// Answers the event `ev` that the stream gave: on any event but `NotReady` the
    /// future resolves and hands the stream back.
    pub fn on_event(&mut self, ev: StatePoll<S::Item, S::State, S::Error>) -> (r: Poll<
        (StreamEvent<S::Item, S::State>, S),
        (S::Error, S::State, S),
    >)
        requires
            old(self).inner() is Some,
        ensures
            r == next_of_event(ev, old(self).inner()->Some_0),
            final(self).inner() == if ev matches Ok(Async::NotReady) {
                old(self).inner()
            } else {
                None
            },
    {
        match ev {
            Ok(Async::NotReady) => Ok(Async::NotReady),
            Ok(Async::Ready(i)) => {
                let stream = self.0.take().unwrap();
                Ok(Async::Ready((i, stream)))
            },
            Err((e, s)) => {
                let stream = self.0.take().unwrap();
                Err((e, s, stream))
            },
        }
    }

    /// Similar to `Future::poll`. The future may be polled until it resolves.
    pub fn poll(&mut self) -> (r: Poll<(StreamEvent<S::Item, S::State>, S), (S::Error, S::State, S)>)
        requires
            old(self).inner() is Some,
            old(self).inner()->Some_0.can_poll(),
        ensures
            r matches Ok(Async::NotReady) ==> final(self).inner()->Some_0.can_poll(),
            exists|ev: StatePoll<S::Item, S::State, S::Error>, stream: S|
                #[trigger] old(self).inner()->Some_0.poll_gives(&stream, ev) && r
                    == next_of_event(ev, stream) && final(self).inner() == if r matches Ok(
                    Async::NotReady,
                ) {
                    Some(stream)
                } else {
                    None
                },
    {
        let mut stream = self.0.take().unwrap();
        let ev = stream.poll();
        let ghost polled = stream;
        self.0 = Some(stream);
        let r = self.on_event(ev);
        assert(old(self).inner()->Some_0.poll_gives(&polled, ev) && r == next_of_event(ev, polled));
        r
    }
}

} // verus!
