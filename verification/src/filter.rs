use vstd::prelude::*;
use crate::poll::{is_item, item_of, Async, StatePoll, StreamEvent};
use crate::state_stream::StateStream;

verus! {

/// `r` is what a stream filtering its items by the predicate `f` answers for the poll
/// `ev` of the underlying stream: an item is kept (`Some(ev)`) exactly when `f`
/// returns `true` for it, and dropped (`None`, the stream is to be polled again)
/// when it returns `false`; any other poll passes through.
pub open spec fn filtered<I, S, E, F: FnMut(&I) -> bool>(
    f: F,
    ev: StatePoll<I, S, E>,
    r: Option<StatePoll<I, S, E>>,
) -> bool {
    if is_item(ev) {
        &&& (r is None || r == Some(ev))
        &&& call_ensures(f, (&item_of(ev),), r is Some)
    } else {
        r == Some(ev)
    }
}

/// A stream which applies a filter to the items of a stream.
pub struct Filter<S, F> {
    stream: S,
    f: F,
}

impl<S, F> Filter<S, F> {
    /// The underlying stream.
    pub closed spec fn inner(&self) -> S {
        self.stream
    }

    /// The predicate.
    pub closed spec fn closure(&self) -> F {
        self.f
    }

    /// A stream of the items of `stream` for which `f` returns `true`.
    pub fn new(stream: S, f: F) -> (r: Self)
        ensures
            r.inner() == stream,
            r.closure() == f,
    {
        Filter { stream, f }
    }
}

impl<S, F> Filter<S, F> where S: StateStream, F: FnMut(&S::Item) -> bool {
    /// Answers the poll `ev` of the underlying stream: `None` where the item is
    /// dropped and the stream is to be polled again.
    pub fn on_event(&mut self, ev: StatePoll<S::Item, S::State, S::Error>) -> (r: Option<
        StatePoll<S::Item, S::State, S::Error>,
    >)
        requires
            is_item(ev) ==> call_requires(old(self).closure(), (&item_of(ev),)),
        ensures
            *final(self) == *old(self),
            filtered(old(self).closure(), ev, r),
    {
        match ev {
            Ok(Async::Ready(StreamEvent::Next(i))) => {
                if (self.f)(&i) {
                    Some(Ok(Async::Ready(StreamEvent::Next(i))))
                } else {
                    None
                }
            },
            other => Some(other),
        }
    }

    /// Polls the underlying stream once and answers its poll as `on_event` does.
    /// Polling again after `None` continues the search for a kept item.
    pub fn poll_step(&mut self) -> (r: Option<StatePoll<S::Item, S::State, S::Error>>)
        requires
            old(self).inner().can_poll(),
            forall|i: S::Item| call_requires(old(self).closure(), (&i,)),
        ensures
            final(self).closure() == old(self).closure(),
            r is None ==> final(self).inner().can_poll(),
            exists|ev: StatePoll<S::Item, S::State, S::Error>|
                #[trigger] old(self).inner().poll_gives(&final(self).inner(), ev) && filtered(
                    old(self).closure(),
                    ev,
                    r,
                ),
    {
        let ev = self.stream.poll();
        proof {
            if is_item(ev) {
                let i = item_of(ev);
                assert(call_requires(old(self).closure(), (&i,)));
            }
        }
        let ghost polled = self.inner();
        let r = self.on_event(ev);
        assert(old(self).inner().poll_gives(&polled, ev) && filtered(old(self).closure(), ev, r));
        r
    }
}

/// `r` is what a stream filtering and transforming its items by `f` answers for the
/// poll `ev` of the underlying stream: an item becomes the item `b` where `f`
/// returns `Some(b)`, and is dropped (`None`) where `f` returns `None`; any other
/// poll passes through.
pub open spec fn filter_mapped<I, B, S, E, F: FnMut(I) -> Option<B>>(
    f: F,
    ev: StatePoll<I, S, E>,
    r: Option<StatePoll<B, S, E>>,
) -> bool {
    match ev {
        Ok(Async::Ready(StreamEvent::Next(i))) => match r {
            None => call_ensures(f, (i,), None::<B>),
            Some(Ok(Async::Ready(StreamEvent::Next(b)))) => call_ensures(f, (i,), Some(b)),
            _ => false,
        },
        Ok(Async::Ready(StreamEvent::Done(s))) => r == Some(
            Ok::<Async<StreamEvent<B, S>>, (E, S)>(Async::Ready(StreamEvent::Done(s))),
        ),
        Ok(Async::NotReady) => r == Some(Ok::<Async<StreamEvent<B, S>>, (E, S)>(Async::NotReady)),
        Err(e) => r == Some(Err::<Async<StreamEvent<B, S>>, (E, S)>(e)),
    }
}

/// A stream which applies a filter and transform to items of a stream.
pub struct FilterMap<S, F> {
    stream: S,
    f: F,
}

impl<S, F> FilterMap<S, F> {
    /// The underlying stream.
    pub closed spec fn inner(&self) -> S {
        self.stream
    }

    /// The filtering transform.
    pub closed spec fn closure(&self) -> F {
        self.f
    }

    /// A stream of the values `b` for which `f` returns `Some(b)` on the items of `stream`.
    pub fn new(stream: S, f: F) -> (r: Self)
        ensures
            r.inner() == stream,
            r.closure() == f,
    {
        FilterMap { stream, f }
    }
}

impl<S, F, B> FilterMap<S, F> where S: StateStream, F: FnMut(S::Item) -> Option<B> {
    /// Answers the poll `ev` of the underlying stream: `None` where the item is
    /// dropped and the stream is to be polled again.
    pub fn on_event(&mut self, ev: StatePoll<S::Item, S::State, S::Error>) -> (r: Option<
        StatePoll<B, S::State, S::Error>,
    >)
        requires
            is_item(ev) ==> call_requires(old(self).closure(), (item_of(ev),)),
        ensures
            *final(self) == *old(self),
            filter_mapped(old(self).closure(), ev, r),
    {
        match ev {
            Ok(Async::Ready(StreamEvent::Next(i))) => match (self.f)(i) {
                Some(b) => Some(Ok(Async::Ready(StreamEvent::Next(b)))),
                None => None,
            },
            Ok(Async::Ready(StreamEvent::Done(s))) => Some(Ok(Async::Ready(StreamEvent::Done(s)))),
            Ok(Async::NotReady) => Some(Ok(Async::NotReady)),
            Err(e) => Some(Err(e)),
        }
    }

    /// Polls the underlying stream once and answers its poll as `on_event` does.
    /// Polling again after `None` continues the search for a kept item.
    pub fn poll_step(&mut self) -> (r: Option<StatePoll<B, S::State, S::Error>>)
        requires
            old(self).inner().can_poll(),
            forall|i: S::Item| call_requires(old(self).closure(), (i,)),
        ensures
            final(self).closure() == old(self).closure(),
            r is None ==> final(self).inner().can_poll(),
            exists|ev: StatePoll<S::Item, S::State, S::Error>|
                #[trigger] old(self).inner().poll_gives(&final(self).inner(), ev) && filter_mapped(
                    old(self).closure(),
                    ev,
                    r,
                ),
    {
        let ev = self.stream.poll();
        proof {
            if is_item(ev) {
                let i = item_of(ev);
                assert(call_requires(old(self).closure(), (i,)));
            }
        }
        let ghost polled = self.inner();
        let r = self.on_event(ev);
        assert(old(self).inner().poll_gives(&polled, ev) && filter_mapped(old(self).closure(), ev, r));
        r
    }
}

} // verus!
