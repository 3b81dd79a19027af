use vstd::prelude::*;
use crate::poll::{continues, ending_state, Async, StatePoll, StreamEvent};
use crate::state_stream::StateStream;

verus! {

/// `r` is what a stream mapping its items through `f` answers when the underlying
/// stream gave `ev`: an item `i` becomes an item that `f` returns for `i`; the
/// end, `NotReady` and errors pass through unchanged.
pub open spec fn mapped_items<I, B, S, E, F: FnMut(I) -> B>(
    f: F,
    ev: StatePoll<I, S, E>,
    r: StatePoll<B, S, E>,
) -> bool {
    match ev {
        Ok(Async::Ready(StreamEvent::Next(i))) => {
            &&& r matches Ok(Async::Ready(StreamEvent::Next(b)))
            &&& call_ensures(f, (i,), r->Ok_0->Ready_0->Next_0)
        },
        Ok(Async::Ready(StreamEvent::Done(s))) => r == Ok::<Async<StreamEvent<B, S>>, (E, S)>(
            Async::Ready(StreamEvent::Done(s)),
        ),
        Ok(Async::NotReady) => r == Ok::<Async<StreamEvent<B, S>>, (E, S)>(Async::NotReady),
        Err(e) => r == Err::<Async<StreamEvent<B, S>>, (E, S)>(e),
    }
}

/// A stream which applies a transform to the elements of a stream.
pub struct MapItems<S, F> {
    stream: S,
    f: F,
}

impl<S, F> MapItems<S, F> {
    /// The underlying stream.
    pub closed spec fn inner(&self) -> S {
        self.stream
    }

    /// The transform applied to items.
    pub closed spec fn closure(&self) -> F {
        self.f
    }

    /// A stream which applies `f` to the items of `stream`.
    pub fn new(stream: S, f: F) -> (r: Self)
        ensures
            r.inner() == stream,
            r.closure() == f,
    {
        MapItems { stream, f }
    }
}

impl<S, F, B> MapItems<S, F> where S: StateStream, F: FnMut(S::Item) -> B {
    /// Answers the event `ev` that the underlying stream gave.
    pub fn on_event(&mut self, ev: StatePoll<S::Item, S::State, S::Error>) -> (r: StatePoll<
        B,
        S::State,
        S::Error,
    >)
        requires
            ev matches Ok(Async::Ready(StreamEvent::Next(i))) ==> call_requires(old(self).closure(), (i,)),
        ensures
            *final(self) == *old(self),
            mapped_items(old(self).closure(), ev, r),
    {
        match ev {
            Ok(Async::Ready(StreamEvent::Next(i))) => Ok(Async::Ready(StreamEvent::Next((self.f)(i)))),
            Ok(Async::Ready(StreamEvent::Done(s))) => Ok(Async::Ready(StreamEvent::Done(s))),
            Ok(Async::NotReady) => Ok(Async::NotReady),
            Err(e) => Err(e),
        }
    }
}

impl<S, F, B> StateStream for MapItems<S, F> where S: StateStream, F: FnMut(S::Item) -> B {
    type Item = B;
    type State = S::State;
    type Error = S::Error;

    open spec fn can_poll(&self) -> bool {
        &&& self.inner().can_poll()
        &&& forall|i: S::Item| call_requires(self.closure(), (i,))
    }

    /// A poll polls the underlying stream once, keeps the transform, and answers
    /// the inner poll's event mapped as `mapped_items` says.
    open spec fn poll_gives(&self, after: &Self, r: StatePoll<B, S::State, S::Error>) -> bool {
        &&& after.closure() == self.closure()
        &&& exists|ev: StatePoll<S::Item, S::State, S::Error>|
            #[trigger] self.inner().poll_gives(&after.inner(), ev) && mapped_items(
                self.closure(),
                ev,
                r,
            )
    }

    fn poll(&mut self) -> (r: StatePoll<B, S::State, S::Error>) {
        let ev = self.stream.poll();
        proof {
            if ev is Ok && ev->Ok_0 is Ready && ev->Ok_0->Ready_0 is Next {
                let i = ev->Ok_0->Ready_0->Next_0;
                assert(call_requires(old(self).closure(), (i,)));
            }
        }
        let ghost polled = self.inner();
        let r = self.on_event(ev);
        assert(old(self).inner().poll_gives(&polled, ev) && mapped_items(old(self).closure(), ev, r));
        r
    }
}

/// `r` is what a stream mapping its errors through `f` answers when the underlying
/// stream gave `ev`: an error `e` paired with state `s` becomes an error that `f`
/// returns for `e`, paired with the same `s`; every other poll passes through.
pub open spec fn mapped_errors<I, S, E, B, F: FnMut(E) -> B>(
    f: F,
    ev: StatePoll<I, S, E>,
    r: StatePoll<I, S, B>,
) -> bool {
    match ev {
        Ok(a) => r == Ok::<Async<StreamEvent<I, S>>, (B, S)>(a),
        Err((e, s)) => {
            &&& r is Err
            &&& r->Err_0.1 == s
            &&& call_ensures(f, (e,), r->Err_0.0)
        },
    }
}

/// A stream which applies a transform to the errors of a stream.
pub struct MapErr<S, F> {
    stream: S,
    f: F,
}

impl<S, F> MapErr<S, F> {
    /// The underlying stream.
    pub closed spec fn inner(&self) -> S {
        self.stream
    }

    /// The transform applied to errors.
    pub closed spec fn closure(&self) -> F {
        self.f
    }

    /// A stream which applies `f` to the errors of `stream`.
    pub fn new(stream: S, f: F) -> (r: Self)
        ensures
            r.inner() == stream,
            r.closure() == f,
    {
        MapErr { stream, f }
    }
}

impl<S, F, B> MapErr<S, F> where S: StateStream, F: FnMut(S::Error) -> B {
    /// Answers the event `ev` that the underlying stream gave.
    pub fn on_event(&mut self, ev: StatePoll<S::Item, S::State, S::Error>) -> (r: StatePoll<
        S::Item,
        S::State,
        B,
    >)
        requires
            ev is Err ==> call_requires(old(self).closure(), (ev->Err_0.0,)),
        ensures
            *final(self) == *old(self),
            mapped_errors(old(self).closure(), ev, r),
    {
        match ev {
            Ok(a) => Ok(a),
            Err((e, s)) => Err(((self.f)(e), s)),
        }
    }
}

impl<S, F, B> StateStream for MapErr<S, F> where S: StateStream, F: FnMut(S::Error) -> B {
    type Item = S::Item;
    type State = S::State;
    type Error = B;

    open spec fn can_poll(&self) -> bool {
        &&& self.inner().can_poll()
        &&& forall|e: S::Error| call_requires(self.closure(), (e,))
    }

    /// A poll polls the underlying stream once, keeps the transform, and answers
    /// the inner poll's event mapped as `mapped_errors` says.
    open spec fn poll_gives(&self, after: &Self, r: StatePoll<S::Item, S::State, B>) -> bool {
        &&& after.closure() == self.closure()
        &&& exists|ev: StatePoll<S::Item, S::State, S::Error>|
            #[trigger] self.inner().poll_gives(&after.inner(), ev) && mapped_errors(
                self.closure(),
                ev,
                r,
            )
    }

    fn poll(&mut self) -> (r: StatePoll<S::Item, S::State, B>) {
        let ev = self.stream.poll();
        proof {
            if ev is Err {
                let e = ev->Err_0.0;
                assert(call_requires(old(self).closure(), (e,)));
            }
        }
        let ghost polled = self.inner();
        let r = self.on_event(ev);
        assert(old(self).inner().poll_gives(&polled, ev) && mapped_errors(old(self).closure(), ev, r));
        r
    }
}

/// `r` is what a stream mapping its state through `f` answers when the underlying
/// stream gave `ev`: the state `s` of `Done`, or the one paired with an error,
/// becomes a state that `f` returns for `s`; items and `NotReady` pass through.
pub open spec fn mapped_state<I, S, E, B, F: FnOnce(S) -> B>(
    f: F,
    ev: StatePoll<I, S, E>,
    r: StatePoll<I, B, E>,
) -> bool {
    match ev {
        Ok(Async::Ready(StreamEvent::Next(i))) => r == Ok::<Async<StreamEvent<I, B>>, (E, B)>(
            Async::Ready(StreamEvent::Next(i)),
        ),
        Ok(Async::Ready(StreamEvent::Done(s))) => {
            &&& r matches Ok(Async::Ready(StreamEvent::Done(b)))
            &&& call_ensures(f, (s,), r->Ok_0->Ready_0->Done_0)
        },
        Ok(Async::NotReady) => r == Ok::<Async<StreamEvent<I, B>>, (E, B)>(Async::NotReady),
        Err((e, s)) => {
            &&& r is Err
            &&& r->Err_0.0 == e
            &&& call_ensures(f, (s,), r->Err_0.1)
        },
    }
}

/// A stream which applies a transform to the state of a stream.
pub struct MapState<S, F> {
    stream: S,
    f: Option<F>,
}

impl<S, F> MapState<S, F> {
    /// The underlying stream.
    pub closed spec fn inner(&self) -> S {
        self.stream
    }

    /// The transform applied to the state, until the stream has ended.
    pub closed spec fn closure(&self) -> Option<F> {
        self.f
    }

    /// A stream which applies `f` to the state of `stream`.
    pub fn new(stream: S, f: F) -> (r: Self)
        ensures
            r.inner() == stream,
            r.closure() == Some(f),
    {
        MapState { stream, f: Some(f) }
    }
}

impl<S, F, B> MapState<S, F> where S: StateStream, F: FnOnce(S::State) -> B {
    /// Answers the event `ev` that the underlying stream gave. The transform is
    /// used up by an ending event.
    pub fn on_event(&mut self, ev: StatePoll<S::Item, S::State, S::Error>) -> (r: StatePoll<
        S::Item,
        B,
        S::Error,
    >)
        requires
            old(self).closure() is Some,
            ending_state(ev) is Some ==> call_requires(
                old(self).closure()->Some_0,
                (ending_state(ev)->Some_0,),
            ),
        ensures
            final(self).inner() == old(self).inner(),
            final(self).closure() == if continues(ev) {
                old(self).closure()
            } else {
                None
            },
            mapped_state(old(self).closure()->Some_0, ev, r),
    {
        match ev {
            Ok(Async::Ready(StreamEvent::Next(i))) => Ok(Async::Ready(StreamEvent::Next(i))),
            Ok(Async::Ready(StreamEvent::Done(s))) => {
                let f = self.f.take().unwrap();
                Ok(Async::Ready(StreamEvent::Done(f(s))))
            },
            Ok(Async::NotReady) => Ok(Async::NotReady),
            Err((e, s)) => {
                let f = self.f.take().unwrap();
                Err((e, f(s)))
            },
        }
    }
}

impl<S, F, B> StateStream for MapState<S, F> where S: StateStream, F: FnOnce(S::State) -> B {
    type Item = S::Item;
    type State = B;
    type Error = S::Error;

    open spec fn can_poll(&self) -> bool {
        &&& self.inner().can_poll()
        &&& self.closure() is Some
        &&& forall|s: S::State| call_requires(self.closure()->Some_0, (s,))
    }

    /// A poll polls the underlying stream once and answers the inner poll's event
    /// mapped as `mapped_state` says; an ending answer uses the transform up.
    open spec fn poll_gives(&self, after: &Self, r: StatePoll<S::Item, B, S::Error>) -> bool {
        &&& after.closure() == if continues(r) {
            self.closure()
        } else {
            None
        }
        &&& exists|ev: StatePoll<S::Item, S::State, S::Error>|
            #[trigger] self.inner().poll_gives(&after.inner(), ev) && mapped_state(
                self.closure()->Some_0,
                ev,
                r,
            )
    }

    fn poll(&mut self) -> (r: StatePoll<S::Item, B, S::Error>) {
        let ev = self.stream.poll();
        proof {
            if ending_state(ev) is Some {
                let s = ending_state(ev)->Some_0;
                assert(call_requires(old(self).closure()->Some_0, (s,)));
            }
        }
        let ghost polled = self.inner();
        let r = self.on_event(ev);
        assert(old(self).inner().poll_gives(&polled, ev) && mapped_state(
            old(self).closure()->Some_0,
            ev,
            r,
        ));
        r
    }
}

} // verus!
