use vstd::prelude::*;
use crate::poll::{continues, Async, Poll, StatePoll, StreamEvent};
use crate::state_stream::StateStream;

verus! {

/// What a state stream made from a plain stream yields when the plain stream gave
/// `r`: an item for an item; at the end (`None`) the state; an error paired with the
/// state.
pub open spec fn from_stream_event<I, E, T>(r: Poll<Option<I>, E>, state: T) -> StatePoll<I, T, E> {
    match r {
        Ok(Async::Ready(Some(i))) => Ok(Async::Ready(StreamEvent::Next(i))),
        Ok(Async::Ready(None)) => Ok(Async::Ready(StreamEvent::Done(state))),
        Ok(Async::NotReady) => Ok(Async::NotReady),
        Err(e) => Err((e, state)),
    }
}

/// The plain stream's poll `r` ends it: it gave `None` or an error.
pub open spec fn ends_plain<I, E>(r: Poll<Option<I>, E>) -> bool {
    r matches Ok(Async::Ready(None)) || r is Err
}

/// A `StateStream` yielding elements of a normal `Stream`.
pub struct FromStream<S, T> {
    stream: S,
    state: Option<T>,
}

impl<S, T> FromStream<S, T> {
    /// The plain stream.
    pub closed spec fn inner(&self) -> S {
        self.stream
    }

    /// The state, until it has been handed out.
    pub closed spec fn state(&self) -> Option<T> {
        self.state
    }

    /// A state stream yielding the items of `stream`, then `state`.
    pub fn new(stream: S, state: T) -> (r: Self)
        ensures
            r.inner() == stream,
            r.state() == Some(state),
    {
        FromStream { stream, state: Some(state) }
    }

    /// The plain stream, to be polled.
    pub fn inner_mut(&mut self) -> (r: &mut S)
        ensures
            *r == old(self).inner(),
            final(self).inner() == *final(r),
            final(self).state() == old(self).state(),
    {
        &mut self.stream
    }

    /// The state has not been handed out yet.
    pub fn has_state(&self) -> (r: bool)
        ensures
            r == self.state() is Some,
    {
        self.state.is_some()
    }

    /// Answers the poll `r` of the plain stream. The state is handed out, with the
    /// end or with an error, once.
    pub fn on_stream_poll<I, E>(&mut self, r: Poll<Option<I>, E>) -> (out: StatePoll<I, T, E>)
        requires
            ends_plain(r) ==> old(self).state() is Some,
        ensures
            out == from_stream_event(r, old(self).state()->Some_0),
            final(self).inner() == old(self).inner(),
            final(self).state() == if ends_plain(r) {
                None
            } else {
                old(self).state()
            },
    {
        match r {
            Ok(Async::Ready(Some(i))) => Ok(Async::Ready(StreamEvent::Next(i))),
            Ok(Async::Ready(None)) => Ok(Async::Ready(StreamEvent::Done(self.state.take().unwrap()))),
            Ok(Async::NotReady) => Ok(Async::NotReady),
            Err(e) => Err((e, self.state.take().unwrap())),
        }
    }
}

/// Where an unfolding stream stands.
pub enum UnfoldState<T, G> {
    /// Finished, or between taking the value and storing its future.
    Empty,
    /// Holding the value that the closure is applied to next.
    Ready(T),
    /// Waiting on the future of the next step.
    Processing(G),
}

/// What an unfolding stream yields when the future of a step resolved as `r`: the
/// item of an item-and-value pair, else the end or the error.
pub open spec fn unfold_answer<It, T, St, E>(r: Poll<StreamEvent<(It, T), St>, (E, St)>) -> StatePoll<
    It,
    St,
    E,
> {
    match r {
        Ok(Async::Ready(StreamEvent::Next((i, _)))) => Ok(Async::Ready(StreamEvent::Next(i))),
        Ok(Async::Ready(StreamEvent::Done(s))) => Ok(Async::Ready(StreamEvent::Done(s))),
        Ok(Async::NotReady) => Ok(Async::NotReady),
        Err(e) => Err(e),
    }
}

/// Where an unfolding stream stands after the future of a step, held in `state`,
/// resolved as `r`: ready with the new value after an item, still waiting while not
/// ready, finished otherwise.
pub open spec fn unfold_after<It, T, St, E, G>(
    state: UnfoldState<T, G>,
    r: Poll<StreamEvent<(It, T), St>, (E, St)>,
) -> UnfoldState<T, G> {
    match r {
        Ok(Async::Ready(StreamEvent::Next((_, t)))) => UnfoldState::Ready(t),
        Ok(Async::NotReady) => state,
        _ => UnfoldState::Empty,
    }
}

/// A stream which iteratively applies a closure to state to produce items.
pub struct Unfold<T, F, G> {
    state: UnfoldState<T, G>,
    f: F,
}

impl<T, F, G> Unfold<T, F, G> {
    /// Where the stream stands.
    pub closed spec fn stage(&self) -> UnfoldState<T, G> {
        self.state
    }

    /// The closure applied to each value.
    pub closed spec fn closure(&self) -> F {
        self.f
    }

    /// A stream that applies `f` to `init`, then to each value that a step yields.
    pub fn new(init: T, f: F) -> (r: Self)
        ensures
            r.stage() == UnfoldState::<T, G>::Ready(init),
            r.closure() == f,
    {
        Unfold { state: UnfoldState::Ready(init), f }
    }

    /// The stream has finished.
    pub fn is_finished(&self) -> (r: bool)
        ensures
            r == self.stage() is Empty,
    {
        match self.state {
            UnfoldState::Empty => true,
            _ => false,
        }
    }

    /// Stores the future of the step just begun.
    pub fn begin_processing(&mut self, fut: G)
        requires
            old(self).stage() is Empty,
        ensures
            final(self).stage() == UnfoldState::<T, G>::Processing(fut),
            final(self).closure() == old(self).closure(),
    {
        self.state = UnfoldState::Processing(fut);
    }

    /// The future of the current step, to be polled.
    pub fn future_mut(&mut self) -> (r: &mut G)
        requires
            old(self).stage() is Processing,
        ensures
            *r == old(self).stage()->Processing_0,
            final(self).stage() == UnfoldState::<T, G>::Processing(*final(r)),
            final(self).closure() == old(self).closure(),
    {
        match &mut self.state {
            UnfoldState::Processing(fut) => fut,
            _ => vstd::pervasive::unreached(),
        }
    }

    /// Answers the resolution `r` of the current step's future.
    pub fn on_future_poll<It, St, E>(&mut self, r: Poll<StreamEvent<(It, T), St>, (E, St)>) -> (out:
        StatePoll<It, St, E>)
        requires
            old(self).stage() is Processing,
        ensures
            out == unfold_answer(r),
            final(self).stage() == unfold_after(old(self).stage(), r),
            r matches Ok(Async::NotReady) ==> final(self).stage() == old(self).stage(),
            final(self).closure() == old(self).closure(),
    {
        match r {
            Ok(Async::Ready(StreamEvent::Next((i, t)))) => {
                self.state = UnfoldState::Ready(t);
                Ok(Async::Ready(StreamEvent::Next(i)))
            },
            Ok(Async::Ready(StreamEvent::Done(s))) => {
                self.state = UnfoldState::Empty;
                Ok(Async::Ready(StreamEvent::Done(s)))
            },
            Ok(Async::NotReady) => Ok(Async::NotReady),
            Err(e) => {
                self.state = UnfoldState::Empty;
                Err(e)
            },
        }
    }
}

impl<T, F, G, Fut> Unfold<T, F, G> where F: FnMut(T) -> Fut {
    /// Begins a step where the stream holds a value: applies the closure to it and
    /// returns what the closure returned, leaving the stream waiting for that
    /// step's future. Returns `None` while a step is already in progress.
    pub fn start(&mut self) -> (r: Option<Fut>)
        requires
            !(old(self).stage() is Empty),
            old(self).stage() is Ready ==> call_requires(
                old(self).closure(),
                (old(self).stage()->Ready_0,),
            ),
        ensures
            final(self).closure() == old(self).closure(),
            old(self).stage() is Ready ==> {
                &&& r is Some
                &&& call_ensures(old(self).closure(), (old(self).stage()->Ready_0,), r->Some_0)
                &&& final(self).stage() is Empty
            },
            old(self).stage() is Processing ==> r is None && final(self).stage() == old(self).stage(),
    {
        match &self.state {
            UnfoldState::Processing(_) => None,
            _ => {
                let mut taken = UnfoldState::Empty;
                std::mem::swap(&mut taken, &mut self.state);
                match taken {
                    UnfoldState::Ready(t) => Some((self.f)(t)),
                    _ => vstd::pervasive::unreached(),
                }
            },
        }
    }
}

/// Where a flattening stream stands.
pub enum FlattenState<F, S> {
    /// Waiting on the future of the stream.
    Future(F),
    /// Streaming the stream that the future resolved to.
    Stream(S),
}

/// A stream which evaluates a future and then the stream returned by it.
pub struct FlattenStateStream<F, S>(FlattenState<F, S>);

/// What a flattening stream answers when its future resolved as `r`: `None` when the
/// future gave the stream, which is then polled; else `NotReady` or the error.
pub open spec fn flatten_answer<S, I, St, E>(r: Poll<S, (E, St)>) -> Option<StatePoll<I, St, E>> {
    match r {
        Ok(Async::NotReady) => Some(Ok(Async::NotReady)),
        Ok(Async::Ready(_)) => None,
        Err(e) => Some(Err(e)),
    }
}

impl<F, S> FlattenStateStream<F, S> {
    /// Where the stream stands.
    pub closed spec fn stage(&self) -> FlattenState<F, S> {
        self.0
    }

    /// A stream that evaluates `fut`, then the stream it resolves to.
    pub fn new(fut: F) -> (r: Self)
        ensures
            r.stage() == FlattenState::<F, S>::Future(fut),
    {
        FlattenStateStream(FlattenState::Future(fut))
    }

    /// The stream still waits on its future.
    pub fn is_future(&self) -> (r: bool)
        ensures
            r == self.stage() is Future,
    {
        match self.0 {
            FlattenState::Future(_) => true,
            FlattenState::Stream(_) => false,
        }
    }

    /// The future, to be polled.
    pub fn future_mut(&mut self) -> (r: &mut F)
        requires
            old(self).stage() is Future,
        ensures
            *r == old(self).stage()->Future_0,
            final(self).stage() == FlattenState::<F, S>::Future(*final(r)),
    {
        match &mut self.0 {
            FlattenState::Future(f) => f,
            FlattenState::Stream(_) => vstd::pervasive::unreached(),
        }
    }
}

impl<F, S: StateStream> FlattenStateStream<F, S> {
    /// Answers the resolution `r` of the future: once it gives the stream, the
    /// stream is kept and `None` says that it is to be polled.
    pub fn on_future_poll(&mut self, r: Poll<S, (S::Error, S::State)>) -> (out: Option<
        StatePoll<S::Item, S::State, S::Error>,
    >)
        requires
            old(self).stage() is Future,
        ensures
            out == flatten_answer::<S, S::Item, S::State, S::Error>(r),
            final(self).stage() == match r {
                Ok(Async::Ready(s)) => FlattenState::<F, S>::Stream(s),
                _ => old(self).stage(),
            },
    {
        match r {
            Ok(Async::NotReady) => Some(Ok(Async::NotReady)),
            Ok(Async::Ready(s)) => {
                self.0 = FlattenState::Stream(s);
                None
            },
            Err(e) => Some(Err(e)),
        }
    }

    /// Polls the stream that the future resolved to.
    pub fn poll_stream(&mut self) -> (r: StatePoll<S::Item, S::State, S::Error>)
        requires
            old(self).stage() is Stream,
            old(self).stage()->Stream_0.can_poll(),
        ensures
            final(self).stage() is Stream,
            continues(r) ==> final(self).stage()->Stream_0.can_poll(),
            old(self).stage()->Stream_0.poll_gives(&final(self).stage()->Stream_0, r),
    {
        match &mut self.0 {
            FlattenState::Stream(s) => s.poll(),
            FlattenState::Future(_) => vstd::pervasive::unreached(),
        }
    }
}

} // verus!
