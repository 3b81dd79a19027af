use vstd::prelude::*;
use crate::poll::{continues, is_item, item_of, Async, Poll, StatePoll, StreamEvent};
use crate::state_stream::StateStream;

verus! {

/// The items yielded by a sequence of polls, in order.
pub open spec fn items_of<I, S, E>(evs: Seq<StatePoll<I, S, E>>) -> Seq<I>
    decreases evs.len(),
{
    if evs.len() == 0 {
        Seq::empty()
    } else {
        let prefix = items_of(evs.drop_last());
        if is_item(evs.last()) {
            prefix.push(item_of(evs.last()))
        } else {
            prefix
        }
    }
}

/// A run of polls as one poll of a collecting future sees it: items, then one poll
/// that yields no item.
pub open spec fn is_run<I, S, E>(evs: Seq<StatePoll<I, S, E>>) -> bool {
    &&& evs.len() > 0
    &&& forall|k: int| 0 <= k < evs.len() - 1 ==> is_item(#[trigger] evs[k])
    &&& !is_item(evs.last())
}

/// The stream passed through `streams` in order, each poll `k` taking it from
/// `streams[k]` to `streams[k + 1]` and answering `evs[k]`.
pub open spec fn polls_through<S: StateStream>(
    streams: Seq<S>,
    evs: Seq<StatePoll<S::Item, S::State, S::Error>>,
) -> bool {
    &&& streams.len() == evs.len() + 1
    &&& forall|k: int| 0 <= k < evs.len() ==> #[trigger] streams[k].poll_gives(&streams[k + 1], evs[k])
}

/// What a collecting future resolves to, having gathered `items`, when the stream
/// gives the poll `last`, which yields no item: at the end, the items with the
/// state; else `NotReady` or the error.
pub open spec fn collect_outcome<I, S, E>(items: Seq<I>, last: StatePoll<I, S, E>) -> Poll<
    (Seq<I>, S),
    (E, S),
> {
    match last {
        Ok(Async::Ready(StreamEvent::Done(s))) => Ok(Async::Ready((items, s))),
        Ok(Async::Ready(StreamEvent::Next(_))) => Ok(Async::NotReady),
        Ok(Async::NotReady) => Ok(Async::NotReady),
        Err(e) => Err(e),
    }
}

/// A collecting future's answer, with its vector of items taken by its view.
pub open spec fn collect_view<I, S, E>(r: Poll<(Vec<I>, S), (E, S)>) -> Poll<(Seq<I>, S), (E, S)> {
    match r {
        Ok(Async::Ready((v, s))) => Ok(Async::Ready((v@, s))),
        Ok(Async::NotReady) => Ok(Async::NotReady),
        Err(e) => Err(e),
    }
}

/// A future which collects the items `I` of a stream.
pub struct Collect<S, I> {
    stream: S,
    items: Vec<I>,
}

impl<S, I> Collect<S, I> {
    /// The underlying stream.
    pub closed spec fn inner(&self) -> S {
        self.stream
    }

    /// The items gathered so far.
    pub closed spec fn items(&self) -> Seq<I> {
        self.items@
    }

    /// A future of all the items of `stream`, with its state.
    pub fn new(stream: S) -> (r: Self)
        ensures
            r.inner() == stream,
            r.items() == Seq::<I>::empty(),
    {
        Collect { stream, items: Vec::new() }
    }
}

impl<S: StateStream> Collect<S, S::Item> {

    /// Answers the event `ev` that the stream gave: `None` where it gathered an item
    /// and the stream is to be polled again, else the future's answer.
    pub fn on_event(&mut self, ev: StatePoll<S::Item, S::State, S::Error>) -> (r: Option<
        Poll<(Vec<S::Item>, S::State), (S::Error, S::State)>,
    >)
        ensures
            final(self).inner() == old(self).inner(),
            is_item(ev) ==> r is None && final(self).items() == old(self).items().push(item_of(ev)),
            !is_item(ev) ==> {
                &&& r is Some
                &&& collect_view(r->Some_0) == collect_outcome(old(self).items(), ev)
                &&& final(self).items() == if ev matches Ok(Async::Ready(StreamEvent::Done(_))) {
                    Seq::<S::Item>::empty()
                } else {
                    old(self).items()
                }
            },
    {
        match ev {
            Ok(Async::Ready(StreamEvent::Next(i))) => {
                self.items.push(i);
                None
            },
            Ok(Async::Ready(StreamEvent::Done(s))) => {
                let mut items = Vec::new();
                std::mem::swap(&mut items, &mut self.items);
                Some(Ok(Async::Ready((items, s))))
            },
            Ok(Async::NotReady) => Some(Ok(Async::NotReady)),
            Err(e) => Some(Err(e)),
        }
    }

    /// Similar to `Future::poll`: polls the stream until it ends, fails or is not
    /// ready, gathering the items it yields.
    pub fn poll(&mut self) -> (r: Poll<(Vec<S::Item>, S::State), (S::Error, S::State)>)
        requires
            old(self).inner().can_poll(),
        ensures
            r matches Ok(Async::NotReady) ==> final(self).inner().can_poll(),
            exists|evs: Seq<StatePoll<S::Item, S::State, S::Error>>, streams: Seq<S>|
                #[trigger] is_run(evs) && #[trigger] polls_through(streams, evs) && streams[0]
                    == old(self).inner() && streams.last() == final(self).inner() && {
                    let gathered = old(self).items() + items_of(evs);
                    &&& !is_item(evs.last())
                    &&& (r matches Ok(Async::NotReady) <==> evs.last() matches Ok(Async::NotReady))
                    &&& collect_view(r) == collect_outcome(gathered, evs.last())
                    &&& final(self).items() == if r matches Ok(Async::Ready(_)) {
                        Seq::<S::Item>::empty()
                    } else {
                        gathered
                    }
                },
    {
        let ghost mut evs: Seq<StatePoll<S::Item, S::State, S::Error>> = Seq::empty();
        let ghost mut streams: Seq<S> = seq![self.inner()];
        loop
            invariant
                self.inner().can_poll(),
                polls_through(streams, evs),
                streams[0] == old(self).inner(),
                streams.last() == self.inner(),
                forall|k: int| 0 <= k < evs.len() ==> is_item(#[trigger] evs[k]),
                self.items() == old(self).items() + items_of(evs),
            decreases usize::MAX - self.items.len(),
        {
            let ev = self.stream.poll();
            let ghost prev = evs;
            let ghost prev_streams = streams;
            proof {
                evs = evs.push(ev);
                streams = streams.push(self.inner());
                assert(evs.drop_last() =~= prev);
                assert forall|k: int| 0 <= k < evs.len() implies #[trigger] streams[k].poll_gives(
                    &streams[k + 1],
                    evs[k],
                ) by {
                    if k < prev.len() {
                        assert(streams[k] == prev_streams[k]);
                        assert(streams[k + 1] == prev_streams[k + 1]);
                    }
                }
            }
            match self.on_event(ev) {
                Some(r) => {
                    assert(is_run(evs));
                    assert(polls_through(streams, evs));
                    assert(streams.last() == self.inner());
                    assert(items_of(evs) == items_of(prev));
                    return r;
                },
                None => {
                    assert(self.items() =~= old(self).items() + items_of(evs));
                },
            }
        }
    }
}

/// A future which applies a closure to each item of a stream.
pub struct ForEach<S, F> {
    stream: S,
    f: F,
}

/// What a future applying a closure to each item resolves to when the stream gives
/// the poll `last`, which yields no item: the state at the end, else `NotReady` or
/// the error.
pub open spec fn for_each_outcome<I, S, E>(last: StatePoll<I, S, E>) -> Poll<S, (E, S)> {
    match last {
        Ok(Async::Ready(StreamEvent::Done(s))) => Ok(Async::Ready(s)),
        Ok(Async::Ready(StreamEvent::Next(_))) => Ok(Async::NotReady),
        Ok(Async::NotReady) => Ok(Async::NotReady),
        Err(e) => Err(e),
    }
}

/// What a future applying a closure to each item answers for the poll `ev`: `None`
/// for an item, which the closure is applied to, else its outcome.
pub open spec fn for_each_answer<I, S, E>(ev: StatePoll<I, S, E>) -> Option<Poll<S, (E, S)>> {
    if is_item(ev) {
        None
    } else {
        Some(for_each_outcome(ev))
    }
}

impl<S, F> ForEach<S, F> {
    /// The underlying stream.
    pub closed spec fn inner(&self) -> S {
        self.stream
    }

    /// The closure applied to each item.
    pub closed spec fn closure(&self) -> F {
        self.f
    }

    /// A future applying `f` to each item of `stream`.
    pub fn new(stream: S, f: F) -> (r: Self)
        ensures
            r.inner() == stream,
            r.closure() == f,
    {
        ForEach { stream, f }
    }
}

impl<S, F> ForEach<S, F> where S: StateStream, F: FnMut(S::Item) {
    /// Answers the event `ev` that the stream gave: applies the closure to an item
    /// and answers `None`, for the stream to be polled again; else the future's answer.
    pub fn on_event(&mut self, ev: StatePoll<S::Item, S::State, S::Error>) -> (r: Option<
        Poll<S::State, (S::Error, S::State)>,
    >)
        requires
            is_item(ev) ==> call_requires(old(self).closure(), (item_of(ev),)),
        ensures
            *final(self) == *old(self),
            r == for_each_answer(ev),
            is_item(ev) ==> call_ensures(old(self).closure(), (item_of(ev),), ()),
    {
        match ev {
            Ok(Async::Ready(StreamEvent::Next(i))) => {
                (self.f)(i);
                None
            },
            Ok(Async::Ready(StreamEvent::Done(s))) => Some(Ok(Async::Ready(s))),
            Ok(Async::NotReady) => Some(Ok(Async::NotReady)),
            Err(e) => Some(Err(e)),
        }
    }

    /// Polls the stream once and answers its event as `on_event` does.
    pub fn poll_step(&mut self) -> (r: Option<Poll<S::State, (S::Error, S::State)>>)
        requires
            old(self).inner().can_poll(),
            forall|i: S::Item| call_requires(old(self).closure(), (i,)),
        ensures
            final(self).closure() == old(self).closure(),
            r is None ==> final(self).inner().can_poll(),
            exists|ev: StatePoll<S::Item, S::State, S::Error>|
                #[trigger] old(self).inner().poll_gives(&final(self).inner(), ev) && r
                    == for_each_answer(ev) && (is_item(ev) ==> call_ensures(
                    old(self).closure(),
                    (item_of(ev),),
                    (),
                )),
    {
        let ev = self.stream.poll();
        proof {
            if is_item(ev) {
                let i = item_of(ev);
                assert(call_requires(old(self).closure(), (i,)));
            }
        }
        let ghost polled = self.inner();
        let r = self.on_event(ev);
        assert(old(self).inner().poll_gives(&polled, ev) && r == for_each_answer(ev));
        r
    }
}

} // verus!
