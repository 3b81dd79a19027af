use vstd::prelude::*;
use crate::collect::{Collect, ForEach};
use crate::filter::{Filter, FilterMap};
use crate::into::{IntoFuture, IntoStream};
use crate::map::{MapErr, MapItems, MapState};
use crate::poll::{continues, StatePoll};

verus! {

/// A variant of `futures::Stream` which returns a state value when it completes.
///
/// `can_poll` holds of a stream that may be polled: one that has not yet reported
/// its end (`StreamEvent::Done`) or an error, and whose closures accept what they
/// are handed. Polling again after the end or an error is not allowed; until then
/// every poll that yields an item, or is not ready, leaves the stream pollable. A
/// stream that says nothing more may always be polled; the streams of this crate
/// say exactly when they may be.
pub trait StateStream {
    /// The items being streamed.
    type Item;
    /// The state returned when streaming completes.
    type State;
    /// The error returned.
    type Error;

    /// The stream has not ended or failed, and its parts are ready to be called.
    open spec fn can_poll(&self) -> bool {
        true
    }

    /// A poll of this stream may answer `r` and leave the stream as `after`. A
    /// stream that says nothing more may answer anything; a stream that polls
    /// another one says what it answers in terms of the other's polls.
    open spec fn poll_gives(&self, after: &Self, r: StatePoll<Self::Item, Self::State, Self::Error>) -> bool {
        true
    }

    /// Similar to `Stream::poll`.
    ///
    /// The end of a stream is indicated by a `StreamEvent::Done` value.
    fn poll(&mut self) -> (r: StatePoll<Self::Item, Self::State, Self::Error>)
        requires
            (*old(self)).can_poll(),
        ensures
            continues(r) ==> (*final(self)).can_poll(),
            (*old(self)).poll_gives(&*final(self), r),
    ;

    /// Returns a future which yields the next element of the stream.
    fn into_future(self) -> (r: IntoFuture<Self>)
        where Self: Sized,
        ensures
            r.inner() == Some(self),
    {
        IntoFuture::new(self)
    }

    /// Returns a normal `Stream` which yields the elements of this stream and discards the state.
    fn into_stream(self) -> (r: IntoStream<Self>)
        where Self: Sized,
        ensures
            r.inner() == self,
    {
        IntoStream::new(self)
    }

    /// Returns a stream which applies a transform to items of this stream.
    fn map<F, B>(self, f: F) -> (r: MapItems<Self, F>)
        where Self: Sized, F: FnMut(Self::Item) -> B,
        ensures
            r.inner() == self,
            r.closure() == f,
    {
        MapItems::new(self, f)
    }

    /// Returns a stream which applies a transform to errors of this stream.
    fn map_err<F, B>(self, f: F) -> (r: MapErr<Self, F>)
        where Self: Sized, F: FnMut(Self::Error) -> B,
        ensures
            r.inner() == self,
            r.closure() == f,
    {
        MapErr::new(self, f)
    }

    /// Returns a stream which applies a transform to the state of this stream.
    fn map_state<F, B>(self, f: F) -> (r: MapState<Self, F>)
        where Self: Sized, F: FnOnce(Self::State) -> B,
        ensures
            r.inner() == self,
            r.closure() == Some(f),
    {
        MapState::new(self, f)
    }

    /// Returns a stream which filters items of this stream by a predicate.
    fn filter<F>(self, f: F) -> (r: Filter<Self, F>)
        where Self: Sized, F: FnMut(&Self::Item) -> bool,
        ensures
            r.inner() == self,
            r.closure() == f,
    {
        Filter::new(self, f)
    }

    /// Returns a stream which filters and transforms items of this stream by a predicate.
    fn filter_map<F, B>(self, f: F) -> (r: FilterMap<Self, F>)
        where Self: Sized, F: FnMut(Self::Item) -> Option<B>,
        ensures
            r.inner() == self,
            r.closure() == f,
    {
        FilterMap::new(self, f)
    }

    /// Returns a stream which collects all items of this stream into a `Vec`, returning it along
    /// with the stream's state.
    fn collect(self) -> (r: Collect<Self, Self::Item>)
        where Self: Sized,
        ensures
            r.inner() == self,
            r.items() == Seq::<Self::Item>::empty(),
    {
        Collect::new(self)
    }

    /// Returns a future which applies a closure to each item of this stream.
    fn for_each<F>(self, f: F) -> (r: ForEach<Self, F>)
        where Self: Sized, F: FnMut(Self::Item),
        ensures
            r.inner() == self,
            r.closure() == f,
    {
        ForEach::new(self, f)
    }
}

impl<S: ?Sized + StateStream> StateStream for Box<S> {
    type Item = S::Item;
    type State = S::State;
    type Error = S::Error;

    open spec fn can_poll(&self) -> bool {
        (**self).can_poll()
    }

    /// A poll answers what a poll of the stream it points to answers.
    open spec fn poll_gives(&self, after: &Self, r: StatePoll<S::Item, S::State, S::Error>) -> bool {
        (**self).poll_gives(&**after, r)
    }

    fn poll(&mut self) -> (r: StatePoll<S::Item, S::State, S::Error>) {
        (**self).poll()
    }
}

impl<'a, S: ?Sized + StateStream> StateStream for &'a mut S {
    type Item = S::Item;
    type State = S::State;
    type Error = S::Error;

    open spec fn can_poll(&self) -> bool {
        (**self).can_poll()
    }

    /// A poll answers what a poll of the stream it points to answers.
    open spec fn poll_gives(&self, after: &Self, r: StatePoll<S::Item, S::State, S::Error>) -> bool {
        (**self).poll_gives(&**after, r)
    }

    fn poll(&mut self) -> (r: StatePoll<S::Item, S::State, S::Error>) {
        (**self).poll()
    }
}

} // verus!
