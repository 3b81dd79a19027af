use vstd::prelude::*;
use crate::collect::{collect_outcome, is_run, items_of};
use crate::filter::filtered;
use crate::into::item_of_event;
use crate::map::{mapped_errors, mapped_items, mapped_state, MapState};
use crate::poll::{continues, ending_state, is_item, item_of, Async, Poll, StatePoll, StreamEvent};
use crate::source::{from_stream_event, unfold_after, unfold_answer, UnfoldState};
use crate::state_stream::StateStream;

verus! {

/// The polls of a stream that yields the items `xs` and then gives `last`.
pub open spec fn run_of<I, S, E>(xs: Seq<I>, last: StatePoll<I, S, E>) -> Seq<StatePoll<I, S, E>> {
    xs.map_values(|x: I| Ok::<Async<StreamEvent<I, S>>, (E, S)>(Async::Ready(StreamEvent::Next(x)))).push(
        last,
    )
}

/// The items of polls that all yield items are those items, in order.
proof fn lemma_items_of_items<I, S, E>(xs: Seq<I>)
    ensures
        items_of(
            xs.map_values(
                |x: I| Ok::<Async<StreamEvent<I, S>>, (E, S)>(Async::Ready(StreamEvent::Next(x))),
            ),
        ) == xs,
    decreases xs.len(),
{
    let f = |x: I| Ok::<Async<StreamEvent<I, S>>, (E, S)>(Async::Ready(StreamEvent::Next(x)));
    let evs = xs.map_values(f);
    if xs.len() > 0 {
        lemma_items_of_items::<I, S, E>(xs.drop_last());
        assert(evs.drop_last() =~= xs.drop_last().map_values(f));
        assert(is_item(evs.last()));
        assert(xs.drop_last().push(xs.last()) =~= xs);
    } else {
        assert(evs =~= Seq::<StatePoll<I, S, E>>::empty());
    }
}

/// Over a run of polls that yields the items `xs` and then ends with `state`, a
/// collecting future resolves with all of `xs`, in order, after the items it had
/// gathered before, and with `state`. `Collect::poll` states that its answer is
/// `collect_outcome` over the run of its stream's own polls.
pub proof fn lemma_collect_gathers_all_items<I, S, E>(before: Seq<I>, xs: Seq<I>, state: S)
    ensures
        is_run(run_of::<I, S, E>(xs, Ok(Async::Ready(StreamEvent::Done(state))))),
        collect_outcome(
            before + items_of(run_of::<I, S, E>(xs, Ok(Async::Ready(StreamEvent::Done(state))))),
            run_of::<I, S, E>(xs, Ok(Async::Ready(StreamEvent::Done(state)))).last(),
        ) == Ok::<Async<(Seq<I>, S)>, (E, S)>(Async::Ready((before + xs, state))),
{
    let last = Ok::<Async<StreamEvent<I, S>>, (E, S)>(Async::Ready(StreamEvent::Done(state)));
    let run = run_of::<I, S, E>(xs, last);
    lemma_items_of_items::<I, S, E>(xs);
    let evs = xs.map_values(
        |x: I| Ok::<Async<StreamEvent<I, S>>, (E, S)>(Async::Ready(StreamEvent::Next(x))),
    );
    assert(run.drop_last() =~= evs);
    assert forall|k: int| 0 <= k < run.len() - 1 implies is_item(#[trigger] run[k]) by {
        assert(run[k] == evs[k]);
    }
}

/// Turning a plain stream into a state stream and back gives the plain stream's
/// polls unchanged: the state is added at the end and discarded again.
pub proof fn lemma_into_stream_undoes_from_stream<I, E, T>(r: Poll<Option<I>, E>, state: T)
    ensures
        item_of_event(from_stream_event(r, state)) == r,
{
}

/// Discarding the state of a state stream and adding it back gives the state
/// stream's polls unchanged, where the state added is the one it ends with.
pub proof fn lemma_from_stream_restores_event<I, E, T>(ev: StatePoll<I, T, E>, state: T)
    requires
        continues(ev) || ending_state(ev) == Some(state),
    ensures
        from_stream_event(item_of_event(ev), state) == ev,
{
}

/// A state stream made from a plain stream that yields the items `xs` and then ends
/// yields the same items and then ends with its state.
pub proof fn lemma_from_stream_yields_items_then_state<I, E, T>(xs: Seq<I>, state: T)
    ensures
        xs.map_values(|x: I| Ok::<Async<Option<I>>, E>(Async::Ready(Some(x)))).push(
            Ok(Async::Ready(None)),
        ).map_values(|r: Poll<Option<I>, E>| from_stream_event(r, state)) == run_of::<I, T, E>(
            xs,
            Ok(Async::Ready(StreamEvent::Done(state))),
        ),
{
    let plain = xs.map_values(|x: I| Ok::<Async<Option<I>>, E>(Async::Ready(Some(x)))).push(
        Ok(Async::Ready(None)),
    );
    let lhs = plain.map_values(|r: Poll<Option<I>, E>| from_stream_event(r, state));
    let rhs = run_of::<I, T, E>(xs, Ok(Async::Ready(StreamEvent::Done(state))));
    assert(lhs =~= rhs);
}

/// A filtered stream yields no item of its own: an item it keeps is the underlying
/// stream's item, and one that the predicate accepted.
pub proof fn lemma_filter_keeps_only_accepted<I, S, E, F: FnMut(&I) -> bool>(
    f: F,
    ev: StatePoll<I, S, E>,
    r: Option<StatePoll<I, S, E>>,
)
    requires
        filtered(f, ev, r),
        r matches Some(x) && is_item(x),
    ensures
        r == Some(ev),
        call_ensures(f, (&item_of(ev),), true),
{
}

/// An unfolding stream yields the item of each step and goes on from the value that
/// the step gives with it; a step's end or error finishes the stream.
pub proof fn lemma_unfold_continues_from_each_value<It, T, St, E, G>(
    stage: UnfoldState<T, G>,
    r: Poll<StreamEvent<(It, T), St>, (E, St)>,
)
    ensures
        r matches Ok(Async::Ready(StreamEvent::Next((i, t)))) ==> {
            &&& unfold_answer(r) == Ok::<Async<StreamEvent<It, St>>, (E, St)>(
                Async::Ready(StreamEvent::Next(i)),
            )
            &&& unfold_after(stage, r) == UnfoldState::<T, G>::Ready(t)
        },
        !continues(unfold_answer(r)) ==> unfold_after(stage, r) is Empty,
{
}

/// Mapping items by a closure that returns its argument gives the underlying
/// stream's polls back unchanged.
pub proof fn lemma_map_items_identity<I, S, E, F: FnMut(I) -> I>(
    f: F,
    ev: StatePoll<I, S, E>,
    r: StatePoll<I, S, E>,
)
    requires
        forall|i: I, j: I| call_ensures(f, (i,), j) ==> i == j,
        mapped_items(f, ev, r),
    ensures
        r == ev,
{
    if is_item(ev) {
        assert(call_ensures(f, (item_of(ev),), r->Ok_0->Ready_0->Next_0));
    }
}

/// Mapping items by `f` and then by `g` answers as mapping them by a closure `h`
/// that returns what `g` returns on what `f` returns.
pub proof fn lemma_map_items_compose<I, B, C, S, E, F: FnMut(I) -> B, G: FnMut(B) -> C, H: FnMut(I) -> C>(
    f: F,
    g: G,
    h: H,
    ev: StatePoll<I, S, E>,
    mid: StatePoll<B, S, E>,
    r: StatePoll<C, S, E>,
)
    requires
        forall|i: I, b: B, c: C| call_ensures(f, (i,), b) && call_ensures(g, (b,), c) ==> call_ensures(h, (i,), c),
        mapped_items(f, ev, mid),
        mapped_items(g, mid, r),
    ensures
        mapped_items(h, ev, r),
{
    if is_item(ev) {
        let i = item_of(ev);
        let b = mid->Ok_0->Ready_0->Next_0;
        let c = r->Ok_0->Ready_0->Next_0;
        assert(call_ensures(f, (i,), b) && call_ensures(g, (b,), c));
    }
}

/// Mapping errors by a closure that returns its argument gives the underlying
/// stream's polls back unchanged.
pub proof fn lemma_map_errors_identity<I, S, E, F: FnMut(E) -> E>(
    f: F,
    ev: StatePoll<I, S, E>,
    r: StatePoll<I, S, E>,
)
    requires
        forall|e: E, d: E| call_ensures(f, (e,), d) ==> e == d,
        mapped_errors(f, ev, r),
    ensures
        r == ev,
{
    if ev is Err {
        assert(call_ensures(f, (ev->Err_0.0,), r->Err_0.0));
    }
}

/// Mapping errors by `f` and then by `g` answers as mapping them by a closure `h`
/// that returns what `g` returns on what `f` returns.
pub proof fn lemma_map_errors_compose<I, S, E, B, C, F: FnMut(E) -> B, G: FnMut(B) -> C, H: FnMut(E) -> C>(
    f: F,
    g: G,
    h: H,
    ev: StatePoll<I, S, E>,
    mid: StatePoll<I, S, B>,
    r: StatePoll<I, S, C>,
)
    requires
        forall|e: E, b: B, c: C| call_ensures(f, (e,), b) && call_ensures(g, (b,), c) ==> call_ensures(h, (e,), c),
        mapped_errors(f, ev, mid),
        mapped_errors(g, mid, r),
    ensures
        mapped_errors(h, ev, r),
{
    if ev is Err {
        assert(call_ensures(f, (ev->Err_0.0,), mid->Err_0.0) && call_ensures(g, (mid->Err_0.0,), r->Err_0.0));
    }
}

/// Mapping the state by a closure that returns its argument gives the underlying
/// stream's polls back unchanged.
pub proof fn lemma_map_state_identity<I, S, E, F: FnOnce(S) -> S>(
    f: F,
    ev: StatePoll<I, S, E>,
    r: StatePoll<I, S, E>,
)
    requires
        forall|s: S, t: S| call_ensures(f, (s,), t) ==> s == t,
        mapped_state(f, ev, r),
    ensures
        r == ev,
{
    if ev matches Ok(Async::Ready(StreamEvent::Done(_))) {
        let s = ev->Ok_0->Ready_0->Done_0;
        assert(call_ensures(f, (s,), r->Ok_0->Ready_0->Done_0));
    } else if ev is Err {
        assert(call_ensures(f, (ev->Err_0.1,), r->Err_0.1));
    }
}

/// Mapping the state by `f` and then by `g` answers as mapping it by a closure `h`
/// that returns what `g` returns on what `f` returns.
pub proof fn lemma_map_state_compose<I, S, E, B, C, F: FnOnce(S) -> B, G: FnOnce(B) -> C, H: FnOnce(S) -> C>(
    f: F,
    g: G,
    h: H,
    ev: StatePoll<I, S, E>,
    mid: StatePoll<I, B, E>,
    r: StatePoll<I, C, E>,
)
    requires
        forall|s: S, b: B, c: C| call_ensures(f, (s,), b) && call_ensures(g, (b,), c) ==> call_ensures(h, (s,), c),
        mapped_state(f, ev, mid),
        mapped_state(g, mid, r),
    ensures
        mapped_state(h, ev, r),
{
    if ev matches Ok(Async::Ready(StreamEvent::Done(_))) {
        let s = ev->Ok_0->Ready_0->Done_0;
        assert(call_ensures(f, (s,), mid->Ok_0->Ready_0->Done_0) && call_ensures(
            g,
            (mid->Ok_0->Ready_0->Done_0,),
            r->Ok_0->Ready_0->Done_0,
        ));
    } else if ev is Err {
        assert(call_ensures(f, (ev->Err_0.1,), mid->Err_0.1) && call_ensures(g, (mid->Err_0.1,), r->Err_0.1));
    }
}

/// While the future of the current step is not ready, an unfolding stream answers
/// `NotReady` and stays exactly where it was, waiting on that same future, so that
/// the next poll polls it again.
pub proof fn lemma_unfold_waits_on_pending_step<It, T, St, E, G>(
    stage: UnfoldState<T, G>,
    r: Poll<StreamEvent<(It, T), St>, (E, St)>,
)
    requires
        r matches Ok(Async::NotReady),
    ensures
        unfold_after(stage, r) == stage,
        unfold_answer(r) == Ok::<Async<StreamEvent<It, St>>, (E, St)>(Async::NotReady),
{
}

/// A poll of a collecting future stops only at a poll of the stream that yields no
/// item: it answers `NotReady` exactly when the stream was not ready, resolves
/// exactly when the stream ended, and fails exactly when the stream failed, with
/// the stream's own error and state.
pub proof fn lemma_collect_stops_only_without_item<I, S, E>(items: Seq<I>, evs: Seq<StatePoll<I, S, E>>)
    requires
        is_run(evs),
    ensures
        !is_item(evs.last()),
        collect_outcome(items, evs.last()) matches Ok(Async::NotReady) <==> evs.last() matches Ok(
            Async::NotReady,
        ),
        collect_outcome(items, evs.last()) matches Ok(Async::Ready(_)) <==> evs.last() matches Ok(
            Async::Ready(StreamEvent::Done(_)),
        ),
        evs.last() is Err ==> collect_outcome(items, evs.last()) == Err::<Async<(Seq<I>, S)>, (E, S)>(
            evs.last()->Err_0,
        ),
{
}

/// A stream whose state transform has been applied, at its end or with an error,
/// cannot be polled again: the transform is applied at most once.
pub proof fn lemma_map_state_applies_once<S: StateStream, F, B>(m: MapState<S, F>)
    where F: FnOnce(S::State) -> B,
    requires
        m.closure() is None,
    ensures
        !m.can_poll(),
{
}

} // verus!
