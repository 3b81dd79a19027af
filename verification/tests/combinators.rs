use std::collections::VecDeque;

use futures_state_stream::{
    Async, Collect, Filter, FilterMap, FlattenState, FlattenStateStream, ForEach, FromStream,
    IntoFuture, IntoStream, MapErr, MapItems, MapState, StatePoll, StateStream, StreamEvent,
    Unfold, UnfoldState,
};

/// A state stream that answers each poll with the next of a fixed list of polls.
struct Script {
    polls: VecDeque<StatePoll<i32, &'static str, String>>,
    count: usize,
}

fn script(polls: Vec<StatePoll<i32, &'static str, String>>) -> Script {
    Script { polls: polls.into_iter().collect(), count: 0 }
}

impl StateStream for Script {
    type Item = i32;
    type State = &'static str;
    type Error = String;

    fn poll(&mut self) -> StatePoll<i32, &'static str, String> {
        self.count += 1;
        self.polls.pop_front().expect("polled past the script")
    }
}

fn item<S, E>(i: i32) -> StatePoll<i32, S, E> {
    Ok(Async::Ready(StreamEvent::Next(i)))
}

fn done<I, E>(s: &'static str) -> StatePoll<I, &'static str, E> {
    Ok(Async::Ready(StreamEvent::Done(s)))
}

fn not_ready<I, S, E>() -> StatePoll<I, S, E> {
    Ok(Async::NotReady)
}

fn fail<I>(e: &str, s: &'static str) -> StatePoll<I, &'static str, String> {
    Err((e.to_string(), s))
}

#[test]
fn map_transforms_items_and_keeps_the_end() {
    let mut m = script(vec![item(1), not_ready(), item(2), done("end")]).map(|x| x * 10);
    assert_eq!(m.poll(), item(10));
    assert_eq!(m.poll(), not_ready());
    assert_eq!(m.poll(), item(20));
    assert_eq!(m.poll(), done("end"));
}

#[test]
fn map_passes_errors_through() {
    let mut m = script(vec![fail("boom", "st")]).map(|x| x + 1);
    assert_eq!(m.poll(), fail("boom", "st"));
}

#[test]
fn map_on_event_applies_the_closure() {
    let mut m = MapItems::new(script(vec![]), |x: i32| format!("<{}>", x));
    assert_eq!(m.on_event(item(7)), Ok(Async::Ready(StreamEvent::Next("<7>".to_string()))));
    assert_eq!(m.on_event(done("s")), Ok(Async::Ready(StreamEvent::Done("s"))));
}

#[test]
fn map_err_transforms_errors_only() {
    let mut m = script(vec![item(4), fail("bad", "st")]).map_err(|e: String| e.len());
    assert_eq!(m.poll(), Ok(Async::Ready(StreamEvent::Next(4))));
    assert_eq!(m.poll(), Err((3usize, "st")));
}

#[test]
fn map_err_on_event_keeps_success() {
    let mut m = MapErr::new(script(vec![]), |e: String| e.to_uppercase());
    assert_eq!(m.on_event(done("s")), Ok(Async::Ready(StreamEvent::Done("s"))));
    assert_eq!(m.on_event(not_ready()), Ok(Async::NotReady));
    assert_eq!(m.on_event(fail("x", "t")), Err(("X".to_string(), "t")));
}

#[test]
fn map_state_transforms_the_final_state() {
    let mut m = script(vec![item(1), not_ready(), done("end")]).map_state(|s: &str| s.len());
    assert_eq!(m.poll(), Ok(Async::Ready(StreamEvent::Next(1))));
    assert_eq!(m.poll(), Ok(Async::NotReady));
    assert_eq!(m.poll(), Ok(Async::Ready(StreamEvent::Done(3usize))));
}

#[test]
fn map_state_transforms_the_state_of_an_error() {
    let mut m = script(vec![fail("e", "state")]).map_state(|s: &str| s.to_uppercase());
    assert_eq!(m.poll(), Err(("e".to_string(), "STATE".to_string())));
}

#[test]
fn map_state_on_event_uses_the_closure_once() {
    let mut calls = 0;
    {
        let mut m = MapState::new(script(vec![]), |s: &str| {
            calls += 1;
            s.len()
        });
        assert_eq!(m.on_event(item(5)), Ok(Async::Ready(StreamEvent::Next(5))));
        assert_eq!(m.on_event(done("four")), Ok(Async::Ready(StreamEvent::Done(4usize))));
    }
    assert_eq!(calls, 1);
}

#[test]
fn filter_keeps_accepted_items() {
    let mut f = script(vec![item(1), item(2), item(3), item(4), done("end")]).filter(|x| x % 2 == 0);
    assert_eq!(f.poll_step(), None);
    assert_eq!(f.poll_step(), Some(item(2)));
    assert_eq!(f.poll_step(), None);
    assert_eq!(f.poll_step(), Some(item(4)));
    assert_eq!(f.poll_step(), Some(done("end")));
}

#[test]
fn filter_on_event_passes_non_items_through() {
    let mut f = Filter::new(script(vec![]), |x: &i32| *x > 0);
    assert_eq!(f.on_event(item(-1)), None);
    assert_eq!(f.on_event(item(1)), Some(item(1)));
    assert_eq!(f.on_event(not_ready()), Some(not_ready()));
    assert_eq!(f.on_event(fail("e", "s")), Some(fail("e", "s")));
}

#[test]
fn filter_map_transforms_and_drops() {
    let mut f = script(vec![item(1), item(2), not_ready(), done("end")])
        .filter_map(|x| if x > 1 { Some(x * 100) } else { None });
    assert_eq!(f.poll_step(), None);
    assert_eq!(f.poll_step(), Some(item(200)));
    assert_eq!(f.poll_step(), Some(not_ready()));
    assert_eq!(f.poll_step(), Some(done("end")));
}

#[test]
fn filter_map_on_event_passes_errors_through() {
    let mut f = FilterMap::new(script(vec![]), |x: i32| Some(x.to_string()));
    assert_eq!(f.on_event(item(3)), Some(Ok(Async::Ready(StreamEvent::Next("3".to_string())))));
    assert_eq!(f.on_event(fail("e", "s")), Some(Err(("e".to_string(), "s"))));
}

#[test]
fn collect_gathers_all_items_with_the_state() {
    let mut c = script(vec![item(1), item(2), item(3), done("end")]).collect();
    assert_eq!(c.poll(), Ok(Async::Ready((vec![1, 2, 3], "end"))));
}

#[test]
fn collect_keeps_items_across_not_ready() {
    let mut c = script(vec![item(1), not_ready(), item(2), done("end")]).collect();
    assert_eq!(c.poll(), Ok(Async::NotReady));
    assert_eq!(c.poll(), Ok(Async::Ready((vec![1, 2], "end"))));
}

#[test]
fn collect_of_an_empty_stream_is_empty() {
    let mut c = script(vec![done("nothing")]).collect();
    assert_eq!(c.poll(), Ok(Async::Ready((vec![], "nothing"))));
}

#[test]
fn collect_reports_errors() {
    let mut c = script(vec![item(1), fail("broken", "st")]).collect();
    assert_eq!(c.poll(), Err(("broken".to_string(), "st")));
}

#[test]
fn collect_on_event_steps() {
    let mut c: Collect<Script, i32> = Collect::new(script(vec![]));
    assert_eq!(c.on_event(item(9)), None);
    assert_eq!(c.on_event(not_ready()), Some(Ok(Async::NotReady)));
    assert_eq!(c.on_event(done("s")), Some(Ok(Async::Ready((vec![9], "s")))));
    assert_eq!(c.on_event(done("t")), Some(Ok(Async::Ready((vec![], "t")))));
}

#[test]
fn for_each_visits_every_item_and_returns_the_state() {
    let mut seen = Vec::new();
    {
        let mut fe = script(vec![item(1), item(2), done("end")]).for_each(|x| seen.push(x));
        assert_eq!(fe.poll_step(), None);
        assert_eq!(fe.poll_step(), None);
        assert_eq!(fe.poll_step(), Some(Ok(Async::Ready("end"))));
    }
    assert_eq!(seen, vec![1, 2]);
}

#[test]
fn for_each_on_event_reports_errors_and_not_ready() {
    let mut fe = ForEach::new(script(vec![]), |_x: i32| ());
    assert_eq!(fe.on_event(not_ready()), Some(Ok(Async::NotReady)));
    assert_eq!(fe.on_event(fail("e", "s")), Some(Err(("e".to_string(), "s"))));
}

#[test]
fn into_stream_discards_the_state() {
    let mut s = script(vec![item(1), not_ready(), done("end")]).into_stream();
    assert_eq!(s.poll(), Ok(Async::Ready(Some(1))));
    assert_eq!(s.poll(), Ok(Async::NotReady));
    assert_eq!(s.poll(), Ok(Async::Ready(None)));
}

#[test]
fn into_stream_keeps_the_error_alone() {
    assert_eq!(IntoStream::<Script>::on_event(fail("e", "s")), Err("e".to_string()));
}

#[test]
fn into_future_hands_the_stream_back() {
    let mut fut = script(vec![not_ready(), item(5), done("end")]).into_future();
    assert!(matches!(fut.poll(), Ok(Async::NotReady)));
    match fut.poll() {
        Ok(Async::Ready((StreamEvent::Next(5), mut rest))) => {
            assert_eq!(rest.count, 2);
            assert_eq!(rest.poll(), done("end"));
        }
        _ => panic!("expected the next item with the stream"),
    }
}

#[test]
fn into_future_hands_the_stream_back_with_an_error() {
    let mut fut = IntoFuture::new(script(vec![fail("e", "s")]));
    match fut.poll() {
        Err((e, s, rest)) => {
            assert_eq!(e, "e");
            assert_eq!(s, "s");
            assert_eq!(rest.count, 1);
        }
        _ => panic!("expected the error with the stream"),
    }
}

#[test]
fn from_stream_yields_items_then_the_state() {
    let mut fs = FromStream::new((), 42u8);
    assert!(fs.has_state());
    assert_eq!(fs.on_stream_poll::<i32, String>(Ok(Async::Ready(Some(1)))), item(1));
    assert_eq!(fs.on_stream_poll::<i32, String>(Ok(Async::NotReady)), not_ready());
    assert_eq!(fs.on_stream_poll::<i32, String>(Ok(Async::Ready(None))), Ok(Async::Ready(StreamEvent::Done(42u8))));
    assert!(!fs.has_state());
}

#[test]
fn from_stream_pairs_an_error_with_the_state() {
    let mut fs = FromStream::new((), "st");
    assert_eq!(fs.on_stream_poll::<i32, String>(Err("e".to_string())), fail("e", "st"));
    assert!(!fs.has_state());
}

#[test]
fn unfold_steps_through_values() {
    let mut u: Unfold<i32, _, StatePoll<(i32, i32), &'static str, String>> =
        Unfold::new(1, |n: i32| n * 2);
    assert!(!u.is_finished());
    assert_eq!(u.start(), Some(2));
    u.begin_processing(Ok(Async::NotReady));
    assert_eq!(u.start(), None);
    assert_eq!(u.on_future_poll::<i32, &'static str, String>(Ok(Async::NotReady)), not_ready());
    assert_eq!(
        u.on_future_poll::<i32, &'static str, String>(Ok(Async::Ready(StreamEvent::Next((10, 5))))),
        item(10)
    );
    assert_eq!(u.start(), Some(10));
    u.begin_processing(Ok(Async::NotReady));
    assert_eq!(u.on_future_poll::<i32, &'static str, String>(done("fin")), done("fin"));
    assert!(u.is_finished());
}

#[test]
fn unfold_stops_on_an_error() {
    let mut u: Unfold<i32, _, ()> = Unfold::new(0, |n: i32| n);
    assert_eq!(u.start(), Some(0));
    u.begin_processing(());
    assert_eq!(
        u.on_future_poll::<i32, &'static str, String>(Err(("e".to_string(), "s"))),
        fail("e", "s")
    );
    assert!(u.is_finished());
}

#[test]
fn unfold_future_mut_gives_the_pending_future() {
    let mut u: Unfold<i32, _, u32> = Unfold::new(0, |n: i32| n);
    u.start();
    u.begin_processing(7);
    *u.future_mut() += 1;
    assert_eq!(*u.future_mut(), 8);
}

#[test]
fn flatten_waits_for_the_future_then_polls_the_stream() {
    let mut fl: FlattenStateStream<u8, Script> = FlattenStateStream::new(0);
    assert!(fl.is_future());
    assert_eq!(fl.on_future_poll(Ok(Async::NotReady)), Some(not_ready()));
    assert!(fl.is_future());
    *fl.future_mut() = 3;
    assert_eq!(*fl.future_mut(), 3);
    assert_eq!(fl.on_future_poll(Ok(Async::Ready(script(vec![item(8), done("end")])))), None);
    assert!(!fl.is_future());
    assert_eq!(fl.poll_stream(), item(8));
    assert_eq!(fl.poll_stream(), done("end"));
}

#[test]
fn flatten_reports_the_future_error() {
    let mut fl: FlattenStateStream<u8, Script> = FlattenStateStream::new(0);
    assert_eq!(fl.on_future_poll(Err(("e".to_string(), "s"))), Some(fail("e", "s")));
    assert!(fl.is_future());
}

#[test]
fn boxed_and_borrowed_streams_poll_the_inner_stream() {
    let mut boxed: Box<Script> = Box::new(script(vec![item(1), done("end")]));
    assert_eq!(boxed.poll(), item(1));
    let mut plain = script(vec![item(2)]);
    {
        let mut borrowed = &mut plain;
        assert_eq!(StateStream::poll(&mut borrowed), item(2));
    }
    assert_eq!(plain.count, 1);
    assert_eq!(boxed.poll(), done("end"));
}

#[test]
fn chained_combinators_compose() {
    let mut c = script(vec![item(1), item(2), item(3), done("end")])
        .map(|x| x * 3)
        .map_state(|s: &str| s.len())
        .collect();
    assert_eq!(c.poll(), Ok(Async::Ready((vec![3, 6, 9], 3usize))));
}

#[test]
fn flatten_state_names_its_stages() {
    let st: FlattenState<u8, u16> = FlattenState::Stream(4);
    assert!(matches!(st, FlattenState::Stream(4)));
    let us: UnfoldState<u8, u16> = UnfoldState::Empty;
    assert!(matches!(us, UnfoldState::Empty));
}

#[test]
fn into_stream_undoes_from_stream() {
    let plain: Vec<futures_state_stream::Poll<Option<i32>, String>> =
        vec![Ok(Async::Ready(Some(4))), Ok(Async::NotReady), Ok(Async::Ready(None))];
    for r in plain {
        let mut fs = FromStream::new((), "st");
        let expected = r.clone_poll();
        let ev = fs.on_stream_poll(r);
        assert_eq!(IntoStream::<Script>::on_event(ev), expected);
    }
    let mut fs = FromStream::new((), "st");
    let ev = fs.on_stream_poll::<i32, String>(Err("e".to_string()));
    assert_eq!(IntoStream::<Script>::on_event(ev), Err("e".to_string()));
}

#[test]
fn from_stream_restores_what_into_stream_discarded() {
    let events: Vec<StatePoll<i32, &'static str, String>> =
        vec![item(6), not_ready(), done("st"), fail("e", "st")];
    let expected: Vec<StatePoll<i32, &'static str, String>> =
        vec![item(6), not_ready(), done("st"), fail("e", "st")];
    for (ev, want) in events.into_iter().zip(expected) {
        let plain = IntoStream::<Script>::on_event(ev);
        let mut fs = FromStream::new((), "st");
        assert_eq!(fs.on_stream_poll(plain), want);
    }
}

trait ClonePoll {
    fn clone_poll(&self) -> Self;
}

impl ClonePoll for futures_state_stream::Poll<Option<i32>, String> {
    fn clone_poll(&self) -> Self {
        match self {
            Ok(Async::Ready(x)) => Ok(Async::Ready(*x)),
            Ok(Async::NotReady) => Ok(Async::NotReady),
            Err(e) => Err(e.clone()),
        }
    }
}

fn sample() -> Vec<StatePoll<i32, &'static str, String>> {
    vec![item(1), not_ready(), item(-2), done("end")]
}

#[test]
fn map_by_identity_gives_the_stream_back() {
    let mut m = script(sample()).map(|x| x);
    for want in sample() {
        assert_eq!(m.poll(), want);
    }
}

#[test]
fn stacked_maps_equal_the_composed_map() {
    let mut a = script(sample()).map(|x| x + 1).map(|x| x * 2);
    let mut b = script(sample()).map(|x| (x + 1) * 2);
    for _ in 0..4 {
        assert_eq!(a.poll(), b.poll());
    }
}

#[test]
fn map_state_by_identity_gives_the_stream_back() {
    let mut m = script(sample()).map_state(|s| s);
    for want in sample() {
        assert_eq!(m.poll(), want);
    }
    let mut e = script(vec![fail("e", "st")]).map_state(|s| s);
    assert_eq!(e.poll(), fail("e", "st"));
}

#[test]
fn stacked_state_maps_equal_the_composed_map() {
    let mut a = script(sample()).map_state(|s: &str| s.len()).map_state(|n| n + 1);
    let mut b = script(sample()).map_state(|s: &str| s.len() + 1);
    for _ in 0..4 {
        assert_eq!(a.poll(), b.poll());
    }
}

#[test]
fn stacked_error_maps_equal_the_composed_map() {
    let mut a = script(vec![item(1), fail("boom", "st")]).map_err(|e: String| e.len()).map_err(|n| n * 10);
    let mut b = script(vec![item(1), fail("boom", "st")]).map_err(|e: String| e.len() * 10);
    assert_eq!(a.poll(), b.poll());
    assert_eq!(a.poll(), Err((40usize, "st")));
    assert_eq!(b.poll(), Err((40usize, "st")));
}

#[test]
fn map_err_by_identity_gives_the_stream_back() {
    let mut m = script(vec![item(3), fail("e", "s")]).map_err(|e| e);
    assert_eq!(m.poll(), item(3));
    assert_eq!(m.poll(), fail("e", "s"));
}
