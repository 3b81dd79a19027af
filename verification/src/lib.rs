//! A version of the `futures` crate's `Stream` which returns a state value when it completes.
//!
//! This is useful in contexts where a value "becomes" a stream for a period of time, but then
//! switches back to its original type.

mod poll;
mod state_stream;
mod map;
mod into;
mod collect;
mod filter;
mod source;
mod laws;

pub use poll::{continues, ending_state, is_item, item_of, Async, Poll, StatePoll, StreamEvent};
pub use source::{
    ends_plain, flatten_answer, from_stream_event, unfold_after, unfold_answer, FlattenState,
    FlattenStateStream, FromStream, Unfold, UnfoldState,
};
pub use state_stream::StateStream;
pub use collect::{
    collect_outcome, collect_view, for_each_answer, for_each_outcome, is_run, items_of, polls_through, Collect,
    ForEach,
};
pub use filter::{filter_mapped, filtered, Filter, FilterMap};
pub use into::{item_of_event, next_of_event, IntoFuture, IntoStream};
pub use laws::{
    lemma_collect_gathers_all_items, lemma_collect_stops_only_without_item,
    lemma_filter_keeps_only_accepted,
    lemma_from_stream_restores_event, lemma_from_stream_yields_items_then_state,
    lemma_into_stream_undoes_from_stream,
    lemma_map_errors_compose, lemma_map_errors_identity, lemma_map_items_compose,
    lemma_map_items_identity, lemma_map_state_applies_once, lemma_map_state_compose,
    lemma_map_state_identity, lemma_unfold_continues_from_each_value,
    lemma_unfold_waits_on_pending_step, run_of,
};
pub use map::{mapped_errors, mapped_items, mapped_state, MapErr, MapItems, MapState};
