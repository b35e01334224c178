//! The guarantees the tracker gives, stated and proved once and for
//! all: the reset/delta rule, the no-op cases, label correlation, and
//! the agreement between the in-memory counters and the mirrored store
//! over whole runs of payload events.

use vstd::prelude::*;

use crate::market::{spec_market_of, spec_starts_with, MarketType};
use crate::tracker::{
    counter_of, label_step, payload_step, spec_delta, spec_weight_of, RecordView, TrackerView,
};

verus! {

/// The mirrored store after one emission: an emitted record overwrites
/// the value under its key unconditionally; no emission leaves the
/// store as it is.
pub open spec fn store_after(store: Map<Seq<char>, int>, emit: Option<RecordView>) -> Map<
    Seq<char>,
    int,
> {
    match emit {
        None => store,
        Some(rec) => store.insert(rec.key, rec.value),
    }
}

/// Tracker state and mirrored store after a run of payload events with
/// no label events in between.
pub open spec fn payload_run(
    st: TrackerView,
    store: Map<Seq<char>, int>,
    events: Seq<Map<Seq<char>, Seq<char>>>,
) -> (TrackerView, Map<Seq<char>, int>)
    decreases events.len(),
{
    if events.len() == 0 {
        (st, store)
    } else {
        let (st1, emit) = payload_step(st, events[0]);
        payload_run(st1, store_after(store, emit), events.drop_first())
    }
}

/// Law: when usage drops between two consecutive observations of the
/// same market, the provider reset its window, and the emitted delta is
/// the new (lower) value itself, not the arithmetic difference.
pub proof fn lemma_reset_emits_absolute(old_usage: int, new_usage: int)
    requires
        new_usage < old_usage,
    ensures
        spec_delta(old_usage, new_usage) == new_usage,
{
}

/// Law: when usage grows or stays equal, the emitted delta is exactly
/// the increment `new_usage - old_usage`.
pub proof fn lemma_growth_emits_difference(old_usage: int, new_usage: int)
    requires
        old_usage <= new_usage,
    ensures
        spec_delta(old_usage, new_usage) == new_usage - old_usage,
{
}

/// Law: a payload carrying neither recognized usage header leaves the
/// tracker unchanged and emits nothing, so the mirrored store is
/// untouched as well.
pub proof fn lemma_unrecognized_payload_is_noop(
    st: TrackerView,
    store: Map<Seq<char>, int>,
    fields: Map<Seq<char>, Seq<char>>,
)
    requires
        !fields.contains_key("x-mbx-used-weight"@),
        !fields.contains_key("x-mbx-used-weight-1m"@),
    ensures
        payload_step(st, fields) == (st, None::<RecordView>),
        store_after(store, payload_step(st, fields).1) == store,
{
    assert(spec_weight_of(fields) is None);
}

/// Law: any label event overwrites the correlation key with its own
/// text, whatever that text is, and moves neither counter.
pub proof fn lemma_label_updates_key(st: TrackerView, text: Seq<char>)
    ensures
        label_step(st, text).key == text,
        label_step(st, text).spot == st.spot,
        label_step(st, text).fut == st.fut,
{
}

/// Law: a payload that follows two consecutive label events is
/// attributed to the most recent label alone; the earlier label
/// influences neither the emitted record nor which counter moves.
pub proof fn lemma_latest_label_wins(
    st: TrackerView,
    first: Seq<char>,
    second: Seq<char>,
    fields: Map<Seq<char>, Seq<char>>,
)
    ensures
        payload_step(label_step(label_step(st, first), second), fields) == payload_step(
            label_step(st, second),
            fields,
        ),
{
    assert(label_step(label_step(st, first), second) =~= label_step(st, second));
}

/// Law: classification — a label whose text begins with "spot" feeds
/// the spot counter, and any other label feeds the futures counter.
pub proof fn lemma_classification(label: Seq<char>)
    ensures
        spec_starts_with(label, "spot"@) ==> spec_market_of(label) == MarketType::Spot,
        !spec_starts_with(label, "spot"@) ==> spec_market_of(label) == MarketType::Futures,
{
}

/// Law: over a run of payload events that all carry a usage value,
/// with values non-decreasing for the market they are attributed to,
/// the mirrored store ends up holding under the pending label exactly
/// the last observed usage, and the in-memory counter of that market
/// agrees with the persisted value.
pub proof fn lemma_steady_run_agrees(
    st: TrackerView,
    store: Map<Seq<char>, int>,
    events: Seq<Map<Seq<char>, Seq<char>>>,
)
    requires
        events.len() > 0,
        forall|i: int| 0 <= i < events.len() ==> (#[trigger] spec_weight_of(events[i])) is Some,
        forall|i: int, j: int|
            0 <= i <= j < events.len() ==> spec_weight_of(events[i])->0 <= spec_weight_of(
                events[j],
            )->0,
    ensures
        ({
            let (fin, fin_store) = payload_run(st, store, events);
            let last_w = spec_weight_of(events[events.len() - 1])->0 as int;
            fin.key == st.key && fin_store.contains_key(st.key) && fin_store[st.key] == last_w
                && counter_of(fin, spec_market_of(st.key)) == last_w
        }),
    decreases events.len(),
{
    assert(spec_weight_of(events[0]) is Some);
    let (st1, emit) = payload_step(st, events[0]);
    let store1 = store_after(store, emit);
    assert(st1.key == st.key);
    assert(payload_run(st, store, events) == payload_run(st1, store1, events.drop_first()));
    if events.len() == 1 {
        let w = spec_weight_of(events[0])->0 as int;
        assert(events.drop_first().len() == 0);
        assert(payload_run(st1, store1, events.drop_first()) == (st1, store1));
        assert(store1.contains_key(st.key) && store1[st.key] == w);
        assert(counter_of(st1, spec_market_of(st.key)) == w);
    } else {
        let tail = events.drop_first();
        assert forall|i: int| 0 <= i < tail.len() implies (#[trigger] spec_weight_of(
            tail[i],
        )) is Some by {
            assert(tail[i] == events[i + 1]);
        }
        assert forall|i: int, j: int| 0 <= i <= j < tail.len() implies spec_weight_of(
            tail[i],
        )->0 <= spec_weight_of(tail[j])->0 by {
            assert(tail[i] == events[i + 1]);
            assert(tail[j] == events[j + 1]);
        }
        lemma_steady_run_agrees(st1, store1, tail);
        assert(tail[tail.len() - 1] == events[events.len() - 1]);
    }
}

} // verus!
