//! The log-interception state machine.
//!
//! A `WeightTracker` holds the last-known usage counter of each market
//! and the single pending-label slot. A label event overwrites the
//! slot; a payload event is attributed to the pending label, its usage
//! value extracted, the reset/delta decision taken, and a
//! `UsageRecord` emitted for the caller to print and mirror into the
//! external store.

use vstd::prelude::*;

use crate::json::{decode_structured, fields_of, get_str_field, is_structured, json_str_fields};
use crate::market::{market_of, spec_market_of, MarketType};
use crate::parse::{parse_weight, spec_parse_i32};

verus! {

/// Mathematical state of the tracker: both counters and the pending
/// correlation key.
#[verifier::ext_equal]
pub ghost struct TrackerView {
    pub spot: int,
    pub fut: int,
    pub key: Seq<char>,
}

/// Mathematical content of an emitted record.
#[verifier::ext_equal]
pub ghost struct RecordView {
    pub key: Seq<char>,
    pub value: int,
    pub delta: int,
}

/// The externally visible outcome of one successfully parsed payload:
/// `value` is mirrored into the store under `key`, and `delta` is the
/// operator-facing usage figure (absolute on a window reset, else the
/// increment).
pub struct UsageRecord {
    pub key: String,
    pub value: i32,
    pub delta: i64,
}

impl View for UsageRecord {
    type V = RecordView;

    open spec fn view(&self) -> RecordView {
        RecordView { key: self.key@, value: self.value as int, delta: self.delta as int }
    }
}

/// A classified log line: a line that decodes as JSON is a payload,
/// any other line is a label naming the endpoint about to be called.
pub enum LogEvent {
    Label(String),
    Payload(serde_json::Value),
}

/// The usage counter the given market owns.
pub open spec fn counter_of(st: TrackerView, m: MarketType) -> int {
    match m {
        MarketType::Spot => st.spot,
        MarketType::Futures => st.fut,
    }
}

/// The state with the given market's counter replaced.
pub open spec fn with_counter(st: TrackerView, m: MarketType, v: int) -> TrackerView {
    match m {
        MarketType::Spot => TrackerView { spot: v, ..st },
        MarketType::Futures => TrackerView { fut: v, ..st },
    }
}

/// The reset/delta rule: a drop in usage means the provider reset its
/// window, and the fresh absolute value is reported; otherwise the
/// increment since the last observation is reported.
pub open spec fn spec_delta(old_usage: int, new_usage: int) -> int {
    if new_usage < old_usage {
        new_usage
    } else {
        new_usage - old_usage
    }
}

/// The usage value a payload carries: the primary header if present,
/// else the fallback header; `None` when neither is present as a string
/// or when the chosen field does not parse as an `i32`.
pub open spec fn spec_weight_of(fields: Map<Seq<char>, Seq<char>>) -> Option<i32> {
    if fields.contains_key("x-mbx-used-weight"@) {
        spec_parse_i32(fields["x-mbx-used-weight"@])
    } else if fields.contains_key("x-mbx-used-weight-1m"@) {
        spec_parse_i32(fields["x-mbx-used-weight-1m"@])
    } else {
        None
    }
}

/// Effect of a label event: the pending key is overwritten
/// unconditionally; the counters are untouched.
pub open spec fn label_step(st: TrackerView, text: Seq<char>) -> TrackerView {
    TrackerView { key: text, ..st }
}

/// Effect of a payload event: no usage value means no change and no
/// emission; a usage value moves the counter of the market the pending
/// label names and emits the record persisted under that label.
pub open spec fn payload_step(st: TrackerView, fields: Map<Seq<char>, Seq<char>>) -> (
    TrackerView,
    Option<RecordView>,
) {
    match spec_weight_of(fields) {
        None => (st, None),
        Some(w) => {
            let m = spec_market_of(st.key);
            let old_usage = counter_of(st, m);
            (
                with_counter(st, m, w as int),
                Some(
                    RecordView {
                        key: st.key,
                        value: w as int,
                        delta: spec_delta(old_usage, w as int),
                    },
                ),
            )
        },
    }
}

/// Effect of one classified event.
pub open spec fn event_step(st: TrackerView, ev: LogEvent) -> (TrackerView, Option<RecordView>) {
    match ev {
        LogEvent::Label(t) => (label_step(st, t@), None),
        LogEvent::Payload(v) => payload_step(st, json_str_fields(v)),
    }
}

/// View of an optional emitted record.
pub open spec fn opt_record_view(r: Option<UsageRecord>) -> Option<RecordView> {
    match r {
        Some(rec) => Some(rec@),
        None => None,
    }
}

/// Classifies one raw log line: a line that decodes as a JSON document
/// is a payload, any other line is a label. Decode failure is a normal
/// branch, not a fault, and never propagates.
pub fn classify(text: &str) -> (ev: LogEvent)
    ensures
        match ev {
            LogEvent::Label(t) => !is_structured(text@) && t@ == text@,
            LogEvent::Payload(v) => is_structured(text@) && json_str_fields(v) == fields_of(
                text@,
            ),
        },
{
    match decode_structured(text) {
        Some(v) => LogEvent::Payload(v),
        None => LogEvent::Label(text.to_owned()),
    }
}

/// The correlator and usage state: last-known usage per market plus the
/// most recently seen label.
pub struct WeightTracker {
    spot_usage: i32,
    fut_usage: i32,
    prev_key: String,
}

impl View for WeightTracker {
    type V = TrackerView;

    closed spec fn view(&self) -> TrackerView {
        TrackerView {
            spot: self.spot_usage as int,
            fut: self.fut_usage as int,
            key: self.prev_key@,
        }
    }
}

impl WeightTracker {
    /// Both counters start at zero and the correlation slot at the
    /// sentinel label "empty".
    pub fn new() -> (t: WeightTracker)
        ensures
            t@ == (TrackerView { spot: 0, fut: 0, key: "empty"@ }),
    {
        WeightTracker { spot_usage: 0, fut_usage: 0, prev_key: "empty".to_owned() }
    }

    /// Any label event overwrites the correlation key with its own
    /// text, whatever that text is; counters are untouched and nothing
    /// is emitted.
    pub fn handle_label(&mut self, text: String)
        ensures
            final(self)@ == label_step(old(self)@, text@),
    {
        self.prev_key = text;
    }

    /// The reset/delta decision for a freshly observed usage value:
    /// the counter of the market named by the pending label is replaced
    /// by `new_weight`, and the emitted record carries the pending
    /// label, `new_weight` itself as the value to persist, and the
    /// delta under the reset/delta rule.
    pub fn update_weight(&mut self, new_weight: i32) -> (rec: UsageRecord)
        ensures
            ({
                let m = spec_market_of(old(self)@.key);
                let old_usage = counter_of(old(self)@, m);
                final(self)@ == with_counter(old(self)@, m, new_weight as int) && rec@ == (
                RecordView {
                    key: old(self)@.key,
                    value: new_weight as int,
                    delta: spec_delta(old_usage, new_weight as int),
                })
            }),
    {
        let m = market_of(self.prev_key.as_str());
        let old_usage: i32 = match m {
            MarketType::Spot => self.spot_usage,
            MarketType::Futures => self.fut_usage,
        };
        let delta: i64 = if new_weight < old_usage {
            new_weight as i64
        } else {
            (new_weight as i64) - (old_usage as i64)
        };
        let rec = UsageRecord { key: self.prev_key.clone(), value: new_weight, delta };
        match m {
            MarketType::Spot => self.spot_usage = new_weight,
            MarketType::Futures => self.fut_usage = new_weight,
        }
        rec
    }

    /// One payload event: extract the usage value (primary header
    /// first, then the fallback), and on success take the reset/delta
    /// decision; a payload without a usable value changes nothing and
    /// emits nothing.
    pub fn handle_payload(&mut self, v: &serde_json::Value) -> (r: Option<UsageRecord>)
        ensures
            payload_step(old(self)@, json_str_fields(*v)) == (final(self)@, opt_record_view(r)),
    {
        let weight_str: Option<String> = match get_str_field(v, "x-mbx-used-weight") {
            Some(s) => Some(s),
            None => get_str_field(v, "x-mbx-used-weight-1m"),
        };
        match weight_str {
            Some(s) => match parse_weight(s.as_str()) {
                Some(w) => Some(self.update_weight(w)),
                None => None,
            },
            None => None,
        }
    }

    /// One classified event: a label feeds the correlation slot, a
    /// payload runs the extraction and decision.
    pub fn handle_event(&mut self, ev: LogEvent) -> (r: Option<UsageRecord>)
        ensures
            event_step(old(self)@, ev) == (final(self)@, opt_record_view(r)),
    {
        match ev {
            LogEvent::Label(text) => {
                self.handle_label(text);
                None
            },
            LogEvent::Payload(v) => self.handle_payload(&v),
        }
    }

    /// One raw log line, end to end: a line that decodes as JSON is
    /// treated as a payload, any other line becomes the new pending
    /// label. Decode failure is a normal branch, never an error.
    pub fn intercept(&mut self, text: &str) -> (r: Option<UsageRecord>)
        ensures
            !is_structured(text@) ==> final(self)@ == label_step(old(self)@, text@) && r is None,
            is_structured(text@) ==> payload_step(old(self)@, fields_of(text@)) == (
                final(self)@,
                opt_record_view(r),
            ),
    {
        match decode_structured(text) {
            Some(v) => self.handle_payload(&v),
            None => {
                self.handle_label(text.to_owned());
                None
            },
        }
    }
}

} // verus!
