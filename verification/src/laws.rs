//! Properties of the tracker that span several of its operations.

use crate::decimal::int_decimal;
use crate::request::{
    ascii_lower, lemma_wire_lower_name, payload_type, track_type_name, track_type_wire, Payload,
    TrackType,
};
use crate::props::{entries_map, has_key, insert_all, insert_entry, keys_distinct, lemma_insert_entry};
use crate::tracker::{device_id_key, revenue_key, TrackerView};
use vstd::prelude::*;

verus! {

/// A global property always wins: under each global key, an event carries
/// the global value, whatever properties it was given.
pub proof fn law_globals_win(v: TrackerView, properties: Option<Map<Seq<char>, Seq<char>>>, k: Seq<char>)
    requires
        v.global_props.contains_key(k),
    ensures
        v.with_globals(properties).contains_key(k),
        v.with_globals(properties)[k] == v.global_props[k],
{
}

/// An event property whose key no global property has reaches the event
/// unchanged, and an event carries no key that neither has.
pub proof fn law_event_properties_kept(
    v: TrackerView,
    properties: Map<Seq<char>, Seq<char>>,
    k: Seq<char>,
)
    ensures
        properties.contains_key(k) && !v.global_props.contains_key(k) ==> v.with_globals(
            Some(properties),
        ).contains_key(k) && v.with_globals(Some(properties))[k] == properties[k],
        v.with_globals(Some(properties)).contains_key(k) <==> (properties.contains_key(k)
            || v.global_props.contains_key(k)),
{
}

/// Once a device id has been taken, every later event carries it under
/// `__deviceId`, and the tracker reports it as its device id.
pub proof fn law_device_id_travels(
    v: TrackerView,
    id: Seq<char>,
    properties: Option<Map<Seq<char>, Seq<char>>>,
)
    requires
        v.store_session_device,
    ensures
        v.with_device_id(id).device_id == Some(id),
        v.with_device_id(id).with_globals(properties).contains_key(device_id_key()),
        v.with_device_id(id).with_globals(properties)[device_id_key()] == id,
{
}

/// Without storing session devices, answers never change the tracker.
pub proof fn law_answers_ignored_without_storing(v: TrackerView, answered: Option<Seq<char>>)
    requires
        !v.store_session_device,
    ensures
        v.after_answer(answered) == v,
{
}

/// Storing session devices, an answer naming a device id makes it the
/// tracker's device id (the text `NO_ID` aside, where none is known yet).
pub proof fn law_answer_adopts_device_id(v: TrackerView, d: Seq<char>)
    requires
        v.store_session_device,
        v.device_id is Some || d != "NO_ID"@,
    ensures
        v.after_answer(Some(d)).device_id == Some(d),
{
}

/// Handing the same answer twice is the same as handing it once.
pub proof fn law_answer_idempotent(v: TrackerView, answered: Option<Seq<char>>)
    ensures
        v.after_answer(answered).after_answer(answered) == v.after_answer(answered),
{
    if let Some(d) = answered {
        if d != v.known_device_id() && v.store_session_device {
            let w = v.after_answer(answered);
            assert(w.known_device_id() == d);
        }
    }
}

/// A disabled tracker sends nothing, in the editor or not; enabled and not
/// in the editor, it sends.
pub proof fn law_disable_switch(v: TrackerView)
    ensures
        (TrackerView { disabled: true, ..v }).is_disabled(),
        !v.in_editor ==> !(TrackerView { disabled: false, ..v }).is_disabled(),
        v.in_editor ==> ((TrackerView { disabled: false, ..v }).is_disabled() <==> !v.force_in_editor),
{
}

/// Setting a header gives it the new value, leaves the other headers as they
/// were, and keeps each header once.
pub proof fn law_set_header(headers: Seq<(Seq<char>, Seq<char>)>, k: Seq<char>, value: Seq<char>)
    requires
        keys_distinct(headers),
    ensures
        keys_distinct(insert_entry(headers, k, value)),
        entries_map(insert_entry(headers, k, value)) == entries_map(headers).insert(k, value),
        has_key(headers, k) ==> insert_entry(headers, k, value).len() == headers.len(),
        !has_key(headers, k) ==> insert_entry(headers, k, value) == headers.push((k, value)),
{
    lemma_insert_entry(headers, k, value);
}

/// Revenue carries the amount in decimal under `__revenue`, unless a global
/// property of that key overrides it.
pub proof fn law_revenue_amount(v: TrackerView, properties: Option<Map<Seq<char>, Seq<char>>>, amount: int)
    ensures
        v.revenue_properties(properties, amount).contains_key(revenue_key()),
        !v.global_props.contains_key(revenue_key()) ==> v.revenue_properties(properties, amount)[revenue_key()]
            == int_decimal(amount),
        v.global_props.contains_key(revenue_key()) ==> v.revenue_properties(properties, amount)[revenue_key()]
            == v.global_props[revenue_key()],
{
}

/// Revenue carries the same event properties as a tracked event with the
/// same properties, the amount aside.
pub proof fn law_revenue_like_track(
    v: TrackerView,
    properties: Option<Map<Seq<char>, Seq<char>>>,
    amount: int,
    k: Seq<char>,
)
    requires
        k != revenue_key(),
    ensures
        v.revenue_properties(properties, amount).contains_key(k) <==> v.with_globals(
            properties,
        ).contains_key(k),
        v.with_globals(properties).contains_key(k) ==> v.revenue_properties(properties, amount)[k]
            == v.with_globals(properties)[k],
{
}

/// Building a map from entries whose keys are distinct, such as those that
/// `to_entries` hands out, gives back the same entries in the same order.
pub proof fn law_entries_round_trip(s: Seq<(Seq<char>, Seq<char>)>)
    requires
        keys_distinct(s),
    ensures
        insert_all(Seq::empty(), s) == s,
    decreases s.len(),
{
    if s.len() > 0 {
        let t = s.drop_last();
        assert(keys_distinct(t)) by {
            assert forall|a: int, b: int|
                #![trigger t[a], t[b]]
                0 <= a < t.len() && 0 <= b < t.len() && a != b implies t[a].0 != t[b].0 by {
                assert(t[a] == s[a] && t[b] == s[b]);
            }
        }
        law_entries_round_trip(t);
        assert(!has_key(t, s.last().0)) by {
            if has_key(t, s.last().0) {
                let i = choose|i: int| 0 <= i < t.len() && #[trigger] t[i].0 == s.last().0;
                assert(s[i] == t[i]);
                assert(s[s.len() - 1].0 == s.last().0);
            }
        }
        assert(t.push(s.last()) =~= s);
    }
}

/// The type text an event is sent with is the name of its event type in
/// lower case.
pub proof fn law_type_text_is_lower_case_name(t: TrackType)
    ensures
        track_type_wire(t) == ascii_lower(track_type_name(t)),
{
    lemma_wire_lower_name(t);
}

/// Each kind of payload is sent with the type text of its own kind: a
/// tracked event as `track`, a user as `identify`, an increment as
/// `increment`, a decrement as `decrement`.
pub proof fn law_type_text_per_payload(p: Payload)
    ensures
        p is Track ==> track_type_wire(payload_type(p)) == "track"@,
        p is Identify ==> track_type_wire(payload_type(p)) == "identify"@,
        p is Increment ==> track_type_wire(payload_type(p)) == "increment"@,
        p is Decrement ==> track_type_wire(payload_type(p)) == "decrement"@,
{
}

/// A payload's event type is the one of its own kind, and no other kind has
/// it.
pub proof fn law_payload_type_matches_kind(p: Payload)
    ensures
        (payload_type(p) == TrackType::Track) == (p is Track),
        (payload_type(p) == TrackType::Identify) == (p is Identify),
        (payload_type(p) == TrackType::Increment) == (p is Increment),
        (payload_type(p) == TrackType::Decrement) == (p is Decrement),
{
}

/// Different event types are sent with different type texts.
pub proof fn law_type_texts_distinct(a: TrackType, b: TrackType)
    requires
        a != b,
    ensures
        track_type_wire(a) != track_type_wire(b),
{
    reveal_strlit("track");
    reveal_strlit("identify");
    reveal_strlit("increment");
    reveal_strlit("decrement");
    let x = track_type_wire(a);
    let y = track_type_wire(b);
    assert(x[0] != y[0] || x[1] != y[1]);
}

/// Taking a device id adds it under `__deviceId` and leaves every other
/// global property as it was, whether it is handed over directly or comes in
/// an answer.
pub proof fn law_device_id_keeps_other_globals(
    v: TrackerView,
    id: Seq<char>,
    answered: Option<Seq<char>>,
    k: Seq<char>,
)
    requires
        k != device_id_key(),
    ensures
        v.with_device_id(id).global_props.contains_key(k) == v.global_props.contains_key(k),
        v.global_props.contains_key(k) ==> v.with_device_id(id).global_props[k]
            == v.global_props[k],
        v.after_answer(answered).global_props.contains_key(k) == v.global_props.contains_key(k),
        v.global_props.contains_key(k) ==> v.after_answer(answered).global_props[k]
            == v.global_props[k],
        v.store_session_device ==> v.with_device_id(id).global_props.contains_key(device_id_key())
            && v.with_device_id(id).global_props[device_id_key()] == id,
{
}

} // verus!
