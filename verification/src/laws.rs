//! What holds of the state store whatever happens to it, proved of the
//! functions in `state` that the executable store is specified by.

use vstd::prelude::*;
use crate::call::{CallView, CallsignInfoView};
use crate::rig::SpotView;
use crate::seek::{lemma_position, lemma_position_none, position};
use crate::state::{cache_keys, radio_ids, receiver_ids, ModelView};

verus! {

/// The arrival of a spot leaves the cache with one entry per callsign at
/// most: a `Requested` entry is added only for a callsign that has none.
pub proof fn lemma_spot_keeps_one_entry(v: ModelView, spot: SpotView)
    requires
        v.wf(),
    ensures
        v.with_spot(spot).wf(),
{
    if v.wants_lookup(spot.call) {
        let keys = cache_keys(v.callsigns);
        lemma_position(keys, spot.call.callsign);
        let added = v.callsigns.push(CallsignInfoView::Requested(spot.call));
        assert forall|i: int, j: int| 0 <= i < j < added.len() implies added[i].call().callsign
            != added[j].call().callsign by {
            if j == v.callsigns.len() {
                assert(keys[i] != spot.call.callsign);
            }
        }
    }
}

/// The result of a lookup leaves the cache with one entry per callsign at
/// most: it replaces the entry of its callsign where there is one.
pub proof fn lemma_found_keeps_one_entry(v: ModelView, call: CallView)
    requires
        v.wf(),
    ensures
        v.with_found(call).wf(),
{
    let keys = cache_keys(v.callsigns);
    lemma_position(keys, call.callsign);
    let after = v.with_found(call).callsigns;
    match position(keys, call.callsign) {
        Some(p) => {
            assert forall|i: int, j: int| 0 <= i < j < after.len() implies after[i].call().callsign
                != after[j].call().callsign by {}
        },
        None => {
            assert forall|i: int, j: int| 0 <= i < j < after.len() implies after[i].call().callsign
                != after[j].call().callsign by {
                if j == v.callsigns.len() {
                    assert(keys[i] != call.callsign);
                }
            }
        },
    }
}

/// In a store, two cache entries for one callsign are one entry.
pub proof fn lemma_one_entry_per_callsign(v: ModelView, i: int, j: int)
    requires
        v.wf(),
        0 <= i < v.callsigns.len(),
        0 <= j < v.callsigns.len(),
        v.callsigns[i].call().callsign == v.callsigns[j].call().callsign,
    ensures
        i == j,
{
}

/// While the cache has an entry for a callsign, in whatever state, the
/// arrival of a spot of that callsign starts no lookup and leaves the cache
/// as it is.
pub proof fn lemma_no_second_lookup(v: ModelView, spot: SpotView)
    requires
        v.cache_entry(spot.call.callsign) is Some,
    ensures
        v.lookup_for(spot.call) is None,
        v.with_spot(spot).callsigns == v.callsigns,
{
}

/// Stepping a receiver up and then down at the same decimal place restores
/// the store, and so does stepping down and then up.
pub proof fn lemma_frequency_steps_are_inverse(v: ModelView, id: u128, digit: int)
    ensures
        v.with_frequency_up(id, digit).with_frequency_down(id, digit) == v,
        v.with_frequency_down(id, digit).with_frequency_up(id, digit) == v,
{
    let ids = receiver_ids(v.receivers);
    lemma_position(ids, id);
    match position(ids, id) {
        Some(p) => {
            let up = v.with_frequency_up(id, digit);
            let down = v.with_frequency_down(id, digit);
            assert(receiver_ids(up.receivers) =~= ids);
            assert(receiver_ids(down.receivers) =~= ids);
            assert(up.with_frequency_down(id, digit).receivers =~= v.receivers);
            assert(down.with_frequency_up(id, digit).receivers =~= v.receivers);
        },
        None => {},
    }
}

/// When a lookup has found a call, every stored spot of its callsign
/// carries the call and is otherwise what it was, every other spot is what
/// it was, and the cache holds the call as found.
pub proof fn lemma_found_reaches_stored_spots(v: ModelView, call: CallView)
    ensures
        v.with_found(call).spots.len() == v.spots.len(),
        forall|i: int|
            0 <= i < v.spots.len() ==> #[trigger] v.with_found(call).spots[i] == (if v.spots[i].call.callsign
                == call.callsign {
                v.spots[i].with_call(call)
            } else {
                v.spots[i]
            }),
        v.with_found(call).cache_entry(call.callsign) == Some(CallsignInfoView::Found(call)),
{
    let keys = cache_keys(v.callsigns);
    let after = v.with_found(call).callsigns;
    lemma_position(keys, call.callsign);
    match position(keys, call.callsign) {
        Some(p) => {
            assert(cache_keys(after) =~= keys);
        },
        None => {
            let n = v.callsigns.len() as int;
            assert forall|j: int| 0 <= j < n implies cache_keys(after)[j] != call.callsign by {
                assert(cache_keys(after)[j] == keys[j]);
            }
            crate::seek::lemma_position_is(cache_keys(after), call.callsign, n);
        },
    }
}

/// While the cache holds a call as found, an arriving spot of its callsign
/// is stored under that call at once, and no lookup starts.
pub proof fn lemma_cached_call_enriches_arrivals(v: ModelView, found: CallView, spot: SpotView)
    requires
        v.cache_entry(spot.call.callsign) == Some(CallsignInfoView::Found(found)),
    ensures
        v.with_spot(spot).spots == v.spots.push(spot.with_call(found)),
        v.with_spot(spot).callsigns == v.callsigns,
        v.lookup_for(spot.call) is None,
{
}

/// Once a lookup has found a call, the next spot of its callsign is stored
/// under that call, and its arrival starts no lookup.
pub proof fn lemma_found_enriches_next_spot(v: ModelView, call: CallView, spot: SpotView)
    requires
        spot.call.callsign == call.callsign,
    ensures
        v.with_found(call).with_spot(spot).spots == v.with_found(call).spots.push(
            spot.with_call(call),
        ),
        v.with_found(call).lookup_for(spot.call) is None,
{
    lemma_found_reaches_stored_spots(v, call);
    lemma_cached_call_enriches_arrivals(v.with_found(call), call, spot);
}

/// Trimming a list of more than `limit` spots leaves `limit` spots: the
/// ones that arrived last, in their order.
pub proof fn lemma_trim_keeps_latest(v: ModelView, limit: nat)
    requires
        v.spots.len() > limit,
    ensures
        v.with_spots_trimmed(limit).spots.len() == limit,
        forall|k: int|
            0 <= k < limit ==> #[trigger] v.with_spots_trimmed(limit).spots[k] == v.spots[v.spots.len()
                - limit + k],
{
}

/// Trimming a list of no more than `limit` spots changes nothing.
pub proof fn lemma_trim_within_limit(v: ModelView, limit: nat)
    requires
        v.spots.len() <= limit,
    ensures
        v.with_spots_trimmed(limit) == v,
{
}

/// An operation on a receiver the store does not hold changes nothing.
pub proof fn lemma_unknown_receiver_changes_nothing(
    v: ModelView,
    id: u128,
    digit: int,
    mode: Seq<char>,
    frequency: i64,
)
    requires
        forall|i: int| 0 <= i < v.receivers.len() ==> v.receivers[i].id != id,
    ensures
        v.with_mode(id, mode) == v,
        v.with_frequency_up(id, digit) == v,
        v.with_frequency_down(id, digit) == v,
        v.with_receiver_update(id, mode, frequency) == v,
        v.with_default_receiver(Some(id)) == v,
{
    lemma_position_none(receiver_ids(v.receivers), id);
}

/// A radio the store does not hold has no power state, and no command
/// switches it.
pub proof fn lemma_unknown_radio_has_no_state(v: ModelView, id: u128)
    requires
        forall|i: int| 0 <= i < v.radios.len() ==> v.radios[i].id != id,
    ensures
        v.radio_power_state(id) is None,
        v.power_command(id) is None,
{
    lemma_position_none(radio_ids(v.radios), id);
}

/// After the transport closed, the store holds none until the next connect.
pub proof fn lemma_closed_means_not_connected(v: ModelView)
    ensures
        v.without_connection().connection is None,
{
}

} // verus!
