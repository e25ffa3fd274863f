//! The state store as a mathematical value, and each of its operations as a
//! function on that value.  The executable store in `model` is specified
//! against these functions; the laws in `laws` are proved of them.

use vstd::prelude::*;
use crate::call::{CallView, CallsignInfoView};
use crate::log::LogEntryView;
use crate::rig::{
    CommandResponseView, CommandView, RadioView, ReceiverView, SpotView, VersionView,
};
use crate::seek::position;

verus! {

/// Everything the store holds.
pub struct ModelView {
    /// The address of the transport the store holds, if it holds one.
    pub connection: Option<Seq<char>>,
    pub receivers: Seq<ReceiverView>,
    pub radios: Seq<RadioView>,
    /// The receiver the user works with.
    pub default_receiver: Option<u128>,
    pub version: Option<VersionView>,
    /// The spots in order of arrival, oldest first.
    pub spots: Seq<SpotView>,
    pub show_receiver_list: bool,
    /// The imported log, if one is loaded.
    pub import: Option<Seq<LogEntryView>>,
    /// The callsign cache.
    pub callsigns: Seq<CallsignInfoView>,
}

/// The identifiers of the receivers, in order.
pub open spec fn receiver_ids(rs: Seq<ReceiverView>) -> Seq<u128> {
    Seq::new(rs.len(), |i: int| rs[i].id)
}

/// The identifiers of the radios, in order.
pub open spec fn radio_ids(rs: Seq<RadioView>) -> Seq<u128> {
    Seq::new(rs.len(), |i: int| rs[i].id)
}

/// The callsigns the cache has entries for, in order.
pub open spec fn cache_keys(cs: Seq<CallsignInfoView>) -> Seq<Seq<char>> {
    Seq::new(cs.len(), |i: int| cs[i].call().callsign)
}

/// The cache holds at most one entry for each callsign.
pub open spec fn one_entry_per_callsign(cs: Seq<CallsignInfoView>) -> bool {
    forall|i: int, j: int|
        #![trigger cs[i], cs[j]]
        0 <= i < j < cs.len() ==> cs[i].call().callsign != cs[j].call().callsign
}

/// The hertz that stepping decimal place `digit` of a nine-digit frequency
/// adds: place 0 is the most significant, place 8 the units.  Other places
/// add nothing.
pub open spec fn step_hz(digit: int) -> int {
    if 0 <= digit <= 8 {
        vstd::arithmetic::power::pow(10, (8 - digit) as nat)
    } else {
        0
    }
}

/// The country whose callsigns the lookup service knows.
pub open spec fn supported_country() -> Seq<char> {
    "United States"@
}

/// A lookup the caller is to start.
pub struct LookupView {
    /// The callsign to look up.
    pub callsign: Seq<char>,
    /// Where the lookup service files it.
    pub path: Seq<char>,
}

/// Where the lookup service files a call: `/out/{prefix}/{callsign}.json`.
pub open spec fn lookup_path(prefix: Seq<char>, callsign: Seq<char>) -> Seq<char> {
    "/out/"@ + prefix + "/"@ + callsign + ".json"@
}

/// The spots with `call` put on each one of its callsign.
pub open spec fn recalled(spots: Seq<SpotView>, call: CallView) -> Seq<SpotView> {
    Seq::new(
        spots.len(),
        |i: int|
            if spots[i].call.callsign == call.callsign {
                spots[i].with_call(call)
            } else {
                spots[i]
            },
    )
}

impl ModelView {
    /// The store before anything has happened.
    pub open spec fn empty() -> ModelView {
        ModelView {
            connection: None,
            receivers: Seq::empty(),
            radios: Seq::empty(),
            default_receiver: None,
            version: None,
            spots: Seq::empty(),
            show_receiver_list: false,
            import: None,
            callsigns: Seq::empty(),
        }
    }

    /// What always holds of a store: the cache has one entry per callsign at
    /// most, and the default receiver, if set, is one of the receivers.
    pub open spec fn wf(self) -> bool {
        &&& one_entry_per_callsign(self.callsigns)
        &&& self.default_receiver matches Some(id) ==> position(receiver_ids(self.receivers), id)
            is Some
    }

    /// The receivers replaced as a whole.  A default receiver that is no
    /// longer among them is unset.
    pub open spec fn with_receivers(self, receivers: Seq<ReceiverView>) -> ModelView {
        ModelView {
            receivers,
            default_receiver: match self.default_receiver {
                Some(id) => if position(receiver_ids(receivers), id) is Some {
                    Some(id)
                } else {
                    None
                },
                None => None,
            },
            ..self
        }
    }

    /// The radios replaced as a whole.
    pub open spec fn with_radios(self, radios: Seq<RadioView>) -> ModelView {
        ModelView { radios, ..self }
    }

    /// The version replaced.
    pub open spec fn with_version(self, version: VersionView) -> ModelView {
        ModelView { version: Some(version), ..self }
    }

    /// The default receiver set or unset.  Setting it to a receiver the store
    /// does not hold changes nothing.
    pub open spec fn with_default_receiver(self, receiver: Option<u128>) -> ModelView {
        match receiver {
            Some(id) => if position(receiver_ids(self.receivers), id) is Some {
                ModelView { default_receiver: Some(id), ..self }
            } else {
                self
            },
            None => ModelView { default_receiver: None, ..self },
        }
    }

    /// The receiver list shown if it was hidden, hidden if it was shown.
    pub open spec fn with_receiver_list_toggled(self) -> ModelView {
        ModelView { show_receiver_list: !self.show_receiver_list, ..self }
    }

    /// The first receiver under `id` switched to `mode`; nothing changed
    /// where there is none.
    pub open spec fn with_mode(self, id: u128, mode: Seq<char>) -> ModelView {
        match position(receiver_ids(self.receivers), id) {
            Some(i) => ModelView {
                receivers: self.receivers.update(i, ReceiverView { mode, ..self.receivers[i] }),
                ..self
            },
            None => self,
        }
    }

    /// The first receiver under `id` tuned to `frequency`; nothing changed
    /// where there is none.
    pub open spec fn with_frequency(self, id: u128, frequency: i64) -> ModelView {
        match position(receiver_ids(self.receivers), id) {
            Some(i) => ModelView {
                receivers: self.receivers.update(
                    i,
                    ReceiverView { frequency, ..self.receivers[i] },
                ),
                ..self
            },
            None => self,
        }
    }

    /// The frequency of the first receiver under `id`.
    pub open spec fn frequency_of(self, id: u128) -> Option<i64> {
        match position(receiver_ids(self.receivers), id) {
            Some(i) => Some(self.receivers[i].frequency),
            None => None,
        }
    }

    /// The first receiver under `id` stepped up at decimal place `digit`.
    /// The sum wraps round at the ends of the 64-bit range.
    pub open spec fn with_frequency_up(self, id: u128, digit: int) -> ModelView {
        match self.frequency_of(id) {
            Some(f) => self.with_frequency(id, f.wrapping_add(step_hz(digit) as i64)),
            None => self,
        }
    }

    /// The first receiver under `id` stepped down at decimal place `digit`.
    /// The difference wraps round at the ends of the 64-bit range.
    pub open spec fn with_frequency_down(self, id: u128, digit: int) -> ModelView {
        match self.frequency_of(id) {
            Some(f) => self.with_frequency(id, f.wrapping_sub(step_hz(digit) as i64)),
            None => self,
        }
    }

    /// The first receiver under `id` set to what the server reports of it;
    /// nothing changed where there is none.
    pub open spec fn with_receiver_update(
        self,
        id: u128,
        mode: Seq<char>,
        frequency: i64,
    ) -> ModelView {
        match position(receiver_ids(self.receivers), id) {
            Some(i) => ModelView {
                receivers: self.receivers.update(
                    i,
                    ReceiverView { id: self.receivers[i].id, frequency, mode },
                ),
                ..self
            },
            None => self,
        }
    }

    /// Whether the first radio under `id` is powered.
    pub open spec fn radio_power_state(self, id: u128) -> Option<bool> {
        match position(radio_ids(self.radios), id) {
            Some(i) => Some(self.radios[i].running),
            None => None,
        }
    }

    /// The command that switches the first radio under `id` on if it is off
    /// and off if it is on; none where there is no such radio.
    pub open spec fn power_command(self, id: u128) -> Option<CommandView> {
        match self.radio_power_state(id) {
            Some(running) => Some(CommandView::SetRunning { id, running: !running }),
            None => None,
        }
    }

    /// The `limit` spots that arrived last, in their order; all of them
    /// where there are no more than that.
    pub open spec fn with_spots_trimmed(self, limit: nat) -> ModelView {
        if self.spots.len() > limit {
            ModelView {
                spots: self.spots.subrange(self.spots.len() - limit, self.spots.len() as int),
                ..self
            }
        } else {
            self
        }
    }

    /// The cache entry for a callsign.
    pub open spec fn cache_entry(self, callsign: Seq<char>) -> Option<CallsignInfoView> {
        match position(cache_keys(self.callsigns), callsign) {
            Some(i) => Some(self.callsigns[i]),
            None => None,
        }
    }

    /// The call under which an arriving spot is stored: the cached one where
    /// the cache has found the callsign, else the spot's own.
    pub open spec fn enriched(self, call: CallView) -> CallView {
        match self.cache_entry(call.callsign) {
            Some(CallsignInfoView::Found(found)) => found,
            _ => call,
        }
    }

    /// Whether the arrival of a spot with this call starts a lookup: the
    /// cache has no entry for the callsign, its prefix is known and its
    /// country is the supported one.
    pub open spec fn wants_lookup(self, call: CallView) -> bool {
        &&& self.cache_entry(call.callsign) is None
        &&& call.prefix is Some
        &&& call.country == Some(supported_country())
    }

    /// The lookup that the arrival of a spot with this call starts, if it
    /// starts one.
    pub open spec fn lookup_for(self, call: CallView) -> Option<LookupView> {
        if self.wants_lookup(call) {
            Some(
                LookupView {
                    callsign: call.callsign,
                    path: lookup_path(call.prefix->0, call.callsign),
                },
            )
        } else {
            None
        }
    }

    /// A spot arrived.
    pub open spec fn with_spot(self, spot: SpotView) -> ModelView {
        ModelView {
            spots: self.spots.push(spot.with_call(self.enriched(spot.call))),
            callsigns: if self.wants_lookup(spot.call) {
                self.callsigns.push(CallsignInfoView::Requested(spot.call))
            } else {
                self.callsigns
            },
            ..self
        }
    }

    /// A lookup found `call`: the cache entry of its callsign becomes
    /// `Found`, and every stored spot of that callsign carries `call`.
    pub open spec fn with_found(self, call: CallView) -> ModelView {
        ModelView {
            spots: recalled(self.spots, call),
            callsigns: match position(cache_keys(self.callsigns), call.callsign) {
                Some(i) => self.callsigns.update(i, CallsignInfoView::Found(call)),
                None => self.callsigns.push(CallsignInfoView::Found(call)),
            },
            ..self
        }
    }

    /// A response of the server applied: a list replaces the one the store
    /// holds, a version replaces the version, an update sets the receiver it
    /// names, a spot arrives.
    pub open spec fn with_response(self, response: CommandResponseView) -> ModelView {
        match response {
            CommandResponseView::Receivers(receivers) => self.with_receivers(receivers),
            CommandResponseView::Radios(radios) => self.with_radios(radios),
            CommandResponseView::Version(version) => self.with_version(version),
            CommandResponseView::ReceiverUpdate { id, mode, frequency } => {
                self.with_receiver_update(id, mode, frequency)
            },
            CommandResponseView::Spot(spot) => self.with_spot(spot),
        }
    }

    /// The store holding a transport to `address`.
    pub open spec fn with_connection(self, address: Seq<char>) -> ModelView {
        ModelView { connection: Some(address), ..self }
    }

    /// The store holding no transport.
    pub open spec fn without_connection(self) -> ModelView {
        ModelView { connection: None, ..self }
    }

    /// The imported log replaced as a whole.
    pub open spec fn with_import(self, entries: Seq<LogEntryView>) -> ModelView {
        ModelView { import: Some(entries), ..self }
    }

    /// The imported log dropped.
    pub open spec fn without_import(self) -> ModelView {
        ModelView { import: None, ..self }
    }

    /// Whether a spot's country is new against the imported log: a log is
    /// loaded, the spot's country is resolved, and no entry of the log has
    /// that country.
    pub open spec fn new_country(self, spot: SpotView) -> bool {
        &&& self.import matches Some(entries)
        &&& spot.call.country matches Some(country)
        &&& forall|i: int| 0 <= i < entries.len() ==> entries[i].call.country != Some(country)
    }

    /// Whether a spot's state is new against the imported log: a log is
    /// loaded, the spot's state is known, and no entry of the log has that
    /// state.
    pub open spec fn new_state(self, spot: SpotView) -> bool {
        &&& self.import matches Some(entries)
        &&& spot.call.state matches Some(state)
        &&& forall|i: int| 0 <= i < entries.len() ==> entries[i].call.state != Some(state)
    }
}

} // verus!
