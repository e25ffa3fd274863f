//! The state store: the authoritative mirror of the server's devices, the
//! spots with their callsign cache, the imported log and the one transport
//! connection, with the operations that change them.
//!
//! The store performs no I/O.  An operation that asks the server for
//! something returns the command; the caller hands it to
//! [`Model::send_command`] and transmits the frame it gets.

use vstd::prelude::*;
use vstd::string::StringExecFns;
use crate::call::{Call, CallsignInfo};
use crate::decimal::{decimal_string, decimal_text};
use crate::laws::{lemma_found_keeps_one_entry, lemma_spot_keeps_one_entry};
use crate::log::{entries_of, skipped_of, LogEntry, LogRecord};
use crate::logfile::{adif_records, plain, read_records};
use crate::rig::{
    Command, CommandResponse, CommandResponseView, CommandView, Mode, Radio, Receiver,
    ReceiverView, Spot, Version,
};
use crate::seek::{lemma_position, lemma_position_is, lemma_position_none, position};
use crate::codec::{command_frame, encode_command};
use crate::state::{
    cache_keys, lookup_path, radio_ids, recalled, receiver_ids, step_hz, supported_country,
    LookupView, ModelView,
};
use crate::text::{opt_text, opt_view, views};
use crate::transport::{
    status_event, LookupFailure, Msg, Reaction, TransportEvent, WebSocketStatus, WebsocketMsgType,
};

verus! {

/// The state store.
pub struct Model {
    connection: Option<String>,
    receivers: Vec<Receiver>,
    radios: Vec<Radio>,
    default_receiver: Option<u128>,
    version: Option<Version>,
    spots: Vec<Spot>,
    show_receiver_list: bool,
    import: Option<Vec<LogEntry>>,
    callsigns: Vec<CallsignInfo>,
}

impl View for Model {
    type V = ModelView;

    closed spec fn view(&self) -> ModelView {
        ModelView {
            connection: opt_text(self.connection),
            receivers: views(self.receivers@),
            radios: views(self.radios@),
            default_receiver: self.default_receiver,
            version: opt_view(self.version),
            spots: views(self.spots@),
            show_receiver_list: self.show_receiver_list,
            import: match self.import {
                Some(entries) => Some(views(entries@)),
                None => None,
            },
            callsigns: views(self.callsigns@),
        }
    }
}

fn find_receiver(receivers: &Vec<Receiver>, id: u128) -> (r: Option<usize>)
    ensures
        match r {
            Some(i) => position(receiver_ids(views(receivers@)), id) == Some(i as int),
            None => position(receiver_ids(views(receivers@)), id) is None,
        },
{
    let ghost keys = receiver_ids(views(receivers@));
    let mut i: usize = 0;
    while i < receivers.len()
        invariant
            i <= receivers.len(),
            keys == receiver_ids(views(receivers@)),
            forall|j: int| 0 <= j < i ==> keys[j] != id,
        decreases receivers.len() - i,
    {
        if receivers[i].id == id {
            proof {
                lemma_position_is(keys, id, i as int);
            }
            return Some(i);
        }
        i += 1;
    }
    proof {
        lemma_position_none(keys, id);
    }
    None
}

fn find_radio(radios: &Vec<Radio>, id: u128) -> (r: Option<usize>)
    ensures
        match r {
            Some(i) => position(radio_ids(views(radios@)), id) == Some(i as int),
            None => position(radio_ids(views(radios@)), id) is None,
        },
{
    let ghost keys = radio_ids(views(radios@));
    let mut i: usize = 0;
    while i < radios.len()
        invariant
            i <= radios.len(),
            keys == radio_ids(views(radios@)),
            forall|j: int| 0 <= j < i ==> keys[j] != id,
        decreases radios.len() - i,
    {
        if radios[i].id == id {
            proof {
                lemma_position_is(keys, id, i as int);
            }
            return Some(i);
        }
        i += 1;
    }
    proof {
        lemma_position_none(keys, id);
    }
    None
}

fn find_entry(callsigns: &Vec<CallsignInfo>, callsign: &String) -> (r: Option<usize>)
    ensures
        match r {
            Some(i) => position(cache_keys(views(callsigns@)), callsign@) == Some(i as int),
            None => position(cache_keys(views(callsigns@)), callsign@) is None,
        },
{
    let ghost keys = cache_keys(views(callsigns@));
    let mut i: usize = 0;
    while i < callsigns.len()
        invariant
            i <= callsigns.len(),
            keys == cache_keys(views(callsigns@)),
            forall|j: int| 0 <= j < i ==> keys[j] != callsign@,
        decreases callsigns.len() - i,
    {
        let same = match &callsigns[i] {
            CallsignInfo::Requested(c) => c.callsign == *callsign,
            CallsignInfo::Found(c) => c.callsign == *callsign,
            CallsignInfo::NotFound(c) => c.callsign == *callsign,
        };
        if same {
            proof {
                lemma_position_is(keys, callsign@, i as int);
            }
            return Some(i);
        }
        i += 1;
    }
    proof {
        lemma_position_none(keys, callsign@);
    }
    None
}

/// The hertz of one step at decimal place `digit`.
pub fn step_of(digit: i32) -> (r: i64)
    ensures
        r == step_hz(digit as int),
{
    proof {
        reveal_with_fuel(vstd::arithmetic::power::pow, 10);
    }
    if digit == 0 {
        100_000_000
    } else if digit == 1 {
        10_000_000
    } else if digit == 2 {
        1_000_000
    } else if digit == 3 {
        100_000
    } else if digit == 4 {
        10_000
    } else if digit == 5 {
        1_000
    } else if digit == 6 {
        100
    } else if digit == 7 {
        10
    } else if digit == 8 {
        1
    } else {
        0
    }
}

/// Why a log file was not imported.
#[derive(Debug, PartialEq, Eq)]
pub enum ImportError {
    /// The file is not one that is read.
    Unreadable,
}

/// A lookup the caller is to start.  Whatever handle the lookup has is the
/// caller's to keep, filed under the callsign; its end is handed to
/// [`Model::callsign_info_ready`].
#[derive(Debug, PartialEq, Eq)]
pub struct Lookup {
    /// The callsign to look up.
    pub callsign: String,
    /// Where the lookup service files it.
    pub path: String,
}

impl View for Lookup {
    type V = LookupView;

    open spec fn view(&self) -> LookupView {
        LookupView { callsign: self.callsign@, path: self.path@ }
    }
}

/// What applying a response of the server came to.
#[derive(Debug, PartialEq, Eq)]
pub enum Applied {
    /// The store took the response.
    Done,
    /// The response is about a receiver the store does not hold; nothing
    /// changed.
    UnknownReceiver,
    /// The store took a spot, and the caller is to start this lookup.
    Lookup(Lookup),
}

/// Why a command was not sent.
#[derive(Debug, PartialEq, Eq)]
pub enum SendError {
    /// The store holds no transport.
    NotConnected,
}

/// Where the lookup service files a call.
pub fn lookup_path_string(prefix: &String, callsign: &String) -> (path: String)
    ensures
        path@ == lookup_path(prefix@, callsign@),
{
    let mut path = String::from_str("/out/");
    path.append(prefix.as_str());
    path.append("/");
    path.append(callsign.as_str());
    path.append(".json");
    path
}

fn is_supported(country: &Option<String>) -> (r: bool)
    ensures
        r == (opt_text(*country) == Some(supported_country())),
{
    match country {
        Some(name) => *name == String::from_str("United States"),
        None => false,
    }
}

fn recall(spots: &mut Vec<Spot>, call: &Call)
    ensures
        views(final(spots)@) == recalled(views(old(spots)@), call@),
{
    let ghost before = views(spots@);
    let mut i: usize = 0;
    while i < spots.len()
        invariant
            i <= spots.len(),
            spots.len() == before.len(),
            forall|j: int| 0 <= j < i ==> spots@[j]@ == #[trigger] recalled(before, call@)[j],
            forall|j: int| i <= j < spots.len() ==> spots@[j]@ == #[trigger] before[j],
        decreases spots.len() - i,
    {
        if spots[i].call.callsign == call.callsign {
            let mut spot = spots[i].clone();
            spot.call = call.clone();
            spots.set(i, spot);
        }
        i += 1;
    }
}

proof fn lemma_update_keeps_ids(rs: Seq<ReceiverView>, i: int, r: ReceiverView)
    requires
        0 <= i < rs.len(),
        r.id == rs[i].id,
    ensures
        receiver_ids(rs.update(i, r)) == receiver_ids(rs),
{
}

impl Model {
    /// Every store is well-formed, at every moment.  The lists are changed
    /// in local variables and swapped back in, so that no call changes a
    /// list while the store holds it.
    #[verifier::type_invariant]
    spec fn valid(self) -> bool {
        self@.wf()
    }

    /// Puts `updated` in the place of the receiver at `i`, whose identifier
    /// it has.
    fn replace_receiver(&mut self, i: usize, updated: Receiver)
        requires
            i < old(self)@.receivers.len(),
            updated@.id == old(self)@.receivers[i as int].id,
        ensures
            final(self)@ == (ModelView {
                receivers: old(self)@.receivers.update(i as int, updated@),
                ..old(self)@
            }),
    {
        proof {
            use_type_invariant(&*self);
            lemma_update_keeps_ids(self@.receivers, i as int, updated@);
        }
        let ghost before = views(self.receivers@);
        let default = self.default_receiver;
        self.default_receiver = None;
        let mut receivers = Vec::new();
        std::mem::swap(&mut receivers, &mut self.receivers);
        receivers.set(i, updated);
        std::mem::swap(&mut receivers, &mut self.receivers);
        proof {
            assert(views(self.receivers@) =~= before.update(i as int, updated@));
        }
        self.default_receiver = default;
    }

    /// Puts `entry` in the place of the cache entry at `i`, whose callsign
    /// it has.
    fn replace_entry(&mut self, i: usize, entry: CallsignInfo)
        requires
            i < old(self)@.callsigns.len(),
            entry@.call().callsign == old(self)@.callsigns[i as int].call().callsign,
            (ModelView {
                callsigns: old(self)@.callsigns.update(i as int, entry@),
                ..old(self)@
            }).wf(),
        ensures
            final(self)@ == (ModelView {
                callsigns: old(self)@.callsigns.update(i as int, entry@),
                ..old(self)@
            }),
    {
        proof {
            use_type_invariant(&*self);
        }
        let ghost before = views(self.callsigns@);
        let mut callsigns = Vec::new();
        std::mem::swap(&mut callsigns, &mut self.callsigns);
        callsigns.set(i, entry);
        proof {
            assert(views(callsigns@) =~= before.update(i as int, entry@));
        }
        std::mem::swap(&mut callsigns, &mut self.callsigns);
    }

    /// Adds a cache entry for a callsign that has none.
    fn push_entry(&mut self, entry: CallsignInfo)
        requires
            (ModelView { callsigns: old(self)@.callsigns.push(entry@), ..old(self)@ }).wf(),
        ensures
            final(self)@ == (ModelView {
                callsigns: old(self)@.callsigns.push(entry@),
                ..old(self)@
            }),
    {
        proof {
            use_type_invariant(&*self);
        }
        let ghost before = views(self.callsigns@);
        let mut callsigns = Vec::new();
        std::mem::swap(&mut callsigns, &mut self.callsigns);
        callsigns.push(entry);
        proof {
            assert(views(callsigns@) =~= before.push(entry@));
        }
        std::mem::swap(&mut callsigns, &mut self.callsigns);
    }

    /// Adds a spot behind the others.
    fn push_spot(&mut self, spot: Spot)
        ensures
            final(self)@ == (ModelView { spots: old(self)@.spots.push(spot@), ..old(self)@ }),
    {
        proof {
            use_type_invariant(&*self);
        }
        let ghost before = views(self.spots@);
        let mut spots = Vec::new();
        std::mem::swap(&mut spots, &mut self.spots);
        spots.push(spot);
        std::mem::swap(&mut spots, &mut self.spots);
        proof {
            assert(views(self.spots@) =~= before.push(spot@));
        }
    }

    /// An empty store without a connection.
    pub fn new() -> (m: Model)
        ensures
            m@ == ModelView::empty(),
            m@.wf(),
    {
        let m = Model {
            connection: None,
            receivers: Vec::new(),
            radios: Vec::new(),
            default_receiver: None,
            version: None,
            spots: Vec::new(),
            show_receiver_list: false,
            import: None,
            callsigns: Vec::new(),
        };
        assert(m@.receivers =~= Seq::empty());
        assert(m@.radios =~= Seq::empty());
        assert(m@.spots =~= Seq::empty());
        assert(m@.callsigns =~= Seq::empty());
        m
    }

    /// Replaces the receivers as a whole.  A default receiver that is not
    /// among the new ones is unset.
    pub fn set_receivers(&mut self, receivers: Vec<Receiver>)
        ensures
            final(self)@ == old(self)@.with_receivers(views(receivers@)),
            final(self)@.wf(),
    {
        proof {
            use_type_invariant(&*self);
        }
        let default = match self.default_receiver {
            Some(id) => if find_receiver(&receivers, id).is_some() {
                Some(id)
            } else {
                None
            },
            None => None,
        };
        self.default_receiver = None;
        self.receivers = receivers;
        self.default_receiver = default;
    }

    /// Replaces the radios as a whole.
    pub fn set_radios(&mut self, radios: Vec<Radio>)
        ensures
            final(self)@ == old(self)@.with_radios(views(radios@)),
            final(self)@.wf(),
    {
        proof {
            use_type_invariant(&*self);
        }
        self.radios = radios;
    }

    /// Replaces the server's version.
    pub fn set_version(&mut self, version: Version)
        ensures
            final(self)@ == old(self)@.with_version(version@),
            final(self)@.wf(),
    {
        proof {
            use_type_invariant(&*self);
        }
        self.version = Some(version);
    }

    /// Sets or unsets the default receiver.  Returns whether the store took
    /// the value: it does not where the receiver is not one it holds.
    pub fn set_default_receiver(&mut self, receiver: Option<u128>) -> (taken: bool)
        ensures
            final(self)@ == old(self)@.with_default_receiver(receiver),
            final(self)@.wf(),
            taken == (receiver matches Some(id) ==> position(
                receiver_ids(old(self)@.receivers),
                id,
            ) is Some),
    {
        proof {
            use_type_invariant(&*self);
        }
        match receiver {
            Some(id) => {
                if find_receiver(&self.receivers, id).is_some() {
                    self.default_receiver = Some(id);
                    true
                } else {
                    false
                }
            },
            None => {
                self.default_receiver = None;
                true
            },
        }
    }

    /// Shows the receiver list if it is hidden, hides it if it is shown.
    pub fn toggle_receiver_list(&mut self)
        ensures
            final(self)@ == old(self)@.with_receiver_list_toggled(),
            final(self)@.wf(),
    {
        proof {
            use_type_invariant(&*self);
        }
        self.show_receiver_list = !self.show_receiver_list;
    }

    /// Switches the first receiver under `receiver_id` to `mode` and returns
    /// the command that asks the server for the same.  Where the store holds
    /// no such receiver nothing changes and there is no command.
    pub fn change_receiver_mode(&mut self, receiver_id: u128, mode: Mode) -> (command: Option<
        Command,
    >)
        ensures
            final(self)@ == old(self)@.with_mode(receiver_id, mode@),
            final(self)@.wf(),
            opt_view(command) == (if position(receiver_ids(old(self)@.receivers), receiver_id)
                is Some {
                Some(CommandView::SetMode { mode: mode@, id: receiver_id })
            } else {
                None
            }),
    {
        proof {
            use_type_invariant(&*self);
        }
        let command = match find_receiver(&self.receivers, receiver_id) {
            Some(i) => {
                let updated = Receiver {
                    id: self.receivers[i].id,
                    frequency: self.receivers[i].frequency,
                    mode: mode.clone(),
                };
                self.replace_receiver(i, updated);
                Some(Command::SetMode { mode, id: receiver_id })
            },
            None => None,
        };
        proof {
            use_type_invariant(&*self);
        }
        command
    }

    /// Tunes the receiver at `i`.
    fn tune(&mut self, i: usize, frequency: i64)
        requires
            i < old(self)@.receivers.len(),
        ensures
            final(self)@ == (ModelView {
                receivers: old(self)@.receivers.update(
                    i as int,
                    ReceiverView { frequency, ..old(self)@.receivers[i as int] },
                ),
                ..old(self)@
            }),
    {
        proof {
            use_type_invariant(&*self);
        }
        let updated = Receiver {
            id: self.receivers[i].id,
            frequency,
            mode: self.receivers[i].mode.clone(),
        };
        self.replace_receiver(i, updated);
    }

    /// Steps the first receiver under `receiver_id` up at decimal place
    /// `digit` and returns the command that tunes the server's receiver to
    /// the new frequency.  The frequency is not held to any band; the sum
    /// wraps round at the ends of the 64-bit range.  Where the store holds no
    /// such receiver nothing changes and there is no command.
    pub fn frequency_up(&mut self, receiver_id: u128, digit: i32) -> (command: Option<Command>)
        ensures
            final(self)@ == old(self)@.with_frequency_up(receiver_id, digit as int),
            final(self)@.wf(),
            opt_view(command) == (match final(self)@.frequency_of(receiver_id) {
                Some(f) => Some(
                    CommandView::SetFrequency { frequency: decimal_text(f as int), id: receiver_id },
                ),
                None => None,
            }),
    {
        proof {
            use_type_invariant(&*self);
        }
        let command = match find_receiver(&self.receivers, receiver_id) {
            Some(i) => {
                let frequency = self.receivers[i].frequency.wrapping_add(step_of(digit));
                proof {
                    lemma_update_keeps_ids(
                        self@.receivers,
                        i as int,
                        ReceiverView { frequency, ..self@.receivers[i as int] },
                    );
                }
                self.tune(i, frequency);
                Some(
                    Command::SetFrequency { frequency: decimal_string(frequency), id: receiver_id },
                )
            },
            None => None,
        };
        proof {
            use_type_invariant(&*self);
        }
        command
    }

    /// Steps the first receiver under `receiver_id` down at decimal place
    /// `digit` and returns the command that tunes the server's receiver to
    /// the new frequency.  The frequency is not held to any band, so it may
    /// become negative; the difference wraps round at the ends of the 64-bit
    /// range.  Where the store holds no such receiver nothing changes and
    /// there is no command.
    pub fn frequency_down(&mut self, receiver_id: u128, digit: i32) -> (command: Option<Command>)
        ensures
            final(self)@ == old(self)@.with_frequency_down(receiver_id, digit as int),
            final(self)@.wf(),
            opt_view(command) == (match final(self)@.frequency_of(receiver_id) {
                Some(f) => Some(
                    CommandView::SetFrequency { frequency: decimal_text(f as int), id: receiver_id },
                ),
                None => None,
            }),
    {
        proof {
            use_type_invariant(&*self);
        }
        let command = match find_receiver(&self.receivers, receiver_id) {
            Some(i) => {
                let frequency = self.receivers[i].frequency.wrapping_sub(step_of(digit));
                proof {
                    lemma_update_keeps_ids(
                        self@.receivers,
                        i as int,
                        ReceiverView { frequency, ..self@.receivers[i as int] },
                    );
                }
                self.tune(i, frequency);
                Some(
                    Command::SetFrequency { frequency: decimal_string(frequency), id: receiver_id },
                )
            },
            None => None,
        };
        proof {
            use_type_invariant(&*self);
        }
        command
    }

    /// Sets the first receiver under `receiver_id` to the mode and frequency
    /// the server reports.  Returns whether the store holds such a receiver;
    /// where it does not, nothing changes and no receiver is made.
    pub fn update_receiver(&mut self, receiver_id: u128, mode: Mode, frequency: i64) -> (known:
        bool)
        ensures
            final(self)@ == old(self)@.with_receiver_update(receiver_id, mode@, frequency),
            final(self)@.wf(),
            known == (position(receiver_ids(old(self)@.receivers), receiver_id) is Some),
    {
        proof {
            use_type_invariant(&*self);
        }
        let known = match find_receiver(&self.receivers, receiver_id) {
            Some(i) => {
                let updated = Receiver { id: self.receivers[i].id, frequency, mode };
                self.replace_receiver(i, updated);
                true
            },
            None => false,
        };
        proof {
            use_type_invariant(&*self);
        }
        known
    }

    /// Whether the first radio under `radio_id` is powered; `None` where the
    /// store holds no such radio.
    pub fn get_radio_power_state(&self, radio_id: u128) -> (running: Option<bool>)
        ensures
            running == self@.radio_power_state(radio_id),
    {
        match find_radio(&self.radios, radio_id) {
            Some(i) => Some(self.radios[i].running),
            None => None,
        }
    }

    /// The command that switches the first radio under `radio_id` on if it
    /// is off and off if it is on.  The store keeps the state it has until
    /// the server reports the radios again.  Where the store holds no such
    /// radio there is no command.
    pub fn toggle_power(&self, radio_id: u128) -> (command: Option<Command>)
        ensures
            opt_view(command) == self@.power_command(radio_id),
    {
        match self.get_radio_power_state(radio_id) {
            Some(running) => Some(Command::SetRunning { id: radio_id, running: !running }),
            None => None,
        }
    }

    /// Drops the oldest spots beyond the `limit` that arrived last.
    pub fn trim_spots(&mut self, limit: usize)
        ensures
            final(self)@ == old(self)@.with_spots_trimmed(limit as nat),
            final(self)@.wf(),
    {
        proof {
            use_type_invariant(&*self);
        }
        if self.spots.len() > limit {
            let ghost before = self.spots@;
            let mut spots = Vec::new();
            std::mem::swap(&mut spots, &mut self.spots);
            let drain = spots.len() - limit;
            let mut kept = spots.split_off(drain);
            std::mem::swap(&mut kept, &mut self.spots);
            assert(views(self.spots@) =~= views(before).subrange(
                before.len() - limit,
                before.len() as int,
            ));
        }
        proof {
            use_type_invariant(&*self);
        }
    }

    /// Stores an arriving spot.
    ///
    /// Where the cache has found the spot's callsign, the spot is stored
    /// under the cached call.  Where the cache has any other entry for the
    /// callsign, the spot is stored as it came and nothing is asked.  Where
    /// the cache has no entry, the spot is stored as it came, and if the
    /// call has a prefix and its country is the supported one, the cache
    /// gets a `Requested` entry and the lookup is returned: the caller
    /// starts it.
    pub fn add_spot(&mut self, spot: Spot) -> (lookup: Option<Lookup>)
        ensures
            final(self)@ == old(self)@.with_spot(spot@),
            final(self)@.wf(),
            opt_view(lookup) == old(self)@.lookup_for(spot@.call),
    {
        proof {
            use_type_invariant(&*self);
        }
        let mut spot = spot;
        let ghost arrived = spot@;
        let ghost cache = self@.callsigns;
        let mut lookup: Option<Lookup> = None;
        proof {
            use_type_invariant(&*self);
            lemma_position(cache_keys(cache), arrived.call.callsign);
            lemma_spot_keeps_one_entry(self@, arrived);
        }
        match find_entry(&self.callsigns, &spot.call.callsign) {
            Some(i) => {
                match &self.callsigns[i] {
                    CallsignInfo::Found(call) => {
                        spot.call = call.clone();
                    },
                    _ => {},
                }
            },
            None => {
                if is_supported(&spot.call.country) {
                    match &spot.call.prefix {
                        Some(prefix) => {
                            lookup = Some(
                                Lookup {
                                    callsign: spot.call.callsign.clone(),
                                    path: lookup_path_string(prefix, &spot.call.callsign),
                                },
                            );
                            self.push_entry(CallsignInfo::Requested(spot.call.clone()));
                        },
                        None => {},
                    }
                }
            },
        }
        self.push_spot(spot);
        proof {
            use_type_invariant(&*self);
        }
        lookup
    }

    /// Takes the result of a successful lookup: every stored spot of the
    /// call's callsign now carries `call`, and the cache entry of the
    /// callsign is `Found(call)`, replacing the entry there was or added
    /// where there was none.
    pub fn cache_callsign_info(&mut self, call: Call)
        ensures
            final(self)@ == old(self)@.with_found(call@),
            final(self)@.wf(),
    {
        proof {
            use_type_invariant(&*self);
            lemma_found_keeps_one_entry(self@, call@);
            lemma_position(cache_keys(self@.callsigns), call@.callsign);
        }
        let mut spots = Vec::new();
        std::mem::swap(&mut spots, &mut self.spots);
        recall(&mut spots, &call);
        std::mem::swap(&mut spots, &mut self.spots);
        match find_entry(&self.callsigns, &call.callsign) {
            Some(i) => self.replace_entry(i, CallsignInfo::Found(call)),
            None => self.push_entry(CallsignInfo::Found(call)),
        }
        proof {
            use_type_invariant(&*self);
        }
    }

    /// Takes hold of a transport to `ws`.  The store holds one transport at
    /// most: where it held one already, the new one takes its place and
    /// `true` is returned, so that the caller closes the old transport
    /// before it opens the new one.
    pub fn connect(&mut self, ws: &str) -> (replaced: bool)
        ensures
            final(self)@ == old(self)@.with_connection(ws@),
            final(self)@.wf(),
            replaced == (old(self)@.connection is Some),
    {
        proof {
            use_type_invariant(&*self);
        }
        let replaced = self.connection.is_some();
        self.connection = Some(String::from_str(ws));
        replaced
    }

    /// Lets go of the transport.
    pub fn disconnect(&mut self)
        ensures
            final(self)@ == old(self)@.without_connection(),
            final(self)@.wf(),
    {
        proof {
            use_type_invariant(&*self);
        }
        self.connection = None;
    }

    /// Whether the store holds a transport.
    pub fn is_connected(&self) -> (connected: bool)
        ensures
            connected == (self@.connection is Some),
    {
        self.connection.is_some()
    }

    /// The text frame to transmit for `cmd`, or `NotConnected` where the
    /// store holds no transport: the command is then dropped.
    pub fn send_command(&self, cmd: &Command) -> (sent: Result<String, SendError>)
        ensures
            match sent {
                Ok(frame) => self@.connection is Some && frame@ == command_frame(cmd@),
                Err(e) => self@.connection is None && e == SendError::NotConnected,
            },
    {
        if self.connection.is_some() {
            Ok(encode_command(cmd))
        } else {
            Err(SendError::NotConnected)
        }
    }

    /// Takes a delivery of the transport.
    ///
    /// A change of status becomes its application event; when the transport
    /// closed or failed the store lets go of it, and nothing is sent until a
    /// new `connect`.  A text frame is to be decoded as a command response,
    /// a binary frame is audio, and anything else is dropped.
    pub fn on_transport_event(&mut self, event: TransportEvent) -> (reaction: Reaction)
        ensures
            final(self)@.wf(),
            final(self)@ == (match event {
                TransportEvent::Status(WebSocketStatus::Closed) => old(self)@.without_connection(),
                TransportEvent::Status(WebSocketStatus::Error) => old(self)@.without_connection(),
                _ => old(self)@,
            }),
            match event {
                TransportEvent::Status(WebSocketStatus::Opened) => reaction == Reaction::Deliver(
                    Msg::Connected,
                ),
                TransportEvent::Status(_) => reaction == Reaction::Deliver(Msg::Disconnected),
                TransportEvent::Message(WebsocketMsgType::BinaryMsg(bytes)) => reaction
                    == Reaction::Deliver(Msg::ReceivedAudio(bytes)),
                TransportEvent::Message(WebsocketMsgType::TextMsg(text)) => reaction
                    == Reaction::Decode(text),
                TransportEvent::Unexpected => reaction is Drop,
            },
    {
        proof {
            use_type_invariant(&*self);
        }
        match event {
            TransportEvent::Status(status) => {
                match status {
                    WebSocketStatus::Opened => {},
                    _ => {
                        self.disconnect();
                    },
                }
                Reaction::Deliver(status_event(status))
            },
            TransportEvent::Message(WebsocketMsgType::BinaryMsg(bytes)) => Reaction::Deliver(
                Msg::ReceivedAudio(bytes),
            ),
            TransportEvent::Message(WebsocketMsgType::TextMsg(text)) => Reaction::Decode(text),
            TransportEvent::Unexpected => Reaction::Drop,
        }
    }

    /// Applies a decoded response of the server to the store.
    pub fn apply_response(&mut self, response: CommandResponse) -> (applied: Applied)
        ensures
            final(self)@ == old(self)@.with_response(response@),
            final(self)@.wf(),
            match response@ {
                CommandResponseView::ReceiverUpdate { id, .. } => if position(
                    receiver_ids(old(self)@.receivers),
                    id,
                ) is Some {
                    applied is Done
                } else {
                    applied is UnknownReceiver
                },
                CommandResponseView::Spot(spot) => match old(self)@.lookup_for(spot.call) {
                    Some(lookup) => applied matches Applied::Lookup(l) && l@ == lookup,
                    None => applied is Done,
                },
                _ => applied is Done,
            },
    {
        proof {
            use_type_invariant(&*self);
        }
        match response {
            CommandResponse::Receivers(receivers) => {
                self.set_receivers(receivers);
                Applied::Done
            },
            CommandResponse::Radios(radios) => {
                self.set_radios(radios);
                Applied::Done
            },
            CommandResponse::Version(version) => {
                self.set_version(version);
                Applied::Done
            },
            CommandResponse::ReceiverUpdate { id, mode, frequency } => {
                if self.update_receiver(id, mode, frequency) {
                    Applied::Done
                } else {
                    Applied::UnknownReceiver
                }
            },
            CommandResponse::Spot(spot) => {
                match self.add_spot(spot) {
                    Some(lookup) => Applied::Lookup(lookup),
                    None => Applied::Done,
                }
            },
        }
    }

    /// Takes the end of a lookup.  A call that was found is cached and put
    /// on the stored spots of its callsign.  A failure changes nothing: the
    /// `Requested` entry stays, and the callsign is not asked for again.
    pub fn callsign_info_ready(&mut self, answer: Result<Call, LookupFailure>)
        ensures
            final(self)@.wf(),
            final(self)@ == (match answer {
                Ok(call) => old(self)@.with_found(call@),
                Err(_) => old(self)@,
            }),
    {
        proof {
            use_type_invariant(&*self);
        }
        match answer {
            Ok(call) => {
                self.cache_callsign_info(call);
            },
            Err(_) => {},
        }
    }

    /// Replaces the imported log by the contacts of `records`.  A record
    /// that stands for no contact is left out; the places of those records
    /// are returned.
    pub fn import_records(&mut self, records: &Vec<LogRecord>) -> (skipped: Vec<usize>)
        ensures
            final(self)@ == old(self)@.with_import(entries_of(views(records@))),
            final(self)@.wf(),
            skipped@ == skipped_of(views(records@)),
    {
        proof {
            use_type_invariant(&*self);
        }
        let ghost all = views(records@);
        let mut entries: Vec<LogEntry> = Vec::new();
        let mut skipped: Vec<usize> = Vec::new();
        let mut i: usize = 0;
        while i < records.len()
            invariant
                i <= records.len(),
                all == views(records@),
                views(entries@) == entries_of(all.take(i as int)),
                skipped@ == skipped_of(all.take(i as int)),
            decreases records.len() - i,
        {
            proof {
                let next = all.take(i + 1);
                assert(next.drop_last() =~= all.take(i as int));
            }
            match LogEntry::from_adif_record(&records[i]) {
                Ok(entry) => {
                    entries.push(entry);
                },
                Err(_) => {
                    skipped.push(i);
                },
            }
            i += 1;
        }
        proof {
            assert(all.take(i as int) =~= all);
        }
        self.import = Some(entries);
        skipped
    }

    /// Imports a log file in the ADIF text format, replacing the imported
    /// log as a whole.  A record that stands for no contact is left out and
    /// the import goes on; the places of those records are returned.  A
    /// file that is not read changes nothing.
    pub fn load_adif_data(&mut self, data: &[u8]) -> (r: Result<Vec<usize>, ImportError>)
        ensures
            final(self)@.wf(),
            match r {
                Ok(skipped) => {
                    &&& plain(data@)
                    &&& final(self)@ == old(self)@.with_import(entries_of(adif_records(data@)))
                    &&& skipped@ == skipped_of(adif_records(data@))
                },
                Err(e) => {
                    &&& !plain(data@)
                    &&& final(self)@ == old(self)@
                    &&& e == ImportError::Unreadable
                },
            },
    {
        proof {
            use_type_invariant(&*self);
        }
        match read_records(data) {
            Some(records) => Ok(self.import_records(&records)),
            None => Err(ImportError::Unreadable),
        }
    }

    /// Drops the imported log.
    pub fn clear_adif_data(&mut self)
        ensures
            final(self)@ == old(self)@.without_import(),
            final(self)@.wf(),
    {
        proof {
            use_type_invariant(&*self);
        }
        self.import = None;
    }

    /// Whether a spot's country is new against the imported log.
    pub fn new_country(&self, spot: &Spot) -> (r: bool)
        ensures
            r == self@.new_country(spot@),
    {
        match &self.import {
            Some(entries) => match &spot.call.country {
                Some(country) => {
                    let mut i: usize = 0;
                    while i < entries.len()
                        invariant
                            i <= entries.len(),
                            self@.import == Some(views(entries@)),
                            spot@.call.country == Some(country@),
                            forall|j: int|
                                0 <= j < i ==> (#[trigger] views(entries@)[j]).call.country != Some(
                                    country@,
                                ),
                        decreases entries.len() - i,
                    {
                        match &entries[i].call.country {
                            Some(logged) => {
                                if *logged == *country {
                                    assert(views(entries@)[i as int].call.country == Some(
                                        country@,
                                    ));
                                    return false;
                                }
                            },
                            None => {},
                        }
                        i += 1;
                    }
                    true
                },
                None => false,
            },
            None => false,
        }
    }

    /// Whether a spot's state is new against the imported log.
    pub fn new_state(&self, spot: &Spot) -> (r: bool)
        ensures
            r == self@.new_state(spot@),
    {
        match &self.import {
            Some(entries) => match &spot.call.state {
                Some(state) => {
                    let mut i: usize = 0;
                    while i < entries.len()
                        invariant
                            i <= entries.len(),
                            self@.import == Some(views(entries@)),
                            spot@.call.state == Some(state@),
                            forall|j: int|
                                0 <= j < i ==> (#[trigger] views(entries@)[j]).call.state != Some(
                                    state@,
                                ),
                        decreases entries.len() - i,
                    {
                        match &entries[i].call.state {
                            Some(logged) => {
                                if *logged == *state {
                                    assert(views(entries@)[i as int].call.state == Some(state@));
                                    return false;
                                }
                            },
                            None => {},
                        }
                        i += 1;
                    }
                    true
                },
                None => false,
            },
            None => false,
        }
    }

    /// The receivers.
    pub fn receivers(&self) -> (r: &Vec<Receiver>)
        ensures
            views(r@) == self@.receivers,
    {
        &self.receivers
    }

    /// The radios.
    pub fn radios(&self) -> (r: &Vec<Radio>)
        ensures
            views(r@) == self@.radios,
    {
        &self.radios
    }

    /// The spots, oldest first.
    pub fn spots(&self) -> (r: &Vec<Spot>)
        ensures
            views(r@) == self@.spots,
    {
        &self.spots
    }

    /// The callsign cache.
    pub fn callsigns(&self) -> (r: &Vec<CallsignInfo>)
        ensures
            views(r@) == self@.callsigns,
    {
        &self.callsigns
    }

    /// The default receiver.
    pub fn default_receiver(&self) -> (r: Option<u128>)
        ensures
            r == self@.default_receiver,
    {
        self.default_receiver
    }

    /// The server's version, once it has reported it.
    pub fn version(&self) -> (r: &Option<Version>)
        ensures
            opt_view(*r) == self@.version,
    {
        &self.version
    }

    /// Whether the receiver list is shown.
    pub fn show_receiver_list(&self) -> (r: bool)
        ensures
            r == self@.show_receiver_list,
    {
        self.show_receiver_list
    }

    /// The imported log, if one is loaded.
    pub fn import(&self) -> (r: &Option<Vec<LogEntry>>)
        ensures
            match *r {
                Some(entries) => self@.import == Some(views(entries@)),
                None => self@.import is None,
            },
    {
        &self.import
    }

    /// The address of the transport the store holds.
    pub fn connection(&self) -> (r: &Option<String>)
        ensures
            opt_text(*r) == self@.connection,
    {
        &self.connection
    }
}

} // verus!
