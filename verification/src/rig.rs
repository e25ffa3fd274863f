//! What the control server mirrors to its clients: radios, receivers, the
//! server's version, decoded-signal reports, and the commands a client sends.
//!
//! Identifiers are the 128-bit values of the server's UUIDs; frequencies are
//! whole hertz.

use vstd::prelude::*;
use crate::call::{Call, CallView};
use crate::text::views;

verus! {

/// A demodulation mode, known by its name.
#[derive(Debug, PartialEq, Eq)]
pub struct Mode {
    pub name: String,
}

impl View for Mode {
    type V = Seq<char>;

    open spec fn view(&self) -> Seq<char> {
        self.name@
    }
}

impl Clone for Mode {
    fn clone(&self) -> (r: Self)
        ensures
            r@ == self@,
    {
        Mode { name: self.name.clone() }
    }
}

impl Mode {
    /// The mode of that name.
    pub fn new(name: String) -> (r: Mode)
        ensures
            r@ == name@,
    {
        Mode { name }
    }

    /// The mode's name.
    pub fn mode(&self) -> (r: String)
        ensures
            r@ == self@,
    {
        self.name.clone()
    }
}

/// A tunable channel of a radio.
#[derive(Debug, PartialEq, Eq)]
pub struct Receiver {
    pub id: u128,
    /// Tuned frequency in hertz.
    pub frequency: i64,
    pub mode: Mode,
}

/// The mathematical content of a [`Receiver`].
pub struct ReceiverView {
    pub id: u128,
    pub frequency: i64,
    pub mode: Seq<char>,
}

impl View for Receiver {
    type V = ReceiverView;

    open spec fn view(&self) -> ReceiverView {
        ReceiverView { id: self.id, frequency: self.frequency, mode: self.mode@ }
    }
}

impl Clone for Receiver {
    fn clone(&self) -> (r: Self)
        ensures
            r@ == self@,
    {
        Receiver { id: self.id, frequency: self.frequency, mode: self.mode.clone() }
    }
}

/// A device that hosts receivers.
#[derive(Debug, PartialEq, Eq)]
pub struct Radio {
    pub id: u128,
    pub name: String,
    /// Whether the radio is powered.
    pub running: bool,
}

/// The mathematical content of a [`Radio`].
pub struct RadioView {
    pub id: u128,
    pub name: Seq<char>,
    pub running: bool,
}

impl View for Radio {
    type V = RadioView;

    open spec fn view(&self) -> RadioView {
        RadioView { id: self.id, name: self.name@, running: self.running }
    }
}

impl Clone for Radio {
    fn clone(&self) -> (r: Self)
        ensures
            r@ == self@,
    {
        Radio { id: self.id, name: self.name.clone(), running: self.running }
    }
}

/// What the server reports of itself.
#[derive(Debug, PartialEq, Eq)]
pub struct Version {
    pub host: String,
    pub host_version: String,
    pub protocol_version: String,
}

/// The mathematical content of a [`Version`].
pub struct VersionView {
    pub host: Seq<char>,
    pub host_version: Seq<char>,
    pub protocol_version: Seq<char>,
}

impl View for Version {
    type V = VersionView;

    open spec fn view(&self) -> VersionView {
        VersionView {
            host: self.host@,
            host_version: self.host_version@,
            protocol_version: self.protocol_version@,
        }
    }
}

impl Clone for Version {
    fn clone(&self) -> (r: Self)
        ensures
            r@ == self@,
    {
        Version {
            host: self.host.clone(),
            host_version: self.host_version.clone(),
            protocol_version: self.protocol_version.clone(),
        }
    }
}

/// One decoded-signal report.
#[derive(Debug, PartialEq, Eq)]
pub struct Spot {
    pub call: Call,
    /// When the signal was decoded, in seconds since the Unix epoch.
    pub time: i64,
    /// Signal-to-noise ratio in decibels.
    pub snr: i32,
    /// Clock offset of the signal in milliseconds.
    pub dt: i32,
    /// Frequency of the signal in hertz.
    pub frequency: i64,
    /// Frequency the receiver was tuned to, in hertz.
    pub tuned_frequency: i64,
    pub mode: Mode,
    /// Distance to the station in kilometres, where it could be computed.
    pub distance: Option<u32>,
    /// The decoded text.
    pub msg: String,
}

/// The mathematical content of a [`Spot`].
pub struct SpotView {
    pub call: CallView,
    pub time: i64,
    pub snr: i32,
    pub dt: i32,
    pub frequency: i64,
    pub tuned_frequency: i64,
    pub mode: Seq<char>,
    pub distance: Option<u32>,
    pub msg: Seq<char>,
}

impl SpotView {
    /// The same report about another call.
    pub open spec fn with_call(self, call: CallView) -> SpotView {
        SpotView { call, ..self }
    }
}

impl View for Spot {
    type V = SpotView;

    open spec fn view(&self) -> SpotView {
        SpotView {
            call: self.call@,
            time: self.time,
            snr: self.snr,
            dt: self.dt,
            frequency: self.frequency,
            tuned_frequency: self.tuned_frequency,
            mode: self.mode@,
            distance: self.distance,
            msg: self.msg@,
        }
    }
}

impl Clone for Spot {
    fn clone(&self) -> (r: Self)
        ensures
            r@ == self@,
    {
        Spot {
            call: self.call.clone(),
            time: self.time,
            snr: self.snr,
            dt: self.dt,
            frequency: self.frequency,
            tuned_frequency: self.tuned_frequency,
            mode: self.mode.clone(),
            distance: self.distance,
            msg: self.msg.clone(),
        }
    }
}

/// A request to the control server.  Each carries the identifier of its
/// target and the value asked for, nothing else.
#[derive(Debug, PartialEq, Eq)]
pub enum Command {
    /// Switch a receiver to a mode.
    SetMode { mode: Mode, id: u128 },
    /// Tune a receiver; the frequency is the decimal text of the hertz.
    SetFrequency { frequency: String, id: u128 },
    /// Power a radio on or off.
    SetRunning { id: u128, running: bool },
    /// Add a receiver to a radio.
    AddReceiver { id: u128 },
    /// Remove a receiver.
    RemoveReceiver { id: u128 },
}

/// The mathematical content of a [`Command`].
pub enum CommandView {
    SetMode { mode: Seq<char>, id: u128 },
    SetFrequency { frequency: Seq<char>, id: u128 },
    SetRunning { id: u128, running: bool },
    AddReceiver { id: u128 },
    RemoveReceiver { id: u128 },
}

impl View for Command {
    type V = CommandView;

    open spec fn view(&self) -> CommandView {
        match self {
            Command::SetMode { mode, id } => CommandView::SetMode { mode: mode@, id: *id },
            Command::SetFrequency { frequency, id } => CommandView::SetFrequency {
                frequency: frequency@,
                id: *id,
            },
            Command::SetRunning { id, running } => CommandView::SetRunning {
                id: *id,
                running: *running,
            },
            Command::AddReceiver { id } => CommandView::AddReceiver { id: *id },
            Command::RemoveReceiver { id } => CommandView::RemoveReceiver { id: *id },
        }
    }
}

/// A decoded message of the control server.
#[derive(Debug, PartialEq, Eq)]
pub enum CommandResponse {
    /// The server's receivers, all of them.
    Receivers(Vec<Receiver>),
    /// The server's radios, all of them.
    Radios(Vec<Radio>),
    /// The server's version.
    Version(Version),
    /// One receiver changed its mode or frequency.
    ReceiverUpdate { id: u128, mode: Mode, frequency: i64 },
    /// A signal was decoded.
    Spot(Spot),
}

/// The mathematical content of a [`CommandResponse`].
pub enum CommandResponseView {
    Receivers(Seq<ReceiverView>),
    Radios(Seq<RadioView>),
    Version(VersionView),
    ReceiverUpdate { id: u128, mode: Seq<char>, frequency: i64 },
    Spot(SpotView),
}

impl View for CommandResponse {
    type V = CommandResponseView;

    open spec fn view(&self) -> CommandResponseView {
        match self {
            CommandResponse::Receivers(receivers) => CommandResponseView::Receivers(
                views(receivers@),
            ),
            CommandResponse::Radios(radios) => CommandResponseView::Radios(views(radios@)),
            CommandResponse::Version(version) => CommandResponseView::Version(version@),
            CommandResponse::ReceiverUpdate { id, mode, frequency } => {
                CommandResponseView::ReceiverUpdate { id: *id, mode: mode@, frequency: *frequency }
            },
            CommandResponse::Spot(spot) => CommandResponseView::Spot(spot@),
        }
    }
}

} // verus!
