//! What the transport and the lookup service deliver, and the application
//! events they become.

use vstd::prelude::*;
use crate::call::Call;
use crate::rig::{CommandResponse, Mode};

verus! {

/// A change in the life of the transport.
#[derive(Clone, Copy, Debug, PartialEq, Eq)]
pub enum WebSocketStatus {
    Opened,
    Closed,
    Error,
}

/// A frame of one of the two kinds the protocol knows.
#[derive(Debug, PartialEq, Eq)]
pub enum WebsocketMsgType {
    /// A binary frame: audio.
    BinaryMsg(Vec<u8>),
    /// A text frame: the JSON text of a command response.
    TextMsg(String),
}

/// One delivery of the transport.
#[derive(Debug, PartialEq, Eq)]
pub enum TransportEvent {
    Status(WebSocketStatus),
    Message(WebsocketMsgType),
    /// A payload of a kind the protocol does not know.
    Unexpected,
}

/// Why the text of a frame is no command response.
#[derive(Debug, PartialEq, Eq)]
pub struct DecodeError {
    pub reason: String,
}

/// Why a lookup delivered no call.
#[derive(Debug, PartialEq, Eq)]
pub struct LookupFailure {
    pub reason: String,
}

/// An application event.
#[derive(Debug, PartialEq, Eq)]
pub enum Msg {
    /// The transport is gone.
    Disconnected,
    /// The transport is open.
    Connected,
    /// A text frame arrived; this is what decoding it gave.
    CommandResponse(Result<CommandResponse, DecodeError>),
    /// The user steps a receiver up at a decimal place, 0 to 8.
    FrequencyUp(u128, i32),
    /// The user steps a receiver down at a decimal place, 0 to 8.
    FrequencyDown(u128, i32),
    /// The user switches a receiver to a mode.
    ModeChanged(u128, Mode),
    /// The user makes a receiver the default.
    SetDefaultReceiver(u128),
    /// The user adds a receiver to a radio.
    AddReceiver(u128),
    /// The user removes a receiver.
    RemoveReceiver(u128),
    /// The user switches a radio on or off.
    TogglePower(u128),
    /// A binary frame arrived.
    ReceivedAudio(Vec<u8>),
    /// The user shows or hides the receiver list.
    ToggleReceiverList,
    /// Nothing to do.
    Nothing,
    /// The poll timer fired.
    Tick,
    /// A log file was read.
    Loaded(Vec<u8>),
    /// The user drops the imported log.
    CancelImport,
    /// The user keeps the imported log.
    ConfirmImport,
    /// A lookup ended.
    CallsignInfoReady(Result<Call, LookupFailure>),
}

/// What the store asks of its caller on a delivery of the transport.
#[derive(Debug, PartialEq, Eq)]
pub enum Reaction {
    /// Hand this event to the application.
    Deliver(Msg),
    /// Decode this text as a command response and hand the result to the
    /// application as `Msg::CommandResponse`.
    Decode(String),
    /// Report the delivery and drop it.
    Drop,
}

/// The application event of a change in the transport's life: `Connected`
/// when it opened, `Disconnected` when it closed or failed.
pub fn status_event(status: WebSocketStatus) -> (event: Msg)
    ensures
        event == (match status {
            WebSocketStatus::Opened => Msg::Connected,
            WebSocketStatus::Closed => Msg::Disconnected,
            WebSocketStatus::Error => Msg::Disconnected,
        }),
{
    match status {
        WebSocketStatus::Opened => Msg::Connected,
        WebSocketStatus::Closed => Msg::Disconnected,
        WebSocketStatus::Error => Msg::Disconnected,
    }
}

/// The application event of a decoded text frame.  A text that could not be
/// decoded is an event like any other: it carries the error.
pub fn response_event(decoded: Result<CommandResponse, DecodeError>) -> (event: Msg)
    ensures
        event == Msg::CommandResponse(decoded),
{
    Msg::CommandResponse(decoded)
}

/// The application event of a lookup that ended: the service's answer where
/// the request succeeded, nothing where it did not.
pub fn lookup_event(success: bool, answer: Result<Call, LookupFailure>) -> (event: Msg)
    ensures
        event == (if success {
            Msg::CallsignInfoReady(answer)
        } else {
            Msg::Nothing
        }),
{
    if success {
        Msg::CallsignInfoReady(answer)
    } else {
        Msg::Nothing
    }
}

} // verus!
