//! Control-plane engine of a client for a software-defined-radio control server.
//!
//! The crate keeps a local mirror of the server's radios and receivers, turns
//! user intents into protocol commands, follows the life cycle of the one
//! transport connection, stores the stream of decoded-signal reports ("spots"),
//! enriches their callsigns through deduplicated lookups and checks them
//! against an imported operating log.  Everything here is synchronous and
//! free of I/O: the caller performs the transport, the lookups and the
//! rendering, and hands plain values in and out.

pub mod text;
pub mod call;
pub mod rig;
pub mod log;
pub mod logfile;
pub mod seek;
pub mod decimal;
pub mod codec;
pub mod transport;
pub mod state;
pub mod laws;
pub mod model;
pub mod display;

pub use call::{Call, CallView, CallsignInfo, CallsignInfoView};
pub use rig::{
    Command, CommandResponse, CommandResponseView, CommandView, Mode, Radio, RadioView, Receiver,
    ReceiverView, Spot, SpotView, Version, VersionView,
};
pub use log::{ImportRecordError, LogEntry, LogEntryView, LogRecord};
pub use state::{LookupView, ModelView};
pub use model::{Applied, ImportError, Lookup, Model, SendError};
pub use transport::{
    DecodeError, LookupFailure, Msg, Reaction, TransportEvent, WebSocketStatus, WebsocketMsgType,
};
