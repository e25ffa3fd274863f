use rig_control::transport::{response_event, status_event};
use rig_control::{
    Command, CommandResponse, DecodeError, Model, Msg, Reaction, SendError, TransportEvent,
    Version, WebSocketStatus, WebsocketMsgType,
};

const U1: u128 = 0x67e55044_10b1_426f_9247_bb680e5fe0c8;

fn tune() -> Command {
    Command::SetFrequency { frequency: "14084000".to_string(), id: U1 }
}

#[test]
fn connect_takes_hold_of_a_transport() {
    let mut m = Model::new();
    assert!(!m.connect("ws://localhost:4649/Spark"));
    assert!(m.is_connected());
    assert_eq!(*m.connection(), Some("ws://localhost:4649/Spark".to_string()));
}

#[test]
fn second_connect_replaces_the_first() {
    let mut m = Model::new();
    assert!(!m.connect("ws://one"));
    assert!(m.connect("ws://two"));
    assert_eq!(*m.connection(), Some("ws://two".to_string()));
}

#[test]
fn disconnect_lets_go() {
    let mut m = Model::new();
    m.connect("ws://one");
    m.disconnect();
    assert!(!m.is_connected());
    assert_eq!(*m.connection(), None);
}

#[test]
fn send_without_transport_is_not_connected() {
    let m = Model::new();
    assert_eq!(m.send_command(&tune()), Err(SendError::NotConnected));
}

#[test]
fn send_after_disconnect_is_not_connected() {
    let mut m = Model::new();
    m.connect("ws://one");
    m.disconnect();
    assert_eq!(m.send_command(&tune()), Err(SendError::NotConnected));
}

#[test]
fn send_with_transport_gives_the_frame() {
    let mut m = Model::new();
    m.connect("ws://one");
    assert_eq!(
        m.send_command(&tune()),
        Ok("{\"SetFrequency\":{\"Frequency\":\"14084000\",\"ID\":\"67e55044-10b1-426f-9247-bb680e5fe0c8\"}}"
            .to_string())
    );
}

#[test]
fn send_after_transport_closed_is_not_connected() {
    let mut m = Model::new();
    m.connect("ws://one");
    let reaction = m.on_transport_event(TransportEvent::Status(WebSocketStatus::Closed));
    assert_eq!(reaction, Reaction::Deliver(Msg::Disconnected));
    assert!(!m.is_connected());
    assert_eq!(m.send_command(&tune()), Err(SendError::NotConnected));
}

#[test]
fn transport_error_is_a_disconnect() {
    let mut m = Model::new();
    m.connect("ws://one");
    let reaction = m.on_transport_event(TransportEvent::Status(WebSocketStatus::Error));
    assert_eq!(reaction, Reaction::Deliver(Msg::Disconnected));
    assert!(!m.is_connected());
}

#[test]
fn transport_opened_is_a_connect() {
    let mut m = Model::new();
    m.connect("ws://one");
    let reaction = m.on_transport_event(TransportEvent::Status(WebSocketStatus::Opened));
    assert_eq!(reaction, Reaction::Deliver(Msg::Connected));
    assert!(m.is_connected());
}

#[test]
fn reconnect_after_close_sends_again() {
    let mut m = Model::new();
    m.connect("ws://one");
    m.on_transport_event(TransportEvent::Status(WebSocketStatus::Closed));
    assert!(!m.connect("ws://one"));
    assert!(m.send_command(&tune()).is_ok());
}

#[test]
fn text_frame_is_to_be_decoded() {
    let mut m = Model::new();
    m.connect("ws://one");
    let frame = WebsocketMsgType::TextMsg("{\"cmd\":\"x\"}".to_string());
    let reaction = m.on_transport_event(TransportEvent::Message(frame));
    assert_eq!(reaction, Reaction::Decode("{\"cmd\":\"x\"}".to_string()));
    assert!(m.is_connected());
}

#[test]
fn binary_frame_is_audio() {
    let mut m = Model::new();
    m.connect("ws://one");
    let frame = WebsocketMsgType::BinaryMsg(vec![1, 2, 3]);
    let reaction = m.on_transport_event(TransportEvent::Message(frame));
    assert_eq!(reaction, Reaction::Deliver(Msg::ReceivedAudio(vec![1, 2, 3])));
}

#[test]
fn unexpected_payload_is_dropped() {
    let mut m = Model::new();
    m.connect("ws://one");
    assert_eq!(m.on_transport_event(TransportEvent::Unexpected), Reaction::Drop);
    assert!(m.is_connected());
}

#[test]
fn status_events_map_one_to_one() {
    assert_eq!(status_event(WebSocketStatus::Opened), Msg::Connected);
    assert_eq!(status_event(WebSocketStatus::Closed), Msg::Disconnected);
    assert_eq!(status_event(WebSocketStatus::Error), Msg::Disconnected);
}

#[test]
fn failed_decode_is_an_event_with_the_error() {
    let event = response_event(Err(DecodeError { reason: "unknown variant".to_string() }));
    assert_eq!(
        event,
        Msg::CommandResponse(Err(DecodeError { reason: "unknown variant".to_string() }))
    );
}

#[test]
fn decoded_response_is_an_event() {
    let version = Version {
        host: "SparkSDR".to_string(),
        host_version: "2.0.1".to_string(),
        protocol_version: "1.0".to_string(),
    };
    let event = response_event(Ok(CommandResponse::Version(version)));
    assert!(matches!(event, Msg::CommandResponse(Ok(CommandResponse::Version(_)))));
}
