use rig_control::codec::{encode_command, tagged_object_string};
use rig_control::decimal::{decimal_string, natural_string};
use rig_control::{Command, Mode};

const U1: u128 = 0x67e55044_10b1_426f_9247_bb680e5fe0c8;

fn id_of(frame: &str, tag: &str) -> u128 {
    let value: serde_json::Value = serde_json::from_str(frame).unwrap();
    let text = value[tag]["ID"].as_str().unwrap().to_string();
    uuid::Uuid::parse_str(&text).unwrap().as_u128()
}

#[test]
fn set_frequency_frame() {
    let frame = encode_command(&Command::SetFrequency { frequency: "14084000".to_string(), id: U1 });
    assert_eq!(
        frame,
        "{\"SetFrequency\":{\"Frequency\":\"14084000\",\"ID\":\"67e55044-10b1-426f-9247-bb680e5fe0c8\"}}"
    );
}

#[test]
fn set_mode_frame() {
    let frame = encode_command(&Command::SetMode { mode: Mode::new("USB".to_string()), id: U1 });
    assert_eq!(
        frame,
        "{\"SetMode\":{\"Mode\":\"USB\",\"ID\":\"67e55044-10b1-426f-9247-bb680e5fe0c8\"}}"
    );
}

#[test]
fn set_running_frame() {
    let frame = encode_command(&Command::SetRunning { id: U1, running: true });
    assert_eq!(
        frame,
        "{\"SetRunning\":{\"ID\":\"67e55044-10b1-426f-9247-bb680e5fe0c8\",\"Running\":true}}"
    );
    let frame = encode_command(&Command::SetRunning { id: U1, running: false });
    assert_eq!(
        frame,
        "{\"SetRunning\":{\"ID\":\"67e55044-10b1-426f-9247-bb680e5fe0c8\",\"Running\":false}}"
    );
}

#[test]
fn add_and_remove_receiver_frames() {
    assert_eq!(
        encode_command(&Command::AddReceiver { id: U1 }),
        "{\"AddReceiver\":{\"ID\":\"67e55044-10b1-426f-9247-bb680e5fe0c8\"}}"
    );
    assert_eq!(
        encode_command(&Command::RemoveReceiver { id: U1 }),
        "{\"RemoveReceiver\":{\"ID\":\"67e55044-10b1-426f-9247-bb680e5fe0c8\"}}"
    );
}

#[test]
fn text_values_are_escaped() {
    let mode = Mode::new("U\"S\\B\n".to_string());
    let frame = encode_command(&Command::SetMode { mode, id: U1 });
    assert_eq!(
        frame,
        "{\"SetMode\":{\"Mode\":\"U\\\"S\\\\B\\n\",\"ID\":\"67e55044-10b1-426f-9247-bb680e5fe0c8\"}}"
    );
    let value: serde_json::Value = serde_json::from_str(&frame).unwrap();
    assert_eq!(value["SetMode"]["Mode"].as_str(), Some("U\"S\\B\n"));
}

#[test]
fn frames_are_json_objects_with_named_fields() {
    let frame = encode_command(&Command::SetFrequency { frequency: "-5".to_string(), id: U1 });
    let value: serde_json::Value = serde_json::from_str(&frame).unwrap();
    let object = value.as_object().unwrap();
    assert_eq!(object.len(), 1);
    let fields = object["SetFrequency"].as_object().unwrap();
    assert_eq!(fields.len(), 2);
    assert_eq!(fields["Frequency"].as_str(), Some("-5"));
    assert_eq!(fields["ID"].as_str(), Some("67e55044-10b1-426f-9247-bb680e5fe0c8"));
}

#[test]
fn identifiers_are_hyphenated_lower_case() {
    let frame = encode_command(&Command::AddReceiver { id: 0 });
    assert_eq!(frame, "{\"AddReceiver\":{\"ID\":\"00000000-0000-0000-0000-000000000000\"}}");
    let frame = encode_command(&Command::AddReceiver { id: u128::MAX });
    assert_eq!(frame, "{\"AddReceiver\":{\"ID\":\"ffffffff-ffff-ffff-ffff-ffffffffffff\"}}");
    let frame = encode_command(&Command::AddReceiver { id: 0xa1a2a3a4_b1b2_c1c2_d1d2_d3d4d5d6d7d8 });
    assert_eq!(frame, "{\"AddReceiver\":{\"ID\":\"a1a2a3a4-b1b2-c1c2-d1d2-d3d4d5d6d7d8\"}}");
}

#[test]
fn identifiers_read_back() {
    for id in [0u128, 1, U1, u128::MAX, 0x0123456789abcdef_fedcba9876543210] {
        let frame = encode_command(&Command::RemoveReceiver { id });
        assert_eq!(id_of(&frame, "RemoveReceiver"), id);
    }
}

#[test]
fn tagged_object_joins_its_fields() {
    let none: Vec<(String, String)> = vec![];
    assert_eq!(tagged_object_string("Ping", &none), "{\"Ping\":{}}");
    let one = vec![("A".to_string(), "1".to_string())];
    assert_eq!(tagged_object_string("T", &one), "{\"T\":{\"A\":1}}");
    let three = vec![
        ("A".to_string(), "1".to_string()),
        ("B".to_string(), "\"x\"".to_string()),
        ("C".to_string(), "null".to_string()),
    ];
    assert_eq!(tagged_object_string("T", &three), "{\"T\":{\"A\":1,\"B\":\"x\",\"C\":null}}");
}

#[test]
fn decimal_text_of_integers() {
    assert_eq!(decimal_string(0), "0");
    assert_eq!(decimal_string(7), "7");
    assert_eq!(decimal_string(10), "10");
    assert_eq!(decimal_string(14_084_000), "14084000");
    assert_eq!(decimal_string(-1), "-1");
    assert_eq!(decimal_string(-14_084_000), "-14084000");
    assert_eq!(decimal_string(i64::MAX), "9223372036854775807");
    assert_eq!(decimal_string(i64::MIN), "-9223372036854775808");
}

#[test]
fn decimal_text_agrees_with_the_standard_library() {
    for n in [0i64, 9, 10, 99, 100, 101, 1_234_567_890, -42, i64::MAX, i64::MIN, i64::MIN + 1] {
        assert_eq!(decimal_string(n), n.to_string());
    }
    for n in [0u64, 5, 1_000, u64::MAX] {
        assert_eq!(natural_string(n), n.to_string());
    }
}
