//! The text frames of the control protocol.
//!
//! A command travels as a JSON object with one member, named after the
//! command, whose value is an object of the command's named fields:
//! `{"SetFrequency":{"Frequency":"14084000","ID":"67e55044-10b1-426f-9247-bb680e5fe0c8"}}`.
//! Identifiers travel as hyphenated lower-case UUIDs.

use vstd::prelude::*;
use vstd::string::StringExecFns;
use crate::rig::{Command, CommandView};
use crate::text::pairs_text;

verus! {

/// The JSON text of a string value: the string between double quotes, with
/// the characters that JSON does not take as they are escaped.
pub uninterp spec fn json_text(s: Seq<char>) -> Seq<char>;

/// Calls `serde_json::to_string` on a string slice.  The contract names the
/// text it returns; serialising a string cannot fail.
#[verifier::external_body]
fn json_string(s: &str) -> (text: String)
    ensures
        text@ == json_text(s@),
{
    serde_json::to_string(s).unwrap_or_default()
}

/// The character of a hexadecimal digit, in lower case.
pub open spec fn hex_char(v: int) -> char {
    if v < 10 {
        crate::decimal::digit_char(v)
    } else if v == 10 {
        'a'
    } else if v == 11 {
        'b'
    } else if v == 12 {
        'c'
    } else if v == 13 {
        'd'
    } else if v == 14 {
        'e'
    } else {
        'f'
    }
}

/// The `k`-th of the 32 hexadecimal digits of `id`, the most significant
/// being the 0th.
pub open spec fn hex_digit(id: u128, k: int) -> int {
    (id as int / vstd::arithmetic::power::pow(16, (31 - k) as nat)) % 16
}

/// The hyphenated form of a UUID: its 32 hexadecimal digits in lower case,
/// most significant first, in groups of 8, 4, 4, 4 and 12 with a hyphen
/// between groups.
pub open spec fn hyphenated(id: u128) -> Seq<char> {
    Seq::new(
        36,
        |i: int|
            if i == 8 || i == 13 || i == 18 || i == 23 {
                '-'
            } else if i < 8 {
                hex_char(hex_digit(id, i))
            } else if i < 13 {
                hex_char(hex_digit(id, i - 1))
            } else if i < 18 {
                hex_char(hex_digit(id, i - 2))
            } else if i < 23 {
                hex_char(hex_digit(id, i - 3))
            } else {
                hex_char(hex_digit(id, i - 4))
            },
    )
}

/// Calls `uuid::Uuid::from_u128` and formats the UUID by its `Display`,
/// which writes the hyphenated lower-case form of the big-endian value.
#[verifier::external_body]
fn uuid_string(id: u128) -> (text: String)
    ensures
        text@ == hyphenated(id),
{
    uuid::Uuid::from_u128(id).to_string()
}

/// One member of a JSON object: the name between double quotes, a colon,
/// the value's JSON text.
pub open spec fn member(name: Seq<char>, value: Seq<char>) -> Seq<char> {
    "\""@ + name + "\":"@ + value
}

/// The members of a JSON object, separated by commas.
pub open spec fn members(fields: Seq<(Seq<char>, Seq<char>)>) -> Seq<char>
    decreases fields.len(),
{
    if fields.len() == 0 {
        Seq::empty()
    } else if fields.len() == 1 {
        member(fields[0].0, fields[0].1)
    } else {
        members(fields.drop_last()) + ","@ + member(fields.last().0, fields.last().1)
    }
}

/// A JSON object with the single member `tag`, whose value is the object of
/// `fields`: each a name with the JSON text of its value.
pub open spec fn tagged_object(tag: Seq<char>, fields: Seq<(Seq<char>, Seq<char>)>) -> Seq<char> {
    "{\""@ + tag + "\":{"@ + members(fields) + "}}"@
}

/// The name under which a command travels.
pub open spec fn command_tag(c: CommandView) -> Seq<char> {
    match c {
        CommandView::SetMode { .. } => "SetMode"@,
        CommandView::SetFrequency { .. } => "SetFrequency"@,
        CommandView::SetRunning { .. } => "SetRunning"@,
        CommandView::AddReceiver { .. } => "AddReceiver"@,
        CommandView::RemoveReceiver { .. } => "RemoveReceiver"@,
    }
}

/// The JSON text of a truth value.
pub open spec fn bool_text(b: bool) -> Seq<char> {
    if b {
        "true"@
    } else {
        "false"@
    }
}

/// The fields a command travels with, each with the JSON text of its value.
pub open spec fn command_fields(c: CommandView) -> Seq<(Seq<char>, Seq<char>)> {
    match c {
        CommandView::SetMode { mode, id } => seq![
            ("Mode"@, json_text(mode)),
            ("ID"@, json_text(hyphenated(id))),
        ],
        CommandView::SetFrequency { frequency, id } => seq![
            ("Frequency"@, json_text(frequency)),
            ("ID"@, json_text(hyphenated(id))),
        ],
        CommandView::SetRunning { id, running } => seq![
            ("ID"@, json_text(hyphenated(id))),
            ("Running"@, bool_text(running)),
        ],
        CommandView::AddReceiver { id } => seq![("ID"@, json_text(hyphenated(id)))],
        CommandView::RemoveReceiver { id } => seq![("ID"@, json_text(hyphenated(id)))],
    }
}

/// The text frame of a command.
pub open spec fn command_frame(c: CommandView) -> Seq<char> {
    tagged_object(command_tag(c), command_fields(c))
}

/// Writes the frame of a command from its name and its fields, each field a
/// name with the JSON text of its value.
pub fn tagged_object_string(tag: &str, fields: &Vec<(String, String)>) -> (frame: String)
    ensures
        frame@ == tagged_object(tag@, pairs_text(fields@)),
{
    let ghost all = pairs_text(fields@);
    let mut body = String::from_str("");
    proof {
        reveal_strlit("");
    }
    let mut i: usize = 0;
    while i < fields.len()
        invariant
            i <= fields.len(),
            all == pairs_text(fields@),
            body@ == members(all.take(i as int)),
        decreases fields.len() - i,
    {
        if i > 0 {
            body.append(",");
        }
        body.append("\"");
        body.append(fields[i].0.as_str());
        body.append("\":");
        body.append(fields[i].1.as_str());
        proof {
            let next = all.take(i + 1);
            assert(next.drop_last() =~= all.take(i as int));
        }
        i += 1;
    }
    proof {
        assert(all.take(i as int) =~= all);
    }
    let mut frame = String::from_str("{\"");
    frame.append(tag);
    frame.append("\":{");
    frame.append(body.as_str());
    frame.append("}}");
    frame
}

fn bool_string(b: bool) -> (r: String)
    ensures
        r@ == bool_text(b),
{
    if b {
        String::from_str("true")
    } else {
        String::from_str("false")
    }
}

fn id_field(id: u128) -> (r: (String, String))
    ensures
        r.0@ == "ID"@,
        r.1@ == json_text(hyphenated(id)),
{
    let text = uuid_string(id);
    (String::from_str("ID"), json_string(text.as_str()))
}

/// The text frame of a command.
pub fn encode_command(command: &Command) -> (frame: String)
    ensures
        frame@ == command_frame(command@),
{
    let mut fields: Vec<(String, String)> = Vec::new();
    match command {
        Command::SetMode { mode, id } => {
            fields.push((String::from_str("Mode"), json_string(mode.name.as_str())));
            fields.push(id_field(*id));
            assert(pairs_text(fields@) =~= command_fields(command@));
            tagged_object_string("SetMode", &fields)
        },
        Command::SetFrequency { frequency, id } => {
            fields.push((String::from_str("Frequency"), json_string(frequency.as_str())));
            fields.push(id_field(*id));
            assert(pairs_text(fields@) =~= command_fields(command@));
            tagged_object_string("SetFrequency", &fields)
        },
        Command::SetRunning { id, running } => {
            fields.push(id_field(*id));
            fields.push((String::from_str("Running"), bool_string(*running)));
            assert(pairs_text(fields@) =~= command_fields(command@));
            tagged_object_string("SetRunning", &fields)
        },
        Command::AddReceiver { id } => {
            fields.push(id_field(*id));
            tagged_object_string("AddReceiver", &fields)
        },
        Command::RemoveReceiver { id } => {
            fields.push(id_field(*id));
            tagged_object_string("RemoveReceiver", &fields)
        },
    }
}

} // verus!
