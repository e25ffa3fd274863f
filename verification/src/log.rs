//! The imported operating log: raw records as a log file gives them, and the
//! entries the cross-check reads.

use vstd::prelude::*;
use vstd::string::StringExecFns;
use crate::call::{Call, CallView};
use crate::seek::{lemma_position_is, lemma_position_none, position};
use crate::text::{opt_text, pairs_text};

verus! {

/// One record of a log file: its fields in file order, each a name (in
/// upper case) with its text.
#[derive(Debug, PartialEq, Eq)]
pub struct LogRecord {
    pub fields: Vec<(String, String)>,
}

impl View for LogRecord {
    type V = Seq<(Seq<char>, Seq<char>)>;

    open spec fn view(&self) -> Seq<(Seq<char>, Seq<char>)> {
        pairs_text(self.fields@)
    }
}

/// One contact of the imported log.
#[derive(Debug, PartialEq, Eq)]
pub struct LogEntry {
    /// The station worked, with the country and state the log gives for it.
    pub call: Call,
}

/// The mathematical content of a [`LogEntry`].
pub struct LogEntryView {
    pub call: CallView,
}

impl View for LogEntry {
    type V = LogEntryView;

    open spec fn view(&self) -> LogEntryView {
        LogEntryView { call: self.call@ }
    }
}

impl Clone for LogEntry {
    fn clone(&self) -> (r: Self)
        ensures
            r@ == self@,
    {
        LogEntry { call: self.call.clone() }
    }
}

/// Why a record of a log file is no contact.
#[derive(Clone, Copy, Debug, PartialEq, Eq)]
pub enum ImportRecordError {
    /// The record names no station.
    MissingCall,
}

/// The names of a record's fields, in order.
pub open spec fn field_names(record: Seq<(Seq<char>, Seq<char>)>) -> Seq<Seq<char>> {
    Seq::new(record.len(), |i: int| record[i].0)
}

/// The text of the first field of that name.
pub open spec fn field_value(record: Seq<(Seq<char>, Seq<char>)>, name: Seq<char>) -> Option<
    Seq<char>,
> {
    match position(field_names(record), name) {
        Some(i) => Some(record[i].1),
        None => None,
    }
}

/// The contact a record stands for: the station of its `CALL` field with the
/// country and state of its `COUNTRY` and `STATE` fields.  A record without
/// a `CALL` field stands for none.
pub open spec fn entry_of(record: Seq<(Seq<char>, Seq<char>)>) -> Option<LogEntryView> {
    match field_value(record, "CALL"@) {
        Some(callsign) => Some(
            LogEntryView {
                call: CallView {
                    callsign,
                    prefix: None,
                    country: field_value(record, "COUNTRY"@),
                    state: field_value(record, "STATE"@),
                    op: None,
                },
            },
        ),
        None => None,
    }
}

/// The contacts of the records that stand for one, in the records' order.
pub open spec fn entries_of(records: Seq<Seq<(Seq<char>, Seq<char>)>>) -> Seq<LogEntryView>
    decreases records.len(),
{
    if records.len() == 0 {
        Seq::empty()
    } else {
        match entry_of(records.last()) {
            Some(entry) => entries_of(records.drop_last()).push(entry),
            None => entries_of(records.drop_last()),
        }
    }
}

/// The places of the records that stand for no contact, ascending.
pub open spec fn skipped_of(records: Seq<Seq<(Seq<char>, Seq<char>)>>) -> Seq<usize>
    decreases records.len(),
{
    if records.len() == 0 {
        Seq::empty()
    } else {
        match entry_of(records.last()) {
            Some(_) => skipped_of(records.drop_last()),
            None => skipped_of(records.drop_last()).push((records.len() - 1) as usize),
        }
    }
}

fn find_field(fields: &Vec<(String, String)>, name: &str) -> (r: Option<String>)
    ensures
        opt_text(r) == field_value(pairs_text(fields@), name@),
{
    let wanted = String::from_str(name);
    let ghost names = field_names(pairs_text(fields@));
    let mut i: usize = 0;
    while i < fields.len()
        invariant
            i <= fields.len(),
            wanted@ == name@,
            names == field_names(pairs_text(fields@)),
            forall|j: int| 0 <= j < i ==> names[j] != name@,
        decreases fields.len() - i,
    {
        if fields[i].0 == wanted {
            proof {
                lemma_position_is(names, name@, i as int);
            }
            return Some(fields[i].1.clone());
        }
        i += 1;
    }
    proof {
        lemma_position_none(names, name@);
    }
    None
}

impl LogEntry {
    /// The contact a record stands for, or why it stands for none.
    pub fn from_adif_record(record: &LogRecord) -> (r: Result<LogEntry, ImportRecordError>)
        ensures
            match r {
                Ok(entry) => entry_of(record@) == Some(entry@),
                Err(e) => entry_of(record@) is None && e == ImportRecordError::MissingCall,
            },
    {
        match find_field(&record.fields, "CALL") {
            Some(callsign) => Ok(
                LogEntry {
                    call: Call {
                        callsign,
                        prefix: None,
                        country: find_field(&record.fields, "COUNTRY"),
                        state: find_field(&record.fields, "STATE"),
                        op: None,
                    },
                },
            ),
            None => Err(ImportRecordError::MissingCall),
        }
    }

    /// The country the log gives for the station.
    pub fn country(&self) -> (r: Option<String>)
        ensures
            opt_text(r) == self@.call.country,
    {
        crate::text::clone_opt_text(&self.call.country)
    }

    /// The state the log gives for the station.
    pub fn state(&self) -> (r: Option<String>)
        ensures
            opt_text(r) == self@.call.state,
    {
        crate::text::clone_opt_text(&self.call.state)
    }
}

} // verus!
