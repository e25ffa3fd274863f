//! Reading a log file in the ADIF text format.
//!
//! The records are parsed by the `adif` crate.  Its parser gives up on some
//! inputs by panicking, so the bytes are screened first: only a file that is
//! `plain` is handed to it, and any other is refused as a whole.  A plain
//! file is one whose values are all text.

use vstd::prelude::*;
use crate::log::LogRecord;
use crate::text::views;

verus! {

/// `<`
pub const LESS_THAN: u8 = 0x3c;

/// `>`
pub const GREATER_THAN: u8 = 0x3e;

/// `:`
pub const COLON: u8 = 0x3a;

/// Whether a byte is the indicator of a data type other than text: `B` for
/// a truth value, `N` for a number, `D` for a date or `T` for a time, in
/// either case.
pub open spec fn type_indicator(b: u8) -> bool {
    b == 0x42 || b == 0x62 || b == 0x4e || b == 0x6e || b == 0x44 || b == 0x64 || b == 0x54 || b
        == 0x74
}

/// Whether a byte is an ASCII digit.
pub open spec fn digit(b: u8) -> bool {
    0x30 <= b <= 0x39
}

/// Whether the `n` bytes from place `i` on are there and are all digits.
pub open spec fn digits_from(d: Seq<u8>, i: int, n: int) -> bool {
    &&& 0 <= i
    &&& i + n <= d.len()
    &&& forall|k: int| 0 <= k < n ==> digit(#[trigger] d[i + k])
}

/// Whether a data type indicator stands at place `i`: a colon, the
/// indicator and `>`, the way a field header ends that gives its value a
/// type other than text.
pub open spec fn typed_at(d: Seq<u8>, i: int) -> bool {
    &&& 0 <= i
    &&& i + 2 < d.len()
    &&& d[i] == COLON
    &&& type_indicator(d[i + 1])
    &&& d[i + 2] == GREATER_THAN
}

/// Whether a colon with ten digits or more behind it stands at place `i`:
/// a field length that may not fit the machine's word.
pub open spec fn wide_length_at(d: Seq<u8>, i: int) -> bool {
    &&& 0 <= i < d.len()
    &&& d[i] == COLON
    &&& digits_from(d, i + 1, 10)
}

/// Whether the end-of-header mark, `<EOH>` or `<eoh>`, stands at place `i`.
pub open spec fn header_end_at(d: Seq<u8>, i: int) -> bool {
    &&& 0 <= i
    &&& i + 5 <= d.len()
    &&& d[i] == LESS_THAN
    &&& ((d[i + 1] == 0x45 && d[i + 2] == 0x4f && d[i + 3] == 0x48) || (d[i + 1] == 0x65 && d[i
        + 2] == 0x6f && d[i + 3] == 0x68))
    &&& d[i + 4] == GREATER_THAN
}

/// The files that are read: ASCII text in which no field gives its value a
/// data type other than text, no field length has ten digits or more, and
/// the header ends once at most.
pub open spec fn plain(d: Seq<u8>) -> bool {
    &&& forall|i: int| 0 <= i < d.len() ==> #[trigger] d[i] < 0x80
    &&& forall|i: int| !typed_at(d, i)
    &&& forall|i: int| !wide_length_at(d, i)
    &&& forall|i: int, j: int| header_end_at(d, i) && header_end_at(d, j) ==> i == j
}

/// The records of a log file, each the fields of one record in file order
/// with names in upper case: what the `adif` crate's parser reads from the
/// text after the header.
pub uninterp spec fn adif_records(d: Seq<u8>) -> Seq<Seq<(Seq<char>, Seq<char>)>>;

/// Calls `adif::parse_adif` on the text of `data` and hands out the body's
/// records with their fields as plain text.  The contract names the records.
/// The parser panics on a second end-of-header mark, on a field length that
/// is no machine integer, and on a number, date or time that does not parse;
/// `plain` leaves those inputs out, and with them every value that is not
/// text.
#[verifier::external_body]
fn parse_records(data: &[u8]) -> (records: Vec<LogRecord>)
    requires
        plain(data@),
    ensures
        views(records@) == adif_records(data@),
{
    let text = std::str::from_utf8(data).unwrap_or_default();
    let file = ::adif::parse_adif(text);
    file.body.iter().map(|record| LogRecord {
        fields: record.iter().map(|(name, value)| (name.clone(), match value {
            ::adif::AdifType::Str(text) => text.clone(),
            _ => String::new(),
        })).collect(),
    }).collect()
}

fn is_type_indicator(b: u8) -> (r: bool)
    ensures
        r == type_indicator(b),
{
    b == 0x42 || b == 0x62 || b == 0x4e || b == 0x6e || b == 0x44 || b == 0x64 || b == 0x54 || b
        == 0x74
}

fn has_digits_from(data: &[u8], start: usize, n: usize) -> (r: bool)
    ensures
        r == digits_from(data@, start as int, n as int),
{
    if data.len() < start || data.len() - start < n {
        return false;
    }
    let mut k: usize = 0;
    while k < n
        invariant
            k <= n,
            start + n <= data.len(),
            forall|j: int| 0 <= j < k ==> digit(#[trigger] data@[start + j]),
        decreases n - k,
    {
        let b = data[start + k];
        if !(0x30 <= b && b <= 0x39) {
            return false;
        }
        k += 1;
    }
    true
}

fn has_type_at(data: &[u8], i: usize) -> (r: bool)
    requires
        i < data.len(),
    ensures
        r == typed_at(data@, i as int),
{
    data.len() - i > 2 && data[i] == COLON && is_type_indicator(data[i + 1]) && data[i + 2]
        == GREATER_THAN
}

fn has_wide_length_at(data: &[u8], i: usize) -> (r: bool)
    requires
        i < data.len(),
    ensures
        r == wide_length_at(data@, i as int),
{
    data[i] == COLON && has_digits_from(data, i + 1, 10)
}

fn has_header_end_at(data: &[u8], i: usize) -> (r: bool)
    requires
        i < data.len(),
    ensures
        r == header_end_at(data@, i as int),
{
    data.len() - i >= 5 && data[i] == LESS_THAN && ((data[i + 1] == 0x45 && data[i + 2] == 0x4f
        && data[i + 3] == 0x48) || (data[i + 1] == 0x65 && data[i + 2] == 0x6f && data[i + 3]
        == 0x68)) && data[i + 4] == GREATER_THAN
}

/// Whether a file is one that is read.
pub fn is_plain(data: &[u8]) -> (r: bool)
    ensures
        r == plain(data@),
{
    let mut header_end: Option<usize> = None;
    let mut i: usize = 0;
    while i < data.len()
        invariant
            i <= data.len(),
            forall|j: int| 0 <= j < i ==> #[trigger] data@[j] < 0x80,
            forall|j: int| j < i ==> !typed_at(data@, j),
            forall|j: int| j < i ==> !wide_length_at(data@, j),
            match header_end {
                Some(p) => p < i && header_end_at(data@, p as int) && forall|j: int|
                    j < i && header_end_at(data@, j) ==> j == p,
                None => forall|j: int| j < i ==> !header_end_at(data@, j),
            },
        decreases data.len() - i,
    {
        if data[i] >= 0x80 {
            return false;
        }
        if has_type_at(data, i) {
            return false;
        }
        if has_wide_length_at(data, i) {
            return false;
        }
        if has_header_end_at(data, i) {
            match header_end {
                Some(p) => {
                    return false;
                },
                None => {
                    header_end = Some(i);
                },
            }
        }
        i += 1;
    }
    true
}

/// The records of a file that is read.
pub fn read_records(data: &[u8]) -> (r: Option<Vec<LogRecord>>)
    ensures
        match r {
            Some(records) => plain(data@) && views(records@) == adif_records(data@),
            None => !plain(data@),
        },
{
    if is_plain(data) {
        Some(parse_records(data))
    } else {
        None
    }
}

} // verus!
