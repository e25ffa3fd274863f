//! The texts a front end shows of the store: frequencies in groups of three
//! digits, the places of a frequency that are lit, the version line.

use vstd::prelude::*;
use vstd::string::{StrSliceExecFns, StringExecFns};
use crate::decimal::{decimal_string, decimal_text, digit_char, natural_string};
use crate::rig::{Version, VersionView};

verus! {

/// A text with a comma before every group of three characters, counted
/// from the end: `grouped("014074000") == "014,074,000"`.
pub open spec fn grouped(s: Seq<char>) -> Seq<char>
    decreases s.len(),
{
    if s.len() <= 3 {
        s
    } else {
        grouped(s.subrange(0, s.len() - 3)) + ","@ + s.subrange(s.len() - 3, s.len() as int)
    }
}

/// A text filled up with zeros in front to `width` characters; a text that
/// is as long or longer stays as it is.
pub open spec fn padded(s: Seq<char>, width: nat) -> Seq<char> {
    if s.len() >= width {
        s
    } else {
        Seq::new((width - s.len()) as nat, |i: int| '0') + s
    }
}

/// The text a frequency is shown as: its decimal text, filled up to nine
/// places, in groups of three.
pub open spec fn frequency_shown(frequency: i64) -> Seq<char> {
    grouped(padded(decimal_text(frequency as int), 9))
}

/// Whether place `i` of a shown frequency is lit: it is not before the
/// first character that is neither a zero nor a comma.
pub open spec fn lit(s: Seq<char>, i: int) -> bool {
    exists|j: int| 0 <= j <= i && j < s.len() && s[j] != '0' && s[j] != ','
}

/// A number below a hundred in two digits.
pub open spec fn two_digits(n: int) -> Seq<char> {
    seq![digit_char(n / 10), digit_char(n % 10)]
}

/// The time of day of a moment given in seconds since the Unix epoch, as
/// hours, minutes and seconds of two digits each.
pub open spec fn clock_shown(time: i64) -> Seq<char> {
    let second = time as int % 86400;
    two_digits(second / 3600) + two_digits((second / 60) % 60) + two_digits(second % 60)
}

/// The line that tells the server's version.
pub open spec fn version_line(v: VersionView) -> Seq<char> {
    v.host + " "@ + v.host_version + " [Protocol Version: "@ + v.protocol_version + "]"@
}

/// Whether `CQ` stands at place `i` of a text.
pub open spec fn cq_at(msg: Seq<char>, i: int) -> bool {
    0 <= i && i + 1 < msg.len() && msg[i] == 'C' && msg[i + 1] == 'Q'
}

/// Whether a decoded text holds `CQ`, the general call.
pub open spec fn calls_cq(msg: Seq<char>) -> bool {
    exists|i: int| cq_at(msg, i)
}

/// Puts a comma before every group of three characters, counted from the
/// end.
pub fn decimal_mark(s: &str) -> (r: String)
    ensures
        r@ == grouped(s@),
{
    let n = s.unicode_len();
    if n <= 3 {
        return String::from_str(s);
    }
    let first: usize = if n % 3 == 0 {
        3
    } else {
        n % 3
    };
    let mut out = String::from_str(s.substring_char(0, first));
    let mut i: usize = first;
    while i < n
        invariant
            1 <= i <= n,
            n == s@.len(),
            (n - i) % 3 == 0,
            out@ == grouped(s@.subrange(0, i as int)),
        decreases n - i,
    {
        out.append(",");
        out.append(s.substring_char(i, i + 3));
        proof {
            let t = s@.subrange(0, i + 3);
            assert(t.subrange(0, t.len() - 3) =~= s@.subrange(0, i as int));
        }
        i += 3;
    }
    proof {
        assert(s@.subrange(0, n as int) =~= s@);
    }
    out
}

/// Fills a text up with zeros in front to `width` characters.
pub fn pad_zeros(s: &str, width: usize) -> (r: String)
    ensures
        r@ == padded(s@, width as nat),
{
    let n = s.unicode_len();
    if n >= width {
        return String::from_str(s);
    }
    let mut zeros = String::from_str("");
    let mut k: usize = 0;
    proof {
        reveal_strlit("");
    }
    while k < width - n
        invariant
            n < width,
            k <= width - n,
            zeros@ == Seq::new(k as nat, |i: int| '0'),
        decreases width - n - k,
    {
        zeros.append("0");
        proof {
            reveal_strlit("0");
        }
        k += 1;
    }
    zeros.append(s);
    zeros
}

/// The text a frequency is shown as.
pub fn frequency_text(frequency: i64) -> (r: String)
    ensures
        r@ == frequency_shown(frequency),
{
    let digits = decimal_string(frequency);
    let filled = pad_zeros(digits.as_str(), 9);
    decimal_mark(filled.as_str())
}

/// For every place of a shown frequency, whether it is lit.
pub fn lit_places(s: &str) -> (r: Vec<bool>)
    ensures
        r@.len() == s@.len(),
        forall|i: int| 0 <= i < s@.len() ==> r@[i] == lit(s@, i),
{
    let n = s.unicode_len();
    let mut out: Vec<bool> = Vec::new();
    let mut on = false;
    let mut i: usize = 0;
    while i < n
        invariant
            i <= n,
            n == s@.len(),
            out@.len() == i,
            forall|k: int| 0 <= k < i ==> out@[k] == lit(s@, k),
            on == (exists|j: int| 0 <= j < i && s@[j] != '0' && s@[j] != ','),
        decreases n - i,
    {
        let c = s.get_char(i);
        if c != '0' && c != ',' {
            on = true;
        }
        out.push(on);
        i += 1;
    }
    out
}

fn two_digit_string(n: u64) -> (r: String)
    requires
        n < 100,
    ensures
        r@ == two_digits(n as int),
{
    let mut out = natural_string(n / 10);
    let low = natural_string(n % 10);
    out.append(low.as_str());
    out
}

/// The time of day of a moment given in seconds since the Unix epoch.
pub fn clock_text(time: i64) -> (r: String)
    ensures
        r@ == clock_shown(time),
{
    let rest = time % 86400;
    let second: u64 = if rest < 0 {
        (rest + 86400) as u64
    } else {
        rest as u64
    };
    assert(second == time as int % 86400);
    let mut out = two_digit_string(second / 3600);
    let minutes = two_digit_string((second / 60) % 60);
    let seconds = two_digit_string(second % 60);
    out.append(minutes.as_str());
    out.append(seconds.as_str());
    out
}

/// The line that tells the server's version.
pub fn version_text(version: &Version) -> (r: String)
    ensures
        r@ == version_line(version@),
{
    let mut line = version.host.clone();
    line.append(" ");
    line.append(version.host_version.as_str());
    line.append(" [Protocol Version: ");
    line.append(version.protocol_version.as_str());
    line.append("]");
    line
}

/// Whether a decoded text holds `CQ`.
pub fn is_cq(msg: &str) -> (r: bool)
    ensures
        r == calls_cq(msg@),
{
    let n = msg.unicode_len();
    if n < 2 {
        return false;
    }
    let mut i: usize = 0;
    while i + 1 < n
        invariant
            i + 1 <= n,
            n == msg@.len(),
            forall|k: int| k < i ==> !cq_at(msg@, k),
        decreases n - i,
    {
        if msg.get_char(i) == 'C' && msg.get_char(i + 1) == 'Q' {
            assert(cq_at(msg@, i as int));
            return true;
        }
        i += 1;
    }
    false
}

} // verus!
