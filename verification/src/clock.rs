//! Wall-clock timestamps and the journal texts derived from them: the header
//! line written into a fresh journal entry and the archive filename.

use vstd::prelude::*;
use vstd::string::*;
use crate::format::{padded, push_padded};

verus! {

/// A local calendar date and time, split into plain fields.
#[derive(Clone, Copy, Debug, PartialEq, Eq, Structural)]
pub struct Timestamp {
    pub year: i32,
    pub month: u8,
    pub day: u8,
    pub hour: u8,
    pub minute: u8,
    pub second: u8,
}

impl Timestamp {
    /// The field ranges of a calendar time.
    pub open spec fn wf(self) -> bool {
        &&& 1 <= self.month <= 12
        &&& 1 <= self.day <= 31
        &&& self.hour <= 23
        &&& self.minute <= 59
        &&& self.second <= 59
    }
}

/// Relies on chrono's `Local::now` for the current local time, read out
/// through the `Datelike` and `Timelike` accessors; their documentation fixes
/// the ranges (month 1-12, day 1-31, hour 0-23, minute and second 0-59).
#[verifier::external_body]
pub(crate) fn now_local() -> (r: Timestamp)
    ensures
        r.wf(),
{
    let now = chrono::Local::now();
    Timestamp {
        year: chrono::Datelike::year(&now),
        month: chrono::Datelike::month(&now) as u8,
        day: chrono::Datelike::day(&now) as u8,
        hour: chrono::Timelike::hour(&now) as u8,
        minute: chrono::Timelike::minute(&now) as u8,
        second: chrono::Timelike::second(&now) as u8,
    }
}

/// A year rendered zero-padded to four digits, with a leading minus sign for
/// years before year zero.
pub open spec fn year_chars(y: int) -> Seq<char> {
    if y >= 0 {
        padded(4, y as nat)
    } else {
        seq!['-'] + padded(4, (-y) as nat)
    }
}

/// The `YYYY-MM-DD HH:MM:SS` text of a timestamp.
pub open spec fn stamp_chars(ts: Timestamp) -> Seq<char> {
    year_chars(ts.year as int) + seq!['-'] + padded(2, ts.month as nat) + seq!['-'] + padded(
        2,
        ts.day as nat,
    ) + seq![' '] + padded(2, ts.hour as nat) + seq![':'] + padded(2, ts.minute as nat)
        + seq![':'] + padded(2, ts.second as nat)
}

/// The header line of a journal entry: `# ` followed by the timestamp text.
pub open spec fn header_chars(ts: Timestamp) -> Seq<char> {
    seq!['#', ' '] + stamp_chars(ts)
}

/// The archive filename of a journal entry:
/// `YYYY-MM-DD_HH-MM-SS.md` for the moment the capture began.
pub open spec fn filename_chars(ts: Timestamp) -> Seq<char> {
    year_chars(ts.year as int) + seq!['-'] + padded(2, ts.month as nat) + seq!['-'] + padded(
        2,
        ts.day as nat,
    ) + seq!['_'] + padded(2, ts.hour as nat) + seq!['-'] + padded(2, ts.minute as nat)
        + seq!['-'] + padded(2, ts.second as nat) + seq!['.', 'm', 'd']
}

/// Appends the four-digit year, signed if negative.
fn push_year(s: &mut String, y: i32)
    ensures
        final(s)@ == old(s)@ + year_chars(y as int),
{
    if y < 0 {
        proof {
            reveal_strlit("-");
        }
        s.append("-");
        let w: i64 = -(y as i64);
        push_padded(s, 4, w as u64);
        proof {
            assert(s@ =~= old(s)@ + year_chars(y as int));
        }
    } else {
        push_padded(s, 4, y as u64);
    }
}

/// Renders the header line a fresh journal entry starts with.
pub fn journal_header(ts: Timestamp) -> (r: String)
    ensures
        r@ == header_chars(ts),
{
    proof {
        reveal_strlit("# ");
        reveal_strlit("-");
        reveal_strlit(" ");
        reveal_strlit(":");
    }
    let mut s = String::from_str("# ");
    push_year(&mut s, ts.year);
    s.append("-");
    push_padded(&mut s, 2, ts.month as u64);
    s.append("-");
    push_padded(&mut s, 2, ts.day as u64);
    s.append(" ");
    push_padded(&mut s, 2, ts.hour as u64);
    s.append(":");
    push_padded(&mut s, 2, ts.minute as u64);
    s.append(":");
    push_padded(&mut s, 2, ts.second as u64);
    proof {
        assert(s@ =~= header_chars(ts));
    }
    s
}

/// Renders the filename a captured journal entry is archived under.
pub fn journal_filename(ts: Timestamp) -> (r: String)
    ensures
        r@ == filename_chars(ts),
{
    proof {
        reveal_strlit("-");
        reveal_strlit("_");
        reveal_strlit(".md");
    }
    let mut s = String::new();
    push_year(&mut s, ts.year);
    s.append("-");
    push_padded(&mut s, 2, ts.month as u64);
    s.append("-");
    push_padded(&mut s, 2, ts.day as u64);
    s.append("_");
    push_padded(&mut s, 2, ts.hour as u64);
    s.append("-");
    push_padded(&mut s, 2, ts.minute as u64);
    s.append("-");
    push_padded(&mut s, 2, ts.second as u64);
    s.append(".md");
    proof {
        assert(s@ =~= filename_chars(ts));
    }
    s
}

} // verus!
