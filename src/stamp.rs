//! Comment timestamps: the local date and time fields of an RFC 3339 text,
//! shown as `YYYY-MM-DD HH:MM:SS`.

use chrono::{Datelike, Timelike};
use vstd::prelude::*;
use crate::text::{padded, push_char, push_padded};

verus! {

/// Date and time of day, as written in the text with its own offset.
#[derive(Clone, Copy, Debug, PartialEq, Eq, Structural)]
pub struct Stamp {
    pub year: i32,
    pub month: u32,
    pub day: u32,
    pub hour: u32,
    pub minute: u32,
    pub second: u32,
    /// Beyond `1_000_000_000` during a leap second.
    pub nanosecond: u32,
}

/// The fields that `chrono::DateTime::parse_from_rfc3339` reads from a text,
/// or `None` where it rejects the text.
pub uninterp spec fn rfc3339_stamp(text: Seq<char>) -> Option<Stamp>;

/// Relies on `chrono::DateTime::parse_from_rfc3339` and the `Datelike` and
/// `Timelike` field getters; the grammar takes a year of exactly four digits.
#[verifier::external_body]
pub(crate) fn parse_rfc3339(text: &str) -> (r: Option<Stamp>)
    ensures
        r == rfc3339_stamp(text@),
        r matches Some(s) ==> 0 <= s.year <= 9999,
{
    chrono::DateTime::parse_from_rfc3339(text).ok().map(|d| Stamp {
        year: d.year(),
        month: d.month(),
        day: d.day(),
        hour: d.hour(),
        minute: d.minute(),
        second: d.second(),
        nanosecond: d.nanosecond(),
    })
}

/// The second as shown: 60 during a leap second.
pub open spec fn shown_second(s: Stamp) -> nat {
    s.second as nat + (s.nanosecond / 1_000_000_000) as nat
}

fn second_of(s: &Stamp) -> (r: u128)
    ensures
        r == shown_second(*s),
{
    s.second as u128 + (s.nanosecond / 1_000_000_000) as u128
}

/// `YYYY-MM-DD HH:MM:SS`, each field zero-padded.
pub open spec fn stamp_text(s: Stamp) -> Seq<char> {
    padded(s.year as nat, 4) + seq!['-'] + padded(s.month as nat, 2) + seq!['-'] + padded(s.day as nat, 2)
        + seq![' '] + padded(s.hour as nat, 2) + seq![':'] + padded(s.minute as nat, 2) + seq![':']
        + padded(shown_second(s), 2)
}

/// Appends `stamp_text` of a stamp with a year of at most four digits.
pub fn push_stamp(out: &mut String, s: Stamp)
    requires
        0 <= s.year <= 9999,
    ensures
        final(out)@ == old(out)@ + stamp_text(s),
{
    let shown = second_of(&s);
    let ghost start = out@;
    push_padded(out, s.year as u128, 4);
    push_char(out, '-');
    push_padded(out, s.month as u128, 2);
    push_char(out, '-');
    push_padded(out, s.day as u128, 2);
    let ghost date = out@;
    assert(date =~= start + padded(s.year as nat, 4) + seq!['-'] + padded(s.month as nat, 2) + seq!['-']
        + padded(s.day as nat, 2));
    push_char(out, ' ');
    push_padded(out, s.hour as u128, 2);
    push_char(out, ':');
    push_padded(out, s.minute as u128, 2);
    push_char(out, ':');
    push_padded(out, shown, 2);
    assert(out@ =~= date + seq![' '] + padded(s.hour as nat, 2) + seq![':'] + padded(s.minute as nat, 2)
        + seq![':'] + padded(shown_second(s), 2));
    assert(out@ =~= start + stamp_text(s));
}

} // verus!
