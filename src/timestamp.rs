//! Exchange timestamps: reading `YYYY-MM-DDTHH:MM:SS.mmmZ`, writing it back,
//! and the wall clock in Unix milliseconds.

use crate::numeric::nat_text;
use chrono::{Datelike, Timelike};
use vstd::prelude::*;

verus! {

/// A UTC date and time with millisecond precision.
#[derive(Clone, Copy, Debug, PartialEq, Eq, Structural)]
pub struct Timestamp {
    pub year: i32,
    pub month: u32,
    pub day: u32,
    pub hour: u32,
    pub minute: u32,
    pub second: u32,
    pub millisecond: u32,
}

/// The layout of the exchange's timestamps, in chrono's format syntax.
pub const EXCHANGE_TIME_FORMAT: &'static str = "%Y-%m-%dT%H:%M:%S.%3fZ";

/// The date and time that `text` gives in layout `format`, if it matches.
pub uninterp spec fn naive_time_of(text: Seq<char>, format: Seq<char>) -> Option<Timestamp>;

/// Relies on `chrono::NaiveDateTime::parse_from_str`: reads `text` in the
/// layout `format`; the result depends on the two texts alone.
#[verifier::external_body]
fn parse_naive_time(text: &str, format: &str) -> (r: Option<Timestamp>)
    ensures
        r == naive_time_of(text@, format@),
{
    match chrono::NaiveDateTime::parse_from_str(text, format) {
        Ok(d) => Some(Timestamp {
            year: d.year(),
            month: d.month(),
            day: d.day(),
            hour: d.hour(),
            minute: d.minute(),
            second: d.second(),
            millisecond: d.and_utc().timestamp_subsec_millis(),
        }),
        Err(_) => None,
    }
}

/// The exchange time that `text` stands for.
pub open spec fn exchange_time_of(text: Seq<char>) -> Option<Timestamp> {
    naive_time_of(text, EXCHANGE_TIME_FORMAT@)
}

/// Reads an exchange timestamp such as `2019-03-19T02:15:06.001Z` (UTC,
/// milliseconds); `None` on any other layout.
pub fn parse_exchange_timestamp(text: &str) -> (r: Option<Timestamp>)
    ensures
        r == exchange_time_of(text@),
{
    parse_naive_time(text, EXCHANGE_TIME_FORMAT)
}

/// Relies on `chrono::Utc::now` and `DateTime::timestamp_millis`: the current
/// time in milliseconds since the Unix epoch. Nothing is known of its value.
#[verifier::external_body]
pub fn now_millis() -> (r: i64) {
    chrono::Utc::now().timestamp_millis()
}

/// `n` in decimal, padded with zeros on the left to `width` characters.
pub open spec fn padded(n: nat, width: nat) -> Seq<char> {
    let t = nat_text(n);
    if t.len() >= width {
        t
    } else {
        Seq::new((width - t.len()) as nat, |i: int| '0') + t
    }
}

fn write_padded(n: u32, width: usize, out: &mut String)
    requires
        width <= 4,
    ensures
        final(out)@ == old(out)@ + padded(n as nat, width as nat),
{
    let mut digits = String::new();
    crate::numeric::write_i64(n as i64, &mut digits);
    assert(digits@ == nat_text(n as nat));
    let len = digits.as_str().unicode_len();
    let mut k: usize = len;
    let ghost start = out@;
    while k < width
        invariant
            len == nat_text(n as nat).len(),
            len <= k,
            k <= width || k == len,
            width <= 4,
            out@ == start + Seq::new((k - len) as nat, |i: int| '0'),
        decreases width - k,
    {
        proof {
            reveal_strlit("0");
        }
        out.append("0");
        k = k + 1;
        assert(out@ =~= start + Seq::new((k - len) as nat, |i: int| '0'));
    }
    proof {
        if len >= width {
            assert(k == len);
            assert(out@ =~= start);
        } else {
            assert(k == width);
        }
    }
    out.append(digits.as_str());
    assert(final(out)@ =~= old(out)@ + padded(n as nat, width as nat));
}

/// RFC 3339 text of a timestamp with milliseconds and a `Z` suffix.
pub open spec fn rfc3339_millis(t: Timestamp) -> Seq<char> {
    padded(t.year as nat, 4) + seq!['-'] + padded(t.month as nat, 2) + seq!['-'] + padded(
        t.day as nat,
        2,
    ) + seq!['T'] + padded(t.hour as nat, 2) + seq![':'] + padded(t.minute as nat, 2) + seq![':']
        + padded(t.second as nat, 2) + seq!['.'] + padded(t.millisecond as nat, 3) + seq!['Z']
}

impl Timestamp {
    /// The timestamp as `YYYY-MM-DDTHH:MM:SS.mmmZ`, the layout the exchange
    /// uses. Years before 1 or after 9999 have no such text.
    pub fn to_rfc3339_millis(&self) -> (r: String)
        requires
            0 <= self.year <= 9999,
        ensures
            r@ == rfc3339_millis(*self),
    {
        proof {
            reveal_strlit("-");
            reveal_strlit("T");
            reveal_strlit(":");
            reveal_strlit(".");
            reveal_strlit("Z");
        }
        let mut out = String::new();
        write_padded(self.year as u32, 4, &mut out);
        out.append("-");
        write_padded(self.month, 2, &mut out);
        out.append("-");
        write_padded(self.day, 2, &mut out);
        out.append("T");
        write_padded(self.hour, 2, &mut out);
        out.append(":");
        write_padded(self.minute, 2, &mut out);
        out.append(":");
        write_padded(self.second, 2, &mut out);
        out.append(".");
        write_padded(self.millisecond, 3, &mut out);
        out.append("Z");
        assert(out@ =~= rfc3339_millis(*self));
        out
    }
}

} // verus!
