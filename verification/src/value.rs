//! The value-decoding scheme: a column value of unknown logical type, as the
//! wire delivered it, is decoded into one canonical text form or a null
//! marker.
//!
//! The wire carries only a type identifier, so a value is recovered by trying
//! a fixed, ordered list of candidates; the first candidate that parsed wins.
//! A [`WireCell`] records, for each candidate, whether it parsed and to what
//! plain value, and [`decode`] resolves that record in the canonical order.
//! Some wire representations parse under more than one candidate, so the
//! order is part of the contract, not an implementation detail.

use vstd::prelude::*;
use vstd::string::StringExecFns;

use crate::text::{
    dec_fixed, hex_fixed, i64_to_string, int_rep, push_char, push_dec_fixed, push_hex_fixed,
};

verus! {

/// A calendar date, held as plain fields.
#[derive(Clone, Copy, Debug, PartialEq, Eq, Structural)]
pub struct Date {
    pub year: u16,
    pub month: u8,
    pub day: u8,
}

/// A time of day with microsecond precision, held as plain fields.
#[derive(Clone, Copy, Debug, PartialEq, Eq, Structural)]
pub struct TimeOfDay {
    pub hour: u8,
    pub minute: u8,
    pub second: u8,
    pub micros: u32,
}

/// A timestamp: a date and a time of day. For a timestamp with time zone the
/// fields are the instant expressed in UTC.
#[derive(Clone, Copy, Debug, PartialEq, Eq, Structural)]
pub struct Timestamp {
    pub date: Date,
    pub time: TimeOfDay,
}

/// The 128 bits of a UUID, most significant half first.
#[derive(Clone, Copy, Debug, PartialEq, Eq, Structural)]
pub struct UuidBits {
    pub hi: u64,
    pub lo: u64,
}

impl Date {
    /// Years are kept to four digits so that the canonical `YYYY-MM-DD` form
    /// is exact.
    pub open spec fn wf(self) -> bool {
        &&& self.year <= 9999
        &&& 1 <= self.month <= 12
        &&& 1 <= self.day <= 31
    }
}

impl TimeOfDay {
    pub open spec fn wf(self) -> bool {
        &&& self.hour <= 23
        &&& self.minute <= 59
        &&& self.second <= 59
        &&& self.micros < 1000000
    }
}

impl Timestamp {
    pub open spec fn wf(self) -> bool {
        self.date.wf() && self.time.wf()
    }
}

/// Canonical date text: `YYYY-MM-DD`.
pub open spec fn date_rep(d: Date) -> Seq<char> {
    dec_fixed(d.year as nat, 4) + seq!['-'] + dec_fixed(d.month as nat, 2) + seq!['-'] + dec_fixed(
        d.day as nat,
        2,
    )
}

/// Canonical time-of-day text: `HH:MM:SS.ffffff`, with a fixed six digits of
/// sub-second precision.
pub open spec fn time_rep(t: TimeOfDay) -> Seq<char> {
    dec_fixed(t.hour as nat, 2) + seq![':'] + dec_fixed(t.minute as nat, 2) + seq![':']
        + dec_fixed(t.second as nat, 2) + seq!['.'] + dec_fixed(t.micros as nat, 6)
}

/// Canonical timestamp-without-time-zone text: `YYYY-MM-DD HH:MM:SS.ffffff`.
/// The sub-second precision is fixed at six digits on every path.
pub open spec fn timestamp_rep(ts: Timestamp) -> Seq<char> {
    date_rep(ts.date) + seq![' '] + time_rep(ts.time)
}

/// Canonical timestamp-with-time-zone text, an RFC 3339 form in UTC:
/// `YYYY-MM-DDTHH:MM:SS.ffffff+00:00`.
pub open spec fn timestamp_tz_rep(ts: Timestamp) -> Seq<char> {
    date_rep(ts.date) + seq!['T'] + time_rep(ts.time) + seq!['+', '0', '0', ':', '0', '0']
}

/// Canonical UUID text: lower-case hexadecimal in the 8-4-4-4-12 hyphenated
/// layout.
pub open spec fn uuid_rep(u: UuidBits) -> Seq<char> {
    hex_fixed((u.hi as nat) / 0x100000000, 8) + seq!['-'] + hex_fixed(
        ((u.hi as nat) / 0x10000) % 0x10000,
        4,
    ) + seq!['-'] + hex_fixed((u.hi as nat) % 0x10000, 4) + seq!['-'] + hex_fixed(
        (u.lo as nat) / 0x1000000000000,
        4,
    ) + seq!['-'] + hex_fixed((u.lo as nat) % 0x1000000000000, 12)
}

/// The canonical date text.
pub fn format_date(d: Date) -> (s: String)
    ensures
        s@ == date_rep(d),
{
    let mut s = String::new();
    push_dec_fixed(&mut s, d.year as u64, 4);
    push_char(&mut s, '-');
    push_dec_fixed(&mut s, d.month as u64, 2);
    push_char(&mut s, '-');
    push_dec_fixed(&mut s, d.day as u64, 2);
    proof {
        assert(s@ =~= date_rep(d));
    }
    s
}

fn push_time(s: &mut String, t: TimeOfDay)
    ensures
        final(s)@ == old(s)@ + time_rep(t),
{
    push_dec_fixed(s, t.hour as u64, 2);
    push_char(s, ':');
    push_dec_fixed(s, t.minute as u64, 2);
    push_char(s, ':');
    push_dec_fixed(s, t.second as u64, 2);
    push_char(s, '.');
    push_dec_fixed(s, t.micros as u64, 6);
    proof {
        assert(final(s)@ =~= old(s)@ + time_rep(t));
    }
}

/// The canonical time-of-day text.
pub fn format_time(t: TimeOfDay) -> (s: String)
    ensures
        s@ == time_rep(t),
{
    let mut s = String::new();
    push_time(&mut s, t);
    proof {
        assert(s@ =~= time_rep(t));
    }
    s
}

/// The canonical timestamp-without-time-zone text.
pub fn format_timestamp(ts: Timestamp) -> (s: String)
    ensures
        s@ == timestamp_rep(ts),
{
    let mut s = format_date(ts.date);
    push_char(&mut s, ' ');
    push_time(&mut s, ts.time);
    proof {
        assert(s@ =~= timestamp_rep(ts));
    }
    s
}

/// The canonical timestamp-with-time-zone text (UTC, RFC 3339).
pub fn format_timestamp_tz(ts: Timestamp) -> (s: String)
    ensures
        s@ == timestamp_tz_rep(ts),
{
    let mut s = format_date(ts.date);
    push_char(&mut s, 'T');
    push_time(&mut s, ts.time);
    push_char(&mut s, '+');
    push_char(&mut s, '0');
    push_char(&mut s, '0');
    push_char(&mut s, ':');
    push_char(&mut s, '0');
    push_char(&mut s, '0');
    proof {
        assert(s@ =~= timestamp_tz_rep(ts));
    }
    s
}

/// The canonical hyphenated UUID text.
pub fn format_uuid(u: UuidBits) -> (s: String)
    ensures
        s@ == uuid_rep(u),
{
    let mut s = String::new();
    push_hex_fixed(&mut s, u.hi / 0x100000000, 8);
    push_char(&mut s, '-');
    push_hex_fixed(&mut s, (u.hi / 0x10000) % 0x10000, 4);
    push_char(&mut s, '-');
    push_hex_fixed(&mut s, u.hi % 0x10000, 4);
    push_char(&mut s, '-');
    push_hex_fixed(&mut s, u.lo / 0x1000000000000, 4);
    push_char(&mut s, '-');
    push_hex_fixed(&mut s, u.lo % 0x1000000000000, 12);
    proof {
        assert(s@ =~= uuid_rep(u));
    }
    s
}

/// One column value as the wire delivered it: the outcome of every decoding
/// candidate, before the ordered resolution.
///
/// `null` says the server sent SQL NULL. Each other field is `Some` exactly
/// when the corresponding candidate parsed the (non-null) value, holding the
/// plain value it parsed to. The two float candidates hold the text the value
/// renders to, since the rendering of a float is not modelled here.
#[derive(Clone, Debug)]
pub struct WireCell {
    pub null: bool,
    pub text: Option<String>,
    pub uuid: Option<UuidBits>,
    pub timestamp_tz: Option<Timestamp>,
    pub timestamp: Option<Timestamp>,
    pub date: Option<Date>,
    pub time: Option<TimeOfDay>,
    pub int2: Option<i16>,
    pub int4: Option<i32>,
    pub int8: Option<i64>,
    pub float4_text: Option<String>,
    pub float8_text: Option<String>,
    pub boolean: Option<bool>,
    pub json: Option<String>,
}

impl WireCell {
    pub open spec fn wf(self) -> bool {
        &&& (self.timestamp_tz matches Some(ts) ==> ts.wf())
        &&& (self.timestamp matches Some(ts) ==> ts.wf())
        &&& (self.date matches Some(d) ==> d.wf())
        &&& (self.time matches Some(t) ==> t.wf())
    }

    /// A cell no candidate parsed; the starting point when one is filled in.
    pub fn empty() -> (c: WireCell)
        ensures
            c == (WireCell {
                null: false,
                text: None,
                uuid: None,
                timestamp_tz: None,
                timestamp: None,
                date: None,
                time: None,
                int2: None,
                int4: None,
                int8: None,
                float4_text: None,
                float8_text: None,
                boolean: None,
                json: None,
            }),
    {
        WireCell {
            null: false,
            text: None,
            uuid: None,
            timestamp_tz: None,
            timestamp: None,
            date: None,
            time: None,
            int2: None,
            int4: None,
            int8: None,
            float4_text: None,
            float8_text: None,
            boolean: None,
            json: None,
        }
    }
}

/// The canonical text a cell decodes to, or `None` for the null marker.
///
/// The candidate order is the contract: text, UUID, timestamp with time zone,
/// timestamp, date, time of day, 16-, 32- and 64-bit integers, 32- and 64-bit
/// floats, boolean (`t`/`f`), JSON; a cell that is SQL NULL, or that no
/// candidate parsed, is a logical null. Resolution is deterministic: the same
/// cell always yields the same text.
pub open spec fn decode_spec(c: WireCell) -> Option<Seq<char>> {
    if c.null {
        None
    } else if c.text is Some {
        Some(c.text->0@)
    } else if c.uuid is Some {
        Some(uuid_rep(c.uuid->0))
    } else if c.timestamp_tz is Some {
        Some(timestamp_tz_rep(c.timestamp_tz->0))
    } else if c.timestamp is Some {
        Some(timestamp_rep(c.timestamp->0))
    } else if c.date is Some {
        Some(date_rep(c.date->0))
    } else if c.time is Some {
        Some(time_rep(c.time->0))
    } else if c.int2 is Some {
        Some(int_rep(c.int2->0 as int))
    } else if c.int4 is Some {
        Some(int_rep(c.int4->0 as int))
    } else if c.int8 is Some {
        Some(int_rep(c.int8->0 as int))
    } else if c.float4_text is Some {
        Some(c.float4_text->0@)
    } else if c.float8_text is Some {
        Some(c.float8_text->0@)
    } else if c.boolean is Some {
        Some(if c.boolean->0 { seq!['t'] } else { seq!['f'] })
    } else if c.json is Some {
        Some(c.json->0@)
    } else {
        None
    }
}

/// Whether a decoded value equals a spec-level decoded text.
pub open spec fn decoded_eq(r: Option<String>, s: Option<Seq<char>>) -> bool {
    match (r, s) {
        (Some(a), Some(b)) => a@ == b,
        (None, None) => true,
        _ => false,
    }
}

/// Decodes one cell to its canonical text, or to the null marker `None`.
/// A candidate that did not parse is no error; the next one is tried.
pub fn decode(cell: &WireCell) -> (r: Option<String>)
    requires
        cell.wf(),
    ensures
        decoded_eq(r, decode_spec(*cell)),
{
    if cell.null {
        return None;
    }
    if let Some(s) = &cell.text {
        return Some(s.clone());
    }
    if let Some(u) = &cell.uuid {
        return Some(format_uuid(*u));
    }
    if let Some(ts) = &cell.timestamp_tz {
        return Some(format_timestamp_tz(*ts));
    }
    if let Some(ts) = &cell.timestamp {
        return Some(format_timestamp(*ts));
    }
    if let Some(d) = &cell.date {
        return Some(format_date(*d));
    }
    if let Some(t) = &cell.time {
        return Some(format_time(*t));
    }
    if let Some(v) = &cell.int2 {
        return Some(i64_to_string(*v as i64));
    }
    if let Some(v) = &cell.int4 {
        return Some(i64_to_string(*v as i64));
    }
    if let Some(v) = &cell.int8 {
        return Some(i64_to_string(*v));
    }
    if let Some(s) = &cell.float4_text {
        return Some(s.clone());
    }
    if let Some(s) = &cell.float8_text {
        return Some(s.clone());
    }
    if let Some(b) = &cell.boolean {
        let s = if *b {
            String::from_str("t")
        } else {
            String::from_str("f")
        };
        proof {
            reveal_strlit("t");
            reveal_strlit("f");
            assert(s@ =~= decode_spec(*cell)->0);
        }
        return Some(s);
    }
    if let Some(s) = &cell.json {
        return Some(s.clone());
    }
    None
}

} // verus!
