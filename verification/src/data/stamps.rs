//! Identifiers and instants as the data files write them: UUIDs through the
//! `uuid` crate and UTC date-times through `chrono`. An instant is a count of
//! microseconds since 1970-01-01T00:00:00Z.
use vstd::prelude::*;
use vstd::arithmetic::power::{lemma_pow_positive, pow};
use vstd::arithmetic::div_mod::{lemma_fundamental_div_mod, lemma_fundamental_div_mod_converse};
use crate::text::{padded2, push_char, push_padded2};
use chrono::{Datelike, Timelike};

verus! {

/// The earliest instant chrono can hold: -262143-01-01T00:00:00Z.
pub const MIN_INSTANT: i64 = -8_334_601_315_200_000_000;
/// The latest instant chrono can hold: +262142-12-31T23:59:59.999999Z.
pub const MAX_INSTANT: i64 = 8_210_266_876_799_999_999;
/// 0000-01-01T00:00:00Z, the first instant with a four-digit year.
pub const FIRST_FOUR_DIGIT: i64 = -62_167_219_200_000_000;
/// 9999-12-31T23:59:59Z, the last whole second with a four-digit year.
pub const LAST_FOUR_DIGIT: i64 = 253_402_300_799_000_000;

/// An instant that chrono can hold.
pub open spec fn in_range(t: i64) -> bool {
    MIN_INSTANT <= t <= MAX_INSTANT
}

/// A whole second whose year has four digits.
pub open spec fn four_digit_second(t: i64) -> bool {
    FIRST_FOUR_DIGIT <= t <= LAST_FOUR_DIGIT && t % 1_000_000 == 0
}

/// The lowercase hexadecimal digit of a value below sixteen.
pub open spec fn hex_digit(d: int) -> char {
    if d < 10 { ('0' as int + d) as char } else { ('a' as int + d - 10) as char }
}

/// The 32 hexadecimal digits of a 128-bit value, most significant first.
pub open spec fn hex32(v: u128) -> Seq<char> {
    Seq::new(32, |k: int| hex_digit((v as int / pow(16, (31 - k) as nat)) % 16))
}

/// A UUID as `uuid::Uuid` displays it: lowercase hexadecimal in groups of
/// 8, 4, 4, 4 and 12 digits joined by hyphens.
pub open spec fn uuid_text(v: u128) -> Seq<char> {
    let h = hex32(v);
    h.subrange(0, 8) + seq!['-'] + h.subrange(8, 12) + seq!['-'] + h.subrange(12, 16) + seq!['-']
        + h.subrange(16, 20) + seq!['-'] + h.subrange(20, 32)
}

/// The text of a UUID holds hexadecimal digits and hyphens only.
pub proof fn lemma_uuid_text_chars(v: u128)
    ensures
        uuid_text(v).len() == 36,
        forall|i: int| 0 <= i < 36 ==> {
            let c = #[trigger] uuid_text(v)[i];
            ('0' <= c <= '9') || ('a' <= c <= 'f') || c == '-'
        },
{
    let h = hex32(v);
    assert forall|k: int| 0 <= k < 32 implies {
        let c = #[trigger] h[k];
        ('0' <= c <= '9') || ('a' <= c <= 'f')
    } by {
        lemma_pow_positive(16, (31 - k) as nat);
        let d = (v as int / pow(16, (31 - k) as nat)) % 16;
        assert(0 <= d < 16);
    }
    let t = uuid_text(v);
    assert forall|i: int| 0 <= i < 36 implies {
        let c = #[trigger] t[i];
        ('0' <= c <= '9') || ('a' <= c <= 'f') || c == '-'
    } by {
        if i < 8 {
            assert(t[i] == h[i]);
        } else if i == 8 || i == 13 || i == 18 || i == 23 {
        } else if i < 13 {
            assert(t[i] == h[i - 1]);
        } else if i < 18 {
            assert(t[i] == h[i - 2]);
        } else if i < 23 {
            assert(t[i] == h[i - 3]);
        } else {
            assert(t[i] == h[i - 4]);
        }
    }
}

/// `Uuid::new_v4`: a random UUID, taken as its 128-bit value. It depends on
/// chance, so nothing is stated of it.
#[verifier::external_body]
pub(crate) fn new_uuid() -> (r: u128) {
    uuid::Uuid::new_v4().as_u128()
}

/// `Uuid::from_u128(v).to_string()`: the hyphenated lowercase text.
#[verifier::external_body]
pub(crate) fn uuid_string(v: u128) -> (r: String)
    ensures
        r@ == uuid_text(v),
{
    uuid::Uuid::from_u128(v).to_string()
}

/// What `Uuid::parse_str` makes of a text, as a 128-bit value.
pub uninterp spec fn uuid_parsed(s: Seq<char>) -> Option<u128>;

/// `Uuid::parse_str(s)` taken as a 128-bit value, `None` where it fails. The
/// crate documents that it reads every format the crate writes, the
/// hyphenated one among them; how it treats other texts is left unsaid.
#[verifier::external_body]
pub(crate) fn parse_uuid(s: &str) -> (r: Option<u128>)
    ensures
        r == uuid_parsed(s@),
        forall|v: u128| #[trigger] uuid_text(v) == s@ ==> r == Some(v),
{
    match uuid::Uuid::parse_str(s) {
        Ok(u) => Some(u.as_u128()),
        Err(_) => None,
    }
}

/// What chrono writes for an instant with `%Y%m%dT%H%M%SZ`.
pub uninterp spec fn compact_text(t: i64) -> Seq<char>;

/// `DateTime::<Utc>::from_timestamp_micros(t)` formatted with
/// `%Y%m%dT%H%M%SZ`. The text is made of the year (signed beyond four
/// digits), two-digit fields, `T` and `Z`: no line break is in it.
#[verifier::external_body]
pub(crate) fn format_compact(t: i64) -> (r: String)
    requires
        in_range(t),
    ensures
        r@ == compact_text(t),
        !r@.contains('\n'),
        !r@.contains('\r'),
{
    let dt = chrono::DateTime::from_timestamp_micros(t).unwrap_or_default();
    dt.format("%Y%m%dT%H%M%SZ").to_string()
}

/// What chrono reads from a text with `%Y%m%dT%H%M%SZ`, as an instant.
pub uninterp spec fn compact_parsed(s: Seq<char>) -> Option<i64>;

/// `NaiveDateTime::parse_from_str(s, "%Y%m%dT%H%M%SZ")` taken as a UTC
/// instant, `None` where it fails. Unsigned years are read as four digits,
/// so the text written for a whole second of a four-digit year reads back
/// as that second; other texts are left unsaid. A seconds field of 60 is
/// read as a leap second and counted as one more second, so on the last day
/// chrono holds the instant read can lie one microsecond past the range.
#[verifier::external_body]
pub(crate) fn parse_compact(s: &str) -> (r: Option<i64>)
    ensures
        r == compact_parsed(s@),
        r matches Some(t) ==> MIN_INSTANT <= t <= MAX_INSTANT + 1,
        forall|t: i64| four_digit_second(t) && #[trigger] compact_text(t) == s@ ==> r == Some(t),
{
    match chrono::NaiveDateTime::parse_from_str(s, "%Y%m%dT%H%M%SZ") {
        Ok(dt) => Some(dt.and_utc().timestamp_micros()),
        Err(_) => None,
    }
}

/// What chrono reads from a text with `%Y-%m-%dT%H:%MZ`: an instant, or the
/// message of the parse error.
pub uninterp spec fn form_instant_parsed(s: Seq<char>) -> Result<i64, Seq<char>>;

/// `NaiveDateTime::parse_from_str(s, "%Y-%m-%dT%H:%MZ")` taken as a UTC
/// instant, or the text of its error.
#[verifier::external_body]
pub(crate) fn parse_form_instant(s: &str) -> (r: Result<i64, String>)
    ensures
        match (r, form_instant_parsed(s@)) {
            (Ok(a), Ok(b)) => a == b && in_range(a),
            (Err(e), Err(m)) => e@ == m,
            _ => false,
        },
{
    match chrono::NaiveDateTime::parse_from_str(s, "%Y-%m-%dT%H:%MZ") {
        Ok(dt) => Ok(dt.and_utc().timestamp_micros()),
        Err(e) => Err(e.to_string()),
    }
}

/// What chrono writes for an instant with `%Y-%m-%d`.
pub uninterp spec fn day_text(t: i64) -> Seq<char>;

/// `DateTime::<Utc>::from_timestamp_micros(t)` formatted with `%Y-%m-%d`.
#[verifier::external_body]
pub(crate) fn format_day(t: i64) -> (r: String)
    requires
        in_range(t),
    ensures
        r@ == day_text(t),
{
    let dt = chrono::DateTime::from_timestamp_micros(t).unwrap_or_default();
    dt.format("%Y-%m-%d").to_string()
}

/// What chrono writes for an instant with `%H:%M`: the hour and the minute
/// of its UTC time of day, two digits each.
pub open spec fn minute_text(t: i64) -> Seq<char> {
    let second_of_day = (t as int / 1_000_000) % 86_400;
    padded2(second_of_day / 3600) + seq![':'] + padded2((second_of_day % 3600) / 60)
}

/// The second of the day of an instant, counted in whole days from an
/// earlier midnight.
proof fn lemma_second_of_day(t: int, k: int)
    requires
        k >= 0,
        t + k * 86_400_000_000 >= 0,
    ensures
        ((t + k * 86_400_000_000) % 86_400_000_000) / 1_000_000 == (t / 1_000_000) % 86_400,
{
    let d: int = 86_400_000_000;
    let q = t / d;
    let rem = t % d;
    lemma_fundamental_div_mod(t, d);
    assert(0 <= rem < d);
    assert(t + k * d == (q + k) * d + rem) by (nonlinear_arith)
        requires t == d * q + rem;
    lemma_fundamental_div_mod_converse(t + k * d, d, q + k, rem);
    let a = rem / 1_000_000;
    let b = rem % 1_000_000;
    lemma_fundamental_div_mod(rem, 1_000_000);
    assert(0 <= a < 86_400);
    assert(t == (q * 86_400 + a) * 1_000_000 + b) by (nonlinear_arith)
        requires t == d * q + rem, rem == 1_000_000 * a + b, d == 86_400_000_000;
    lemma_fundamental_div_mod_converse(t, 1_000_000, q * 86_400 + a, b);
    lemma_fundamental_div_mod_converse(q * 86_400 + a, 86_400, q, a);
}

/// An instant's UTC time of day as `%H:%M`.
pub(crate) fn format_minute(t: i64) -> (r: String)
    requires
        in_range(t),
    ensures
        r@ == minute_text(t),
{
    let shifted: i128 = t as i128 + 100_000_000i128 * 86_400_000_000i128;
    let day_micros: i128 = shifted % 86_400_000_000;
    let second_of_day: i128 = day_micros / 1_000_000;
    proof {
        lemma_second_of_day(t as int, 100_000_000);
        assert(second_of_day == (t as int / 1_000_000) % 86_400);
    }
    let h: i128 = second_of_day / 3600;
    let m: i128 = (second_of_day % 3600) / 60;
    assert(0 <= h < 24 && 0 <= m < 60);
    let mut out = String::new();
    push_padded2(&mut out, h as i64);
    push_char(&mut out, ':');
    push_padded2(&mut out, m as i64);
    proof {
        assert(out@ =~= minute_text(t));
    }
    out
}

/// What chrono writes for an instant as RFC 3339.
pub uninterp spec fn rfc3339_text(t: i64) -> Seq<char>;

/// `DateTime::<Utc>::from_timestamp_micros(t).to_rfc3339()`.
#[verifier::external_body]
pub(crate) fn format_rfc3339(t: i64) -> (r: String)
    requires
        in_range(t),
    ensures
        r@ == rfc3339_text(t),
{
    let dt = chrono::DateTime::from_timestamp_micros(t).unwrap_or_default();
    dt.to_rfc3339()
}

/// What chrono writes for an instant with `%Y-%m-%d %H:%M`.
pub uninterp spec fn day_minute_text(t: i64) -> Seq<char>;

/// `DateTime::<Utc>::from_timestamp_micros(t)` formatted with
/// `%Y-%m-%d %H:%M`.
#[verifier::external_body]
pub(crate) fn format_day_minute(t: i64) -> (r: String)
    requires
        in_range(t),
    ensures
        r@ == day_minute_text(t),
{
    let dt = chrono::DateTime::from_timestamp_micros(t).unwrap_or_default();
    dt.format("%Y-%m-%d %H:%M").to_string()
}

/// Today's date on this machine's clock and in its time zone
/// (`chrono::Local::now()`), as year, month and day. It depends on when and
/// where it is called, so all that is stated is what chrono documents of
/// every date: a month from 1 to 12 and a day from 1 to 31.
#[verifier::external_body]
pub(crate) fn local_today() -> (r: (i32, u32, u32))
    ensures
        1 <= r.1 <= 12,
        1 <= r.2 <= 31,
{
    let now = chrono::Local::now();
    (now.year(), now.month(), now.day())
}

/// The calendar fields of an instant in UTC: year, month, day, hour, minute.
pub uninterp spec fn utc_fields_of(t: i64) -> (i32, u32, u32, u32, u32);

/// `DateTime::<Utc>::from_timestamp_micros(t)` read with `year`, `month`,
/// `day`, `hour` and `minute`, which chrono documents as lying from 1 to 12,
/// 1 to 31, 0 to 23 and 0 to 59.
#[verifier::external_body]
pub(crate) fn utc_fields(t: i64) -> (r: (i32, u32, u32, u32, u32))
    requires
        in_range(t),
    ensures
        r == utc_fields_of(t),
        1 <= r.1 <= 12,
        1 <= r.2 <= 31,
        r.3 <= 23,
        r.4 <= 59,
{
    let dt = chrono::DateTime::from_timestamp_micros(t).unwrap_or_default();
    (dt.year(), dt.month(), dt.day(), dt.hour(), dt.minute())
}


/// What chrono reads from a text with `%Y-%m-%d`, as midnight UTC of that
/// day.
pub uninterp spec fn day_parsed(s: Seq<char>) -> Option<i64>;

/// `NaiveDate::parse_from_str(s, "%Y-%m-%d")` at 00:00:00 UTC, `None` where
/// it fails. What it gives is an instant chrono holds.
#[verifier::external_body]
pub(crate) fn parse_day(s: &str) -> (r: Option<i64>)
    ensures
        r == day_parsed(s@),
        r matches Some(t) ==> in_range(t),
{
    chrono::NaiveDate::parse_from_str(s, "%Y-%m-%d")
        .ok()
        .and_then(|d| d.and_hms_opt(0, 0, 0))
        .map(|dt| dt.and_utc().timestamp_micros())
}

/// What chrono reads from a text with `%Y-%m-%d %H:%M`, as a UTC instant.
pub uninterp spec fn day_minute_parsed(s: Seq<char>) -> Option<i64>;

/// `NaiveDateTime::parse_from_str(s, "%Y-%m-%d %H:%M")` taken as UTC, `None`
/// where it fails. What it gives is an instant chrono holds.
#[verifier::external_body]
pub(crate) fn parse_day_minute(s: &str) -> (r: Option<i64>)
    ensures
        r == day_minute_parsed(s@),
        r matches Some(t) ==> in_range(t),
{
    chrono::NaiveDateTime::parse_from_str(s, "%Y-%m-%d %H:%M").ok().map(|dt| dt.and_utc().timestamp_micros())
}

} // verus!
