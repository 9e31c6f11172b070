//! The date field of a SAUCE header: eight ASCII bytes in `CCYYMMDD`
//! order, kept as a plain year/month/day triple. No calendar validation
//! happens here — month 13 or day 40 are representable — and the byte
//! parser tolerates bytes above `'9'` by letting the positional arithmetic
//! wrap, while bytes below `'0'` are rejected.

use vstd::prelude::*;

use crate::digits::{
    dec_digits, dec_padded, dec_signed_padded, lemma_dec_digits_ascii, push_dec_padded,
};
use crate::errors::SauceError;
use crate::util::ascii_to_string;

verus! {

/// A calendar-like triple as stored in a SAUCE header. Values are not
/// range-checked; strict validation is left to a downstream calendar
/// conversion.
#[derive(Debug, Clone, Copy, PartialEq, Eq, Structural)]
pub struct SauceDate {
    /// Full year (0–9999 in well-formed records; other values are
    /// representable and only affect rendering).
    pub year: i32,
    /// Month value (1–12 in well-formed records).
    pub month: u8,
    /// Day of month (1–31 in well-formed records).
    pub day: u8,
}

/// The bytes an eight-byte date field must satisfy to parse: exactly eight
/// bytes, none below `'0'`.
pub open spec fn date_bytes_ok(s: Seq<u8>) -> bool {
    s.len() == 8 && forall|i: int| 0 <= i < 8 ==> s[i] >= 48
}

/// The year read from the first four bytes by positional arithmetic.
pub open spec fn year_of_bytes(s: Seq<u8>) -> int {
    (s[0] - 48) * 1000 + (s[1] - 48) * 100 + (s[2] - 48) * 10 + (s[3] - 48)
}

/// Two bytes read as a two-digit number, wrapping as byte arithmetic does.
pub open spec fn two_digit_wrap(a: u8, b: u8) -> u8 {
    ((((a - 48) * 10) + (b - 48)) % 256) as u8
}

/// The date a well-formed eight-byte field holds.
pub open spec fn date_of_bytes(s: Seq<u8>) -> SauceDate {
    SauceDate {
        year: year_of_bytes(s) as i32,
        month: two_digit_wrap(s[4], s[5]),
        day: two_digit_wrap(s[6], s[7]),
    }
}

/// The wire form of a date: year zero-padded to four bytes, month and day
/// to two each.
pub open spec fn date_wire(d: SauceDate) -> Seq<u8> {
    dec_signed_padded(d.year as int, 4) + dec_padded(d.month as nat, 2) + dec_padded(
        d.day as nat,
        2,
    )
}

/// The human-readable form of a date: `YYYY/MM/DD`, with the year left
/// unpadded when it does not fit in four digits.
pub open spec fn date_display_bytes(d: SauceDate) -> Seq<u8> {
    (if 0 <= d.year < 10000 {
        dec_padded(d.year as nat, 4)
    } else {
        dec_signed_padded(d.year as int, 0)
    }) + seq![47u8] + dec_padded(d.month as nat, 2) + seq![47u8] + dec_padded(d.day as nat, 2)
}

/// Every byte of a padded decimal rendering is an ASCII digit.
pub proof fn lemma_dec_padded_ascii(n: nat, w: nat)
    ensures
        forall|i: int|
            0 <= i < dec_padded(n, w).len() ==> 48 <= #[trigger] dec_padded(n, w)[i] <= 57,
{
    lemma_dec_digits_ascii(n);
    assert forall|i: int| 0 <= i < dec_padded(n, w).len() implies 48 <= #[trigger] dec_padded(
        n,
        w,
    )[i] <= 57 by {
        if dec_digits(n).len() >= w {
        } else {
            let pad = (w - dec_digits(n).len()) as nat;
            if i < pad {
                assert(dec_padded(n, w)[i] == 48);
            } else {
                assert(dec_padded(n, w)[i] == dec_digits(n)[i - pad]);
            }
        }
    }
}

/// Every byte of a signed padded rendering is a minus sign or a digit.
pub proof fn lemma_dec_signed_padded_ascii(n: int, w: nat)
    ensures
        forall|i: int|
            0 <= i < dec_signed_padded(n, w).len() ==> 45 <= #[trigger] dec_signed_padded(
                n,
                w,
            )[i] <= 57,
{
    if n >= 0 {
        lemma_dec_padded_ascii(n as nat, w);
    } else {
        let inner_w: nat = if w > 0 {
            (w - 1) as nat
        } else {
            0
        };
        lemma_dec_padded_ascii((-n) as nat, inner_w);
        assert forall|i: int| 0 <= i < dec_signed_padded(n, w).len() implies 45
            <= #[trigger] dec_signed_padded(n, w)[i] <= 57 by {
            if i == 0 {
                assert(dec_signed_padded(n, w)[0] == 45);
            } else {
                assert(dec_signed_padded(n, w)[i] == dec_padded((-n) as nat, inner_w)[i - 1]);
            }
        }
    }
}

impl SauceDate {
    /// Construct a date without validation.
    pub fn new(year: i32, month: u8, day: u8) -> (r: Self)
        ensures
            r == (SauceDate { year, month, day }),
    {
        SauceDate { year, month, day }
    }

    /// Parse an eight-byte `CCYYMMDD` field.
    ///
    /// Returns `None` when the slice is not exactly eight bytes or any
    /// byte is below `'0'`. Bytes above `'9'` are tolerated: the
    /// positional arithmetic simply wraps, preserving the historical
    /// behaviour of records written with non-digit date bytes.
    pub fn from_bytes(bytes: &[u8]) -> (r: Option<SauceDate>)
        ensures
            r is Some <==> date_bytes_ok(bytes@),
            date_bytes_ok(bytes@) ==> r == Some(date_of_bytes(bytes@)),
    {
        if bytes.len() != 8 {
            return None;
        }
        let mut i: usize = 0;
        while i < 8
            invariant
                i <= 8,
                bytes@.len() == 8,
                forall|j: int| 0 <= j < i ==> bytes@[j] >= 48,
            decreases 8 - i,
        {
            if bytes[i] < 48 {
                return None;
            }
            i = i + 1;
        }
        let year: i32 = (bytes[0] - 48) as i32 * 1000 + (bytes[1] - 48) as i32 * 100 + (bytes[2]
            - 48) as i32 * 10 + (bytes[3] - 48) as i32;
        let m: u32 = (bytes[4] - 48) as u32 * 10 + (bytes[5] - 48) as u32;
        let d: u32 = (bytes[6] - 48) as u32 * 10 + (bytes[7] - 48) as u32;
        let month: u8 = (m % 256) as u8;
        let day: u8 = (d % 256) as u8;
        Some(SauceDate { year, month, day })
    }

    /// Append the strict eight-byte wire form (`CCYYMMDD`) to a buffer.
    ///
    /// For years outside 0–9999 the rendering can take more or fewer than
    /// eight bytes; such a date no longer fits the fixed header layout.
    pub fn write(&self, writer: &mut Vec<u8>) -> (r: Result<(), SauceError>)
        ensures
            r is Ok,
            final(writer)@ == old(writer)@ + date_wire(*self),
    {
        if self.year >= 0 {
            push_dec_padded(writer, self.year as u32, 4);
        } else {
            writer.push(45);
            let mag: u32 = (-(self.year as i64)) as u32;
            push_dec_padded(writer, mag, 3);
            proof {
                assert(writer@ =~= old(writer)@ + dec_signed_padded(self.year as int, 4));
            }
        }
        push_dec_padded(writer, self.month as u32, 2);
        push_dec_padded(writer, self.day as u32, 2);
        proof {
            assert(writer@ =~= old(writer)@ + date_wire(*self));
        }
        Ok(())
    }

    /// The date rendered as `YYYY/MM/DD`; years outside 0–9999 are shown
    /// unpadded, with a minus sign when negative.
    pub fn to_display_string(&self) -> (r: String)
        ensures
            r@.len() == date_display_bytes(*self).len(),
            forall|i: int|
                0 <= i < r@.len() ==> r@[i] == #[trigger] date_display_bytes(*self)[i] as char,
    {
        let mut v: Vec<u8> = Vec::new();
        if self.year >= 0 && self.year < 10000 {
            push_dec_padded(&mut v, self.year as u32, 4);
        } else if self.year >= 0 {
            push_dec_padded(&mut v, self.year as u32, 0);
        } else {
            v.push(45);
            let mag: u32 = (-(self.year as i64)) as u32;
            push_dec_padded(&mut v, mag, 0);
            proof {
                assert(v@ =~= dec_signed_padded(self.year as int, 0));
            }
        }
        v.push(47);
        push_dec_padded(&mut v, self.month as u32, 2);
        v.push(47);
        push_dec_padded(&mut v, self.day as u32, 2);
        proof {
            assert(v@ =~= date_display_bytes(*self));
            lemma_dec_padded_ascii(self.year as nat, 4);
            lemma_dec_signed_padded_ascii(self.year as int, 0);
            lemma_dec_padded_ascii(self.month as nat, 2);
            lemma_dec_padded_ascii(self.day as nat, 2);
        }
        ascii_to_string(&v)
    }
}

#[verifier::external_type_specification]
#[verifier::external_body]
pub struct ExNaiveDate(chrono::NaiveDate);

/// Relies on `chrono::NaiveDate::from_ymd_opt`: returns `Some` only for
/// a valid calendar date, so in particular only when the month is 1–12
/// and the day 1–31.
#[verifier::external_body]
fn naive_date_from_ymd_opt(year: i32, month: u32, day: u32) -> (r: Option<chrono::NaiveDate>)
    ensures
        r is Some ==> 1 <= month <= 12 && 1 <= day <= 31,
{
    chrono::NaiveDate::from_ymd_opt(year, month, day)
}

impl SauceDate {
    /// The calendar date this triple names, or `None` when it is not a
    /// valid calendar date (or its year is out of the calendar's range).
    pub fn to_naive_date(&self) -> (r: Option<chrono::NaiveDate>)
        ensures
            r is Some ==> 1 <= self.month <= 12 && 1 <= self.day <= 31,
    {
        naive_date_from_ymd_opt(self.year, self.month as u32, self.day as u32)
    }
}

impl Default for SauceDate {
    /// The all-zero date, used when a header's date field does not parse.
    fn default() -> (r: Self)
        ensures
            r == (SauceDate { year: 0, month: 0, day: 0 }),
    {
        SauceDate { year: 0, month: 0, day: 0 }
    }
}

} // verus!
