//! Global properties of the codec, proved once and for all: padding is
//! undone by trimming, little-endian fields and the date survive a
//! write/read cycle, a serialized record parses back to its trimmed self,
//! and the XBin capability ignores rendering flags and font.

use vstd::prelude::*;

use crate::binary::{bin_caps_match, BinaryCapabilities, BinaryFormat};
use crate::caps::{caps_encoded, Capabilities};
use crate::character::{AspectRatio, LetterSpacing};
use crate::data_type::{byte_of_data_type, data_type_of_byte, SauceDataType};
use crate::date::{date_bytes_ok, date_of_bytes, date_wire, SauceDate};
use crate::digits::{dec_digits, dec_padded};
use crate::header::SauceHeader;
use crate::util::{is_trim_byte, padded, trim_tail, trim_zero_tail};

verus! {

/// Appending bytes that count as padding does not change the trimmed
/// form.
pub proof fn lemma_trim_append_fill(x: Seq<u8>, k: nat, fill: u8)
    requires
        is_trim_byte(fill),
    ensures
        trim_tail(x + Seq::new(k, |i: int| fill)) == trim_tail(x),
    decreases k,
{
    let padding = Seq::new(k, |i: int| fill);
    if k == 0 {
        assert(x + padding =~= x);
    } else {
        let y = x + padding;
        assert(y[y.len() - 1] == fill);
        assert(y.drop_last() =~= x + Seq::new((k - 1) as nat, |i: int| fill));
        lemma_trim_append_fill(x, (k - 1) as nat, fill);
    }
}

/// Trimming a field padded out to its stored width gives the same bytes
/// as trimming the field itself.
pub proof fn lemma_trim_of_padded(s: Seq<u8>, n: nat, fill: u8)
    requires
        s.len() <= n,
        is_trim_byte(fill),
    ensures
        trim_tail(padded(s, n, fill)) == trim_tail(s),
{
    assert(padded(s, n, fill) =~= s + Seq::new((n - s.len()) as nat, |i: int| fill));
    lemma_trim_append_fill(s, (n - s.len()) as nat, fill);
}

/// Appending NUL bytes does not change the zero-trimmed form.
pub proof fn lemma_ztrim_append_zeros(x: Seq<u8>, k: nat)
    ensures
        trim_zero_tail(x + Seq::new(k, |i: int| 0u8)) == trim_zero_tail(x),
    decreases k,
{
    let padding = Seq::new(k, |i: int| 0u8);
    if k == 0 {
        assert(x + padding =~= x);
    } else {
        let y = x + padding;
        assert(y[y.len() - 1] == 0);
        assert(y.drop_last() =~= x + Seq::new((k - 1) as nat, |i: int| 0u8));
        lemma_ztrim_append_zeros(x, (k - 1) as nat);
    }
}

/// Zero-trimming the zero-padded info string gives the same bytes as
/// zero-trimming the string itself.
pub proof fn lemma_ztrim_of_padded(s: Seq<u8>, n: nat)
    requires
        s.len() <= n,
    ensures
        trim_zero_tail(padded(s, n, 0)) == trim_zero_tail(s),
{
    assert(padded(s, n, 0) =~= s + Seq::new((n - s.len()) as nat, |i: int| 0u8));
    lemma_ztrim_append_zeros(s, (n - s.len()) as nat);
}

/// A number up to two digits renders as exactly its tens and ones
/// digits.
pub proof fn lemma_dec_padded_2(m: nat)
    requires
        m <= 99,
    ensures
        dec_padded(m, 2) =~= seq![(48 + m / 10) as u8, (48 + m % 10) as u8],
{
    reveal_with_fuel(dec_digits, 3);
    if m < 10 {
        assert(dec_padded(m, 2) =~= seq![48u8, (48 + m) as u8]);
    } else {
        assert(dec_digits(m / 10) =~= seq![(48 + m / 10) as u8]);
    }
}

/// A number up to four digits, zero-padded to width four, renders as
/// exactly its four decimal digits.
pub proof fn lemma_dec_padded_4(y: nat)
    requires
        y <= 9999,
    ensures
        dec_padded(y, 4) =~= seq![
            (48 + y / 1000) as u8,
            (48 + (y / 100) % 10) as u8,
            (48 + (y / 10) % 10) as u8,
            (48 + y % 10) as u8,
        ],
{
    reveal_with_fuel(dec_digits, 5);
    vstd::arithmetic::div_mod::lemma_div_denominator(y as int, 10, 10);
    vstd::arithmetic::div_mod::lemma_div_denominator(y as int, 100, 10);
    if y < 10 {
        assert(dec_padded(y, 4) =~= seq![48u8, 48u8, 48u8, (48 + y) as u8]);
    } else if y < 100 {
        assert(1 <= y / 10 <= 9) by (nonlinear_arith)
            requires
                10 <= y <= 99,
        ;
        assert(dec_digits(y) =~= seq![(48 + y / 10) as u8, (48 + y % 10) as u8]);
        assert(dec_padded(y, 4) =~= seq![48u8, 48u8, (48 + y / 10) as u8, (48 + y % 10) as u8]);
    } else if y < 1000 {
        assert(10 <= y / 10 <= 99 && 1 <= y / 100 <= 9) by (nonlinear_arith)
            requires
                100 <= y <= 999,
        ;
        assert((y / 10) / 10 == y / 100);
        assert(dec_digits(y / 10) =~= seq![(48 + y / 100) as u8, (48 + (y / 10) % 10) as u8]);
        assert(dec_digits(y) =~= seq![
            (48 + y / 100) as u8,
            (48 + (y / 10) % 10) as u8,
            (48 + y % 10) as u8,
        ]);
        assert(dec_padded(y, 4) =~= seq![
            48u8,
            (48 + y / 100) as u8,
            (48 + (y / 10) % 10) as u8,
            (48 + y % 10) as u8,
        ]);
    } else {
        assert(100 <= y / 10 <= 999 && 10 <= y / 100 <= 99 && 1 <= y / 1000 <= 9)
            by (nonlinear_arith)
            requires
                1000 <= y <= 9999,
        ;
        assert((y / 10) / 10 == y / 100);
        assert((y / 100) / 10 == y / 1000);
        assert(dec_digits(y / 100) =~= seq![(48 + y / 1000) as u8, (48 + (y / 100) % 10) as u8]);
        assert(dec_digits(y / 10) =~= seq![
            (48 + y / 1000) as u8,
            (48 + (y / 100) % 10) as u8,
            (48 + (y / 10) % 10) as u8,
        ]);
        assert(dec_digits(y) =~= seq![
            (48 + y / 1000) as u8,
            (48 + (y / 100) % 10) as u8,
            (48 + (y / 10) % 10) as u8,
            (48 + y % 10) as u8,
        ]);
    }
}

/// A date whose year is four digits and whose month and day are two each
/// writes to eight digit bytes that parse back to the same date.
pub proof fn lemma_date_wire_roundtrip(d: SauceDate)
    requires
        0 <= d.year <= 9999,
        d.month <= 99,
        d.day <= 99,
    ensures
        date_wire(d).len() == 8,
        date_bytes_ok(date_wire(d)),
        date_of_bytes(date_wire(d)) == d,
{
    let y = d.year as nat;
    let m = d.month as nat;
    let dd = d.day as nat;
    lemma_dec_padded_4(y);
    lemma_dec_padded_2(m);
    lemma_dec_padded_2(dd);
    let wire = date_wire(d);
    assert(wire =~= seq![
        (48 + y / 1000) as u8,
        (48 + (y / 100) % 10) as u8,
        (48 + (y / 10) % 10) as u8,
        (48 + y % 10) as u8,
        (48 + m / 10) as u8,
        (48 + m % 10) as u8,
        (48 + dd / 10) as u8,
        (48 + dd % 10) as u8,
    ]);
    assert(y / 1000 <= 9 && m / 10 <= 9 && dd / 10 <= 9) by (nonlinear_arith)
        requires
            y <= 9999,
            m <= 99,
            dd <= 99,
    ;
    assert(y == 1000 * (y / 1000) + 100 * ((y / 100) % 10) + 10 * ((y / 10) % 10) + y % 10) by {
        vstd::arithmetic::div_mod::lemma_div_denominator(y as int, 10, 10);
        vstd::arithmetic::div_mod::lemma_div_denominator(y as int, 100, 10);
        vstd::arithmetic::div_mod::lemma_fundamental_div_mod(y as int, 10);
        vstd::arithmetic::div_mod::lemma_fundamental_div_mod((y / 10) as int, 10);
        vstd::arithmetic::div_mod::lemma_fundamental_div_mod((y / 100) as int, 10);
    }
    assert(m == 10 * (m / 10) + m % 10) by {
        vstd::arithmetic::div_mod::lemma_fundamental_div_mod(m as int, 10);
    }
    assert(dd == 10 * (dd / 10) + dd % 10) by {
        vstd::arithmetic::div_mod::lemma_fundamental_div_mod(dd as int, 10);
    }
    assert(date_of_bytes(wire).month == d.month);
    assert(date_of_bytes(wire).day == d.day);
    assert(date_of_bytes(wire).year == d.year);
}

/// The two little-endian bytes of a 16-bit value read back as the value.
pub proof fn lemma_le16_roundtrip(x: u16)
    ensures
        crate::header::le16((x % 256) as u8, (x / 256) as u8) == x,
{
    vstd::arithmetic::div_mod::lemma_fundamental_div_mod(x as int, 256);
}

/// The four little-endian bytes of a 32-bit value read back as the
/// value.
pub proof fn lemma_le32_roundtrip(x: u32)
    ensures
        crate::header::le32(
            (x % 256) as u8,
            ((x / 256) % 256) as u8,
            ((x / 65536) % 256) as u8,
            (x / 16777216) as u8,
        ) == x,
{
    vstd::arithmetic::div_mod::lemma_div_denominator(x as int, 256, 256);
    vstd::arithmetic::div_mod::lemma_div_denominator(x as int, 65536, 256);
    assert(x / 16777216 <= 255) by (nonlinear_arith)
        requires
            x <= 0xffffffff,
    ;
    vstd::arithmetic::div_mod::lemma_fundamental_div_mod(x as int, 256);
    vstd::arithmetic::div_mod::lemma_fundamental_div_mod((x / 256) as int, 256);
    vstd::arithmetic::div_mod::lemma_fundamental_div_mod((x / 65536) as int, 256);
    assert((x / 256) / 256 == x / 65536);
    assert((x / 65536) / 256 == x / 16777216);
}

/// Where each field of a serialized header lies in its 128 bytes.
#[verifier::rlimit(100)]
pub proof fn lemma_header_bytes_fields(h: SauceHeader)
    requires
        crate::header::date_in_wire_range(h.date),
    ensures
        crate::header::header_bytes(h).len() == 128,
        crate::header::window_has_magic(crate::header::header_bytes(h)),
        crate::header::window_version_ok(crate::header::header_bytes(h)),
        crate::header::header_bytes(h).subrange(7, 42) == padded(h.title@, 35, 32),
        crate::header::header_bytes(h).subrange(42, 62) == padded(h.author@, 20, 32),
        crate::header::header_bytes(h).subrange(62, 82) == padded(h.group@, 20, 32),
        crate::header::header_bytes(h).subrange(82, 90) == date_wire(h.date),
        crate::header::header_bytes(h)[90] == (h.file_size % 256) as u8,
        crate::header::header_bytes(h)[91] == ((h.file_size / 256) % 256) as u8,
        crate::header::header_bytes(h)[92] == ((h.file_size / 65536) % 256) as u8,
        crate::header::header_bytes(h)[93] == (h.file_size / 16777216) as u8,
        crate::header::header_bytes(h)[94] == byte_of_data_type(h.data_type),
        crate::header::header_bytes(h)[95] == h.file_type,
        crate::header::header_bytes(h)[96] == (h.t_info1 % 256) as u8,
        crate::header::header_bytes(h)[97] == (h.t_info1 / 256) as u8,
        crate::header::header_bytes(h)[98] == (h.t_info2 % 256) as u8,
        crate::header::header_bytes(h)[99] == (h.t_info2 / 256) as u8,
        crate::header::header_bytes(h)[100] == (h.t_info3 % 256) as u8,
        crate::header::header_bytes(h)[101] == (h.t_info3 / 256) as u8,
        crate::header::header_bytes(h)[102] == (h.t_info4 % 256) as u8,
        crate::header::header_bytes(h)[103] == (h.t_info4 / 256) as u8,
        crate::header::header_bytes(h)[104] == h.comments,
        crate::header::header_bytes(h)[105] == h.t_flags,
        crate::header::header_bytes(h).subrange(106, 128) == padded(h.t_info_s@, 22, 0),
{
    crate::header::lemma_date_wire_len_8(h.date);
    let w = crate::header::header_bytes(h);
    assert(w.len() == 128);
    assert(w.subrange(7, 42) =~= padded(h.title@, 35, 32));
    assert(w.subrange(42, 62) =~= padded(h.author@, 20, 32));
    assert(w.subrange(62, 82) =~= padded(h.group@, 20, 32));
    assert(w.subrange(82, 90) =~= date_wire(h.date));
    assert(w.subrange(106, 128) =~= padded(h.t_info_s@, 22, 0));
}

/// A record as the validating builder produces it: every string within
/// its stored width, the declared comment count in step with the held
/// comment lines, a date that fits its eight digit bytes, and a
/// discriminator that is the canonical reading of its own wire byte.
pub open spec fn record_wf(rec: crate::record::SauceRecord) -> bool {
    &&& rec.header.title@.len() <= 35
    &&& rec.header.author@.len() <= 20
    &&& rec.header.group@.len() <= 20
    &&& rec.header.t_info_s@.len() <= 22
    &&& rec.comments@.len() <= 255
    &&& rec.header.comments == rec.comments@.len()
    &&& forall|i: int| 0 <= i < rec.comments@.len() ==> #[trigger] rec.comments@[i]@.len() <= 64
    &&& 0 <= rec.header.date.year <= 9999
    &&& rec.header.date.month <= 99
    &&& rec.header.date.day <= 99
    &&& data_type_canonical(rec.header.data_type)
}

/// A discriminator that reads back from its own wire byte: every value
/// except an `Undefined` carrying a byte a known category claims.
pub open spec fn data_type_canonical(dt: SauceDataType) -> bool {
    data_type_of_byte(byte_of_data_type(dt)) == dt
}

/// The serialized record behind any content shows the serialized header
/// in the buffer's tail window, fits its declared comment block, and
/// carries the comment tag and each padded comment line at its place.
#[verifier::rlimit(100)]
#[verifier::spinoff_prover]
pub proof fn lemma_record_tail_window(rec: crate::record::SauceRecord, pre: Seq<u8>)
    requires
        rec.header.comments == rec.comments@.len(),
        rec.comments@.len() <= 255,
        crate::header::date_in_wire_range(rec.header.date),
    ensures
        crate::header::tail_window(pre + crate::record::record_bytes(rec))
            == crate::header::header_bytes(rec.header),
        (pre + crate::record::record_bytes(rec)).len() >= crate::header::spec_total_len(
            rec.header.comments,
        ),
        crate::header::tail_has_header(pre + crate::record::record_bytes(rec)),
        rec.comments@.len() > 0 ==> crate::record::comment_tag_ok(
            pre + crate::record::record_bytes(rec),
            rec.header.comments,
        ),
        forall|i: int|
            0 <= i < rec.comments@.len() ==> crate::record::comment_line(
                pre + crate::record::record_bytes(rec),
                rec.header.comments,
                i,
            ) == padded(#[trigger] rec.comments@[i]@, 64, 32),
{
    let h = rec.header;
    let cs = rec.comments@;
    let rb = crate::record::record_bytes(rec);
    let data = pre + rb;
    let n = h.comments;
    let cb_len: int = if cs.len() == 0 {
        0
    } else {
        5 + 64 * cs.len() as int
    };
    crate::header::lemma_date_wire_len_8(h.date);
    lemma_header_bytes_fields(h);
    assert(rb.len() == cb_len + 128);
    let w = crate::header::tail_window(data);
    assert forall|i: int| 0 <= i < 128 implies w[i] == crate::header::header_bytes(h)[i] by {
        assert(w[i] == data[pre.len() + cb_len + i]);
        assert(data[pre.len() + cb_len + i] == rb[cb_len + i]);
    }
    assert(w =~= crate::header::header_bytes(h));
    assert(data.len() >= crate::header::spec_total_len(n));
    if cs.len() > 0 {
        let total = crate::header::spec_total_len(n);
        let s = data.len() - total;
        assert(s == pre.len());
        assert forall|j: int| 0 <= j < 5 implies data[s + j] == crate::record::comment_id()[j] by {
            assert(data[pre.len() + j] == rb[j]);
        }
        assert(crate::record::comment_tag_ok(data, n));
        let base = s + 5;
        assert forall|i: int| 0 <= i < cs.len() implies crate::record::comment_line(data, n, i)
            =~= padded(#[trigger] cs[i]@, 64, 32) by {
            assert forall|j: int| 0 <= j < 64 implies crate::record::comment_line(data, n, i)[j]
                == padded(cs[i]@, 64, 32)[j] by {
                assert(crate::record::comment_line(data, n, i)[j] == data[base + 64 * i + j]);
                assert(data[base + 64 * i + j] == rb[5 + 64 * i + j]);
                assert(rb[5 + 64 * i + j] == crate::record::comment_lines_bytes(cs)[64 * i + j]);
                assert((64 * i + j) / 64 == i && (64 * i + j) % 64 == j) by (nonlinear_arith)
                    requires
                        0 <= i,
                        0 <= j < 64,
                ;
            }
        }
    }
}

/// Round trip: serializing a well-formed record behind any content and
/// parsing the result from the tail reproduces every header field and
/// every comment, up to the documented trim rules — strings lose their
/// trailing spaces and NULs, the info string its trailing NULs, and
/// nothing else changes. `rec2` stands for whatever the parse produced;
/// the buffer is also guaranteed to parse (the tail holds a header and
/// the whole declared comment block fits).
#[verifier::rlimit(100)]
#[verifier::spinoff_prover]
pub proof fn lemma_record_roundtrip(
    rec: crate::record::SauceRecord,
    pre: Seq<u8>,
    rec2: crate::record::SauceRecord,
)
    requires
        record_wf(rec),
        crate::header::header_matches(
            rec2.header,
            crate::header::tail_window(pre + crate::record::record_bytes(rec)),
        ),
        crate::record::record_comments_match(rec2, pre + crate::record::record_bytes(rec)),
    ensures
        crate::header::tail_has_header(pre + crate::record::record_bytes(rec)),
        (pre + crate::record::record_bytes(rec)).len() >= crate::header::spec_total_len(
            rec.header.comments,
        ),
        rec2.header.title@ == trim_tail(rec.header.title@),
        rec2.header.author@ == trim_tail(rec.header.author@),
        rec2.header.group@ == trim_tail(rec.header.group@),
        rec2.header.date == rec.header.date,
        rec2.header.file_size == rec.header.file_size,
        rec2.header.data_type == rec.header.data_type,
        rec2.header.file_type == rec.header.file_type,
        rec2.header.t_info1 == rec.header.t_info1,
        rec2.header.t_info2 == rec.header.t_info2,
        rec2.header.t_info3 == rec.header.t_info3,
        rec2.header.t_info4 == rec.header.t_info4,
        rec2.header.comments == rec.header.comments,
        rec2.header.t_flags == rec.header.t_flags,
        rec2.header.t_info_s@ == trim_zero_tail(rec.header.t_info_s@),
        rec2.comments@.len() == rec.comments@.len(),
        forall|i: int|
            0 <= i < rec.comments@.len() ==> #[trigger] rec2.comments@[i]@ == trim_tail(
                rec.comments@[i]@,
            ),
{
    let h = rec.header;
    let cs = rec.comments@;
    let data = pre + crate::record::record_bytes(rec);
    let n = h.comments;
    lemma_record_tail_window(rec, pre);
    lemma_header_bytes_fields(h);
    lemma_trim_of_padded(h.title@, 35, 32);
    lemma_trim_of_padded(h.author@, 20, 32);
    lemma_trim_of_padded(h.group@, 20, 32);
    lemma_ztrim_of_padded(h.t_info_s@, 22);
    lemma_date_wire_roundtrip(h.date);
    lemma_le32_roundtrip(h.file_size);
    lemma_le16_roundtrip(h.t_info1);
    lemma_le16_roundtrip(h.t_info2);
    lemma_le16_roundtrip(h.t_info3);
    lemma_le16_roundtrip(h.t_info4);
    assert(rec2.header.comments == n);
    if n == 0 {
    } else {
        assert forall|i: int| 0 <= i < cs.len() implies #[trigger] rec2.comments@[i]@ == trim_tail(
            cs[i]@,
        ) by {
            lemma_trim_of_padded(cs[i]@, 64, 32);
            assert(rec2.comments@[i]@ == trim_tail(crate::record::comment_line(data, n, i)));
            assert(crate::record::comment_line(data, n, i) == padded(cs[i]@, 64, 32));
        }
    }
}

/// Rendering settings and a font set on an XBin capability do not
/// survive a round trip: whatever `c` carried, the decoded capability
/// has no ICE colors, legacy spacing and ratio and no font, while width
/// and height are kept.
pub proof fn lemma_xbin_ignores_flags_and_font(
    c: BinaryCapabilities,
    h0: SauceHeader,
    h1: SauceHeader,
    c2: BinaryCapabilities,
)
    requires
        c.format == BinaryFormat::XBin,
        caps_encoded(Capabilities::Binary(c), h0, h1),
        bin_caps_match(c2, h1),
    ensures
        c2.format == BinaryFormat::XBin,
        c2.columns == c.columns,
        c2.lines == c.lines,
        c2.ice_colors == false,
        c2.letter_spacing == LetterSpacing::Legacy,
        c2.aspect_ratio == AspectRatio::Legacy,
        c2.font_opt is None,
{
}


/// The serialized header is 128 bytes and carries the comment count at
/// its place.
#[verifier::spinoff_prover]
proof fn lemma_header_bytes_markers(h: SauceHeader)
    requires
        crate::header::date_in_wire_range(h.date),
    ensures
        crate::header::header_bytes(h).len() == 128,
        crate::header::header_bytes(h)[104] == h.comments,
        crate::header::header_bytes(h)[1] == 65,
{
    crate::header::lemma_date_wire_len_8(h.date);
}

/// Stripping undoes appending: after a well-formed record and its end
/// marker are appended to any content, the last-record policies find the
/// trailer exactly at the tail, and removing it (and, in the marker
/// stripping mode, its one marker) gives back precisely the content.
#[verifier::rlimit(100)]
#[verifier::spinoff_prover]
pub proof fn lemma_strip_removes_record(rec: crate::record::SauceRecord, content: Seq<u8>)
    requires
        record_wf(rec),
    ensures
        crate::strip::strip_end_spec(
            content + seq![26u8] + crate::record::record_bytes(rec),
            crate::strip::StripMode::LastStripFinalEof,
        ) == content.len(),
        crate::strip::strip_end_spec(
            content + seq![26u8] + crate::record::record_bytes(rec),
            crate::strip::StripMode::Last,
        ) == content.len() + 1,
{
    let h = rec.header;
    let pre = content + seq![26u8];
    let rb = crate::record::record_bytes(rec);
    let data = pre + rb;
    let n = h.comments;
    lemma_record_tail_window(rec, pre);
    lemma_header_bytes_markers(h);
    assert(crate::header::tail_window(data)[104] == n);
    assert(rb.len() == crate::header::spec_total_len(n));
    assert(crate::strip::probe_spec(data) == Some(pre.len() as int));
    assert(data[pre.len() - 1] == pre[pre.len() - 1]);
    assert(pre[pre.len() - 1] == 26);
    assert(crate::strip::consume_eof_spec(data, pre.len() as int) == content.len());
}


/// Every character file type byte survives a decode and re-encode, the
/// unknown codes included.
pub proof fn lemma_char_format_byte_roundtrip(b: u8)
    ensures
        crate::character::byte_of_char_format(crate::character::char_format_of_byte(b)) == b,
{
}

/// Every bitmap discriminator and type code pair survives a decode and
/// re-encode, the unknown pairs included (their discriminator must read
/// back as itself, which every parsed discriminator does).
pub proof fn lemma_bitmap_format_roundtrip(dt: SauceDataType, ft: u8)
    requires
        data_type_canonical(dt),
    ensures
        crate::bitmap::sauce_of_bitmap_format(crate::bitmap::bitmap_format_of(dt, ft)) == (dt, ft),
{
}

/// Every vector type code survives a decode and re-encode.
pub proof fn lemma_vector_format_byte_roundtrip(b: u8)
    ensures
        crate::vector::byte_of_vector_format(crate::vector::vector_format_of_byte(b)) == b,
{
}

/// Every audio type code survives a decode and re-encode.
pub proof fn lemma_audio_format_byte_roundtrip(b: u8)
    ensures
        crate::audio::byte_of_audio_format(crate::audio::audio_format_of_byte(b)) == b,
{
}

/// Every archive type code survives a decode and re-encode.
pub proof fn lemma_archive_format_byte_roundtrip(b: u8)
    ensures
        crate::archive::byte_of_archive_format(crate::archive::archive_format_of_byte(b)) == b,
{
}


/// Records separated by a single marker each are contiguous: appending
/// two well-formed records, each with its own end marker, to content
/// that itself carries no trailer, and stripping under the
/// all-records policy removes both trailers and both markers, giving
/// back exactly the content.
#[verifier::rlimit(100)]
#[verifier::spinoff_prover]
pub proof fn lemma_strip_all_removes_contiguous(
    rec1: crate::record::SauceRecord,
    rec2: crate::record::SauceRecord,
    content: Seq<u8>,
)
    requires
        record_wf(rec1),
        record_wf(rec2),
        !crate::header::tail_has_header(content),
    ensures
        crate::strip::strip_end_spec(
            content + seq![26u8] + crate::record::record_bytes(rec1) + seq![26u8]
                + crate::record::record_bytes(rec2),
            crate::strip::StripMode::All,
        ) == content.len(),
{
    let rb1 = crate::record::record_bytes(rec1);
    let rb2 = crate::record::record_bytes(rec2);
    let d1 = content + seq![26u8] + rb1;
    let pre2 = d1 + seq![26u8];
    let data = pre2 + rb2;
    let n1 = rec1.header.comments;
    let n2 = rec2.header.comments;
    lemma_record_tail_window(rec2, pre2);
    lemma_header_bytes_markers(rec2.header);
    lemma_record_tail_window(rec1, content + seq![26u8]);
    lemma_header_bytes_markers(rec1.header);
    assert(rb2.len() == crate::header::spec_total_len(n2));
    assert(rb1.len() == crate::header::spec_total_len(n1));
    // first pass: the second record and its marker go
    assert(data.subrange(0, data.len() as int) =~= data);
    assert(crate::strip::probe_spec(data) == Some(pre2.len() as int));
    assert(data[pre2.len() - 1] == 26);
    let c1 = d1.len() as int;
    // second pass: the first record and its marker go, then the walk
    // stops because the content shows no header
    assert(data.subrange(0, c1) =~= d1);
    assert(crate::strip::probe_spec(d1) == Some((content.len() + 1) as int));
    assert(data[content.len() as int] == 26);
    assert(data.subrange(0, content.len() as int) =~= content);
    assert(crate::strip::strip_all_trace(data, c1) == (content.len() as int, 1int, 1int));
    assert(crate::strip::strip_all_trace(data, data.len() as int) == (
        content.len() as int,
        2int,
        2int,
    ));
}

/// Two or more stacked markers are a deliberate boundary: with a second
/// marker between the two trailers, the all-records policy removes only
/// the outer record and the one marker tied to it, and stops. The inner
/// record here carries no comment block, so the bytes at the shifted
/// probe position are known not to look like a header.
#[verifier::rlimit(100)]
#[verifier::spinoff_prover]
pub proof fn lemma_stacked_markers_stop(
    rec1: crate::record::SauceRecord,
    rec2: crate::record::SauceRecord,
    content: Seq<u8>,
)
    requires
        record_wf(rec1),
        record_wf(rec2),
        rec1.comments@.len() == 0,
    ensures
        crate::strip::strip_end_spec(
            content + seq![26u8] + crate::record::record_bytes(rec1) + seq![26u8] + seq![26u8]
                + crate::record::record_bytes(rec2),
            crate::strip::StripMode::All,
        ) == (content + seq![26u8] + crate::record::record_bytes(rec1)).len() + 1,
{
    let rb1 = crate::record::record_bytes(rec1);
    let rb2 = crate::record::record_bytes(rec2);
    let d1 = content + seq![26u8] + rb1;
    let d1m = d1 + seq![26u8];
    let pre2 = d1m + seq![26u8];
    let data = pre2 + rb2;
    let n2 = rec2.header.comments;
    lemma_record_tail_window(rec2, pre2);
    lemma_header_bytes_markers(rec2.header);
    lemma_record_tail_window(rec1, content + seq![26u8]);
    lemma_header_bytes_markers(rec1.header);
    assert(rb2.len() == crate::header::spec_total_len(n2));
    assert(rb1.len() == 128);
    // first pass: the second record and the marker directly before it go
    assert(data.subrange(0, data.len() as int) =~= data);
    assert(crate::strip::probe_spec(data) == Some(pre2.len() as int));
    assert(data[pre2.len() - 1] == 26);
    let c1 = d1m.len() as int;
    // the tail now ends one byte past the inner header: no magic there
    assert(data.subrange(0, c1) =~= d1m);
    assert(crate::header::tail_window(d1m)[0] == d1m[d1m.len() - 128]);
    assert(d1m[d1m.len() - 128] == crate::header::header_bytes(rec1.header)[1]);
    assert(crate::header::header_bytes(rec1.header)[1] == 65);
    assert(!crate::header::tail_has_header(d1m));
    assert(crate::strip::strip_all_trace(data, data.len() as int) == (c1, 1int, 1int));
}

} // verus!


