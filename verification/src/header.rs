//! The fixed 128-byte SAUCE header: deserialization from the tail of a
//! byte buffer and byte-exact serialization.
//!
//! Layout of the block, at offsets within its 128-byte window:
//!
//! | offset | bytes | field                                    |
//! |--------|-------|------------------------------------------|
//! | 0      | 5     | magic `SAUCE`                            |
//! | 5      | 2     | version, the ASCII digits `00`           |
//! | 7      | 35    | title, space padded                      |
//! | 42     | 20    | author, space padded                     |
//! | 62     | 20    | group, space padded                      |
//! | 82     | 8     | date, ASCII `CCYYMMDD`                   |
//! | 90     | 4     | file size, little endian                 |
//! | 94     | 1     | data type                                |
//! | 95     | 1     | file type                                |
//! | 96     | 8     | four 16-bit fields, little endian        |
//! | 104    | 1     | comment line count                       |
//! | 105    | 1     | flags                                    |
//! | 106    | 22    | info string, zero padded                 |

use vstd::prelude::*;
use vstd::slice::slice_subrange;

use crate::data_type::{byte_of_data_type, data_type_of_byte, SauceDataType};
use crate::date::{date_bytes_ok, date_of_bytes, date_wire, SauceDate};
use crate::errors::SauceError;
use crate::util::{padded, sauce_pad, sauce_trim, trim_tail, trim_zero_tail, zero_pad, zero_trim};

verus! {

/// Length of the fixed header block.
pub const HDR_LEN: usize = 128;

/// Length of the comment block tag `COMNT`.
pub const COMMENT_ID_LEN: usize = 5;

/// Length of one stored comment line.
pub const COMMENT_LEN: usize = 64;

/// The raw fields of a SAUCE header. String fields hold their semantically
/// trimmed form; padding is added when writing and removed when reading.
#[derive(Debug, Clone)]
pub struct SauceHeader {
    /// The title of the file (up to 35 bytes).
    pub title: Vec<u8>,
    /// The (nick)name or handle of the creator (up to 20 bytes).
    pub author: Vec<u8>,
    /// The group or company name (up to 20 bytes).
    pub group: Vec<u8>,
    /// The date the file was created.
    pub date: SauceDate,
    /// Size of the original file in bytes, excluding the SAUCE trailer;
    /// 0 stands for unknown or too large.
    pub file_size: u32,
    /// Category of the described file; selects the capability view.
    pub data_type: SauceDataType,
    /// Type code whose meaning depends on `data_type`.
    pub file_type: u8,
    /// Type-dependent numeric field 1.
    pub t_info1: u16,
    /// Type-dependent numeric field 2.
    pub t_info2: u16,
    /// Type-dependent numeric field 3.
    pub t_info3: u16,
    /// Type-dependent numeric field 4.
    pub t_info4: u16,
    /// Number of lines in the optional comment block; 0 means none.
    pub comments: u8,
    /// Type-dependent flags byte.
    pub t_flags: u8,
    /// Type-dependent string field (up to 22 bytes, zero padded on disk).
    pub t_info_s: Vec<u8>,
}

/// The magic bytes `SAUCE`.
pub open spec fn sauce_magic() -> Seq<u8> {
    seq![83u8, 65u8, 85u8, 67u8, 69u8]
}

/// The last 128 bytes of a buffer.
pub open spec fn tail_window(data: Seq<u8>) -> Seq<u8> {
    data.subrange(data.len() - 128, data.len() as int)
}

/// A 128-byte window starts with the magic.
pub open spec fn window_has_magic(w: Seq<u8>) -> bool {
    &&& w[0] == 83
    &&& w[1] == 65
    &&& w[2] == 85
    &&& w[3] == 67
    &&& w[4] == 69
}

/// A 128-byte window carries the supported version `00`.
pub open spec fn window_version_ok(w: Seq<u8>) -> bool {
    w[5] == 48 && w[6] == 48
}

/// A buffer ends in a block with the magic (whatever its version).
pub open spec fn tail_has_magic(data: Seq<u8>) -> bool {
    data.len() >= 128 && window_has_magic(tail_window(data))
}

/// A buffer ends in a parseable header: magic and version both in order.
pub open spec fn tail_has_header(data: Seq<u8>) -> bool {
    tail_has_magic(data) && window_version_ok(tail_window(data))
}

/// Two bytes read as a little-endian 16-bit value.
pub open spec fn le16(lo: u8, hi: u8) -> u16 {
    (lo + hi * 256) as u16
}

/// Four bytes read as a little-endian 32-bit value.
pub open spec fn le32(b0: u8, b1: u8, b2: u8, b3: u8) -> u32 {
    (b0 + b1 * 256 + b2 * 65536 + b3 * 16777216) as u32
}

/// A 16-bit value written as two little-endian bytes.
pub open spec fn u16_le_bytes(x: u16) -> Seq<u8> {
    seq![(x % 256) as u8, (x / 256) as u8]
}

/// A 32-bit value written as four little-endian bytes.
pub open spec fn u32_le_bytes(x: u32) -> Seq<u8> {
    seq![
        (x % 256) as u8,
        ((x / 256) % 256) as u8,
        ((x / 65536) % 256) as u8,
        (x / 16777216) as u8,
    ]
}

/// The date field of a header fits its fixed eight bytes: the year takes
/// four rendered bytes and month and day two each.
pub open spec fn date_in_wire_range(d: SauceDate) -> bool {
    &&& -999 <= d.year <= 9999
    &&& d.month <= 99
    &&& d.day <= 99
}

/// The total serialized length of a header plus its declared comment
/// block (tag and lines), excluding any end marker.
pub open spec fn spec_total_len(comments: u8) -> int {
    if comments == 0 {
        128
    } else {
        133 + comments * 64
    }
}

/// The header `h` is exactly what parsing the 128-byte window `w` gives:
/// trimmed strings, the parsed date (all zero when the date bytes do not
/// parse), and the little-endian numeric fields.
pub open spec fn header_matches(h: SauceHeader, w: Seq<u8>) -> bool {
    &&& h.title@ == trim_tail(w.subrange(7, 42))
    &&& h.author@ == trim_tail(w.subrange(42, 62))
    &&& h.group@ == trim_tail(w.subrange(62, 82))
    &&& h.date == (if date_bytes_ok(w.subrange(82, 90)) {
        date_of_bytes(w.subrange(82, 90))
    } else {
        SauceDate { year: 0, month: 0, day: 0 }
    })
    &&& h.file_size == le32(w[90], w[91], w[92], w[93])
    &&& h.data_type == data_type_of_byte(w[94])
    &&& h.file_type == w[95]
    &&& h.t_info1 == le16(w[96], w[97])
    &&& h.t_info2 == le16(w[98], w[99])
    &&& h.t_info3 == le16(w[100], w[101])
    &&& h.t_info4 == le16(w[102], w[103])
    &&& h.comments == w[104]
    &&& h.t_flags == w[105]
    &&& h.t_info_s@ == trim_zero_tail(w.subrange(106, 128))
}

/// The two headers hold the same values in every field.
pub open spec fn headers_equal(a: SauceHeader, b: SauceHeader) -> bool {
    &&& a.title@ == b.title@
    &&& a.author@ == b.author@
    &&& a.group@ == b.group@
    &&& a.date == b.date
    &&& a.file_size == b.file_size
    &&& a.data_type == b.data_type
    &&& a.file_type == b.file_type
    &&& a.t_info1 == b.t_info1
    &&& a.t_info2 == b.t_info2
    &&& a.t_info3 == b.t_info3
    &&& a.t_info4 == b.t_info4
    &&& a.comments == b.comments
    &&& a.t_flags == b.t_flags
    &&& a.t_info_s@ == b.t_info_s@
}

/// The fields a capability encoder never touches agree: the descriptive
/// metadata of the record stays as it was.
pub open spec fn header_meta_unchanged(a: SauceHeader, b: SauceHeader) -> bool {
    &&& a.title@ == b.title@
    &&& a.author@ == b.author@
    &&& a.group@ == b.group@
    &&& a.date == b.date
    &&& a.file_size == b.file_size
    &&& a.comments == b.comments
}

/// The 128 bytes a header serializes to.
pub open spec fn header_bytes(h: SauceHeader) -> Seq<u8> {
    sauce_magic() + seq![48u8, 48u8] + padded(h.title@, 35, 32) + padded(h.author@, 20, 32)
        + padded(h.group@, 20, 32) + date_wire(h.date) + u32_le_bytes(h.file_size) + seq![
        byte_of_data_type(h.data_type),
        h.file_type,
    ] + u16_le_bytes(h.t_info1) + u16_le_bytes(h.t_info2) + u16_le_bytes(h.t_info3) + u16_le_bytes(
        h.t_info4,
    ) + seq![h.comments, h.t_flags] + padded(h.t_info_s@, 22, 0)
}

impl SauceHeader {
    /// Try to read a header from the last 128 bytes of `data`.
    ///
    /// Returns `Ok(None)` when the buffer is too short or the magic is
    /// absent, `Err(UnsupportedSauceVersion)` when the magic is present
    /// but the version is not `00`, and otherwise the parsed header.
    /// An unknown data type byte is accepted and preserved.
    pub fn from_bytes(data: &[u8]) -> (r: Result<Option<SauceHeader>, SauceError>)
        ensures
            (match r {
                Ok(Some(h)) => tail_has_header(data@) && header_matches(h, tail_window(data@)),
                Ok(None) => !tail_has_magic(data@),
                Err(e) => tail_has_magic(data@) && !window_version_ok(tail_window(data@)) && (
                e matches SauceError::UnsupportedSauceVersion(v) && v@ == tail_window(
                    data@,
                ).subrange(5, 7)),
            }),
    {
        if data.len() < HDR_LEN {
            return Ok(None);
        }
        let start = data.len() - HDR_LEN;
        let ghost w = tail_window(data@);
        proof {
            assert forall|i: int| 0 <= i < 128 implies w[i] == data@[start + i] by {}
        }
        if data[start] != 83 || data[start + 1] != 65 || data[start + 2] != 85 || data[start + 3]
            != 67 || data[start + 4] != 69 {
            return Ok(None);
        }
        if data[start + 5] != 48 || data[start + 6] != 48 {
            let mut v: Vec<u8> = Vec::new();
            v.push(data[start + 5]);
            v.push(data[start + 6]);
            proof {
                assert(v@ =~= w.subrange(5, 7));
            }
            return Err(SauceError::UnsupportedSauceVersion(v));
        }
        let title = sauce_trim(slice_subrange(data, start + 7, start + 42));
        let author = sauce_trim(slice_subrange(data, start + 42, start + 62));
        let group = sauce_trim(slice_subrange(data, start + 62, start + 82));
        let date_slice = slice_subrange(data, start + 82, start + 90);
        let date = match SauceDate::from_bytes(date_slice) {
            Some(d) => d,
            None => SauceDate { year: 0, month: 0, day: 0 },
        };
        let file_size: u32 = data[start + 90] as u32 + data[start + 91] as u32 * 256 + data[start
            + 92] as u32 * 65536 + data[start + 93] as u32 * 16777216;
        let data_type = SauceDataType::from_u8(data[start + 94]);
        let file_type = data[start + 95];
        let t_info1: u16 = data[start + 96] as u16 + data[start + 97] as u16 * 256;
        let t_info2: u16 = data[start + 98] as u16 + data[start + 99] as u16 * 256;
        let t_info3: u16 = data[start + 100] as u16 + data[start + 101] as u16 * 256;
        let t_info4: u16 = data[start + 102] as u16 + data[start + 103] as u16 * 256;
        let comments = data[start + 104];
        let t_flags = data[start + 105];
        let t_info_s = zero_trim(slice_subrange(data, start + 106, start + 128));
        proof {
            assert(data@.subrange(start + 7, start + 42) =~= w.subrange(7, 42));
            assert(data@.subrange(start + 42, start + 62) =~= w.subrange(42, 62));
            assert(data@.subrange(start + 62, start + 82) =~= w.subrange(62, 82));
            assert(data@.subrange(start + 82, start + 90) =~= w.subrange(82, 90));
            assert(data@.subrange(start + 106, start + 128) =~= w.subrange(106, 128));
        }
        Ok(
            Some(
                SauceHeader {
                    title,
                    author,
                    group,
                    date,
                    file_size,
                    data_type,
                    file_type,
                    t_info1,
                    t_info2,
                    t_info3,
                    t_info4,
                    comments,
                    t_flags,
                    t_info_s,
                },
            ),
        )
    }

    /// The length of this header plus its declared comment block: 128
    /// bytes, plus `5 + comments * 64` when comments are declared. The
    /// optional end marker byte is not counted.
    pub fn total_length(&self) -> (r: usize)
        ensures
            r == spec_total_len(self.comments),
    {
        if self.comments == 0 {
            HDR_LEN
        } else {
            HDR_LEN + COMMENT_ID_LEN + self.comments as usize * COMMENT_LEN
        }
    }

    /// Append the 128-byte serialized form of this header to `writer`.
    ///
    /// String fields are padded (title with spaces to 35 bytes, author and
    /// group to 20, the info string with zeros to 22) or cut to their
    /// fixed width; numeric fields are written little endian; an unknown
    /// data type is written as its raw byte.
    #[verifier::rlimit(100)]
    pub fn write(&self, writer: &mut Vec<u8>) -> (r: Result<(), SauceError>)
        requires
            date_in_wire_range(self.date),
        ensures
            r is Ok,
            final(writer)@ == old(writer)@ + header_bytes(*self),
            header_bytes(*self).len() == 128,
    {
        proof {
            lemma_date_wire_len_8(self.date);
        }
        writer.push(83);
        writer.push(65);
        writer.push(85);
        writer.push(67);
        writer.push(69);
        writer.push(48);
        writer.push(48);
        let title = sauce_pad(&self.title, 35);
        append_bytes(writer, &title);
        let author = sauce_pad(&self.author, 20);
        append_bytes(writer, &author);
        let group = sauce_pad(&self.group, 20);
        append_bytes(writer, &group);
        proof {
            assert(writer@ =~= old(writer)@ + sauce_magic() + seq![48u8, 48u8] + padded(
                self.title@,
                35,
                32,
            ) + padded(self.author@, 20, 32) + padded(self.group@, 20, 32));
        }
        let _ = self.date.write(writer);
        writer.push((self.file_size % 256) as u8);
        writer.push(((self.file_size / 256) % 256) as u8);
        writer.push(((self.file_size / 65536) % 256) as u8);
        writer.push((self.file_size / 16777216) as u8);
        writer.push(self.data_type.to_u8());
        writer.push(self.file_type);
        proof {
            assert(writer@ =~= old(writer)@ + sauce_magic() + seq![48u8, 48u8] + padded(
                self.title@,
                35,
                32,
            ) + padded(self.author@, 20, 32) + padded(self.group@, 20, 32) + date_wire(self.date)
                + u32_le_bytes(self.file_size) + seq![
                byte_of_data_type(self.data_type),
                self.file_type,
            ]);
        }
        writer.push((self.t_info1 % 256) as u8);
        writer.push((self.t_info1 / 256) as u8);
        writer.push((self.t_info2 % 256) as u8);
        writer.push((self.t_info2 / 256) as u8);
        writer.push((self.t_info3 % 256) as u8);
        writer.push((self.t_info3 / 256) as u8);
        writer.push((self.t_info4 % 256) as u8);
        writer.push((self.t_info4 / 256) as u8);
        writer.push(self.comments);
        writer.push(self.t_flags);
        let info_s = zero_pad(&self.t_info_s, 22);
        append_bytes(writer, &info_s);
        proof {
            assert(writer@ =~= old(writer)@ + header_bytes(*self));
        }
        Ok(())
    }
}

/// The empty header: blank strings, an all-zero date, size zero, the
/// Character discriminator, and every type-dependent field zero.
pub open spec fn is_default_header(r: SauceHeader) -> bool {
    &&& r.title@ == Seq::<u8>::empty()
    &&& r.author@ == Seq::<u8>::empty()
    &&& r.group@ == Seq::<u8>::empty()
    &&& r.date == (SauceDate { year: 0, month: 0, day: 0 })
    &&& r.file_size == 0
    &&& r.data_type == SauceDataType::Character
    &&& r.file_type == 0
    &&& r.t_info1 == 0
    &&& r.t_info2 == 0
    &&& r.t_info3 == 0
    &&& r.t_info4 == 0
    &&& r.comments == 0
    &&& r.t_flags == 0
    &&& r.t_info_s@ == Seq::<u8>::empty()
}

impl Default for SauceHeader {
    /// The empty header.
    fn default() -> (r: Self)
        ensures
            is_default_header(r),
    {
        SauceHeader {
            title: Vec::new(),
            author: Vec::new(),
            group: Vec::new(),
            date: SauceDate { year: 0, month: 0, day: 0 },
            file_size: 0,
            data_type: SauceDataType::Character,
            file_type: 0,
            t_info1: 0,
            t_info2: 0,
            t_info3: 0,
            t_info4: 0,
            comments: 0,
            t_flags: 0,
            t_info_s: Vec::new(),
        }
    }
}

/// A date within the wire range renders to exactly eight bytes.
pub proof fn lemma_date_wire_len_8(d: SauceDate)
    requires
        date_in_wire_range(d),
    ensures
        date_wire(d).len() == 8,
{
    crate::digits::lemma_pow10_pos(0);
    assert(crate::digits::pow10(4) == 10000 && crate::digits::pow10(3) == 1000
        && crate::digits::pow10(2) == 100) by {
        reveal_with_fuel(crate::digits::pow10, 5);
    }
    if d.year >= 0 {
        crate::digits::lemma_dec_digits_len(d.year as nat, 4);
    } else {
        crate::digits::lemma_dec_digits_len((-d.year) as nat, 3);
    }
    crate::digits::lemma_dec_digits_len(d.month as nat, 2);
    crate::digits::lemma_dec_digits_len(d.day as nat, 2);
}

/// An owned copy of a header, equal in every field.
pub fn clone_header(h: &SauceHeader) -> (r: SauceHeader)
    ensures
        headers_equal(*h, r),
{
    SauceHeader {
        title: crate::util::clone_bytes(&h.title),
        author: crate::util::clone_bytes(&h.author),
        group: crate::util::clone_bytes(&h.group),
        date: h.date,
        file_size: h.file_size,
        data_type: h.data_type,
        file_type: h.file_type,
        t_info1: h.t_info1,
        t_info2: h.t_info2,
        t_info3: h.t_info3,
        t_info4: h.t_info4,
        comments: h.comments,
        t_flags: h.t_flags,
        t_info_s: crate::util::clone_bytes(&h.t_info_s),
    }
}

/// Append the bytes of `src` to `dst`.
pub(crate) fn append_bytes(dst: &mut Vec<u8>, src: &Vec<u8>)
    ensures
        final(dst)@ == old(dst)@ + src@,
{
    let mut i: usize = 0;
    proof {
        assert(dst@ =~= old(dst)@ + src@.subrange(0, 0));
    }
    while i < src.len()
        invariant
            i <= src@.len(),
            dst@ == old(dst)@ + src@.subrange(0, i as int),
        decreases src@.len() - i,
    {
        dst.push(src[i]);
        proof {
            assert(dst@ =~= old(dst)@ + src@.subrange(0, i + 1));
        }
        i = i + 1;
    }
    proof {
        assert(dst@ =~= old(dst)@ + src@);
    }
}

} // verus!
