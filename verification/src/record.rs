//! The record assembler: a header plus its optional comment block, read
//! from the tail of a buffer and written back byte-exactly.
//!
//! On disk a full trailer is laid out as
//! `[content][0x1A][COMNT + comment x N][128-byte header]`, the end
//! marker and the comment block both optional. A missing end marker and
//! a corrupted comment tag are tolerated when reading (the latter yields
//! a record without comments); a declared comment block that does not fit
//! in the buffer is a hard error.

use vstd::prelude::*;
use vstd::slice::slice_subrange;

use crate::archive::ArchiveCapabilities;
use crate::audio::AudioCapabilities;
use crate::binary::BinaryCapabilities;
use crate::bitmap::BitmapCapabilities;
use crate::caps::{caps_of_header_match, Capabilities};
use crate::character::CharacterCapabilities;
use crate::data_type::SauceDataType;
use crate::date::SauceDate;
use crate::errors::SauceError;
use crate::executable::ExecutableCapabilities;
use crate::header::{
    append_bytes, clone_header, date_in_wire_range, header_bytes, header_matches, headers_equal,
    spec_total_len, tail_has_header, tail_has_magic, tail_window, window_version_ok, SauceHeader,
    COMMENT_ID_LEN, COMMENT_LEN, HDR_LEN,
};
use crate::metadata::MetaData;
use crate::util::{clone_byte_lines, clone_bytes, padded, sauce_pad, sauce_trim, trim_tail};
use crate::vector::VectorCapabilities;

verus! {

/// The comment block tag `COMNT`.
pub open spec fn comment_id() -> Seq<u8> {
    seq![67u8, 79u8, 77u8, 78u8, 84u8]
}

/// The five bytes at the start of the expected comment window hold the
/// tag `COMNT`.
pub open spec fn comment_tag_ok(data: Seq<u8>, n: u8) -> bool {
    let s = data.len() - spec_total_len(n);
    &&& data[s] == 67
    &&& data[s + 1] == 79
    &&& data[s + 2] == 77
    &&& data[s + 3] == 78
    &&& data[s + 4] == 84
}

/// The stored bytes of comment line `i` in a buffer whose header
/// declares `n` comment lines.
pub open spec fn comment_line(data: Seq<u8>, n: u8, i: int) -> Seq<u8> {
    let base = data.len() - spec_total_len(n) + 5;
    data.subrange(base + 64 * i, base + 64 * (i + 1))
}

/// A complete SAUCE record: the header and its comment lines, each held
/// in its semantically trimmed form.
#[derive(Debug)]
pub struct SauceRecord {
    /// The raw header. Records read back from bytes hold the parsed,
    /// trimmed fields here.
    pub header: SauceHeader,
    /// The comment lines, each in its trimmed form.
    pub comments: Vec<Vec<u8>>,
}

/// The comment lines of `rec` are what parsing `data` gives: none when
/// the header declares none or the tag is corrupted, otherwise the
/// declared number of lines, each trimmed of trailing spaces and NULs.
pub open spec fn record_comments_match(rec: SauceRecord, data: Seq<u8>) -> bool {
    let n = rec.header.comments;
    if n == 0 {
        rec.comments@.len() == 0
    } else {
        &&& data.len() >= spec_total_len(n)
        &&& (if comment_tag_ok(data, n) {
            &&& rec.comments@.len() == n
            &&& forall|i: int|
                0 <= i < n ==> #[trigger] rec.comments@[i]@ == trim_tail(comment_line(data, n, i))
        } else {
            rec.comments@.len() == 0
        })
    }
}

/// The serialized bytes of a sequence of comment lines, each padded with
/// spaces to 64 bytes.
pub open spec fn comment_lines_bytes(cs: Seq<Vec<u8>>) -> Seq<u8> {
    Seq::new((64 * cs.len()) as nat, |j: int| padded(cs[j / 64]@, 64, 32)[j % 64])
}

/// Appending one more comment line appends its padded 64 bytes.
pub proof fn lemma_comment_lines_snoc(cs: Seq<Vec<u8>>, i: int)
    requires
        0 <= i < cs.len(),
    ensures
        comment_lines_bytes(cs.subrange(0, i + 1)) == comment_lines_bytes(cs.subrange(0, i))
            + padded(cs[i]@, 64, 32),
{
    let a = comment_lines_bytes(cs.subrange(0, i));
    let b = padded(cs[i]@, 64, 32);
    let c = comment_lines_bytes(cs.subrange(0, i + 1));
    assert forall|j: int| 0 <= j < 64 * (i + 1) implies c[j] == (a + b)[j] by {
        if j < 64 * i {
            assert(0 <= j / 64 < i);
            assert(c[j] == padded(cs.subrange(0, i + 1)[j / 64]@, 64, 32)[j % 64]);
            assert(a[j] == padded(cs.subrange(0, i)[j / 64]@, 64, 32)[j % 64]);
        } else {
            assert(j / 64 == i && j % 64 == j - 64 * i);
            assert(c[j] == padded(cs[i]@, 64, 32)[j % 64]);
            assert((a + b)[j] == b[j - 64 * i]);
        }
    }
    assert(c =~= a + b);
}

/// The full serialized record: the comment block when any comments are
/// held, then the 128-byte header. The end marker is not included.
pub open spec fn record_bytes(rec: SauceRecord) -> Seq<u8> {
    (if rec.comments@.len() == 0 {
        Seq::<u8>::empty()
    } else {
        comment_id() + comment_lines_bytes(rec.comments@)
    }) + header_bytes(rec.header)
}

impl SauceRecord {
    /// Try to parse a record from the tail of a complete buffer.
    ///
    /// Returns `Ok(None)` when no magic is present,
    /// `Err(UnsupportedSauceVersion)` for a version other than `00`, and
    /// `Err(InvalidCommentBlock)` when the header declares more comment
    /// bytes than the buffer holds. A corrupted comment tag is tolerated:
    /// the record parses with zero comments. A missing end marker before
    /// the trailer is tolerated as well.
    pub fn from_bytes(data: &[u8]) -> (r: Result<Option<SauceRecord>, SauceError>)
        ensures
            (match r {
                Ok(Some(rec)) => tail_has_header(data@) && header_matches(
                    rec.header,
                    tail_window(data@),
                ) && record_comments_match(rec, data@),
                Ok(None) => !tail_has_magic(data@),
                Err(e) => (match e {
                    SauceError::UnsupportedSauceVersion(v) => tail_has_magic(data@)
                        && !window_version_ok(tail_window(data@)) && v@ == tail_window(
                        data@,
                    ).subrange(5, 7),
                    SauceError::InvalidCommentBlock => tail_has_header(data@) && tail_window(
                        data@,
                    )[104] != 0 && data@.len() < spec_total_len(tail_window(data@)[104]),
                    _ => false,
                }),
            }),
    {
        let header = match SauceHeader::from_bytes(data) {
            Ok(Some(h)) => h,
            Ok(None) => {
                return Ok(None);
            },
            Err(e) => {
                return Err(e);
            },
        };
        let mut comments: Vec<Vec<u8>> = Vec::new();
        if header.comments > 0 {
            let n = header.comments;
            let expected: usize = HDR_LEN + COMMENT_ID_LEN + n as usize * COMMENT_LEN;
            if data.len() < expected {
                return Err(SauceError::InvalidCommentBlock);
            }
            let s = data.len() - expected;
            if data[s] == 67 && data[s + 1] == 79 && data[s + 2] == 77 && data[s + 3] == 78
                && data[s + 4] == 84 {
                let base = s + COMMENT_ID_LEN;
                let mut i: usize = 0;
                while i < n as usize
                    invariant
                        i <= n,
                        n == header.comments,
                        base == data@.len() - spec_total_len(n) + 5,
                        base + 64 * (n as int) <= data@.len(),
                        data@.len() <= usize::MAX,
                        comments@.len() == i,
                        forall|j: int|
                            0 <= j < i ==> #[trigger] comments@[j]@ == trim_tail(
                                comment_line(data@, n, j),
                            ),
                    decreases n - i,
                {
                    let line = sauce_trim(slice_subrange(data, base + i * 64, base + (i + 1) * 64));
                    proof {
                        assert(data@.subrange(
                            base + i * 64,
                            base as int + (i + 1) * 64,
                        ) =~= comment_line(data@, n, i as int));
                    }
                    comments.push(line);
                    i = i + 1;
                }
            }
        }
        Ok(Some(SauceRecord { header, comments }))
    }

    /// Serialize this record, end marker included, into a fresh buffer.
    pub fn to_bytes(&self) -> (r: Vec<u8>)
        requires
            date_in_wire_range(self.header.date),
        ensures
            r@ == seq![26u8] + record_bytes(*self),
    {
        let mut buf: Vec<u8> = Vec::new();
        let _ = self.write(&mut buf);
        proof {
            assert(buf@ =~= seq![26u8] + record_bytes(*self));
        }
        buf
    }

    /// Serialize this record, without the end marker, into a fresh
    /// buffer.
    pub fn to_bytes_without_eof(&self) -> (r: Vec<u8>)
        requires
            date_in_wire_range(self.header.date),
        ensures
            r@ == record_bytes(*self),
    {
        let mut buf: Vec<u8> = Vec::new();
        let _ = self.write_without_eof(&mut buf);
        proof {
            assert(buf@ =~= record_bytes(*self));
        }
        buf
    }

    /// Append the standard serialized form — end marker, comment block,
    /// header — to `writer`.
    pub fn write(&self, writer: &mut Vec<u8>) -> (r: Result<(), SauceError>)
        requires
            date_in_wire_range(self.header.date),
        ensures
            r is Ok,
            final(writer)@ == old(writer)@ + seq![26u8] + record_bytes(*self),
    {
        writer.push(26);
        self.write_payload(writer);
        proof {
            assert(writer@ =~= old(writer)@ + seq![26u8] + record_bytes(*self));
        }
        Ok(())
    }

    /// Append the serialized form without the leading end marker, for
    /// contexts that manage the marker themselves.
    pub fn write_without_eof(&self, writer: &mut Vec<u8>) -> (r: Result<(), SauceError>)
        requires
            date_in_wire_range(self.header.date),
        ensures
            r is Ok,
            final(writer)@ == old(writer)@ + record_bytes(*self),
    {
        self.write_payload(writer);
        Ok(())
    }

    /// Append the comment block (when any comments are held) and the
    /// header.
    fn write_payload(&self, writer: &mut Vec<u8>)
        requires
            date_in_wire_range(self.header.date),
        ensures
            final(writer)@ == old(writer)@ + record_bytes(*self),
    {
        let ghost base = writer@;
        if !self.comments.is_empty() {
            writer.push(67);
            writer.push(79);
            writer.push(77);
            writer.push(78);
            writer.push(84);
            proof {
                assert(writer@ =~= base + comment_id() + comment_lines_bytes(
                    self.comments@.subrange(0, 0),
                ));
            }
            let mut i: usize = 0;
            while i < self.comments.len()
                invariant
                    i <= self.comments@.len(),
                    writer@ == base + comment_id() + comment_lines_bytes(
                        self.comments@.subrange(0, i as int),
                    ),
                decreases self.comments@.len() - i,
            {
                let line = sauce_pad(&self.comments[i], COMMENT_LEN);
                append_bytes(writer, &line);
                proof {
                    lemma_comment_lines_snoc(self.comments@, i as int);
                    assert(writer@ =~= base + comment_id() + comment_lines_bytes(
                        self.comments@.subrange(0, i + 1),
                    ));
                }
                i = i + 1;
            }
            proof {
                assert(self.comments@.subrange(0, self.comments@.len() as int) =~= self.comments@);
            }
        }
        let _ = self.header.write(writer);
        proof {
            assert(writer@ =~= base + record_bytes(*self));
        }
    }

    /// The total byte length [`write`](Self::write) produces without the
    /// end marker: 128 bytes, plus the comment block when any comments
    /// are held.
    pub fn record_len(&self) -> (r: usize)
        ensures
            r == (if self.comments@.len() == 0 {
                128int
            } else {
                133 + self.header.comments * 64
            }),
    {
        if self.comments.is_empty() {
            HDR_LEN
        } else {
            HDR_LEN + self.header.comments as usize * COMMENT_LEN + COMMENT_ID_LEN
        }
    }

    /// The stored size of the described file.
    pub fn file_size(&self) -> (r: u32)
        ensures
            r == self.header.file_size,
    {
        self.header.file_size
    }

    /// The title field.
    pub fn title(&self) -> (r: &Vec<u8>)
        ensures
            r@ == self.header.title@,
    {
        &self.header.title
    }

    /// The author field.
    pub fn author(&self) -> (r: &Vec<u8>)
        ensures
            r@ == self.header.author@,
    {
        &self.header.author
    }

    /// The group field.
    pub fn group(&self) -> (r: &Vec<u8>)
        ensures
            r@ == self.header.group@,
    {
        &self.header.group
    }

    /// The record's discriminator.
    pub fn data_type(&self) -> (r: SauceDataType)
        ensures
            r == self.header.data_type,
    {
        self.header.data_type
    }

    /// The raw header.
    pub fn header(&self) -> (r: &SauceHeader)
        ensures
            *r == self.header,
    {
        &self.header
    }

    /// The comment lines.
    pub fn comments(&self) -> (r: &Vec<Vec<u8>>)
        ensures
            *r == self.comments,
    {
        &self.comments
    }

    /// The stored date.
    pub fn date(&self) -> (r: SauceDate)
        ensures
            r == self.header.date,
    {
        self.header.date
    }

    /// The capability view selected by the record's discriminator, or
    /// `None` for an unknown discriminator (and for a BinaryText record
    /// storing width zero, which has no decodable width).
    pub fn capabilities(&self) -> (r: Option<Capabilities>)
        ensures
            caps_of_header_match(r, self.header),
    {
        match self.header.data_type {
            SauceDataType::Character => match CharacterCapabilities::from_header(&self.header) {
                Ok(c) => Some(Capabilities::Character(c)),
                Err(_) => None,
            },
            SauceDataType::BinaryText | SauceDataType::XBin => match BinaryCapabilities::from_header(
                &self.header,
            ) {
                Ok(c) => Some(Capabilities::Binary(c)),
                Err(_) => None,
            },
            SauceDataType::Bitmap => match BitmapCapabilities::from_header(&self.header) {
                Ok(c) => Some(Capabilities::Bitmap(c)),
                Err(_) => None,
            },
            SauceDataType::Vector => match VectorCapabilities::from_header(&self.header) {
                Ok(c) => Some(Capabilities::Vector(c)),
                Err(_) => None,
            },
            SauceDataType::Audio => match AudioCapabilities::from_header(&self.header) {
                Ok(c) => Some(Capabilities::Audio(c)),
                Err(_) => None,
            },
            SauceDataType::Archive => match ArchiveCapabilities::from_header(&self.header) {
                Ok(c) => Some(Capabilities::Archive(c)),
                Err(_) => None,
            },
            SauceDataType::Executable => match ExecutableCapabilities::from_header(&self.header) {
                Ok(c) => Some(Capabilities::Executable(c)),
                Err(_) => None,
            },
            _ => None,
        }
    }

    /// The descriptive metadata of the record: title, author, group and
    /// comments, copied out.
    pub fn metadata(&self) -> (r: MetaData)
        ensures
            r.title@ == self.header.title@,
            r.author@ == self.header.author@,
            r.group@ == self.header.group@,
            r.comments@.len() == self.comments@.len(),
            forall|i: int|
                0 <= i < self.comments@.len() ==> #[trigger] r.comments@[i]@
                    == self.comments@[i]@,
    {
        MetaData {
            title: clone_bytes(&self.header.title),
            author: clone_bytes(&self.header.author),
            group: clone_bytes(&self.header.group),
            comments: clone_byte_lines(&self.comments),
        }
    }

    /// A builder holding a copy of this record, for making a modified
    /// version.
    pub fn to_builder(&self) -> (r: crate::builder::SauceRecordBuilder)
        ensures
            headers_equal(r.header, self.header),
            r.comments@.len() == self.comments@.len(),
            forall|i: int|
                0 <= i < self.comments@.len() ==> #[trigger] r.comments@[i]@
                    == self.comments@[i]@,
    {
        crate::builder::SauceRecordBuilder {
            header: clone_header(&self.header),
            comments: clone_byte_lines(&self.comments),
        }
    }
}

} // verus!
