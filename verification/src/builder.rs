//! Validating builder for SAUCE records. Each setter checks its field's
//! length limit before storing anything, so a builder never holds an
//! over-long field; `build` produces the finished record.

use vstd::prelude::*;

use crate::caps::{caps_encode_error, caps_encoded, Capabilities};
use crate::data_type::SauceDataType;
use crate::date::SauceDate;
use crate::errors::SauceError;
use crate::header::{headers_equal, SauceHeader};
use crate::record::SauceRecord;

verus! {

/// Accumulates validated fields for a SAUCE record.
#[derive(Debug)]
pub struct SauceRecordBuilder {
    /// The header being filled in. Mutating it directly bypasses the
    /// builder's validation; prefer the setters.
    pub header: SauceHeader,
    /// Validated comment lines, each at most 64 bytes, at most 255.
    pub comments: Vec<Vec<u8>>,
}

/// A fresh builder: the empty header and no comments.
pub open spec fn is_default_builder(r: SauceRecordBuilder) -> bool {
    crate::header::is_default_header(r.header) && r.comments@.len() == 0
}

impl Default for SauceRecordBuilder {
    /// A builder over the empty header, with no comments.
    fn default() -> (r: Self)
        ensures
            is_default_builder(r),
    {
        SauceRecordBuilder { header: SauceHeader::default(), comments: Vec::new() }
    }
}

impl SauceRecordBuilder {
    /// Set the title; at most 35 bytes, rejected with its length
    /// otherwise.
    pub fn title(self, title: Vec<u8>) -> (r: Result<Self, SauceError>)
        ensures
            (match r {
                Ok(b) => {
                    &&& title@.len() <= 35
                    &&& b.header.title@ == title@
                    &&& headers_equal(
                        b.header,
                        SauceHeader { title: b.header.title, ..self.header },
                    )
                    &&& b.comments@ == self.comments@
                },
                Err(e) => title@.len() > 35 && (e matches SauceError::TitleTooLong(l) && l
                    == title@.len()),
            }),
    {
        if title.len() > 35 {
            return Err(SauceError::TitleTooLong(title.len()));
        }
        let mut s = self;
        s.header.title = title;
        Ok(s)
    }

    /// Set the author; at most 20 bytes, rejected with its length
    /// otherwise.
    pub fn author(self, author: Vec<u8>) -> (r: Result<Self, SauceError>)
        ensures
            (match r {
                Ok(b) => {
                    &&& author@.len() <= 20
                    &&& b.header.author@ == author@
                    &&& headers_equal(
                        b.header,
                        SauceHeader { author: b.header.author, ..self.header },
                    )
                    &&& b.comments@ == self.comments@
                },
                Err(e) => author@.len() > 20 && (e matches SauceError::AuthorTooLong(l) && l
                    == author@.len()),
            }),
    {
        if author.len() > 20 {
            return Err(SauceError::AuthorTooLong(author.len()));
        }
        let mut s = self;
        s.header.author = author;
        Ok(s)
    }

    /// Set the group; at most 20 bytes, rejected with its length
    /// otherwise.
    pub fn group(self, group: Vec<u8>) -> (r: Result<Self, SauceError>)
        ensures
            (match r {
                Ok(b) => {
                    &&& group@.len() <= 20
                    &&& b.header.group@ == group@
                    &&& headers_equal(
                        b.header,
                        SauceHeader { group: b.header.group, ..self.header },
                    )
                    &&& b.comments@ == self.comments@
                },
                Err(e) => group@.len() > 20 && (e matches SauceError::GroupTooLong(l) && l
                    == group@.len()),
            }),
    {
        if group.len() > 20 {
            return Err(SauceError::GroupTooLong(group.len()));
        }
        let mut s = self;
        s.header.group = group;
        Ok(s)
    }

    /// Set the creation date; no calendar validation is applied.
    pub fn date(self, date: SauceDate) -> (r: Self)
        ensures
            r.header.date == date,
            headers_equal(r.header, SauceHeader { date, ..self.header }),
            r.comments@ == self.comments@,
    {
        let mut s = self;
        s.header.date = date;
        s
    }

    /// Set the size of the described file; 0 stands for unknown or too
    /// large.
    pub fn file_size(self, file_size: u32) -> (r: Self)
        ensures
            r.header.file_size == file_size,
            headers_equal(r.header, SauceHeader { file_size, ..self.header }),
            r.comments@ == self.comments@,
    {
        let mut s = self;
        s.header.file_size = file_size;
        s
    }

    /// Set the record's discriminator.
    pub fn data_type(self, data_type: SauceDataType) -> (r: Self)
        ensures
            r.header.data_type == data_type,
            headers_equal(r.header, SauceHeader { data_type, ..self.header }),
            r.comments@ == self.comments@,
    {
        let mut s = self;
        s.header.data_type = data_type;
        s
    }

    /// Encode format-specific capabilities into the header being built.
    /// The capability must agree with the discriminator already set (a
    /// character capability reads it; the other categories overwrite it).
    pub fn capabilities(self, caps: Capabilities) -> (r: Result<Self, SauceError>)
        ensures
            (match r {
                Ok(b) => caps_encoded(caps, self.header, b.header) && b.comments@
                    == self.comments@,
                Err(e) => caps_encode_error(caps, self.header, e),
            }),
    {
        let mut s = self;
        let res = match &caps {
            Capabilities::Character(c) => c.encode_into_header(&mut s.header),
            Capabilities::Binary(c) => c.encode_into_header(&mut s.header),
            Capabilities::Bitmap(c) => c.encode_into_header(&mut s.header),
            Capabilities::Vector(c) => c.encode_into_header(&mut s.header),
            Capabilities::Audio(c) => c.encode_into_header(&mut s.header),
            Capabilities::Archive(c) => c.encode_into_header(&mut s.header),
            Capabilities::Executable(c) => c.encode_into_header(&mut s.header),
        };
        match res {
            Ok(()) => Ok(s),
            Err(e) => Err(e),
        }
    }

    /// Apply title, author and group from a metadata value in one step.
    pub fn metadata(self, info: crate::metadata::MetaData) -> (r: Result<Self, SauceError>)
        ensures
            (match r {
                Ok(b) => {
                    &&& info.title@.len() <= 35 && info.author@.len() <= 20 && info.group@.len()
                        <= 20
                    &&& b.header.title@ == info.title@
                    &&& b.header.author@ == info.author@
                    &&& b.header.group@ == info.group@
                    &&& b.comments@ == self.comments@
                },
                Err(e) => (match e {
                    SauceError::TitleTooLong(l) => l == info.title@.len() && l > 35,
                    SauceError::AuthorTooLong(l) => l == info.author@.len() && l > 20,
                    SauceError::GroupTooLong(l) => l == info.group@.len() && l > 20,
                    _ => false,
                }),
            }),
    {
        let crate::metadata::MetaData { title, author, group, comments: _ } = info;
        let b = match self.title(title) {
            Ok(b) => b,
            Err(e) => {
                return Err(e);
            },
        };
        let b = match b.author(author) {
            Ok(b) => b,
            Err(e) => {
                return Err(e);
            },
        };
        match b.group(group) {
            Ok(b) => Ok(b),
            Err(e) => Err(e),
        }
    }

    /// Add one comment line. The 256th line is rejected with
    /// `CommentLimitExceeded`; a line over 64 bytes is rejected with
    /// `CommentTooLong` and its length. Exactly 255 lines of up to 64
    /// bytes each are accepted.
    pub fn add_comment(self, comment: Vec<u8>) -> (r: Result<Self, SauceError>)
        ensures
            (match r {
                Ok(b) => {
                    &&& self.comments@.len() < 255
                    &&& comment@.len() <= 64
                    &&& b.comments@.len() == self.comments@.len() + 1
                    &&& forall|i: int|
                        0 <= i < self.comments@.len() ==> b.comments@[i] == #[trigger] self.comments@[i]
                    &&& b.comments@[self.comments@.len() as int]@ == comment@
                    &&& b.header.comments == b.comments@.len()
                    &&& headers_equal(
                        b.header,
                        SauceHeader { comments: b.header.comments, ..self.header },
                    )
                },
                Err(e) => (if self.comments@.len() >= 255 {
                    e == SauceError::CommentLimitExceeded
                } else {
                    comment@.len() > 64 && (e matches SauceError::CommentTooLong(l) && l
                        == comment@.len())
                }),
            }),
    {
        if self.comments.len() >= 255 {
            return Err(SauceError::CommentLimitExceeded);
        }
        if comment.len() > 64 {
            return Err(SauceError::CommentTooLong(comment.len()));
        }
        let mut s = self;
        s.comments.push(comment);
        s.header.comments = s.comments.len() as u8;
        Ok(s)
    }

    /// Finish the builder and hand out the record it accumulated.
    pub fn build(self) -> (r: SauceRecord)
        ensures
            r.header == self.header,
            r.comments == self.comments,
    {
        SauceRecord { header: self.header, comments: self.comments }
    }
}

} // verus!
