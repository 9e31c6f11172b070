//! Error taxonomy of the codec. Structural problems in a buffer, field
//! length violations caught by the builder, and capability requests that do
//! not match a record's discriminator each have their own variant; tolerated
//! non-conformance (a missing end marker or comment tag) is never an error.

use vstd::prelude::*;

use crate::data_type::SauceDataType;

verus! {

/// Everything that can go wrong while reading, building or reinterpreting
/// a SAUCE record.
#[derive(Debug, Clone)]
pub enum SauceError {
    /// The header carries a version other than the two ASCII digits `00`;
    /// the raw version bytes are kept for diagnostics.
    UnsupportedSauceVersion(Vec<u8>),
    /// The header declares comment lines but the buffer is too short to
    /// hold the declared comment block.
    InvalidCommentBlock,
    /// The stored date field could not be interpreted; the raw bytes are
    /// kept for diagnostics.
    UnsupportedSauceDate(Vec<u8>),
    /// A BinaryText width that is zero, odd or above 510; carries the
    /// offending width.
    BinFileWidthLimitExceeded(i32),
    /// A capability view was requested for a record whose discriminator
    /// selects a different category; carries the record's actual category.
    UnsupportedDataType(SauceDataType),
    /// More than 255 comment lines.
    CommentLimitExceeded,
    /// A comment line longer than 64 bytes; carries the offending length.
    CommentTooLong(usize),
    /// A title longer than 35 bytes; carries the offending length.
    TitleTooLong(usize),
    /// An author longer than 20 bytes; carries the offending length.
    AuthorTooLong(usize),
    /// A group longer than 20 bytes; carries the offending length.
    GroupTooLong(usize),
    /// A font name longer than 22 bytes; carries the offending length.
    FontNameTooLong(usize),
    /// No end marker byte precedes the record where one was demanded.
    MissingEofMarker,
}

} // verus!
