//! The descriptive metadata of a record — title, author, group and
//! comments — without the format-specific capability fields.

use vstd::prelude::*;

use crate::builder::SauceRecordBuilder;
use crate::errors::SauceError;
use crate::util::clone_bytes;

verus! {

/// Title, author, group and comments of a record, detached from the
/// header.
#[derive(Debug)]
pub struct MetaData {
    /// The title of the file (up to 35 bytes).
    pub title: Vec<u8>,
    /// The (nick)name or handle of the creator (up to 20 bytes).
    pub author: Vec<u8>,
    /// The group or company name (up to 20 bytes).
    pub group: Vec<u8>,
    /// Comment lines, up to 255 of up to 64 bytes each.
    pub comments: Vec<Vec<u8>>,
}

/// Every field of the metadata is within its limit: title 35 bytes,
/// author and group 20, at most 255 comments of at most 64 bytes each.
pub open spec fn metadata_in_bounds(m: MetaData) -> bool {
    &&& m.title@.len() <= 35
    &&& m.author@.len() <= 20
    &&& m.group@.len() <= 20
    &&& m.comments@.len() <= 255
    &&& forall|i: int| 0 <= i < m.comments@.len() ==> #[trigger] m.comments@[i]@.len() <= 64
}

impl MetaData {
    /// A builder carrying a copy of this metadata. Succeeds exactly when
    /// every field is within its limit; an over-long field or comment is
    /// rejected with the corresponding length error.
    pub fn to_builder(&self) -> (r: Result<SauceRecordBuilder, SauceError>)
        ensures
            r is Ok <==> metadata_in_bounds(*self),
            (match r {
                Ok(b) => {
                    &&& b.header.title@ == self.title@
                    &&& b.header.author@ == self.author@
                    &&& b.header.group@ == self.group@
                    &&& b.comments@.len() == self.comments@.len()
                    &&& b.header.comments == self.comments@.len()
                    &&& forall|i: int|
                        0 <= i < self.comments@.len() ==> #[trigger] b.comments@[i]@
                            == self.comments@[i]@
                },
                Err(e) => (match e {
                    SauceError::TitleTooLong(l) => l == self.title@.len() && l > 35,
                    SauceError::AuthorTooLong(l) => l == self.author@.len() && l > 20,
                    SauceError::GroupTooLong(l) => l == self.group@.len() && l > 20,
                    SauceError::CommentLimitExceeded => self.comments@.len() > 255,
                    SauceError::CommentTooLong(l) => exists|j: int|
                        0 <= j < self.comments@.len() && #[trigger] self.comments@[j]@.len() == l
                            && l > 64,
                    _ => false,
                }),
            }),
    {
        let b = SauceRecordBuilder::default();
        let b = match b.title(clone_bytes(&self.title)) {
            Ok(b) => b,
            Err(e) => {
                return Err(e);
            },
        };
        let b = match b.author(clone_bytes(&self.author)) {
            Ok(b) => b,
            Err(e) => {
                return Err(e);
            },
        };
        let mut b = match b.group(clone_bytes(&self.group)) {
            Ok(b) => b,
            Err(e) => {
                return Err(e);
            },
        };
        let mut i: usize = 0;
        while i < self.comments.len()
            invariant
                i <= self.comments@.len(),
                i <= 255,
                b.header.title@ == self.title@,
                b.header.author@ == self.author@,
                b.header.group@ == self.group@,
                b.comments@.len() == i,
                i > 0 ==> b.header.comments == i,
                i == 0 ==> b.header.comments == 0,
                forall|j: int|
                    0 <= j < i ==> #[trigger] b.comments@[j]@ == self.comments@[j]@,
                forall|j: int| 0 <= j < i ==> #[trigger] self.comments@[j]@.len() <= 64,
            decreases self.comments@.len() - i,
        {
            let ghost prev = b;
            b = match b.add_comment(clone_bytes(&self.comments[i])) {
                Ok(b) => b,
                Err(e) => {
                    proof {
                        let j: int = i as int;
                        if self.comments@[j]@.len() > 64 {
                            let l2 = self.comments@[j]@.len();
                            assert(self.comments@[j]@.len() == l2 && l2 > 64);
                        }
                    }
                    return Err(e);
                },
            };
            proof {
                assert forall|j: int| 0 <= j < i + 1 implies #[trigger] b.comments@[j]@
                    == self.comments@[j]@ by {
                    if j < i {
                        assert(b.comments@[j] == prev.comments@[j]);
                    }
                }
            }
            i = i + 1;
        }
        Ok(b)
    }

    /// Whether every field is empty.
    pub fn is_empty(&self) -> (r: bool)
        ensures
            r == (self.title@.len() == 0 && self.author@.len() == 0 && self.group@.len() == 0
                && self.comments@.len() == 0),
    {
        self.title.is_empty() && self.author.is_empty() && self.group.is_empty()
            && self.comments.is_empty()
    }
}

} // verus!
