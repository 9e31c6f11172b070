//! Codec for SAUCE metadata records: the fixed 128-byte trailer appended to
//! artwork files, its optional comment block, the per-category capability
//! views of the header fields, and the strip engine that removes trailers
//! from a byte buffer.

pub mod archive;
pub mod audio;
pub mod binary;
pub mod bitmap;
pub mod builder;
pub mod caps;
pub mod character;
pub mod data_type;
pub mod date;
pub mod digits;
pub mod errors;
pub mod executable;
pub mod header;
pub mod laws;
pub mod metadata;
pub mod record;
pub mod strip;
pub mod util;
pub mod vector;

pub use archive::{ArchiveCapabilities, ArchiveFormat};
pub use audio::{AudioCapabilities, AudioFormat};
pub use binary::{BinaryCapabilities, BinaryFormat};
pub use bitmap::{BitmapCapabilities, BitmapFormat};
pub use builder::SauceRecordBuilder;
pub use caps::Capabilities;
pub use character::{AspectRatio, CharacterCapabilities, CharacterFormat, LetterSpacing};
pub use data_type::SauceDataType;
pub use date::SauceDate;
pub use errors::SauceError;
pub use executable::ExecutableCapabilities;
pub use metadata::MetaData;
pub use record::SauceRecord;
pub use strip::{strip_sauce, strip_sauce_ex, strip_sauce_mut, StripMode, StripResult};
pub use vector::{VectorCapabilities, VectorFormat};

