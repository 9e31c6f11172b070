//! The master discriminator of a SAUCE record: one byte that selects how
//! the generic header fields are interpreted. Unknown bytes are preserved
//! as `Undefined` so that a record written by a future tool round-trips
//! without loss.

use vstd::prelude::*;

verus! {

/// The category of the file a SAUCE record describes (the `DataType` byte).
#[derive(Clone, Copy, Debug, PartialEq, Eq, Structural)]
pub enum SauceDataType {
    /// No particular category (wire byte 0).
    NoData,
    /// A character based file, read as a stream (wire byte 1).
    Character,
    /// Bitmap graphic and animation files (wire byte 2).
    Bitmap,
    /// A vector graphic file (wire byte 3).
    Vector,
    /// An audio file (wire byte 4).
    Audio,
    /// Raw memory copy of a text mode screen (wire byte 5).
    BinaryText,
    /// XBin or eXtended BIN file (wire byte 6).
    XBin,
    /// Archive file (wire byte 7).
    Archive,
    /// Executable file (wire byte 8).
    Executable,
    /// Any other byte value, preserved as it stands.
    Undefined(u8),
}

/// The category a `DataType` byte selects.
pub open spec fn data_type_of_byte(b: u8) -> SauceDataType {
    if b == 0 {
        SauceDataType::NoData
    } else if b == 1 {
        SauceDataType::Character
    } else if b == 2 {
        SauceDataType::Bitmap
    } else if b == 3 {
        SauceDataType::Vector
    } else if b == 4 {
        SauceDataType::Audio
    } else if b == 5 {
        SauceDataType::BinaryText
    } else if b == 6 {
        SauceDataType::XBin
    } else if b == 7 {
        SauceDataType::Archive
    } else if b == 8 {
        SauceDataType::Executable
    } else {
        SauceDataType::Undefined(b)
    }
}

/// The wire byte a category is written as.
pub open spec fn byte_of_data_type(dt: SauceDataType) -> u8 {
    match dt {
        SauceDataType::NoData => 0,
        SauceDataType::Character => 1,
        SauceDataType::Bitmap => 2,
        SauceDataType::Vector => 3,
        SauceDataType::Audio => 4,
        SauceDataType::BinaryText => 5,
        SauceDataType::XBin => 6,
        SauceDataType::Archive => 7,
        SauceDataType::Executable => 8,
        SauceDataType::Undefined(b) => b,
    }
}

impl SauceDataType {
    /// Read a category from its wire byte; bytes above 8 stay `Undefined`.
    pub fn from_u8(byte: u8) -> (r: SauceDataType)
        ensures
            r == data_type_of_byte(byte),
    {
        match byte {
            0 => SauceDataType::NoData,
            1 => SauceDataType::Character,
            2 => SauceDataType::Bitmap,
            3 => SauceDataType::Vector,
            4 => SauceDataType::Audio,
            5 => SauceDataType::BinaryText,
            6 => SauceDataType::XBin,
            7 => SauceDataType::Archive,
            8 => SauceDataType::Executable,
            other => SauceDataType::Undefined(other),
        }
    }

    /// The wire byte of this category; `Undefined` keeps its raw byte.
    pub fn to_u8(self) -> (r: u8)
        ensures
            r == byte_of_data_type(self),
    {
        match self {
            SauceDataType::NoData => 0,
            SauceDataType::Character => 1,
            SauceDataType::Bitmap => 2,
            SauceDataType::Vector => 3,
            SauceDataType::Audio => 4,
            SauceDataType::BinaryText => 5,
            SauceDataType::XBin => 6,
            SauceDataType::Archive => 7,
            SauceDataType::Executable => 8,
            SauceDataType::Undefined(byte) => byte,
        }
    }

    /// A printable name for the category.
    pub fn name(self) -> (r: &'static str)
    {
        match self {
            SauceDataType::NoData => "None",
            SauceDataType::Character => "Character",
            SauceDataType::Bitmap => "Bitmap",
            SauceDataType::Vector => "Vector",
            SauceDataType::Audio => "Audio",
            SauceDataType::BinaryText => "BinaryText",
            SauceDataType::XBin => "XBin",
            SauceDataType::Archive => "Archive",
            SauceDataType::Executable => "Executable",
            SauceDataType::Undefined(_) => "Undefined",
        }
    }
}

impl Default for SauceDataType {
    /// The default category is `Character`, the most common kind of file
    /// carrying a SAUCE record.
    fn default() -> (r: Self)
        ensures
            r == SauceDataType::Character,
    {
        SauceDataType::Character
    }
}

/// Every discriminator byte survives a decode followed by an encode: the
/// category read from `b` writes back as exactly `b`, also for the bytes
/// above 8 that no known category claims.
pub proof fn lemma_data_type_byte_roundtrip(b: u8)
    ensures
        byte_of_data_type(data_type_of_byte(b)) == b,
{
}

} // verus!
