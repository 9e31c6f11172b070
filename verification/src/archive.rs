//! Capability view for archive files: only the sub-format code is
//! meaningful; every other type-dependent field is zero.

use vstd::prelude::*;

use crate::data_type::SauceDataType;
use crate::errors::SauceError;
use crate::header::{header_meta_unchanged, SauceHeader};

verus! {

/// Archive sub-format, stored in the file type byte.
#[derive(Debug, Clone, Copy, PartialEq, Eq, Structural)]
pub enum ArchiveFormat {
    /// PKWare ZIP (type code 0).
    Zip,
    /// ARJ (type code 1).
    Arj,
    /// LZH (type code 2).
    Lzh,
    /// ARC (type code 3).
    Arc,
    /// Unix TAR, uncompressed (type code 4).
    Tar,
    /// ZOO (type code 5).
    Zoo,
    /// RAR (type code 6).
    Rar,
    /// UC2 (type code 7).
    Uc2,
    /// PAK (type code 8).
    Pak,
    /// SQZ (type code 9).
    Sqz,
    /// Any other type code, preserved as it stands.
    Unknown(u8),
}

/// The sub-format a file type byte selects.
pub open spec fn archive_format_of_byte(b: u8) -> ArchiveFormat {
    if b == 0 {
        ArchiveFormat::Zip
    } else if b == 1 {
        ArchiveFormat::Arj
    } else if b == 2 {
        ArchiveFormat::Lzh
    } else if b == 3 {
        ArchiveFormat::Arc
    } else if b == 4 {
        ArchiveFormat::Tar
    } else if b == 5 {
        ArchiveFormat::Zoo
    } else if b == 6 {
        ArchiveFormat::Rar
    } else if b == 7 {
        ArchiveFormat::Uc2
    } else if b == 8 {
        ArchiveFormat::Pak
    } else if b == 9 {
        ArchiveFormat::Sqz
    } else {
        ArchiveFormat::Unknown(b)
    }
}

/// The file type byte a sub-format is written as.
pub open spec fn byte_of_archive_format(f: ArchiveFormat) -> u8 {
    match f {
        ArchiveFormat::Zip => 0,
        ArchiveFormat::Arj => 1,
        ArchiveFormat::Lzh => 2,
        ArchiveFormat::Arc => 3,
        ArchiveFormat::Tar => 4,
        ArchiveFormat::Zoo => 5,
        ArchiveFormat::Rar => 6,
        ArchiveFormat::Uc2 => 7,
        ArchiveFormat::Pak => 8,
        ArchiveFormat::Sqz => 9,
        ArchiveFormat::Unknown(b) => b,
    }
}

impl ArchiveFormat {
    /// Read a sub-format from its file type byte; unknown codes are kept.
    pub fn from_sauce(file_type: u8) -> (r: Self)
        ensures
            r == archive_format_of_byte(file_type),
    {
        match file_type {
            0 => ArchiveFormat::Zip,
            1 => ArchiveFormat::Arj,
            2 => ArchiveFormat::Lzh,
            3 => ArchiveFormat::Arc,
            4 => ArchiveFormat::Tar,
            5 => ArchiveFormat::Zoo,
            6 => ArchiveFormat::Rar,
            7 => ArchiveFormat::Uc2,
            8 => ArchiveFormat::Pak,
            9 => ArchiveFormat::Sqz,
            _ => ArchiveFormat::Unknown(file_type),
        }
    }

    /// The file type byte of this sub-format.
    pub fn to_sauce(&self) -> (r: u8)
        ensures
            r == byte_of_archive_format(*self),
    {
        match self {
            ArchiveFormat::Zip => 0,
            ArchiveFormat::Arj => 1,
            ArchiveFormat::Lzh => 2,
            ArchiveFormat::Arc => 3,
            ArchiveFormat::Tar => 4,
            ArchiveFormat::Zoo => 5,
            ArchiveFormat::Rar => 6,
            ArchiveFormat::Uc2 => 7,
            ArchiveFormat::Pak => 8,
            ArchiveFormat::Sqz => 9,
            ArchiveFormat::Unknown(ft) => *ft,
        }
    }

    /// The typical file extension of this sub-format, lower case and
    /// without a dot; empty for unknown codes.
    pub fn extension(&self) -> (r: &'static str)
    {
        match self {
            ArchiveFormat::Zip => "zip",
            ArchiveFormat::Arj => "arj",
            ArchiveFormat::Lzh => "lzh",
            ArchiveFormat::Arc => "arc",
            ArchiveFormat::Tar => "tar",
            ArchiveFormat::Zoo => "zoo",
            ArchiveFormat::Rar => "rar",
            ArchiveFormat::Uc2 => "uc2",
            ArchiveFormat::Pak => "pak",
            ArchiveFormat::Sqz => "sqz",
            ArchiveFormat::Unknown(_) => "",
        }
    }

    /// Whether the sub-format typically compresses its contents; TAR and
    /// unknown codes do not.
    pub fn is_compressed(&self) -> (r: bool)
        ensures
            r == !(*self is Tar || *self is Unknown),
    {
        match self {
            ArchiveFormat::Tar => false,
            ArchiveFormat::Unknown(_) => false,
            _ => true,
        }
    }
}

/// Capability view of an archive record.
#[derive(Debug, Clone)]
pub struct ArchiveCapabilities {
    /// Archive sub-format.
    pub format: ArchiveFormat,
}

impl ArchiveCapabilities {
    /// A capability with the given sub-format.
    pub fn new(format: ArchiveFormat) -> (r: Self)
        ensures
            r.format == format,
    {
        ArchiveCapabilities { format }
    }

    /// Decode the archive capability of a header; fails when the header's
    /// discriminator is not Archive.
    pub(crate) fn from_header(header: &SauceHeader) -> (r: Result<Self, SauceError>)
        ensures
            (match r {
                Ok(c) => header.data_type == SauceDataType::Archive && c.format
                    == archive_format_of_byte(header.file_type),
                Err(e) => header.data_type != SauceDataType::Archive && e
                    == SauceError::UnsupportedDataType(header.data_type),
            }),
    {
        if !matches!(header.data_type, SauceDataType::Archive) {
            return Err(SauceError::UnsupportedDataType(header.data_type));
        }
        Ok(ArchiveCapabilities { format: ArchiveFormat::from_sauce(header.file_type) })
    }

    /// Write this capability into a header: the Archive discriminator and
    /// the sub-format code; every other type-dependent field is zeroed.
    pub(crate) fn encode_into_header(&self, header: &mut SauceHeader) -> (r: Result<
        (),
        SauceError,
    >)
        ensures
            r is Ok,
            header_meta_unchanged(*old(header), *final(header)),
            final(header).data_type == SauceDataType::Archive,
            final(header).file_type == byte_of_archive_format(self.format),
            final(header).t_info1 == 0,
            final(header).t_info2 == 0,
            final(header).t_info3 == 0,
            final(header).t_info4 == 0,
            final(header).t_flags == 0,
            final(header).t_info_s@ == Seq::<u8>::empty(),
    {
        header.data_type = SauceDataType::Archive;
        header.file_type = self.format.to_sauce();
        header.t_info1 = 0;
        header.t_info2 = 0;
        header.t_info3 = 0;
        header.t_info4 = 0;
        header.t_flags = 0;
        header.t_info_s.clear();
        Ok(())
    }
}

} // verus!
