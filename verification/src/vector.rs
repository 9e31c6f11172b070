//! Capability view for vector graphics files: only the sub-format code is
//! meaningful; every other type-dependent field is zero.

use vstd::prelude::*;

use crate::data_type::SauceDataType;
use crate::errors::SauceError;
use crate::header::{header_meta_unchanged, SauceHeader};

verus! {

/// Vector graphics sub-format, stored in the file type byte.
#[derive(Debug, Clone, Copy, PartialEq, Eq, Structural)]
pub enum VectorFormat {
    /// AutoCAD Drawing Exchange Format (type code 0).
    Dxf,
    /// AutoCAD Drawing Format (type code 1).
    Dwg,
    /// WordPerfect Graphics, vector mode (type code 2).
    WpgVector,
    /// Autodesk 3D Studio (type code 3).
    ThreeDs,
    /// Any other type code, preserved as it stands.
    Unknown(u8),
}

/// The sub-format a file type byte selects.
pub open spec fn vector_format_of_byte(b: u8) -> VectorFormat {
    if b == 0 {
        VectorFormat::Dxf
    } else if b == 1 {
        VectorFormat::Dwg
    } else if b == 2 {
        VectorFormat::WpgVector
    } else if b == 3 {
        VectorFormat::ThreeDs
    } else {
        VectorFormat::Unknown(b)
    }
}

/// The file type byte a sub-format is written as.
pub open spec fn byte_of_vector_format(f: VectorFormat) -> u8 {
    match f {
        VectorFormat::Dxf => 0,
        VectorFormat::Dwg => 1,
        VectorFormat::WpgVector => 2,
        VectorFormat::ThreeDs => 3,
        VectorFormat::Unknown(b) => b,
    }
}

impl VectorFormat {
    /// Read a sub-format from its file type byte; unknown codes are kept.
    pub fn from_sauce(file_type: u8) -> (r: Self)
        ensures
            r == vector_format_of_byte(file_type),
    {
        match file_type {
            0 => VectorFormat::Dxf,
            1 => VectorFormat::Dwg,
            2 => VectorFormat::WpgVector,
            3 => VectorFormat::ThreeDs,
            _ => VectorFormat::Unknown(file_type),
        }
    }

    /// The file type byte of this sub-format.
    pub fn to_sauce(&self) -> (r: u8)
        ensures
            r == byte_of_vector_format(*self),
    {
        match self {
            VectorFormat::Dxf => 0,
            VectorFormat::Dwg => 1,
            VectorFormat::WpgVector => 2,
            VectorFormat::ThreeDs => 3,
            VectorFormat::Unknown(val) => *val,
        }
    }
}

/// Capability view of a vector graphics record.
#[derive(Debug, Clone)]
pub struct VectorCapabilities {
    /// Vector graphics sub-format.
    pub format: VectorFormat,
}

impl VectorCapabilities {
    /// A capability with the given sub-format.
    pub fn new(format: VectorFormat) -> (r: Self)
        ensures
            r.format == format,
    {
        Self { format }
    }

    /// Decode the vector capability of a header; fails when the header's
    /// discriminator is not Vector.
    pub(crate) fn from_header(header: &SauceHeader) -> (r: Result<Self, SauceError>)
        ensures
            (match r {
                Ok(c) => header.data_type == SauceDataType::Vector && c.format
                    == vector_format_of_byte(header.file_type),
                Err(e) => header.data_type != SauceDataType::Vector && e
                    == SauceError::UnsupportedDataType(header.data_type),
            }),
    {
        if !matches!(header.data_type, SauceDataType::Vector) {
            return Err(SauceError::UnsupportedDataType(header.data_type));
        }
        Ok(VectorCapabilities { format: VectorFormat::from_sauce(header.file_type) })
    }

    /// Write this capability into a header: the Vector discriminator and
    /// the sub-format code; every other type-dependent field is zeroed.
    pub(crate) fn encode_into_header(&self, header: &mut SauceHeader) -> (r: Result<
        (),
        SauceError,
    >)
        ensures
            r is Ok,
            header_meta_unchanged(*old(header), *final(header)),
            final(header).data_type == SauceDataType::Vector,
            final(header).file_type == byte_of_vector_format(self.format),
            final(header).t_info1 == 0,
            final(header).t_info2 == 0,
            final(header).t_info3 == 0,
            final(header).t_info4 == 0,
            final(header).t_flags == 0,
            final(header).t_info_s@ == Seq::<u8>::empty(),
    {
        header.data_type = SauceDataType::Vector;
        header.file_type = self.format.to_sauce();
        header.t_info1 = 0;
        header.t_info2 = 0;
        header.t_info3 = 0;
        header.t_info4 = 0;
        header.t_flags = 0;
        header.t_info_s.clear();
        Ok(())
    }
}

impl Default for VectorCapabilities {
    /// The default vector capability uses the DXF sub-format.
    fn default() -> (r: Self)
        ensures
            r.format == VectorFormat::Dxf,
    {
        Self::new(VectorFormat::Dxf)
    }
}

} // verus!
