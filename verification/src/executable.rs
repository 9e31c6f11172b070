//! Capability view for executable files: a pure marker with no payload;
//! every type-dependent field of the header is zero.

use vstd::prelude::*;

use crate::data_type::SauceDataType;
use crate::errors::SauceError;
use crate::header::{header_meta_unchanged, SauceHeader};

verus! {

/// Capability view of an executable record; carries no data.
#[derive(Debug, Clone)]
pub struct ExecutableCapabilities {}

impl ExecutableCapabilities {
    /// The marker capability.
    pub fn new() -> (r: Self)
    {
        ExecutableCapabilities {  }
    }

    /// Decode the executable capability of a header; fails when the
    /// header's discriminator is not Executable. A non-zero file type
    /// byte is tolerated.
    pub(crate) fn from_header(header: &SauceHeader) -> (r: Result<Self, SauceError>)
        ensures
            (match r {
                Ok(c) => header.data_type == SauceDataType::Executable,
                Err(e) => header.data_type != SauceDataType::Executable && e
                    == SauceError::UnsupportedDataType(header.data_type),
            }),
    {
        if !matches!(header.data_type, SauceDataType::Executable) {
            return Err(SauceError::UnsupportedDataType(header.data_type));
        }
        Ok(ExecutableCapabilities {  })
    }

    /// Write this capability into a header: the Executable discriminator;
    /// every other type-dependent field is zeroed.
    pub(crate) fn encode_into_header(&self, header: &mut SauceHeader) -> (r: Result<
        (),
        SauceError,
    >)
        ensures
            r is Ok,
            header_meta_unchanged(*old(header), *final(header)),
            final(header).data_type == SauceDataType::Executable,
            final(header).file_type == 0,
            final(header).t_info1 == 0,
            final(header).t_info2 == 0,
            final(header).t_info3 == 0,
            final(header).t_info4 == 0,
            final(header).t_flags == 0,
            final(header).t_info_s@ == Seq::<u8>::empty(),
    {
        header.data_type = SauceDataType::Executable;
        header.file_type = 0;
        header.t_info1 = 0;
        header.t_info2 = 0;
        header.t_info3 = 0;
        header.t_info4 = 0;
        header.t_flags = 0;
        header.t_info_s.clear();
        Ok(())
    }
}

impl Default for ExecutableCapabilities {
    /// The marker capability.
    fn default() -> (r: Self)
    {
        Self::new()
    }
}

} // verus!
