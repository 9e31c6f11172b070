//! The unified capability type: one variant per record category, each
//! carrying only the fields that category defines. A record's
//! discriminator selects which variant its header decodes to.

use vstd::prelude::*;

use crate::archive::{archive_format_of_byte, byte_of_archive_format, ArchiveCapabilities};
use crate::audio::{
    audio_format_of_byte, byte_of_audio_format, spec_has_sample_rate, AudioCapabilities,
};
use crate::binary::{bin_caps_match, bt_width_ok, BinaryCapabilities, BinaryFormat};
use crate::bitmap::{bitmap_format_of, sauce_of_bitmap_format, BitmapCapabilities, BitmapFormat};
use crate::character::{
    binary_text_width_ok, char_bt_fields_encoded, char_caps_match, char_fields_encoded,
    flags_byte, xbin_fields_encoded, CharacterCapabilities,
};
use crate::data_type::SauceDataType;
use crate::errors::SauceError;
use crate::executable::ExecutableCapabilities;
use crate::header::{header_meta_unchanged, SauceHeader};
use crate::vector::{byte_of_vector_format, vector_format_of_byte, VectorCapabilities};

verus! {

/// The category-specific reinterpretation of a header's generic fields.
#[derive(Debug, Clone)]
pub enum Capabilities {
    /// Character and text formats (ASCII, ANSI, PCBoard, ...).
    Character(CharacterCapabilities),
    /// BinaryText and XBin formats.
    Binary(BinaryCapabilities),
    /// Bitmap graphics formats (GIF, PNG, ...), and RIPScript.
    Bitmap(BitmapCapabilities),
    /// Vector graphics formats (DXF, DWG, ...).
    Vector(VectorCapabilities),
    /// Audio formats (modules, FM synthesis, samples, ...).
    Audio(AudioCapabilities),
    /// Archive formats (ZIP, RAR, ...).
    Archive(ArchiveCapabilities),
    /// Executable files; a pure marker.
    Executable(ExecutableCapabilities),
}

/// The capability a header decodes to, by its discriminator: exactly one
/// variant per known category, `None` for an unknown discriminator and
/// for the one decodable failure (a BinaryText record storing width
/// zero).
pub open spec fn caps_of_header_match(r: Option<Capabilities>, h: SauceHeader) -> bool {
    match h.data_type {
        SauceDataType::Character => r matches Some(Capabilities::Character(c)) && char_caps_match(
            c,
            h,
        ),
        SauceDataType::BinaryText => if h.file_type == 0 {
            r is None
        } else {
            r matches Some(Capabilities::Binary(c)) && bin_caps_match(c, h)
        },
        SauceDataType::XBin => r matches Some(Capabilities::Binary(c)) && bin_caps_match(c, h),
        SauceDataType::Bitmap => r matches Some(Capabilities::Bitmap(c)) && c.format
            == bitmap_format_of(h.data_type, h.file_type) && c.width == h.t_info1 && c.height
            == h.t_info2 && c.pixel_depth == h.t_info3,
        SauceDataType::Vector => r matches Some(Capabilities::Vector(c)) && c.format
            == vector_format_of_byte(h.file_type),
        SauceDataType::Audio => r matches Some(Capabilities::Audio(c)) && c.format
            == audio_format_of_byte(h.file_type) && c.sample_rate == (if spec_has_sample_rate(
            audio_format_of_byte(h.file_type),
        ) {
            h.t_info1
        } else {
            0u16
        }),
        SauceDataType::Archive => r matches Some(Capabilities::Archive(c)) && c.format
            == archive_format_of_byte(h.file_type),
        SauceDataType::Executable => r matches Some(Capabilities::Executable(_)),
        _ => r is None,
    }
}

/// The header `h1` is `h0` with the capability `caps` successfully
/// encoded into it: the descriptive metadata is untouched and the
/// type-dependent fields carry exactly what the category defines, unused
/// ones forced to their fixed values.
pub open spec fn caps_encoded(caps: Capabilities, h0: SauceHeader, h1: SauceHeader) -> bool {
    &&& header_meta_unchanged(h0, h1)
    &&& match caps {
        Capabilities::Character(c) => {
            &&& h1.data_type == h0.data_type
            &&& match h0.data_type {
                SauceDataType::BinaryText => binary_text_width_ok(c.columns)
                    && char_bt_fields_encoded(c, h1),
                SauceDataType::XBin => xbin_fields_encoded(c.columns, c.lines, h1),
                SauceDataType::Character => char_fields_encoded(c, h1),
                _ => false,
            }
        },
        Capabilities::Binary(c) => match c.format {
            BinaryFormat::BinaryText => {
                &&& bt_width_ok(c.columns)
                &&& h1.data_type == SauceDataType::BinaryText
                &&& h1.file_type == c.columns / 2
                &&& h1.t_info1 == 0
                &&& h1.t_info2 == 0
                &&& h1.t_info3 == 0
                &&& h1.t_info4 == 0
                &&& h1.t_flags == flags_byte(c.ice_colors, c.letter_spacing, c.aspect_ratio)
                &&& h1.t_info_s@ == (match c.font_opt {
                    Some(f) => f@,
                    None => Seq::<u8>::empty(),
                })
            },
            BinaryFormat::XBin => {
                &&& h1.data_type == SauceDataType::XBin
                &&& xbin_fields_encoded(c.columns, c.lines, h1)
            },
        },
        Capabilities::Bitmap(c) => {
            &&& h1.data_type == sauce_of_bitmap_format(c.format).0
            &&& h1.file_type == sauce_of_bitmap_format(c.format).1
            &&& match c.format {
                BitmapFormat::RipScript => h1.t_info1 == 640 && h1.t_info2 == 350 && h1.t_info3
                    == 16 && h1.t_info4 == 0 && h1.t_flags == 0 && h1.t_info_s@
                    == Seq::<u8>::empty(),
                BitmapFormat::Unknown(_, _) => h1.t_info1 == c.width && h1.t_info2 == c.height
                    && h1.t_info3 == c.pixel_depth && h1.t_info4 == h0.t_info4 && h1.t_flags
                    == h0.t_flags && h1.t_info_s@ == h0.t_info_s@,
                _ => h1.t_info1 == c.width && h1.t_info2 == c.height && h1.t_info3
                    == c.pixel_depth && h1.t_info4 == 0 && h1.t_flags == 0 && h1.t_info_s@
                    == Seq::<u8>::empty(),
            }
        },
        Capabilities::Vector(c) => {
            &&& h1.data_type == SauceDataType::Vector
            &&& h1.file_type == byte_of_vector_format(c.format)
            &&& h1.t_info1 == 0 && h1.t_info2 == 0 && h1.t_info3 == 0 && h1.t_info4 == 0
            &&& h1.t_flags == 0 && h1.t_info_s@ == Seq::<u8>::empty()
        },
        Capabilities::Audio(c) => {
            &&& h1.data_type == SauceDataType::Audio
            &&& h1.file_type == byte_of_audio_format(c.format)
            &&& h1.t_info1 == (if spec_has_sample_rate(c.format) {
                c.sample_rate
            } else {
                0u16
            })
            &&& h1.t_info2 == 0 && h1.t_info3 == 0 && h1.t_info4 == 0
            &&& h1.t_flags == 0 && h1.t_info_s@ == Seq::<u8>::empty()
        },
        Capabilities::Archive(c) => {
            &&& h1.data_type == SauceDataType::Archive
            &&& h1.file_type == byte_of_archive_format(c.format)
            &&& h1.t_info1 == 0 && h1.t_info2 == 0 && h1.t_info3 == 0 && h1.t_info4 == 0
            &&& h1.t_flags == 0 && h1.t_info_s@ == Seq::<u8>::empty()
        },
        Capabilities::Executable(_) => {
            &&& h1.data_type == SauceDataType::Executable
            &&& h1.file_type == 0
            &&& h1.t_info1 == 0 && h1.t_info2 == 0 && h1.t_info3 == 0 && h1.t_info4 == 0
            &&& h1.t_flags == 0 && h1.t_info_s@ == Seq::<u8>::empty()
        },
    }
}

/// The one way encoding a capability into the header `h0` fails, and the
/// error it fails with: a BinaryText width that is zero, odd or above
/// 510, or a character capability meeting a discriminator it cannot
/// describe.
pub open spec fn caps_encode_error(caps: Capabilities, h0: SauceHeader, e: SauceError) -> bool {
    match caps {
        Capabilities::Character(c) => match h0.data_type {
            SauceDataType::BinaryText => !binary_text_width_ok(c.columns) && e
                == SauceError::BinFileWidthLimitExceeded(c.columns as i32),
            SauceDataType::XBin => false,
            SauceDataType::Character => false,
            dt => e == SauceError::UnsupportedDataType(dt),
        },
        Capabilities::Binary(c) => c.format == BinaryFormat::BinaryText && !bt_width_ok(c.columns)
            && e == SauceError::BinFileWidthLimitExceeded(c.columns as i32),
        _ => false,
    }
}

} // verus!
