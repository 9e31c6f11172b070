//! Capability view for binary text files. BinaryText stores its width in
//! the file type byte (half the width, so the width must be even and at
//! most 510) and derives its height from the file size; XBin stores
//! explicit width and height and ignores flags and font.

use vstd::prelude::*;

use crate::character::{
    decode_flags, encode_flags, flags_byte, set_font_field, spec_aspect_ratio, spec_ice_colors,
    spec_letter_spacing, xbin_fields_encoded, AspectRatio, LetterSpacing,
};
use crate::data_type::SauceDataType;
use crate::errors::SauceError;
use crate::header::{header_meta_unchanged, headers_equal, SauceHeader};

verus! {

/// Which of the two binary text layouts a capability uses.
#[derive(Debug, Clone, Copy, PartialEq, Eq, Structural)]
pub enum BinaryFormat {
    /// BinaryText: width encoded in the file type byte.
    BinaryText,
    /// XBin: explicit width and height in the numeric fields.
    XBin,
}

impl BinaryFormat {
    /// The layout a discriminator selects; only BinaryText and XBin have
    /// one.
    pub fn from_data_type(dt: SauceDataType) -> (r: Result<Self, SauceError>)
        ensures
            (match r {
                Ok(f) => (dt == SauceDataType::BinaryText && f == BinaryFormat::BinaryText) || (
                dt == SauceDataType::XBin && f == BinaryFormat::XBin),
                Err(e) => dt != SauceDataType::BinaryText && dt != SauceDataType::XBin && e
                    == SauceError::UnsupportedDataType(dt),
            }),
    {
        match dt {
            SauceDataType::BinaryText => Ok(BinaryFormat::BinaryText),
            SauceDataType::XBin => Ok(BinaryFormat::XBin),
            _ => Err(SauceError::UnsupportedDataType(dt)),
        }
    }
}

/// Capability view of a BinaryText or XBin record.
#[derive(Debug, Clone)]
pub struct BinaryCapabilities {
    /// Which layout the record uses.
    pub format: BinaryFormat,
    /// Width in characters.
    pub columns: u16,
    /// Height in lines: 0 for BinaryText (derived from the file size),
    /// explicit for XBin.
    pub lines: u16,
    /// Whether ICE colors (16 background colors) are enabled.
    pub ice_colors: bool,
    /// Letter spacing mode.
    pub letter_spacing: LetterSpacing,
    /// Pixel aspect ratio.
    pub aspect_ratio: AspectRatio,
    /// Optional font name, at most 22 bytes; always absent for XBin.
    pub font_opt: Option<Vec<u8>>,
}

/// A width is storable in the BinaryText layout: even, non-zero and at
/// most 510.
pub open spec fn bt_width_ok(w: u16) -> bool {
    w != 0 && w % 2 == 0 && w <= 510
}

/// The capability `c` is exactly what decoding the header `h` gives.
pub open spec fn bin_caps_match(c: BinaryCapabilities, h: SauceHeader) -> bool {
    match h.data_type {
        SauceDataType::BinaryText => {
            &&& c.format == BinaryFormat::BinaryText
            &&& c.columns == h.file_type * 2
            &&& c.lines == 0
            &&& c.ice_colors == spec_ice_colors(h.t_flags)
            &&& c.letter_spacing == spec_letter_spacing(h.t_flags)
            &&& c.aspect_ratio == spec_aspect_ratio(h.t_flags)
            &&& (if h.t_info_s@.len() == 0 {
                c.font_opt is None
            } else {
                c.font_opt matches Some(f) && f@ == h.t_info_s@
            })
        },
        SauceDataType::XBin => {
            &&& c.format == BinaryFormat::XBin
            &&& c.columns == h.t_info1
            &&& c.lines == h.t_info2
            &&& c.ice_colors == false
            &&& c.letter_spacing == LetterSpacing::Legacy
            &&& c.aspect_ratio == AspectRatio::Legacy
            &&& c.font_opt is None
        },
        _ => false,
    }
}

/// The height of a BinaryText record derived from the file size: each
/// row takes two bytes per character. Unknown when the record is not
/// BinaryText, when width or size is zero, or when the quotient does not
/// fit in 16 bits.
pub open spec fn spec_binary_text_height(c: BinaryCapabilities, file_size: u32) -> Option<u16> {
    if c.format != BinaryFormat::BinaryText || c.columns == 0 || file_size == 0 {
        None
    } else {
        let h = file_size as int / (c.columns as int * 2);
        if h == 0 || h > 65535 {
            None
        } else {
            Some(h as u16)
        }
    }
}

impl BinaryCapabilities {
    /// A BinaryText capability with the given width and the defaults: no
    /// ICE colors, legacy spacing and ratio, no font. The width must be
    /// even and in 2–510; the offending width is reported otherwise.
    pub fn binary_text(columns: u16) -> (r: Result<Self, SauceError>)
        ensures
            (match r {
                Ok(c) => {
                    &&& bt_width_ok(columns)
                    &&& c.format == BinaryFormat::BinaryText
                    &&& c.columns == columns
                    &&& c.lines == 0
                    &&& c.ice_colors == false
                    &&& c.letter_spacing == LetterSpacing::Legacy
                    &&& c.aspect_ratio == AspectRatio::Legacy
                    &&& c.font_opt is None
                },
                Err(e) => !bt_width_ok(columns) && e == SauceError::BinFileWidthLimitExceeded(
                    columns as i32,
                ),
            }),
    {
        if columns == 0 || columns % 2 != 0 || columns > 510 {
            return Err(SauceError::BinFileWidthLimitExceeded(columns as i32));
        }
        Ok(
            Self {
                format: BinaryFormat::BinaryText,
                columns,
                lines: 0,
                ice_colors: false,
                letter_spacing: LetterSpacing::Legacy,
                aspect_ratio: AspectRatio::Legacy,
                font_opt: None,
            },
        )
    }

    /// An XBin capability with the given dimensions, which must both be
    /// non-zero.
    pub fn xbin(columns: u16, lines: u16) -> (r: Result<Self, SauceError>)
        ensures
            (match r {
                Ok(c) => {
                    &&& columns != 0 && lines != 0
                    &&& c.format == BinaryFormat::XBin
                    &&& c.columns == columns
                    &&& c.lines == lines
                    &&& c.ice_colors == false
                    &&& c.letter_spacing == LetterSpacing::Legacy
                    &&& c.aspect_ratio == AspectRatio::Legacy
                    &&& c.font_opt is None
                },
                Err(e) => (columns == 0 || lines == 0) && e == SauceError::UnsupportedDataType(
                    SauceDataType::XBin,
                ),
            }),
    {
        if columns == 0 {
            return Err(SauceError::UnsupportedDataType(SauceDataType::XBin));
        }
        if lines == 0 {
            return Err(SauceError::UnsupportedDataType(SauceDataType::XBin));
        }
        Ok(
            Self {
                format: BinaryFormat::XBin,
                columns,
                lines,
                ice_colors: false,
                letter_spacing: LetterSpacing::Legacy,
                aspect_ratio: AspectRatio::Legacy,
                font_opt: None,
            },
        )
    }

    /// A reference to the optional font name.
    pub fn font(&self) -> (r: Option<&Vec<u8>>)
        ensures
            (match (r, self.font_opt) {
                (Some(a), Some(b)) => a@ == b@,
                (None, None) => true,
                _ => false,
            }),
    {
        match &self.font_opt {
            Some(f) => Some(f),
            None => None,
        }
    }

    /// Set the font name; an empty name clears it, a name over 22 bytes
    /// is rejected and leaves the capability unchanged.
    pub fn set_font(&mut self, font: Vec<u8>) -> (r: Result<(), SauceError>)
        ensures
            (match r {
                Ok(()) => {
                    &&& font@.len() <= 22
                    &&& (if font@.len() == 0 {
                        final(self).font_opt is None
                    } else {
                        final(self).font_opt matches Some(f) && f@ == font@
                    })
                },
                Err(e) => font@.len() > 22 && (e matches SauceError::FontNameTooLong(l) && l
                    == font@.len()) && final(self).font_opt == old(self).font_opt,
            }),
            final(self).format == old(self).format,
            final(self).columns == old(self).columns,
            final(self).lines == old(self).lines,
            final(self).ice_colors == old(self).ice_colors,
            final(self).letter_spacing == old(self).letter_spacing,
            final(self).aspect_ratio == old(self).aspect_ratio,
    {
        if font.len() > 22 {
            return Err(SauceError::FontNameTooLong(font.len()));
        }
        if font.is_empty() {
            self.font_opt = None;
            return Ok(());
        }
        self.font_opt = Some(font);
        Ok(())
    }

    /// Clear the font name.
    pub fn remove_font(&mut self)
        ensures
            final(self).font_opt is None,
            final(self).format == old(self).format,
            final(self).columns == old(self).columns,
            final(self).lines == old(self).lines,
            final(self).ice_colors == old(self).ice_colors,
            final(self).letter_spacing == old(self).letter_spacing,
            final(self).aspect_ratio == old(self).aspect_ratio,
    {
        self.font_opt = None;
    }

    /// Decode the binary capability of a header; fails when the header's
    /// discriminator is neither BinaryText nor XBin, or when a BinaryText
    /// header stores a zero width.
    pub(crate) fn from_header(header: &SauceHeader) -> (r: Result<Self, SauceError>)
        ensures
            (match r {
                Ok(c) => bin_caps_match(c, *header) && (header.data_type
                    == SauceDataType::BinaryText ==> header.file_type != 0),
                Err(e) => (match header.data_type {
                    SauceDataType::BinaryText => header.file_type == 0 && e
                        == SauceError::BinFileWidthLimitExceeded(0),
                    SauceDataType::XBin => false,
                    dt => e == SauceError::UnsupportedDataType(dt),
                }),
            }),
    {
        match header.data_type {
            SauceDataType::BinaryText => {
                let width: u16 = header.file_type as u16 * 2;
                if width == 0 {
                    return Err(SauceError::BinFileWidthLimitExceeded(0));
                }
                let (ice_colors, letter_spacing, aspect_ratio) = decode_flags(header.t_flags);
                let font_opt = if header.t_info_s.is_empty() {
                    None
                } else {
                    let mut font: Vec<u8> = Vec::new();
                    crate::header::append_bytes(&mut font, &header.t_info_s);
                    proof {
                        assert(font@ =~= header.t_info_s@);
                    }
                    Some(font)
                };
                Ok(
                    Self {
                        format: BinaryFormat::BinaryText,
                        columns: width,
                        lines: 0,
                        ice_colors,
                        letter_spacing,
                        aspect_ratio,
                        font_opt,
                    },
                )
            },
            SauceDataType::XBin => Ok(
                Self {
                    format: BinaryFormat::XBin,
                    columns: header.t_info1,
                    lines: header.t_info2,
                    ice_colors: false,
                    letter_spacing: LetterSpacing::Legacy,
                    aspect_ratio: AspectRatio::Legacy,
                    font_opt: None,
                },
            ),
            _ => Err(SauceError::UnsupportedDataType(header.data_type)),
        }
    }

    /// Write this capability into a header. A BinaryText capability sets
    /// the discriminator to BinaryText, encodes the width in the file
    /// type byte and keeps all three rendering settings in the flags; an
    /// XBin capability sets the discriminator to XBin and stores only the
    /// dimensions. The descriptive metadata of the header is untouched.
    pub fn encode_into_header(&self, header: &mut SauceHeader) -> (r: Result<(), SauceError>)
        ensures
            header_meta_unchanged(*old(header), *final(header)),
            (match r {
                Ok(()) => (match self.format {
                    BinaryFormat::BinaryText => {
                        &&& bt_width_ok(self.columns)
                        &&& final(header).data_type == SauceDataType::BinaryText
                        &&& final(header).file_type == self.columns / 2
                        &&& final(header).t_info1 == 0
                        &&& final(header).t_info2 == 0
                        &&& final(header).t_info3 == 0
                        &&& final(header).t_info4 == 0
                        &&& final(header).t_flags == flags_byte(
                            self.ice_colors,
                            self.letter_spacing,
                            self.aspect_ratio,
                        )
                        &&& final(header).t_info_s@ == (match self.font_opt {
                            Some(f) => f@,
                            None => Seq::<u8>::empty(),
                        })
                    },
                    BinaryFormat::XBin => {
                        &&& final(header).data_type == SauceDataType::XBin
                        &&& xbin_fields_encoded(self.columns, self.lines, *final(header))
                    },
                }),
                Err(e) => {
                    &&& headers_equal(*old(header), *final(header))
                    &&& self.format == BinaryFormat::BinaryText
                    &&& !bt_width_ok(self.columns)
                    &&& e == SauceError::BinFileWidthLimitExceeded(self.columns as i32)
                },
            }),
    {
        match self.format {
            BinaryFormat::BinaryText => {
                if self.columns == 0 || self.columns % 2 != 0 || self.columns > 510 {
                    return Err(SauceError::BinFileWidthLimitExceeded(self.columns as i32));
                }
                header.data_type = SauceDataType::BinaryText;
                header.file_type = (self.columns / 2) as u8;
                header.t_info1 = 0;
                header.t_info2 = 0;
                header.t_info3 = 0;
                header.t_info4 = 0;
                header.t_flags = encode_flags(
                    self.ice_colors,
                    self.letter_spacing,
                    self.aspect_ratio,
                );
                set_font_field(&mut header.t_info_s, &self.font_opt);
            },
            BinaryFormat::XBin => {
                header.data_type = SauceDataType::XBin;
                header.file_type = 0;
                header.t_info1 = self.columns;
                header.t_info2 = self.lines;
                header.t_info3 = 0;
                header.t_info4 = 0;
                header.t_flags = 0;
                header.t_info_s.clear();
            },
        }
        Ok(())
    }

    /// The height of a BinaryText record, derived from the stored file
    /// size at two bytes per character cell. `None` for XBin, for a zero
    /// width or size, and when the result would not fit in 16 bits.
    pub fn binary_text_height_from_file_size(&self, file_size: u32) -> (r: Option<u16>)
        ensures
            r == spec_binary_text_height(*self, file_size),
    {
        if !matches!(self.format, BinaryFormat::BinaryText) {
            return None;
        }
        if self.columns == 0 || file_size == 0 {
            return None;
        }
        let bytes_per_row: u32 = self.columns as u32 * 2;
        let h: u32 = file_size / bytes_per_row;
        if h == 0 || h > 65535 {
            None
        } else {
            Some(h as u16)
        }
    }
}

} // verus!
