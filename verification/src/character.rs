//! Capability view for character-based files: the sub-format code, the
//! character grid dimensions, and — for the ANSI family — the rendering
//! flags (ICE colors, letter spacing, aspect ratio) and an optional font
//! name stored in the info string.

use vstd::prelude::*;

use crate::data_type::SauceDataType;
use crate::errors::SauceError;
use crate::header::{header_meta_unchanged, headers_equal, SauceHeader};

verus! {

/// Bit 0 of the flags byte: ICE colors (non-blink mode).
pub const ANSI_FLAG_NON_BLINK_MODE: u8 = 0b0000_0001;

/// Bits 1–2 of the flags byte: letter spacing.
pub const ANSI_MASK_LETTER_SPACING: u8 = 0b0000_0110;

/// Letter spacing value: legacy.
pub const ANSI_LETTER_SPACING_LEGACY: u8 = 0b0000_0000;

/// Letter spacing value: eight pixel font.
pub const ANSI_LETTER_SPACING_8PX: u8 = 0b0000_0010;

/// Letter spacing value: nine pixel font.
pub const ANSI_LETTER_SPACING_9PX: u8 = 0b0000_0100;

/// Bits 3–4 of the flags byte: aspect ratio.
pub const ANSI_MASK_ASPECT_RATIO: u8 = 0b0001_1000;

/// Aspect ratio value: legacy.
pub const ANSI_ASPECT_RATIO_LEGACY: u8 = 0b0000_0000;

/// Aspect ratio value: legacy device, needs vertical stretching.
pub const ANSI_ASPECT_RATIO_STRETCH: u8 = 0b0000_1000;

/// Aspect ratio value: square pixels.
pub const ANSI_ASPECT_RATIO_SQUARE: u8 = 0b0001_0000;

/// Character sub-format, stored in the file type byte of the header.
#[derive(Debug, Clone, Copy, PartialEq, Eq, Structural)]
pub enum CharacterFormat {
    /// Plain ASCII text (type code 0).
    Ascii,
    /// ANSI escape sequence art (type code 1).
    Ansi,
    /// ANSI with animation timing (type code 2).
    AnsiMation,
    /// Remote Imaging Protocol, pixel based (type code 3).
    RipScript,
    /// PCBoard BBS format (type code 4).
    PCBoard,
    /// Avatar graphics format (type code 5).
    Avatar,
    /// Hypertext Markup Language (type code 6).
    Html,
    /// Generic source code (type code 7).
    Source,
    /// TundraDraw format (type code 8).
    TundraDraw,
    /// Any other type code, preserved as it stands.
    Unknown(u8),
}

/// The sub-format a file type byte selects.
pub open spec fn char_format_of_byte(b: u8) -> CharacterFormat {
    if b == 0 {
        CharacterFormat::Ascii
    } else if b == 1 {
        CharacterFormat::Ansi
    } else if b == 2 {
        CharacterFormat::AnsiMation
    } else if b == 3 {
        CharacterFormat::RipScript
    } else if b == 4 {
        CharacterFormat::PCBoard
    } else if b == 5 {
        CharacterFormat::Avatar
    } else if b == 6 {
        CharacterFormat::Html
    } else if b == 7 {
        CharacterFormat::Source
    } else if b == 8 {
        CharacterFormat::TundraDraw
    } else {
        CharacterFormat::Unknown(b)
    }
}

/// The file type byte a sub-format is written as.
pub open spec fn byte_of_char_format(f: CharacterFormat) -> u8 {
    match f {
        CharacterFormat::Ascii => 0,
        CharacterFormat::Ansi => 1,
        CharacterFormat::AnsiMation => 2,
        CharacterFormat::RipScript => 3,
        CharacterFormat::PCBoard => 4,
        CharacterFormat::Avatar => 5,
        CharacterFormat::Html => 6,
        CharacterFormat::Source => 7,
        CharacterFormat::TundraDraw => 8,
        CharacterFormat::Unknown(b) => b,
    }
}

/// The formats whose flags byte and font name are meaningful.
pub open spec fn spec_supports_ansi_flags(f: CharacterFormat) -> bool {
    f is Ascii || f is Ansi || f is AnsiMation
}

/// The formats that store a character grid size in the two numeric fields.
pub open spec fn spec_has_dimensions(f: CharacterFormat) -> bool {
    f is Ascii || f is Ansi || f is AnsiMation || f is PCBoard || f is Avatar || f is TundraDraw
}

impl CharacterFormat {
    /// Read a sub-format from its file type byte; unknown codes are kept.
    pub fn from_sauce(file_type: u8) -> (r: Self)
        ensures
            r == char_format_of_byte(file_type),
    {
        match file_type {
            0 => CharacterFormat::Ascii,
            1 => CharacterFormat::Ansi,
            2 => CharacterFormat::AnsiMation,
            3 => CharacterFormat::RipScript,
            4 => CharacterFormat::PCBoard,
            5 => CharacterFormat::Avatar,
            6 => CharacterFormat::Html,
            7 => CharacterFormat::Source,
            8 => CharacterFormat::TundraDraw,
            _ => CharacterFormat::Unknown(file_type),
        }
    }

    /// The file type byte of this sub-format.
    pub fn to_sauce(&self) -> (r: u8)
        ensures
            r == byte_of_char_format(*self),
    {
        match self {
            CharacterFormat::Ascii => 0,
            CharacterFormat::Ansi => 1,
            CharacterFormat::AnsiMation => 2,
            CharacterFormat::RipScript => 3,
            CharacterFormat::PCBoard => 4,
            CharacterFormat::Avatar => 5,
            CharacterFormat::Html => 6,
            CharacterFormat::Source => 7,
            CharacterFormat::TundraDraw => 8,
            CharacterFormat::Unknown(ft) => *ft,
        }
    }

    /// Whether the flags byte (ICE colors, spacing, aspect ratio) and the
    /// font name apply to this sub-format.
    pub fn supports_ansi_flags(&self) -> (r: bool)
        ensures
            r == spec_supports_ansi_flags(*self),
    {
        matches!(
            self,
            CharacterFormat::Ascii | CharacterFormat::Ansi | CharacterFormat::AnsiMation
        )
    }

    /// Whether this sub-format stores a character grid size.
    pub fn has_dimensions(&self) -> (r: bool)
        ensures
            r == spec_has_dimensions(*self),
    {
        matches!(
            self,
            CharacterFormat::Ascii
                | CharacterFormat::Ansi
                | CharacterFormat::AnsiMation
                | CharacterFormat::PCBoard
                | CharacterFormat::Avatar
                | CharacterFormat::TundraDraw
        )
    }

    /// Whether this sub-format is a stream with variable height.
    pub fn is_stream(&self) -> (r: bool)
        ensures
            r == (*self is Ascii || *self is Ansi || *self is PCBoard || *self is Avatar
                || *self is TundraDraw),
    {
        matches!(
            self,
            CharacterFormat::Ascii
                | CharacterFormat::Ansi
                | CharacterFormat::PCBoard
                | CharacterFormat::Avatar
                | CharacterFormat::TundraDraw
        )
    }

    /// Whether this sub-format is an animation with fixed dimensions.
    pub fn is_animation(&self) -> (r: bool)
        ensures
            r == (*self is AnsiMation),
    {
        matches!(self, CharacterFormat::AnsiMation)
    }
}

/// Letter spacing mode, stored in bits 1–2 of the flags byte.
#[derive(Debug, Clone, Copy, PartialEq, Eq, Structural)]
pub enum LetterSpacing {
    /// Legacy, unspecified spacing (bit value 0).
    Legacy,
    /// Eight pixel character width (bit value 1).
    EightPixel,
    /// Nine pixel character width (bit value 2).
    NinePixel,
    /// Reserved bit combination (bit value 3).
    Reserved,
}

impl LetterSpacing {
    /// True only for the nine-pixel mode.
    pub fn use_letter_spacing(self) -> (r: bool)
        ensures
            r == (self is NinePixel),
    {
        matches!(self, LetterSpacing::NinePixel)
    }
}

/// Pixel aspect ratio, stored in bits 3–4 of the flags byte.
#[derive(Debug, Clone, Copy, PartialEq, Eq, Structural)]
pub enum AspectRatio {
    /// Legacy, unspecified ratio (bit value 0).
    Legacy,
    /// Legacy device ratio that needs vertical stretching (bit value 1).
    LegacyDevice,
    /// Square pixels (bit value 2).
    Square,
    /// Reserved bit combination (bit value 3).
    Reserved,
}

impl AspectRatio {
    /// True only for the legacy device ratio that needs stretching.
    pub fn use_aspect_ratio(self) -> (r: bool)
        ensures
            r == (self is LegacyDevice),
    {
        matches!(self, AspectRatio::LegacyDevice)
    }
}

/// The ICE colors bit of a flags byte.
pub open spec fn spec_ice_colors(flags: u8) -> bool {
    flags & ANSI_FLAG_NON_BLINK_MODE == ANSI_FLAG_NON_BLINK_MODE
}

/// The letter spacing a flags byte selects.
pub open spec fn spec_letter_spacing(flags: u8) -> LetterSpacing {
    if flags & ANSI_MASK_LETTER_SPACING == ANSI_LETTER_SPACING_LEGACY {
        LetterSpacing::Legacy
    } else if flags & ANSI_MASK_LETTER_SPACING == ANSI_LETTER_SPACING_8PX {
        LetterSpacing::EightPixel
    } else if flags & ANSI_MASK_LETTER_SPACING == ANSI_LETTER_SPACING_9PX {
        LetterSpacing::NinePixel
    } else {
        LetterSpacing::Reserved
    }
}

/// The aspect ratio a flags byte selects.
pub open spec fn spec_aspect_ratio(flags: u8) -> AspectRatio {
    if flags & ANSI_MASK_ASPECT_RATIO == ANSI_ASPECT_RATIO_LEGACY {
        AspectRatio::Legacy
    } else if flags & ANSI_MASK_ASPECT_RATIO == ANSI_ASPECT_RATIO_STRETCH {
        AspectRatio::LegacyDevice
    } else if flags & ANSI_MASK_ASPECT_RATIO == ANSI_ASPECT_RATIO_SQUARE {
        AspectRatio::Square
    } else {
        AspectRatio::Reserved
    }
}

/// The bits a letter spacing writes; the reserved combination falls back
/// to legacy.
pub open spec fn letter_spacing_bits(ls: LetterSpacing) -> u8 {
    match ls {
        LetterSpacing::Legacy => ANSI_LETTER_SPACING_LEGACY,
        LetterSpacing::EightPixel => ANSI_LETTER_SPACING_8PX,
        LetterSpacing::NinePixel => ANSI_LETTER_SPACING_9PX,
        LetterSpacing::Reserved => ANSI_LETTER_SPACING_LEGACY,
    }
}

/// The bits an aspect ratio writes; the reserved combination falls back
/// to legacy.
pub open spec fn aspect_ratio_bits(ar: AspectRatio) -> u8 {
    match ar {
        AspectRatio::Legacy => ANSI_ASPECT_RATIO_LEGACY,
        AspectRatio::LegacyDevice => ANSI_ASPECT_RATIO_STRETCH,
        AspectRatio::Square => ANSI_ASPECT_RATIO_SQUARE,
        AspectRatio::Reserved => ANSI_ASPECT_RATIO_LEGACY,
    }
}

/// The full flags byte written for an ANSI-family format.
pub open spec fn flags_byte(ice: bool, ls: LetterSpacing, ar: AspectRatio) -> u8 {
    (if ice {
        ANSI_FLAG_NON_BLINK_MODE
    } else {
        0
    }) | letter_spacing_bits(ls) | aspect_ratio_bits(ar)
}

/// Read the three rendering settings out of a flags byte.
pub(crate) fn decode_flags(flags: u8) -> (r: (bool, LetterSpacing, AspectRatio))
    ensures
        r.0 == spec_ice_colors(flags),
        r.1 == spec_letter_spacing(flags),
        r.2 == spec_aspect_ratio(flags),
{
    let ice = (flags & ANSI_FLAG_NON_BLINK_MODE) == ANSI_FLAG_NON_BLINK_MODE;
    let ls_bits = flags & ANSI_MASK_LETTER_SPACING;
    let ls = if ls_bits == ANSI_LETTER_SPACING_LEGACY {
        LetterSpacing::Legacy
    } else if ls_bits == ANSI_LETTER_SPACING_8PX {
        LetterSpacing::EightPixel
    } else if ls_bits == ANSI_LETTER_SPACING_9PX {
        LetterSpacing::NinePixel
    } else {
        LetterSpacing::Reserved
    };
    let ar_bits = flags & ANSI_MASK_ASPECT_RATIO;
    let ar = if ar_bits == ANSI_ASPECT_RATIO_LEGACY {
        AspectRatio::Legacy
    } else if ar_bits == ANSI_ASPECT_RATIO_STRETCH {
        AspectRatio::LegacyDevice
    } else if ar_bits == ANSI_ASPECT_RATIO_SQUARE {
        AspectRatio::Square
    } else {
        AspectRatio::Reserved
    };
    (ice, ls, ar)
}

/// Build the flags byte from the three rendering settings.
pub(crate) fn encode_flags(ice: bool, ls: LetterSpacing, ar: AspectRatio) -> (r: u8)
    ensures
        r == flags_byte(ice, ls, ar),
{
    let ice_bit: u8 = if ice {
        ANSI_FLAG_NON_BLINK_MODE
    } else {
        0
    };
    let ls_bits: u8 = match ls {
        LetterSpacing::Legacy => ANSI_LETTER_SPACING_LEGACY,
        LetterSpacing::EightPixel => ANSI_LETTER_SPACING_8PX,
        LetterSpacing::NinePixel => ANSI_LETTER_SPACING_9PX,
        LetterSpacing::Reserved => ANSI_LETTER_SPACING_LEGACY,
    };
    let ar_bits: u8 = match ar {
        AspectRatio::Legacy => ANSI_ASPECT_RATIO_LEGACY,
        AspectRatio::LegacyDevice => ANSI_ASPECT_RATIO_STRETCH,
        AspectRatio::Square => ANSI_ASPECT_RATIO_SQUARE,
        AspectRatio::Reserved => ANSI_ASPECT_RATIO_LEGACY,
    };
    ice_bit | ls_bits | ar_bits
}

/// Reading a written flags byte gives back the settings it was built
/// from, as long as neither reserved combination was asked for.
pub proof fn lemma_flags_roundtrip(ice: bool, ls: LetterSpacing, ar: AspectRatio)
    requires
        ls != LetterSpacing::Reserved,
        ar != AspectRatio::Reserved,
    ensures
        spec_ice_colors(flags_byte(ice, ls, ar)) == ice,
        spec_letter_spacing(flags_byte(ice, ls, ar)) == ls,
        spec_aspect_ratio(flags_byte(ice, ls, ar)) == ar,
{
    let x: u8 = if ice {
        1
    } else {
        0
    };
    let y: u8 = letter_spacing_bits(ls);
    let z: u8 = aspect_ratio_bits(ar);
    assert((x | y | z) & 1 == x && (x | y | z) & 6 == y && (x | y | z) & 24 == z) by (bit_vector)
        requires
            x == 0 || x == 1,
            y == 0 || y == 2 || y == 4,
            z == 0 || z == 8 || z == 16,
    ;
}

/// Capability view of a character-based record.
#[derive(Debug, Clone)]
pub struct CharacterCapabilities {
    /// The character encoding format.
    pub format: CharacterFormat,
    /// Width in characters.
    pub columns: u16,
    /// Height in characters.
    pub lines: u16,
    /// Whether ICE colors (16 background colors) are enabled.
    pub ice_colors: bool,
    /// Letter spacing mode.
    pub letter_spacing: LetterSpacing,
    /// Pixel aspect ratio.
    pub aspect_ratio: AspectRatio,
    /// Optional font name, at most 22 bytes.
    pub font_opt: Option<Vec<u8>>,
}

/// The capability `c` is exactly what decoding the header `h` (whose
/// discriminator is Character) gives.
pub open spec fn char_caps_match(c: CharacterCapabilities, h: SauceHeader) -> bool {
    let f = char_format_of_byte(h.file_type);
    &&& c.format == f
    &&& if spec_supports_ansi_flags(f) {
        &&& c.columns == h.t_info1
        &&& c.lines == h.t_info2
        &&& c.ice_colors == spec_ice_colors(h.t_flags)
        &&& c.letter_spacing == spec_letter_spacing(h.t_flags)
        &&& c.aspect_ratio == spec_aspect_ratio(h.t_flags)
        &&& (c.font_opt matches Some(fo) && fo@ == h.t_info_s@)
    } else {
        &&& (if f is RipScript {
            c.columns == 80 && c.lines == 25
        } else if spec_has_dimensions(f) {
            c.columns == h.t_info1 && c.lines == h.t_info2
        } else {
            c.columns == 0 && c.lines == 0
        })
        &&& c.ice_colors == false
        &&& c.letter_spacing == LetterSpacing::Legacy
        &&& c.aspect_ratio == AspectRatio::Legacy
        &&& c.font_opt is None
    }
}

/// The capability fields a character encoder writes into a header, given
/// that the header's discriminator is Character.
pub open spec fn char_fields_encoded(c: CharacterCapabilities, h: SauceHeader) -> bool {
    &&& h.file_type == byte_of_char_format(c.format)
    &&& match c.format {
        CharacterFormat::Ascii | CharacterFormat::Ansi | CharacterFormat::AnsiMation => {
            &&& h.t_info1 == c.columns
            &&& h.t_info2 == c.lines
            &&& h.t_info3 == 0
            &&& h.t_info4 == 0
            &&& h.t_flags == flags_byte(c.ice_colors, c.letter_spacing, c.aspect_ratio)
            &&& h.t_info_s@ == (match c.font_opt {
                Some(fo) => fo@,
                None => Seq::<u8>::empty(),
            })
        },
        CharacterFormat::RipScript => {
            &&& h.t_info1 == 640
            &&& h.t_info2 == 350
            &&& h.t_info3 == 16
            &&& h.t_info4 == 0
            &&& h.t_flags == 0
            &&& h.t_info_s@ == Seq::<u8>::empty()
        },
        CharacterFormat::Html | CharacterFormat::Source => {
            &&& h.t_info1 == 0
            &&& h.t_info2 == 0
            &&& h.t_info3 == 0
            &&& h.t_info4 == 0
            &&& h.t_flags == 0
            &&& h.t_info_s@ == Seq::<u8>::empty()
        },
        _ => {
            &&& h.t_info1 == c.columns
            &&& h.t_info2 == c.lines
            &&& h.t_info3 == 0
            &&& h.t_info4 == 0
            &&& h.t_flags == 0
            &&& h.t_info_s@ == Seq::<u8>::empty()
        },
    }
}

/// A BinaryText width is storable: even, non-zero and at most 510.
pub open spec fn binary_text_width_ok(w: u16) -> bool {
    w != 0 && w % 2 == 0 && w <= 510
}

/// The capability fields written for a BinaryText header by the character
/// encoder: width in the file type byte, the ICE bit alone in the flags.
pub open spec fn char_bt_fields_encoded(c: CharacterCapabilities, h: SauceHeader) -> bool {
    &&& h.file_type == c.columns / 2
    &&& h.t_info1 == 0
    &&& h.t_info2 == 0
    &&& h.t_info3 == 0
    &&& h.t_info4 == 0
    &&& h.t_flags == (if c.ice_colors {
        ANSI_FLAG_NON_BLINK_MODE as u8
    } else {
        0u8
    })
    &&& h.t_info_s@ == (match c.font_opt {
        Some(fo) => fo@,
        None => Seq::<u8>::empty(),
    })
}

/// The capability fields written for an XBin header: explicit dimensions,
/// no type code, no flags, no font.
pub open spec fn xbin_fields_encoded(columns: u16, lines: u16, h: SauceHeader) -> bool {
    &&& h.file_type == 0
    &&& h.t_info1 == columns
    &&& h.t_info2 == lines
    &&& h.t_info3 == 0
    &&& h.t_info4 == 0
    &&& h.t_flags == 0
    &&& h.t_info_s@ == Seq::<u8>::empty()
}

impl CharacterCapabilities {
    /// A capability with the given format and the defaults: an 80 by 25
    /// grid, no ICE colors, legacy spacing and ratio, no font.
    pub fn new(character_format: CharacterFormat) -> (r: Self)
        ensures
            r.format == character_format,
            r.columns == 80,
            r.lines == 25,
            r.ice_colors == false,
            r.letter_spacing == LetterSpacing::Legacy,
            r.aspect_ratio == AspectRatio::Legacy,
            r.font_opt is None,
    {
        CharacterCapabilities {
            format: character_format,
            columns: 80,
            lines: 25,
            ice_colors: false,
            letter_spacing: LetterSpacing::Legacy,
            aspect_ratio: AspectRatio::Legacy,
            font_opt: None,
        }
    }

    /// A capability with every field given; fails only when the font name
    /// exceeds 22 bytes.
    pub fn with_font(
        format: CharacterFormat,
        columns: u16,
        lines: u16,
        ice_colors: bool,
        letter_spacing: LetterSpacing,
        aspect_ratio: AspectRatio,
        font: Option<Vec<u8>>,
    ) -> (r: Result<Self, SauceError>)
        ensures
            (match r {
                Ok(c) => {
                    &&& (font matches Some(f) ==> f@.len() <= 22)
                    &&& c.format == format
                    &&& c.columns == columns
                    &&& c.lines == lines
                    &&& c.ice_colors == ice_colors
                    &&& c.letter_spacing == letter_spacing
                    &&& c.aspect_ratio == aspect_ratio
                    &&& (match (c.font_opt, font) {
                        (Some(cf), Some(f)) => cf@ == f@,
                        (None, None) => true,
                        _ => false,
                    })
                },
                Err(e) => (font matches Some(f) && f@.len() > 22 && (
                e matches SauceError::FontNameTooLong(l) && l == f@.len())),
            }),
    {
        if let Some(ref f) = font {
            if f.len() > 22 {
                return Err(SauceError::FontNameTooLong(f.len()));
            }
        }
        Ok(
            CharacterCapabilities {
                format,
                columns,
                lines,
                ice_colors,
                letter_spacing,
                aspect_ratio,
                font_opt: font,
            },
        )
    }

    /// Decode the character capability of a header; fails when the
    /// header's discriminator is not Character.
    pub(crate) fn from_header(header: &SauceHeader) -> (r: Result<Self, SauceError>)
        ensures
            (match r {
                Ok(c) => header.data_type == SauceDataType::Character && char_caps_match(
                    c,
                    *header,
                ),
                Err(e) => header.data_type != SauceDataType::Character && e
                    == SauceError::UnsupportedDataType(header.data_type),
            }),
    {
        if !matches!(header.data_type, SauceDataType::Character) {
            return Err(SauceError::UnsupportedDataType(header.data_type));
        }
        let format = CharacterFormat::from_sauce(header.file_type);
        if format.supports_ansi_flags() {
            let (ice_colors, letter_spacing, aspect_ratio) = decode_flags(header.t_flags);
            let mut font: Vec<u8> = Vec::new();
            crate::header::append_bytes(&mut font, &header.t_info_s);
            proof {
                assert(font@ =~= header.t_info_s@);
            }
            Ok(
                CharacterCapabilities {
                    format,
                    columns: header.t_info1,
                    lines: header.t_info2,
                    ice_colors,
                    letter_spacing,
                    aspect_ratio,
                    font_opt: Some(font),
                },
            )
        } else {
            let mut c = CharacterCapabilities::new(format);
            if matches!(format, CharacterFormat::RipScript) {
                c.columns = 80;
                c.lines = 25;
            } else if format.has_dimensions() {
                c.columns = header.t_info1;
                c.lines = header.t_info2;
            } else {
                c.columns = 0;
                c.lines = 0;
            }
            Ok(c)
        }
    }

    /// A reference to the optional font name.
    pub fn font(&self) -> (r: Option<&Vec<u8>>)
        ensures
            (match (r, self.font_opt) {
                (Some(a), Some(b)) => a@ == b@,
                (None, None) => true,
                _ => false,
            }),
    {
        match &self.font_opt {
            Some(f) => Some(f),
            None => None,
        }
    }

    /// Set the font name; an empty name clears it, a name over 22 bytes
    /// is rejected and leaves the capability unchanged.
    pub fn set_font(&mut self, font: Vec<u8>) -> (r: Result<(), SauceError>)
        ensures
            (match r {
                Ok(()) => {
                    &&& font@.len() <= 22
                    &&& (if font@.len() == 0 {
                        final(self).font_opt is None
                    } else {
                        final(self).font_opt matches Some(f) && f@ == font@
                    })
                },
                Err(e) => font@.len() > 22 && (e matches SauceError::FontNameTooLong(l) && l
                    == font@.len()) && final(self).font_opt == old(self).font_opt,
            }),
            final(self).format == old(self).format,
            final(self).columns == old(self).columns,
            final(self).lines == old(self).lines,
            final(self).ice_colors == old(self).ice_colors,
            final(self).letter_spacing == old(self).letter_spacing,
            final(self).aspect_ratio == old(self).aspect_ratio,
    {
        if font.len() > 22 {
            return Err(SauceError::FontNameTooLong(font.len()));
        }
        if font.is_empty() {
            self.font_opt = None;
            return Ok(());
        }
        self.font_opt = Some(font);
        Ok(())
    }

    /// Clear the font name.
    pub fn remove_font(&mut self)
        ensures
            final(self).font_opt is None,
            final(self).format == old(self).format,
            final(self).columns == old(self).columns,
            final(self).lines == old(self).lines,
            final(self).ice_colors == old(self).ice_colors,
            final(self).letter_spacing == old(self).letter_spacing,
            final(self).aspect_ratio == old(self).aspect_ratio,
    {
        self.font_opt = None;
    }

    /// Write this capability into a header, interpreting it according to
    /// the header's current discriminator (Character, BinaryText or
    /// XBin). The fields the selected category leaves unused are forced
    /// to zero; the descriptive metadata of the header is untouched.
    pub(crate) fn encode_into_header(&self, header: &mut SauceHeader) -> (r: Result<
        (),
        SauceError,
    >)
        ensures
            header_meta_unchanged(*old(header), *final(header)),
            final(header).data_type == old(header).data_type,
            (match r {
                Ok(()) => (match old(header).data_type {
                    SauceDataType::BinaryText => binary_text_width_ok(self.columns)
                        && char_bt_fields_encoded(*self, *final(header)),
                    SauceDataType::XBin => xbin_fields_encoded(
                        self.columns,
                        self.lines,
                        *final(header),
                    ),
                    SauceDataType::Character => char_fields_encoded(*self, *final(header)),
                    _ => false,
                }),
                Err(e) => headers_equal(*old(header), *final(header)) && (match old(
                    header,
                ).data_type {
                    SauceDataType::BinaryText => !binary_text_width_ok(self.columns) && e
                        == SauceError::BinFileWidthLimitExceeded(self.columns as i32),
                    SauceDataType::XBin => false,
                    SauceDataType::Character => false,
                    dt => e == SauceError::UnsupportedDataType(dt),
                }),
            }),
    {
        match header.data_type {
            SauceDataType::BinaryText => {
                if self.columns == 0 || self.columns % 2 != 0 || self.columns > 510 {
                    return Err(SauceError::BinFileWidthLimitExceeded(self.columns as i32));
                }
                header.file_type = (self.columns / 2) as u8;
                header.t_info1 = 0;
                header.t_info2 = 0;
                header.t_info3 = 0;
                header.t_info4 = 0;
                header.t_flags = if self.ice_colors {
                    ANSI_FLAG_NON_BLINK_MODE
                } else {
                    0
                };
                set_font_field(&mut header.t_info_s, &self.font_opt);
            },
            SauceDataType::XBin => {
                header.file_type = 0;
                header.t_info1 = self.columns;
                header.t_info2 = self.lines;
                header.t_info3 = 0;
                header.t_info4 = 0;
                header.t_flags = 0;
                header.t_info_s.clear();
            },
            SauceDataType::Character => {
                header.file_type = self.format.to_sauce();
                match self.format {
                    CharacterFormat::Ascii | CharacterFormat::Ansi | CharacterFormat::AnsiMation
                    => {
                        header.t_info1 = self.columns;
                        header.t_info2 = self.lines;
                        header.t_info3 = 0;
                        header.t_info4 = 0;
                        header.t_flags = encode_flags(
                            self.ice_colors,
                            self.letter_spacing,
                            self.aspect_ratio,
                        );
                        set_font_field(&mut header.t_info_s, &self.font_opt);
                    },
                    CharacterFormat::RipScript => {
                        header.t_info1 = 640;
                        header.t_info2 = 350;
                        header.t_info3 = 16;
                        header.t_info4 = 0;
                        header.t_flags = 0;
                        header.t_info_s.clear();
                    },
                    CharacterFormat::Html | CharacterFormat::Source => {
                        header.t_info1 = 0;
                        header.t_info2 = 0;
                        header.t_info3 = 0;
                        header.t_info4 = 0;
                        header.t_flags = 0;
                        header.t_info_s.clear();
                    },
                    CharacterFormat::PCBoard | CharacterFormat::Avatar
                    | CharacterFormat::TundraDraw => {
                        header.t_info1 = self.columns;
                        header.t_info2 = self.lines;
                        header.t_info3 = 0;
                        header.t_info4 = 0;
                        header.t_flags = 0;
                        header.t_info_s.clear();
                    },
                    CharacterFormat::Unknown(_) => {
                        header.t_info1 = self.columns;
                        header.t_info2 = self.lines;
                        header.t_info3 = 0;
                        header.t_info4 = 0;
                        header.t_flags = 0;
                        header.t_info_s.clear();
                    },
                }
            },
            _ => {
                return Err(SauceError::UnsupportedDataType(header.data_type));
            },
        }
        Ok(())
    }
}

/// Replace `dst` with the bytes of the optional font name, or empty it.
pub(crate) fn set_font_field(dst: &mut Vec<u8>, font: &Option<Vec<u8>>)
    ensures
        final(dst)@ == (match font {
            Some(fo) => fo@,
            None => Seq::<u8>::empty(),
        }),
{
    dst.clear();
    match font {
        Some(f) => {
            crate::header::append_bytes(dst, f);
            proof {
                assert(dst@ =~= f@);
            }
        },
        None => {},
    }
}

} // verus!
