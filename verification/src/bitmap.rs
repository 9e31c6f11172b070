//! Capability view for bitmap graphics files: the sub-format, the pixel
//! dimensions and the color depth. The RIPScript combination (a Character
//! record with file type 3) is logically a fixed-size bitmap of 640 by
//! 350 pixels in 16 colors and is special-cased here.

use vstd::prelude::*;

use crate::data_type::SauceDataType;
use crate::errors::SauceError;
use crate::header::{header_meta_unchanged, SauceHeader};

verus! {

/// Bitmap sub-format, stored in the file type byte of a Bitmap record;
/// RIPScript lives in a Character record and unknown combinations keep
/// both bytes.
#[derive(Debug, Clone, Copy, PartialEq, Eq, Structural)]
pub enum BitmapFormat {
    /// Graphics Interchange Format (type code 0).
    Gif,
    /// ZSoft Paintbrush (type code 1).
    Pcx,
    /// Deluxe Paint LBM/IFF (type code 2).
    LbmIff,
    /// Truevision TARGA (type code 3).
    Tga,
    /// Autodesk Animator (type code 4).
    Fli,
    /// Autodesk Animator Pro (type code 5).
    Flc,
    /// Windows Bitmap (type code 6).
    Bmp,
    /// GRASP animation (type code 7).
    Gl,
    /// DL animation (type code 8).
    Dl,
    /// WordPerfect Graphics (type code 9).
    Wpg,
    /// Portable Network Graphics (type code 10).
    Png,
    /// JPEG image (type code 11).
    Jpg,
    /// MPEG video (type code 12).
    Mpg,
    /// Audio Video Interleave (type code 13).
    Avi,
    /// Remote Imaging Protocol: a Character record with file type 3.
    RipScript,
    /// Any other discriminator and type code pair, preserved as it
    /// stands.
    Unknown(SauceDataType, u8),
}

/// The sub-format a discriminator and file type byte pair selects.
pub open spec fn bitmap_format_of(dt: SauceDataType, ft: u8) -> BitmapFormat {
    if dt == SauceDataType::Character && ft == 3 {
        BitmapFormat::RipScript
    } else if dt == SauceDataType::Bitmap {
        if ft == 0 {
            BitmapFormat::Gif
        } else if ft == 1 {
            BitmapFormat::Pcx
        } else if ft == 2 {
            BitmapFormat::LbmIff
        } else if ft == 3 {
            BitmapFormat::Tga
        } else if ft == 4 {
            BitmapFormat::Fli
        } else if ft == 5 {
            BitmapFormat::Flc
        } else if ft == 6 {
            BitmapFormat::Bmp
        } else if ft == 7 {
            BitmapFormat::Gl
        } else if ft == 8 {
            BitmapFormat::Dl
        } else if ft == 9 {
            BitmapFormat::Wpg
        } else if ft == 10 {
            BitmapFormat::Png
        } else if ft == 11 {
            BitmapFormat::Jpg
        } else if ft == 12 {
            BitmapFormat::Mpg
        } else if ft == 13 {
            BitmapFormat::Avi
        } else {
            BitmapFormat::Unknown(dt, ft)
        }
    } else {
        BitmapFormat::Unknown(dt, ft)
    }
}

/// The discriminator and file type byte a sub-format is written as.
pub open spec fn sauce_of_bitmap_format(f: BitmapFormat) -> (SauceDataType, u8) {
    match f {
        BitmapFormat::RipScript => (SauceDataType::Character, 3),
        BitmapFormat::Gif => (SauceDataType::Bitmap, 0),
        BitmapFormat::Pcx => (SauceDataType::Bitmap, 1),
        BitmapFormat::LbmIff => (SauceDataType::Bitmap, 2),
        BitmapFormat::Tga => (SauceDataType::Bitmap, 3),
        BitmapFormat::Fli => (SauceDataType::Bitmap, 4),
        BitmapFormat::Flc => (SauceDataType::Bitmap, 5),
        BitmapFormat::Bmp => (SauceDataType::Bitmap, 6),
        BitmapFormat::Gl => (SauceDataType::Bitmap, 7),
        BitmapFormat::Dl => (SauceDataType::Bitmap, 8),
        BitmapFormat::Wpg => (SauceDataType::Bitmap, 9),
        BitmapFormat::Png => (SauceDataType::Bitmap, 10),
        BitmapFormat::Jpg => (SauceDataType::Bitmap, 11),
        BitmapFormat::Mpg => (SauceDataType::Bitmap, 12),
        BitmapFormat::Avi => (SauceDataType::Bitmap, 13),
        BitmapFormat::Unknown(dt, ft) => (dt, ft),
    }
}

impl BitmapFormat {
    /// Read a sub-format from the discriminator and file type byte;
    /// unknown pairs are kept.
    pub fn from_sauce(data_type: SauceDataType, file_type: u8) -> (r: Self)
        ensures
            r == bitmap_format_of(data_type, file_type),
    {
        match data_type {
            SauceDataType::Character => {
                if file_type == 3 {
                    BitmapFormat::RipScript
                } else {
                    BitmapFormat::Unknown(data_type, file_type)
                }
            },
            SauceDataType::Bitmap => match file_type {
                0 => BitmapFormat::Gif,
                1 => BitmapFormat::Pcx,
                2 => BitmapFormat::LbmIff,
                3 => BitmapFormat::Tga,
                4 => BitmapFormat::Fli,
                5 => BitmapFormat::Flc,
                6 => BitmapFormat::Bmp,
                7 => BitmapFormat::Gl,
                8 => BitmapFormat::Dl,
                9 => BitmapFormat::Wpg,
                10 => BitmapFormat::Png,
                11 => BitmapFormat::Jpg,
                12 => BitmapFormat::Mpg,
                13 => BitmapFormat::Avi,
                _ => BitmapFormat::Unknown(data_type, file_type),
            },
            _ => BitmapFormat::Unknown(data_type, file_type),
        }
    }

    /// The discriminator and file type byte of this sub-format.
    pub fn to_sauce(&self) -> (r: (SauceDataType, u8))
        ensures
            r == sauce_of_bitmap_format(*self),
    {
        match self {
            BitmapFormat::RipScript => (SauceDataType::Character, 3),
            BitmapFormat::Gif => (SauceDataType::Bitmap, 0),
            BitmapFormat::Pcx => (SauceDataType::Bitmap, 1),
            BitmapFormat::LbmIff => (SauceDataType::Bitmap, 2),
            BitmapFormat::Tga => (SauceDataType::Bitmap, 3),
            BitmapFormat::Fli => (SauceDataType::Bitmap, 4),
            BitmapFormat::Flc => (SauceDataType::Bitmap, 5),
            BitmapFormat::Bmp => (SauceDataType::Bitmap, 6),
            BitmapFormat::Gl => (SauceDataType::Bitmap, 7),
            BitmapFormat::Dl => (SauceDataType::Bitmap, 8),
            BitmapFormat::Wpg => (SauceDataType::Bitmap, 9),
            BitmapFormat::Png => (SauceDataType::Bitmap, 10),
            BitmapFormat::Jpg => (SauceDataType::Bitmap, 11),
            BitmapFormat::Mpg => (SauceDataType::Bitmap, 12),
            BitmapFormat::Avi => (SauceDataType::Bitmap, 13),
            BitmapFormat::Unknown(dt, ft) => (*dt, *ft),
        }
    }
}

/// Capability view of a bitmap graphics record.
#[derive(Debug, Clone)]
pub struct BitmapCapabilities {
    /// The graphics sub-format.
    pub format: BitmapFormat,
    /// Image width in pixels.
    pub width: u16,
    /// Image height in pixels.
    pub height: u16,
    /// Color depth in bits per pixel.
    pub pixel_depth: u16,
}

impl BitmapCapabilities {
    /// A capability with the given sub-format and zero dimensions.
    pub fn new(graphics_format: BitmapFormat) -> (r: Self)
        ensures
            r.format == graphics_format,
            r.width == 0,
            r.height == 0,
            r.pixel_depth == 0,
    {
        BitmapCapabilities { format: graphics_format, width: 0, height: 0, pixel_depth: 0 }
    }

    /// Decode the bitmap capability of a header. A Bitmap record carries
    /// its dimensions in the numeric fields; the RIPScript combination is
    /// fixed at 640 by 350 in 16 colors; anything else fails.
    pub(crate) fn from_header(header: &SauceHeader) -> (r: Result<Self, SauceError>)
        ensures
            (match r {
                Ok(c) => {
                    &&& c.format == bitmap_format_of(header.data_type, header.file_type)
                    &&& (if header.data_type == SauceDataType::Character {
                        &&& header.file_type == 3
                        &&& c.width == 640
                        &&& c.height == 350
                        &&& c.pixel_depth == 16
                    } else {
                        &&& header.data_type == SauceDataType::Bitmap
                        &&& c.width == header.t_info1
                        &&& c.height == header.t_info2
                        &&& c.pixel_depth == header.t_info3
                    })
                },
                Err(e) => !(header.data_type == SauceDataType::Bitmap || (header.data_type
                    == SauceDataType::Character && header.file_type == 3)) && e
                    == SauceError::UnsupportedDataType(header.data_type),
            }),
    {
        let graphics_format = BitmapFormat::from_sauce(header.data_type, header.file_type);
        match header.data_type {
            SauceDataType::Character => {
                if header.file_type == 3 {
                    Ok(
                        BitmapCapabilities {
                            format: graphics_format,
                            width: 640,
                            height: 350,
                            pixel_depth: 16,
                        },
                    )
                } else {
                    Err(SauceError::UnsupportedDataType(header.data_type))
                }
            },
            SauceDataType::Bitmap => Ok(
                BitmapCapabilities {
                    format: graphics_format,
                    width: header.t_info1,
                    height: header.t_info2,
                    pixel_depth: header.t_info3,
                },
            ),
            _ => Err(SauceError::UnsupportedDataType(header.data_type)),
        }
    }

    /// Write this capability into a header. The discriminator and file
    /// type come from the sub-format; a known bitmap format stores its
    /// dimensions and zeroes the remaining fields, RIPScript stores its
    /// fixed values, and an unknown pair stores the dimensions while
    /// leaving the remaining fields as they were.
    pub(crate) fn encode_into_header(&self, header: &mut SauceHeader) -> (r: Result<
        (),
        SauceError,
    >)
        ensures
            r is Ok,
            header_meta_unchanged(*old(header), *final(header)),
            final(header).data_type == sauce_of_bitmap_format(self.format).0,
            final(header).file_type == sauce_of_bitmap_format(self.format).1,
            (match self.format {
                BitmapFormat::RipScript => {
                    &&& final(header).t_info1 == 640
                    &&& final(header).t_info2 == 350
                    &&& final(header).t_info3 == 16
                    &&& final(header).t_info4 == 0
                    &&& final(header).t_flags == 0
                    &&& final(header).t_info_s@ == Seq::<u8>::empty()
                },
                BitmapFormat::Unknown(_, _) => {
                    &&& final(header).t_info1 == self.width
                    &&& final(header).t_info2 == self.height
                    &&& final(header).t_info3 == self.pixel_depth
                    &&& final(header).t_info4 == old(header).t_info4
                    &&& final(header).t_flags == old(header).t_flags
                    &&& final(header).t_info_s@ == old(header).t_info_s@
                },
                _ => {
                    &&& final(header).t_info1 == self.width
                    &&& final(header).t_info2 == self.height
                    &&& final(header).t_info3 == self.pixel_depth
                    &&& final(header).t_info4 == 0
                    &&& final(header).t_flags == 0
                    &&& final(header).t_info_s@ == Seq::<u8>::empty()
                },
            }),
    {
        let (data_type, file_type) = self.format.to_sauce();
        header.data_type = data_type;
        header.file_type = file_type;
        match self.format {
            BitmapFormat::RipScript => {
                header.t_info1 = 640;
                header.t_info2 = 350;
                header.t_info3 = 16;
                header.t_info4 = 0;
                header.t_flags = 0;
                header.t_info_s.clear();
            },
            BitmapFormat::Unknown(_, _) => {
                header.t_info1 = self.width;
                header.t_info2 = self.height;
                header.t_info3 = self.pixel_depth;
            },
            _ => {
                header.t_info1 = self.width;
                header.t_info2 = self.height;
                header.t_info3 = self.pixel_depth;
                header.t_info4 = 0;
                header.t_flags = 0;
                header.t_info_s.clear();
            },
        }
        Ok(())
    }

    /// Whether the sub-format is an animation or video format.
    pub fn is_animated(&self) -> (r: bool)
        ensures
            r == (self.format is Fli || self.format is Flc || self.format is Gl
                || self.format is Dl || self.format is Mpg || self.format is Avi),
    {
        matches!(
            self.format,
            BitmapFormat::Fli
                | BitmapFormat::Flc
                | BitmapFormat::Gl
                | BitmapFormat::Dl
                | BitmapFormat::Mpg
                | BitmapFormat::Avi
        )
    }
}

} // verus!
