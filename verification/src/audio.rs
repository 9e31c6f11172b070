//! Capability view for audio files: the sub-format code and, only for the
//! four raw PCM sample formats, a sample rate stored in the first numeric
//! field. Every other type-dependent field is zero.

use vstd::prelude::*;

use crate::data_type::SauceDataType;
use crate::errors::SauceError;
use crate::header::{header_meta_unchanged, SauceHeader};

verus! {

/// Audio sub-format, stored in the file type byte.
#[derive(Debug, Clone, Copy, PartialEq, Eq, Structural)]
pub enum AudioFormat {
    /// MOD module (type code 0).
    Mod,
    /// Renaissance 669 module (type code 1).
    Mod669,
    /// ScreamTracker 2 module (type code 2).
    Stm,
    /// ScreamTracker 3 module (type code 3).
    S3m,
    /// MultiTracker module (type code 4).
    Mtm,
    /// Farandole Composer module (type code 5).
    Far,
    /// UltraTracker module (type code 6).
    Ult,
    /// Advanced Module Format (type code 7).
    Amf,
    /// Delusion Digital Music Format (type code 8).
    Dmf,
    /// Oktalyser module (type code 9).
    Okt,
    /// AdLib ROL (type code 10).
    Rol,
    /// Creative Music File (type code 11).
    Cmf,
    /// Standard MIDI file (type code 12).
    Mid,
    /// SAdT Composer (type code 13).
    Sadt,
    /// Creative Voice File (type code 14).
    Voc,
    /// WAVE audio (type code 15).
    Wav,
    /// Raw 8-bit mono PCM sample (type code 16).
    Smp8,
    /// Raw 8-bit stereo PCM sample (type code 17).
    Smp8s,
    /// Raw 16-bit mono PCM sample (type code 18).
    Smp16,
    /// Raw 16-bit stereo PCM sample (type code 19).
    Smp16s,
    /// 8-bit patch file (type code 20).
    Patch8,
    /// 16-bit patch file (type code 21).
    Patch16,
    /// FastTracker 2 module (type code 22).
    Xm,
    /// HSC Tracker (type code 23).
    Hsc,
    /// Impulse Tracker module (type code 24).
    It,
    /// Any other type code, preserved as it stands.
    Unknown(u8),
}

/// The sub-format a file type byte selects.
pub open spec fn audio_format_of_byte(b: u8) -> AudioFormat {
    if b == 0 {
        AudioFormat::Mod
    } else if b == 1 {
        AudioFormat::Mod669
    } else if b == 2 {
        AudioFormat::Stm
    } else if b == 3 {
        AudioFormat::S3m
    } else if b == 4 {
        AudioFormat::Mtm
    } else if b == 5 {
        AudioFormat::Far
    } else if b == 6 {
        AudioFormat::Ult
    } else if b == 7 {
        AudioFormat::Amf
    } else if b == 8 {
        AudioFormat::Dmf
    } else if b == 9 {
        AudioFormat::Okt
    } else if b == 10 {
        AudioFormat::Rol
    } else if b == 11 {
        AudioFormat::Cmf
    } else if b == 12 {
        AudioFormat::Mid
    } else if b == 13 {
        AudioFormat::Sadt
    } else if b == 14 {
        AudioFormat::Voc
    } else if b == 15 {
        AudioFormat::Wav
    } else if b == 16 {
        AudioFormat::Smp8
    } else if b == 17 {
        AudioFormat::Smp8s
    } else if b == 18 {
        AudioFormat::Smp16
    } else if b == 19 {
        AudioFormat::Smp16s
    } else if b == 20 {
        AudioFormat::Patch8
    } else if b == 21 {
        AudioFormat::Patch16
    } else if b == 22 {
        AudioFormat::Xm
    } else if b == 23 {
        AudioFormat::Hsc
    } else if b == 24 {
        AudioFormat::It
    } else {
        AudioFormat::Unknown(b)
    }
}

/// The file type byte a sub-format is written as.
pub open spec fn byte_of_audio_format(f: AudioFormat) -> u8 {
    match f {
        AudioFormat::Mod => 0,
        AudioFormat::Mod669 => 1,
        AudioFormat::Stm => 2,
        AudioFormat::S3m => 3,
        AudioFormat::Mtm => 4,
        AudioFormat::Far => 5,
        AudioFormat::Ult => 6,
        AudioFormat::Amf => 7,
        AudioFormat::Dmf => 8,
        AudioFormat::Okt => 9,
        AudioFormat::Rol => 10,
        AudioFormat::Cmf => 11,
        AudioFormat::Mid => 12,
        AudioFormat::Sadt => 13,
        AudioFormat::Voc => 14,
        AudioFormat::Wav => 15,
        AudioFormat::Smp8 => 16,
        AudioFormat::Smp8s => 17,
        AudioFormat::Smp16 => 18,
        AudioFormat::Smp16s => 19,
        AudioFormat::Patch8 => 20,
        AudioFormat::Patch16 => 21,
        AudioFormat::Xm => 22,
        AudioFormat::Hsc => 23,
        AudioFormat::It => 24,
        AudioFormat::Unknown(b) => b,
    }
}

/// The raw PCM sample formats: the only ones whose sample rate is stored
/// in the header.
pub open spec fn spec_has_sample_rate(f: AudioFormat) -> bool {
    f is Smp8 || f is Smp8s || f is Smp16 || f is Smp16s
}

impl AudioFormat {
    /// Read a sub-format from its file type byte; unknown codes are kept.
    pub fn from_sauce(file_type: u8) -> (r: Self)
        ensures
            r == audio_format_of_byte(file_type),
    {
        match file_type {
            0 => AudioFormat::Mod,
            1 => AudioFormat::Mod669,
            2 => AudioFormat::Stm,
            3 => AudioFormat::S3m,
            4 => AudioFormat::Mtm,
            5 => AudioFormat::Far,
            6 => AudioFormat::Ult,
            7 => AudioFormat::Amf,
            8 => AudioFormat::Dmf,
            9 => AudioFormat::Okt,
            10 => AudioFormat::Rol,
            11 => AudioFormat::Cmf,
            12 => AudioFormat::Mid,
            13 => AudioFormat::Sadt,
            14 => AudioFormat::Voc,
            15 => AudioFormat::Wav,
            16 => AudioFormat::Smp8,
            17 => AudioFormat::Smp8s,
            18 => AudioFormat::Smp16,
            19 => AudioFormat::Smp16s,
            20 => AudioFormat::Patch8,
            21 => AudioFormat::Patch16,
            22 => AudioFormat::Xm,
            23 => AudioFormat::Hsc,
            24 => AudioFormat::It,
            _ => AudioFormat::Unknown(file_type),
        }
    }

    /// The file type byte of this sub-format.
    pub fn to_sauce(&self) -> (r: u8)
        ensures
            r == byte_of_audio_format(*self),
    {
        match self {
            AudioFormat::Mod => 0,
            AudioFormat::Mod669 => 1,
            AudioFormat::Stm => 2,
            AudioFormat::S3m => 3,
            AudioFormat::Mtm => 4,
            AudioFormat::Far => 5,
            AudioFormat::Ult => 6,
            AudioFormat::Amf => 7,
            AudioFormat::Dmf => 8,
            AudioFormat::Okt => 9,
            AudioFormat::Rol => 10,
            AudioFormat::Cmf => 11,
            AudioFormat::Mid => 12,
            AudioFormat::Sadt => 13,
            AudioFormat::Voc => 14,
            AudioFormat::Wav => 15,
            AudioFormat::Smp8 => 16,
            AudioFormat::Smp8s => 17,
            AudioFormat::Smp16 => 18,
            AudioFormat::Smp16s => 19,
            AudioFormat::Patch8 => 20,
            AudioFormat::Patch16 => 21,
            AudioFormat::Xm => 22,
            AudioFormat::Hsc => 23,
            AudioFormat::It => 24,
            AudioFormat::Unknown(ft) => *ft,
        }
    }

    /// Whether the sample rate of this sub-format is stored in the
    /// header; true only for the raw PCM sample formats.
    pub fn has_sample_rate(&self) -> (r: bool)
        ensures
            r == spec_has_sample_rate(*self),
    {
        matches!(
            self,
            AudioFormat::Smp8 | AudioFormat::Smp8s | AudioFormat::Smp16 | AudioFormat::Smp16s
        )
    }

    /// Whether this is a raw PCM sample format.
    pub fn is_raw_sample(&self) -> (r: bool)
        ensures
            r == spec_has_sample_rate(*self),
    {
        matches!(
            self,
            AudioFormat::Smp8 | AudioFormat::Smp8s | AudioFormat::Smp16 | AudioFormat::Smp16s
        )
    }

    /// Whether this is a stereo raw sample format.
    pub fn is_stereo(&self) -> (r: bool)
        ensures
            r == (*self is Smp8s || *self is Smp16s),
    {
        matches!(self, AudioFormat::Smp8s | AudioFormat::Smp16s)
    }

    /// Whether this is a 16-bit sample or patch format.
    pub fn is_16bit(&self) -> (r: bool)
        ensures
            r == (*self is Smp16 || *self is Smp16s || *self is Patch16),
    {
        matches!(
            self,
            AudioFormat::Smp16 | AudioFormat::Smp16s | AudioFormat::Patch16
        )
    }

    /// Whether this is an FM synthesis format.
    pub fn is_fm_synthesis(&self) -> (r: bool)
        ensures
            r == (*self is Rol || *self is Cmf || *self is Sadt || *self is Hsc),
    {
        matches!(
            self,
            AudioFormat::Rol | AudioFormat::Cmf | AudioFormat::Sadt | AudioFormat::Hsc
        )
    }

    /// Whether this is a tracker or sequenced module format.
    pub fn is_tracker(&self) -> (r: bool)
        ensures
            r == (*self is Mod || *self is Mod669 || *self is Stm || *self is S3m || *self is Mtm
                || *self is Far || *self is Ult || *self is Amf || *self is Dmf || *self is Okt
                || *self is Xm || *self is It),
    {
        matches!(
            self,
            AudioFormat::Mod
                | AudioFormat::Mod669
                | AudioFormat::Stm
                | AudioFormat::S3m
                | AudioFormat::Mtm
                | AudioFormat::Far
                | AudioFormat::Ult
                | AudioFormat::Amf
                | AudioFormat::Dmf
                | AudioFormat::Okt
                | AudioFormat::Xm
                | AudioFormat::It
        )
    }
}

/// Capability view of an audio record.
#[derive(Debug, Clone)]
pub struct AudioCapabilities {
    /// Audio sub-format.
    pub format: AudioFormat,
    /// Sample rate in Hz; meaningful only for raw sample formats, zero
    /// for every other one.
    pub sample_rate: u16,
}

impl AudioCapabilities {
    /// Decode the audio capability of a header; fails when the header's
    /// discriminator is not Audio. The sample rate is read only for the
    /// raw sample formats.
    pub(crate) fn from_header(header: &SauceHeader) -> (r: Result<Self, SauceError>)
        ensures
            (match r {
                Ok(c) => {
                    &&& header.data_type == SauceDataType::Audio
                    &&& c.format == audio_format_of_byte(header.file_type)
                    &&& c.sample_rate == (if spec_has_sample_rate(c.format) {
                        header.t_info1
                    } else {
                        0u16
                    })
                },
                Err(e) => header.data_type != SauceDataType::Audio && e
                    == SauceError::UnsupportedDataType(header.data_type),
            }),
    {
        if !matches!(header.data_type, SauceDataType::Audio) {
            return Err(SauceError::UnsupportedDataType(header.data_type));
        }
        let format = AudioFormat::from_sauce(header.file_type);
        let sample_rate = if format.has_sample_rate() {
            header.t_info1
        } else {
            0
        };
        Ok(AudioCapabilities { format, sample_rate })
    }

    /// Write this capability into a header: the Audio discriminator, the
    /// sub-format code, and — for raw sample formats only — the sample
    /// rate in the first numeric field; everything else is zeroed.
    pub(crate) fn encode_into_header(&self, header: &mut SauceHeader) -> (r: Result<
        (),
        SauceError,
    >)
        ensures
            r is Ok,
            header_meta_unchanged(*old(header), *final(header)),
            final(header).data_type == SauceDataType::Audio,
            final(header).file_type == byte_of_audio_format(self.format),
            final(header).t_info1 == (if spec_has_sample_rate(self.format) {
                self.sample_rate
            } else {
                0u16
            }),
            final(header).t_info2 == 0,
            final(header).t_info3 == 0,
            final(header).t_info4 == 0,
            final(header).t_flags == 0,
            final(header).t_info_s@ == Seq::<u8>::empty(),
    {
        header.data_type = SauceDataType::Audio;
        header.file_type = self.format.to_sauce();
        if self.format.has_sample_rate() {
            header.t_info1 = self.sample_rate;
        } else {
            header.t_info1 = 0;
        }
        header.t_info2 = 0;
        header.t_info3 = 0;
        header.t_info4 = 0;
        header.t_flags = 0;
        header.t_info_s.clear();
        Ok(())
    }
}

} // verus!
