use vstd::prelude::*;
use bytes::Bytes;
use crate::aac::{AacAudioData, AacAudioDataV, AacPacketType, spec_classify_aac};
use crate::buffer::{bytes_model, bytes_get, bytes_slice, bytes_len};
use crate::error::FlvError;

verus! {

/// The sound-format code that announces an AAC body.
pub const SOUND_FORMAT_AAC: u8 = 10;

/// The body of an audio tag: the sound-format code is the coded field, with
/// AAC the one recognized format and everything else kept verbatim in the
/// escape, code and bytes unchanged.
#[derive(Debug, Clone, PartialEq)]
pub enum AudioDataBody {
    /// An AAC body, classified further by its packet-type byte.
    Aac(AacAudioData),
    /// A body under a sound format this library does not recognize.
    Unknown {
        /// The sound-format code, kept verbatim.
        sound_format: u8,
        /// The body bytes, kept unchanged.
        data: Bytes,
    },
}

/// The mathematical shape of an `AudioDataBody`.
pub enum AudioDataBodyV {
    /// An AAC body.
    Aac(AacAudioDataV),
    /// A body under an unrecognized sound format.
    Unknown { sound_format: u8, data: Seq<u8> },
}

impl View for AudioDataBody {
    type V = AudioDataBodyV;

    open spec fn view(&self) -> AudioDataBodyV {
        match *self {
            AudioDataBody::Aac(a) => AudioDataBodyV::Aac(a@),
            AudioDataBody::Unknown { sound_format, data } => (AudioDataBodyV::Unknown {
                sound_format,
                data: bytes_model(data),
            }),
        }
    }
}

/// The payload of an audio tag: the sound properties packed into the leading
/// byte, and the body that follows them.
#[derive(Debug, Clone, PartialEq)]
pub struct AudioData {
    /// The sound-format code, the high four bits of the leading byte.
    pub sound_format: u8,
    /// The sampling-rate code, two bits.
    pub sound_rate: u8,
    /// The sample-size code, one bit.
    pub sound_size: u8,
    /// The channel-count code, one bit.
    pub sound_type: u8,
    /// The body after the leading byte.
    pub body: AudioDataBody,
}

/// The mathematical shape of an `AudioData`.
pub struct AudioDataV {
    /// The sound-format code.
    pub sound_format: u8,
    /// The sampling-rate code.
    pub sound_rate: u8,
    /// The sample-size code.
    pub sound_size: u8,
    /// The channel-count code.
    pub sound_type: u8,
    /// The body after the leading byte.
    pub body: AudioDataBodyV,
}

impl View for AudioData {
    type V = AudioDataV;

    open spec fn view(&self) -> AudioDataV {
        AudioDataV {
            sound_format: self.sound_format,
            sound_rate: self.sound_rate,
            sound_size: self.sound_size,
            sound_type: self.sound_type,
            body: self.body@,
        }
    }
}

/// What parsing an audio payload yields. The leading byte must be present;
/// an AAC body must also hold its packet-type byte; whatever follows the
/// fixed bytes is the body, attached unchanged. Formats other than AAC are
/// classified, not validated: their body is kept whole in the escape.
pub open spec fn spec_parse_audio(p: Seq<u8>) -> Result<AudioDataV, FlvError> {
    if p.len() < 1 {
        Err(FlvError::Truncation)
    } else {
        let flags = p[0];
        let fmt = flags >> 4u8;
        if fmt == SOUND_FORMAT_AAC {
            if p.len() < 2 {
                Err(FlvError::Truncation)
            } else {
                Ok(AudioDataV {
                    sound_format: fmt,
                    sound_rate: (flags >> 2u8) & 0x03u8,
                    sound_size: (flags >> 1u8) & 0x01u8,
                    sound_type: flags & 0x01u8,
                    body: AudioDataBodyV::Aac(spec_classify_aac(
                        AacPacketType::spec_from_code(p[1]),
                        p.subrange(2, p.len() as int),
                    )),
                })
            }
        } else {
            Ok(AudioDataV {
                sound_format: fmt,
                sound_rate: (flags >> 2u8) & 0x03u8,
                sound_size: (flags >> 1u8) & 0x01u8,
                sound_type: flags & 0x01u8,
                body: AudioDataBodyV::Unknown {
                    sound_format: fmt,
                    data: p.subrange(1, p.len() as int),
                },
            })
        }
    }
}

impl AudioData {
    /// Demux one audio tag payload. The whole payload is consumed: the fixed
    /// bytes are decoded and everything after them is attached as the body.
    pub fn demux(payload: Bytes) -> (r: Result<AudioData, FlvError>)
        ensures
            match r {
                Ok(a) => spec_parse_audio(bytes_model(payload)) == Ok::<AudioDataV, FlvError>(a@),
                Err(e) => spec_parse_audio(bytes_model(payload)) == Err::<AudioDataV, FlvError>(e),
            },
    {
        let n: usize = bytes_len(&payload);
        if n < 1 {
            return Err(FlvError::Truncation);
        }
        let flags = bytes_get(&payload, 0);
        let fmt = flags >> 4;
        let sound_rate = (flags >> 2) & 0x03;
        let sound_size = (flags >> 1) & 0x01;
        let sound_type = flags & 0x01;
        if fmt == SOUND_FORMAT_AAC {
            if n < 2 {
                return Err(FlvError::Truncation);
            }
            let code = bytes_get(&payload, 1);
            let body = bytes_slice(&payload, 2, n);
            let packet = AacAudioData::new(AacPacketType::from_code(code), body);
            Ok(AudioData {
                sound_format: fmt,
                sound_rate,
                sound_size,
                sound_type,
                body: AudioDataBody::Aac(packet),
            })
        } else {
            let body = bytes_slice(&payload, 1, n);
            Ok(AudioData {
                sound_format: fmt,
                sound_rate,
                sound_size,
                sound_type,
                body: AudioDataBody::Unknown { sound_format: fmt, data: body },
            })
        }
    }
}

} // verus!
