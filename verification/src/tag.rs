use vstd::prelude::*;
use bytes::Bytes;
use crate::audio::{AudioData, AudioDataV, spec_parse_audio};
use crate::buffer::bytes_model;
use crate::cursor::{FlvCursor, be_u24};
use crate::error::FlvError;

verus! {

/// The tag-type code of an audio tag.
pub const TAG_TYPE_AUDIO: u8 = 8;

/// The tag-type code of a video tag.
pub const TAG_TYPE_VIDEO: u8 = 9;

/// The tag-type code of a script-data tag.
pub const TAG_TYPE_SCRIPT_DATA: u8 = 18;

/// The payload of one tag, classified by the tag-type code of its envelope.
/// Audio payloads are opened one level further; video and script-data
/// payloads stay opaque byte ranges; any other code is kept verbatim with
/// its payload in the escape.
#[derive(Debug, Clone, PartialEq)]
pub enum FlvTagData {
    /// The payload of an audio tag.
    Audio(AudioData),
    /// The payload of a video tag, an opaque view.
    Video(Bytes),
    /// The payload of a script-data tag, an opaque view.
    ScriptData(Bytes),
    /// A payload under a tag type this library does not recognize.
    Unknown {
        /// The tag-type code, kept verbatim.
        tag_type: u8,
        /// The payload bytes, kept unchanged.
        data: Bytes,
    },
}

/// The mathematical shape of an `FlvTagData`.
pub enum FlvTagDataV {
    /// The payload of an audio tag.
    Audio(AudioDataV),
    /// The payload of a video tag.
    Video(Seq<u8>),
    /// The payload of a script-data tag.
    ScriptData(Seq<u8>),
    /// A payload under an unrecognized tag type.
    Unknown { tag_type: u8, data: Seq<u8> },
}

impl View for FlvTagData {
    type V = FlvTagDataV;

    open spec fn view(&self) -> FlvTagDataV {
        match *self {
            FlvTagData::Audio(a) => FlvTagDataV::Audio(a@),
            FlvTagData::Video(d) => FlvTagDataV::Video(bytes_model(d)),
            FlvTagData::ScriptData(d) => FlvTagDataV::ScriptData(bytes_model(d)),
            FlvTagData::Unknown { tag_type, data } => (FlvTagDataV::Unknown {
                tag_type,
                data: bytes_model(data),
            }),
        }
    }
}

/// What classifying one tag payload under its tag-type code yields. Only a
/// recognized payload whose structure this layer understands (audio) is
/// validated further; every other code classifies without error.
pub open spec fn spec_classify_tag_data(tag_type: u8, p: Seq<u8>) -> Result<
    FlvTagDataV,
    FlvError,
> {
    if tag_type == TAG_TYPE_AUDIO {
        match spec_parse_audio(p) {
            Ok(a) => Ok(FlvTagDataV::Audio(a)),
            Err(e) => Err(e),
        }
    } else if tag_type == TAG_TYPE_VIDEO {
        Ok(FlvTagDataV::Video(p))
    } else if tag_type == TAG_TYPE_SCRIPT_DATA {
        Ok(FlvTagDataV::ScriptData(p))
    } else {
        Ok(FlvTagDataV::Unknown { tag_type, data: p })
    }
}

impl FlvTagData {
    /// Classify one tag payload under its tag-type code.
    pub fn demux(tag_type: u8, payload: Bytes) -> (r: Result<FlvTagData, FlvError>)
        ensures
            match r {
                Ok(d) => spec_classify_tag_data(tag_type, bytes_model(payload))
                    == Ok::<FlvTagDataV, FlvError>(d@),
                Err(e) => spec_classify_tag_data(tag_type, bytes_model(payload))
                    == Err::<FlvTagDataV, FlvError>(e),
            },
    {
        if tag_type == TAG_TYPE_AUDIO {
            match AudioData::demux(payload) {
                Ok(a) => Ok(FlvTagData::Audio(a)),
                Err(e) => Err(e),
            }
        } else if tag_type == TAG_TYPE_VIDEO {
            Ok(FlvTagData::Video(payload))
        } else if tag_type == TAG_TYPE_SCRIPT_DATA {
            Ok(FlvTagData::ScriptData(payload))
        } else {
            Ok(FlvTagData::Unknown { tag_type, data: payload })
        }
    }
}

/// One demuxed tag: its timestamp, its stream identifier, and its payload.
#[derive(Debug, Clone, PartialEq)]
pub struct FlvTag {
    /// The timestamp in milliseconds, extension byte included.
    pub timestamp_ms: u32,
    /// The stream identifier of the envelope.
    pub stream_id: u32,
    /// The classified payload.
    pub data: FlvTagData,
}

/// The mathematical shape of an `FlvTag`.
pub struct FlvTagV {
    /// The timestamp in milliseconds.
    pub timestamp_ms: u32,
    /// The stream identifier.
    pub stream_id: u32,
    /// The classified payload.
    pub data: FlvTagDataV,
}

impl View for FlvTag {
    type V = FlvTagV;

    open spec fn view(&self) -> FlvTagV {
        FlvTagV {
            timestamp_ms: self.timestamp_ms,
            stream_id: self.stream_id,
            data: self.data@,
        }
    }
}

/// The payload length one tag envelope at `pos` declares.
pub open spec fn spec_declared_size(b: Seq<u8>, pos: int) -> int {
    be_u24(b, pos + 1)
}

/// What reading one tag at `pos` of `b` yields: the tag and the position
/// just after it, or the error. The envelope holds eleven fixed bytes — the
/// tag-type code, the declared payload length, the timestamp with its
/// extension byte, and the stream identifier — then exactly the declared
/// number of payload bytes, which must all be present.
pub open spec fn spec_parse_tag(b: Seq<u8>, pos: int) -> Result<(FlvTagV, int), FlvError> {
    if b.len() - pos < 11 {
        Err(FlvError::Truncation)
    } else {
        let tag_type = b[pos];
        let size = spec_declared_size(b, pos);
        let timestamp = be_u24(b, pos + 4) + b[pos + 7] * 0x1000000;
        let stream_id = be_u24(b, pos + 8);
        if pos + 11 + size > b.len() {
            Err(FlvError::Truncation)
        } else {
            match spec_classify_tag_data(tag_type, b.subrange(pos + 11, pos + 11 + size)) {
                Ok(d) => Ok((
                    FlvTagV {
                        timestamp_ms: timestamp as u32,
                        stream_id: stream_id as u32,
                        data: d,
                    },
                    pos + 11 + size,
                )),
                Err(e) => Err(e),
            }
        }
    }
}

impl FlvTag {
    /// Demux one tag at the cursor. On success the cursor stands just after
    /// the tag's declared payload: the envelope is consumed exactly.
    pub fn demux(cursor: &mut FlvCursor) -> (r: Result<FlvTag, FlvError>)
        requires
            old(cursor).wf(),
        ensures
            final(cursor).wf(),
            final(cursor).content() == old(cursor).content(),
            match r {
                Ok(t) => spec_parse_tag(old(cursor).content(), old(cursor).position())
                    == Ok::<(FlvTagV, int), FlvError>((t@, final(cursor).position())),
                Err(e) => spec_parse_tag(old(cursor).content(), old(cursor).position())
                    == Err::<(FlvTagV, int), FlvError>(e),
            },
    {
        if cursor.remaining() < 11 {
            return Err(FlvError::Truncation);
        }
        let tag_type = cursor.read_u8();
        let size = cursor.read_u24_be();
        let ts_low = cursor.read_u24_be();
        let ts_ext = cursor.read_u8();
        let timestamp_ms = ts_low + (ts_ext as u32) * 0x1000000;
        let stream_id = cursor.read_u24_be();
        if size as usize > cursor.remaining() {
            return Err(FlvError::Truncation);
        }
        let payload = cursor.take_bytes(size as usize);
        match FlvTagData::demux(tag_type, payload) {
            Ok(data) => Ok(FlvTag { timestamp_ms, stream_id, data }),
            Err(e) => Err(e),
        }
    }
}

/// Law: a parsed tag consumes its eleven envelope bytes and then exactly the
/// payload length the envelope declares — no byte within the tag boundary is
/// left unconsumed, and none beyond it is read.
pub proof fn lemma_tag_full_consumption(b: Seq<u8>, pos: int, tag: FlvTagV, next: int)
    requires
        spec_parse_tag(b, pos) == Ok::<(FlvTagV, int), FlvError>((tag, next)),
    ensures
        next == pos + 11 + spec_declared_size(b, pos),
        pos + 11 + spec_declared_size(b, pos) <= b.len(),
{
}

} // verus!
