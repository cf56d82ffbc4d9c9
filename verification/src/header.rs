use vstd::prelude::*;
use crate::cursor::{FlvCursor, be_u32};
use crate::error::FlvError;

verus! {

/// File-level metadata carried by the fixed-size file header: the format
/// version, which streams the body announces, and the offset at which the
/// tag sequence begins.
#[derive(Debug, Clone, Copy, PartialEq, Eq, Structural)]
pub struct FlvHeader {
    /// The format version byte; only version 1 is recognized.
    pub version: u8,
    /// Whether the header announces an audio stream.
    pub has_audio: bool,
    /// Whether the header announces a video stream.
    pub has_video: bool,
    /// The byte offset of the file body, counted from the start of the file.
    pub data_offset: u32,
}

/// What reading the file header from the start of `b` yields: the metadata
/// and the position of the first tag, or the error. The signature bytes are
/// `F`, `L`, `V` and the version byte must be 1; the body offset must not
/// point inside the nine fixed header bytes nor past the end of the buffer.
pub open spec fn spec_parse_header(b: Seq<u8>) -> Result<(FlvHeader, int), FlvError> {
    if b.len() < 9 {
        Err(FlvError::Truncation)
    } else if !(b[0] == 0x46u8 && b[1] == 0x4cu8 && b[2] == 0x56u8 && b[3] == 1u8) {
        Err(FlvError::InvalidHeader)
    } else {
        let off = be_u32(b, 5);
        if off < 9 {
            Err(FlvError::InvalidHeader)
        } else if off > b.len() {
            Err(FlvError::Truncation)
        } else {
            Ok((
                FlvHeader {
                    version: b[3],
                    has_audio: (b[4] & 0x04u8) != 0,
                    has_video: (b[4] & 0x01u8) != 0,
                    data_offset: off as u32,
                },
                off,
            ))
        }
    }
}

impl FlvHeader {
    /// Demux the file header from the start of the buffer. On success the
    /// cursor stands at the body offset, the position of the first tag.
    pub fn demux(cursor: &mut FlvCursor) -> (r: Result<FlvHeader, FlvError>)
        requires
            old(cursor).wf(),
            old(cursor).position() == 0,
        ensures
            final(cursor).wf(),
            final(cursor).content() == old(cursor).content(),
            match r {
                Ok(h) => spec_parse_header(old(cursor).content())
                    == Ok::<(FlvHeader, int), FlvError>((h, final(cursor).position())),
                Err(e) => spec_parse_header(old(cursor).content())
                    == Err::<(FlvHeader, int), FlvError>(e),
            },
    {
        if cursor.remaining() < 9 {
            return Err(FlvError::Truncation);
        }
        let s0 = cursor.read_u8();
        let s1 = cursor.read_u8();
        let s2 = cursor.read_u8();
        let version = cursor.read_u8();
        if !(s0 == 0x46 && s1 == 0x4c && s2 == 0x56 && version == 1) {
            return Err(FlvError::InvalidHeader);
        }
        let flags = cursor.read_u8();
        let data_offset = cursor.read_u32_be();
        if data_offset < 9 {
            return Err(FlvError::InvalidHeader);
        }
        // The cursor stands at position 9; step forward to the body offset.
        let rest: usize = (data_offset as usize) - 9;
        if rest > cursor.remaining() {
            return Err(FlvError::Truncation);
        }
        cursor.skip(rest);
        Ok(FlvHeader {
            version,
            has_audio: (flags & 0x04) != 0,
            has_video: (flags & 0x01) != 0,
            data_offset,
        })
    }
}

/// Law: the header reader consumes the header fully; on success the first
/// tag position it reports is exactly the body offset it returns, and that
/// offset lies at or after the nine fixed header bytes and within the buffer.
pub proof fn lemma_header_full_consumption(b: Seq<u8>, h: FlvHeader, body_start: int)
    requires
        spec_parse_header(b) == Ok::<(FlvHeader, int), FlvError>((h, body_start)),
    ensures
        body_start == h.data_offset,
        9 <= body_start <= b.len(),
{
}

} // verus!
