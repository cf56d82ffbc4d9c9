use vstd::prelude::*;
use bytes::Bytes;
use crate::buffer::bytes_model;
use crate::decimal::{dec_digits, decimal_u32};

verus! {

/// The packet-type code of an AAC audio payload: a closed set of recognized
/// codes with an escape. `SequenceHeader` is code 0 and carries codec
/// initialization data; `Raw` is code 1 and carries one coded audio frame;
/// every other code is kept verbatim in `Unknown`, so that a future revision
/// of the format loses nothing.
#[derive(Debug, Clone, Copy, PartialEq, Eq, Structural)]
pub enum AacPacketType {
    /// Codec initialization data, code 0.
    SequenceHeader,
    /// One coded audio frame, code 1.
    Raw,
    /// A code this library does not recognize, kept verbatim.
    Unknown(u8),
}

impl AacPacketType {
    /// Classification of a code: total, with the recognized codes mapped to
    /// their named variants and every other code kept in the escape.
    pub open spec fn spec_from_code(code: u8) -> AacPacketType {
        if code == 0 {
            AacPacketType::SequenceHeader
        } else if code == 1 {
            AacPacketType::Raw
        } else {
            AacPacketType::Unknown(code)
        }
    }

    /// The code a variant stands for.
    pub open spec fn spec_code(self) -> u8 {
        match self {
            AacPacketType::SequenceHeader => 0,
            AacPacketType::Raw => 1,
            AacPacketType::Unknown(c) => c,
        }
    }

    /// Whether the escape variant holds no recognized code: classification
    /// only ever produces such values, so named variants have no aliases.
    pub open spec fn is_canonical(self) -> bool {
        match self {
            AacPacketType::Unknown(c) => c != 0 && c != 1,
            _ => true,
        }
    }

    /// Classify a packet-type code.
    pub fn from_code(code: u8) -> (r: AacPacketType)
        ensures
            r == AacPacketType::spec_from_code(code),
            r.is_canonical(),
    {
        if code == 0 {
            AacPacketType::SequenceHeader
        } else if code == 1 {
            AacPacketType::Raw
        } else {
            AacPacketType::Unknown(code)
        }
    }

    /// The code this variant stands for.
    pub fn code(self) -> (r: u8)
        ensures
            r == self.spec_code(),
    {
        match self {
            AacPacketType::SequenceHeader => 0,
            AacPacketType::Raw => 1,
            AacPacketType::Unknown(c) => c,
        }
    }

    /// The rendering `debug_string` produces: the named path for a
    /// recognized variant, the code in parentheses for the escape.
    pub open spec fn spec_debug_string(self) -> Seq<char> {
        match self {
            AacPacketType::SequenceHeader => "AacPacketType::SequenceHeader"@,
            AacPacketType::Raw => "AacPacketType::Raw"@,
            AacPacketType::Unknown(c) => "AacPacketType("@ + dec_digits(c as nat) + ")"@,
        }
    }

    /// A readable rendering of the variant, code included for the escape.
    pub fn debug_string(self) -> (r: String)
        ensures
            r@ == self.spec_debug_string(),
    {
        match self {
            AacPacketType::SequenceHeader => String::from_str("AacPacketType::SequenceHeader"),
            AacPacketType::Raw => String::from_str("AacPacketType::Raw"),
            AacPacketType::Unknown(c) => {
                let mut s = String::from_str("AacPacketType(");
                let digits = decimal_u32(c as u32);
                s.append(digits.as_str());
                s.append(")");
                s
            },
        }
    }
}

/// Law: classification and the code of a variant are inverse to one another.
/// Every code round-trips through classification unchanged, and every
/// canonical variant round-trips through its code.
pub proof fn lemma_packet_type_round_trip(code: u8, t: AacPacketType)
    ensures
        AacPacketType::spec_from_code(code).spec_code() == code,
        t.is_canonical() ==> AacPacketType::spec_from_code(t.spec_code()) == t,
{
}

/// An AAC audio payload, classified by its packet-type code. The recognized
/// variants carry only the payload (their code is implied); the escape keeps
/// both the code and the payload unchanged.
#[derive(Debug, Clone, PartialEq)]
pub enum AacAudioData {
    /// Codec initialization data.
    SequenceHeader(Bytes),
    /// One coded audio frame.
    Raw(Bytes),
    /// A payload under a code this library does not recognize.
    Unknown {
        /// The packet-type code, kept verbatim.
        aac_packet_type: AacPacketType,
        /// The payload bytes, kept unchanged.
        data: Bytes,
    },
}

/// The mathematical shape of an `AacAudioData`: the same variants over the
/// byte sequences their payload views hold.
pub enum AacAudioDataV {
    /// Codec initialization data.
    SequenceHeader(Seq<u8>),
    /// One coded audio frame.
    Raw(Seq<u8>),
    /// A payload under a code this library does not recognize.
    Unknown { aac_packet_type: AacPacketType, data: Seq<u8> },
}

impl View for AacAudioData {
    type V = AacAudioDataV;

    open spec fn view(&self) -> AacAudioDataV {
        match *self {
            AacAudioData::SequenceHeader(d) => AacAudioDataV::SequenceHeader(bytes_model(d)),
            AacAudioData::Raw(d) => AacAudioDataV::Raw(bytes_model(d)),
            AacAudioData::Unknown { aac_packet_type, data } => (AacAudioDataV::Unknown {
                aac_packet_type,
                data: bytes_model(data),
            }),
        }
    }
}

/// What classifying a packet-type code with a payload yields: a pure, total
/// function of the two. No code is rejected; unrecognized codes keep the
/// code and the payload in the escape variant.
pub open spec fn spec_classify_aac(t: AacPacketType, data: Seq<u8>) -> AacAudioDataV {
    match t {
        AacPacketType::Raw => AacAudioDataV::Raw(data),
        AacPacketType::SequenceHeader => AacAudioDataV::SequenceHeader(data),
        AacPacketType::Unknown(_) => (AacAudioDataV::Unknown { aac_packet_type: t, data }),
    }
}

impl AacAudioData {
    /// Classify a payload by its packet type. This is classification, not
    /// validation: every packet type yields exactly one variant, and the
    /// payload bytes are attached unchanged.
    pub fn new(aac_packet_type: AacPacketType, data: Bytes) -> (r: AacAudioData)
        ensures
            r@ == spec_classify_aac(aac_packet_type, bytes_model(data)),
    {
        match aac_packet_type {
            AacPacketType::Raw => AacAudioData::Raw(data),
            AacPacketType::SequenceHeader => AacAudioData::SequenceHeader(data),
            _ => AacAudioData::Unknown { aac_packet_type, data },
        }
    }
}

/// Law: classification is a pure, total function of the code and the
/// payload. A recognized code yields the named variant with the payload
/// attached unchanged; any other code yields the escape carrying exactly
/// that code and that payload.
pub proof fn lemma_aac_classification(code: u8, data: Seq<u8>)
    ensures
        code == 0 ==> spec_classify_aac(AacPacketType::spec_from_code(code), data)
            == AacAudioDataV::SequenceHeader(data),
        code == 1 ==> spec_classify_aac(AacPacketType::spec_from_code(code), data)
            == AacAudioDataV::Raw(data),
        code != 0 && code != 1 ==> spec_classify_aac(AacPacketType::spec_from_code(code), data)
            == (AacAudioDataV::Unknown { aac_packet_type: AacPacketType::Unknown(code), data }),
{
}

/// Law: classifying the same packet type and payload twice yields results
/// with equal shape; the classifier carries no hidden state.
pub proof fn lemma_aac_classification_pure(
    t: AacPacketType,
    data: Seq<u8>,
    r1: AacAudioData,
    r2: AacAudioData,
)
    requires
        r1@ == spec_classify_aac(t, data),
        r2@ == spec_classify_aac(t, data),
    ensures
        r1@ == r2@,
{
}

} // verus!
