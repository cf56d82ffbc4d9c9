use bytes::Bytes;
use flv_demux::FlvError;
use flv_demux::aac::AacAudioData;
use flv_demux::audio::AudioDataBody;
use flv_demux::cursor::FlvCursor;
use flv_demux::file::FlvFile;
use flv_demux::tag::FlvTagData;

/// A valid nine-byte file header announcing audio and video.
fn header_bytes() -> Vec<u8> {
    vec![0x46, 0x4c, 0x56, 1, 0x05, 0, 0, 0, 9]
}

#[test]
fn demux_header_only_yields_no_tags() {
    let buf = header_bytes();
    let mut cursor = FlvCursor::new(Bytes::from(buf.clone()));
    let file = FlvFile::demux(&mut cursor).expect("a bare header is a valid file");
    assert!(file.header.has_audio);
    assert!(file.header.has_video);
    assert_eq!(file.header.version, 1);
    assert_eq!(file.header.data_offset, 9);
    assert_eq!(file.tags.len(), 0);
    assert_eq!(cursor.byte_position(), buf.len());
}

#[test]
fn demux_single_aac_raw_tag() {
    let frame = vec![9u8, 8, 7, 6, 5];
    let mut buf = header_bytes();
    buf.extend_from_slice(&[0, 0, 0, 0]); // zero back-pointer
    // Envelope: audio tag, declared size 7, timestamp 0, stream 0.
    buf.extend_from_slice(&[8, 0, 0, 7, 0, 0, 0, 0, 0, 0, 0]);
    buf.push(0xAF); // sound format 10 (AAC), rate 3, size 1, type 1
    buf.push(1); // packet type: raw
    buf.extend_from_slice(&frame);

    let mut cursor = FlvCursor::new(Bytes::from(buf.clone()));
    let file = FlvFile::demux(&mut cursor).expect("one well-formed audio tag");
    assert_eq!(file.tags.len(), 1);
    let tag = &file.tags[0];
    assert_eq!(tag.timestamp_ms, 0);
    assert_eq!(tag.stream_id, 0);
    match &tag.data {
        FlvTagData::Audio(audio) => {
            assert_eq!(audio.sound_format, 10);
            assert_eq!(audio.sound_rate, 3);
            assert_eq!(audio.sound_size, 1);
            assert_eq!(audio.sound_type, 1);
            match &audio.body {
                AudioDataBody::Aac(AacAudioData::Raw(data)) => {
                    // Byte-for-byte the trailing input slice, zero-copy.
                    assert_eq!(data.as_ref(), &frame[..]);
                    assert_eq!(data.as_ref(), &buf[buf.len() - frame.len()..]);
                }
                other => panic!("expected a raw AAC body, got {other:?}"),
            }
        }
        other => panic!("expected an audio tag, got {other:?}"),
    }
    // The cursor has examined the whole input.
    assert_eq!(cursor.byte_position(), buf.len());
}

#[test]
fn demux_stops_cleanly_at_final_back_pointer() {
    let mut buf = header_bytes();
    buf.extend_from_slice(&[0, 0, 0, 11]);
    let mut cursor = FlvCursor::new(Bytes::from(buf.clone()));
    let file = FlvFile::demux(&mut cursor).expect("a trailing back-pointer ends the stream");
    assert_eq!(file.tags.len(), 0);
    assert_eq!(cursor.byte_position(), buf.len());
}

#[test]
fn demux_tolerates_partial_trailing_back_pointer() {
    let mut buf = header_bytes();
    buf.extend_from_slice(&[0, 0]);
    let mut cursor = FlvCursor::new(Bytes::from(buf.clone()));
    let file = FlvFile::demux(&mut cursor).expect("a partial back-pointer is a clean end");
    assert_eq!(file.tags.len(), 0);
    assert_eq!(cursor.byte_position(), 9);
}

#[test]
fn demux_rejects_truncated_payload() {
    let mut buf = header_bytes();
    buf.extend_from_slice(&[0, 0, 0, 0]);
    // The envelope declares ten payload bytes but only two follow.
    buf.extend_from_slice(&[8, 0, 0, 10, 0, 0, 0, 0, 0, 0, 0]);
    buf.extend_from_slice(&[0xAF, 1]);
    let mut cursor = FlvCursor::new(Bytes::from(buf));
    let result = FlvFile::demux(&mut cursor);
    assert_eq!(result, Err(FlvError::Truncation));
}

#[test]
fn demux_rejects_truncated_envelope() {
    let mut buf = header_bytes();
    buf.extend_from_slice(&[0, 0, 0, 0]);
    // Only six of the eleven envelope bytes are present.
    buf.extend_from_slice(&[8, 0, 0, 1, 0, 0]);
    let mut cursor = FlvCursor::new(Bytes::from(buf));
    assert_eq!(FlvFile::demux(&mut cursor), Err(FlvError::Truncation));
}

#[test]
fn demux_rejects_bad_signature() {
    let buf = vec![0x46, 0x4c, 0x57, 1, 0x05, 0, 0, 0, 9];
    let mut cursor = FlvCursor::new(Bytes::from(buf));
    assert_eq!(FlvFile::demux(&mut cursor), Err(FlvError::InvalidHeader));
}

#[test]
fn demux_rejects_bad_version() {
    let buf = vec![0x46, 0x4c, 0x56, 2, 0x05, 0, 0, 0, 9];
    let mut cursor = FlvCursor::new(Bytes::from(buf));
    assert_eq!(FlvFile::demux(&mut cursor), Err(FlvError::InvalidHeader));
}

#[test]
fn demux_rejects_short_input() {
    let mut cursor = FlvCursor::new(Bytes::from(vec![0x46, 0x4c]));
    assert_eq!(FlvFile::demux(&mut cursor), Err(FlvError::Truncation));
}

#[test]
fn demux_rejects_body_offset_inside_header() {
    let buf = vec![0x46, 0x4c, 0x56, 1, 0x05, 0, 0, 0, 5];
    let mut cursor = FlvCursor::new(Bytes::from(buf));
    assert_eq!(FlvFile::demux(&mut cursor), Err(FlvError::InvalidHeader));
}

#[test]
fn demux_honours_larger_body_offset() {
    // Four padding bytes between the fixed header and the body.
    let mut buf = vec![0x46, 0x4c, 0x56, 1, 0x04, 0, 0, 0, 13, 0xEE, 0xEE, 0xEE, 0xEE];
    buf.extend_from_slice(&[0, 0, 0, 0]);
    let mut cursor = FlvCursor::new(Bytes::from(buf.clone()));
    let file = FlvFile::demux(&mut cursor).expect("padding before the body is skipped");
    assert_eq!(file.header.data_offset, 13);
    assert!(file.header.has_audio);
    assert!(!file.header.has_video);
    assert_eq!(file.tags.len(), 0);
    assert_eq!(cursor.byte_position(), buf.len());
}

#[test]
fn demux_classifies_script_and_unknown_tags() {
    let mut buf = header_bytes();
    buf.extend_from_slice(&[0, 0, 0, 0]);
    buf.extend_from_slice(&[18, 0, 0, 2, 0, 0, 0, 0, 0, 0, 0]);
    buf.extend_from_slice(&[0xAA, 0xBB]);
    buf.extend_from_slice(&[0, 0, 0, 13]);
    buf.extend_from_slice(&[30, 0, 0, 1, 0, 0, 3, 0, 0, 0, 0]);
    buf.push(0xCC);

    let mut cursor = FlvCursor::new(Bytes::from(buf.clone()));
    let file = FlvFile::demux(&mut cursor).expect("two well-formed tags");
    assert_eq!(file.tags.len(), 2);
    match &file.tags[0].data {
        FlvTagData::ScriptData(data) => assert_eq!(data.as_ref(), &[0xAA, 0xBB]),
        other => panic!("expected script data, got {other:?}"),
    }
    assert_eq!(file.tags[1].timestamp_ms, 3);
    match &file.tags[1].data {
        FlvTagData::Unknown { tag_type, data } => {
            assert_eq!(*tag_type, 30);
            assert_eq!(data.as_ref(), &[0xCC]);
        }
        other => panic!("expected an unrecognized tag, got {other:?}"),
    }
    assert_eq!(cursor.byte_position(), buf.len());
}

#[test]
fn demux_keeps_unrecognized_sound_format_whole() {
    let mut buf = header_bytes();
    buf.extend_from_slice(&[0, 0, 0, 0]);
    buf.extend_from_slice(&[8, 0, 0, 3, 0, 0, 0, 0, 0, 0, 0]);
    // Sound format 2 is not AAC: the body stays opaque, format kept.
    buf.extend_from_slice(&[0x2A, 0x11, 0x22]);
    let mut cursor = FlvCursor::new(Bytes::from(buf));
    let file = FlvFile::demux(&mut cursor).expect("a non-AAC audio tag");
    match &file.tags[0].data {
        FlvTagData::Audio(audio) => {
            assert_eq!(audio.sound_format, 2);
            match &audio.body {
                AudioDataBody::Unknown { sound_format, data } => {
                    assert_eq!(*sound_format, 2);
                    assert_eq!(data.as_ref(), &[0x11, 0x22]);
                }
                other => panic!("expected an opaque body, got {other:?}"),
            }
        }
        other => panic!("expected an audio tag, got {other:?}"),
    }
}

#[test]
fn demux_rejects_empty_audio_payload() {
    let mut buf = header_bytes();
    buf.extend_from_slice(&[0, 0, 0, 0]);
    buf.extend_from_slice(&[8, 0, 0, 0, 0, 0, 0, 0, 0, 0, 0]);
    buf.extend_from_slice(&[0, 0, 0, 11]);
    let mut cursor = FlvCursor::new(Bytes::from(buf));
    assert_eq!(FlvFile::demux(&mut cursor), Err(FlvError::Truncation));
}

#[test]
fn demux_extended_timestamp() {
    let mut buf = header_bytes();
    buf.extend_from_slice(&[0, 0, 0, 0]);
    // Timestamp low bytes 0x010203 with extension byte 0x04.
    buf.extend_from_slice(&[9, 0, 0, 1, 1, 2, 3, 4, 0, 0, 0]);
    buf.push(0x55);
    let mut cursor = FlvCursor::new(Bytes::from(buf));
    let file = FlvFile::demux(&mut cursor).expect("one video tag");
    assert_eq!(file.tags[0].timestamp_ms, 0x04010203);
    match &file.tags[0].data {
        FlvTagData::Video(data) => assert_eq!(data.as_ref(), &[0x55]),
        other => panic!("expected a video tag, got {other:?}"),
    }
}
