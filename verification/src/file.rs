use vstd::prelude::*;
use crate::cursor::FlvCursor;
use crate::error::FlvError;
use crate::header::{FlvHeader, spec_parse_header};
use crate::tag::{FlvTag, FlvTagV, spec_parse_tag, spec_declared_size};

verus! {

/// One demuxed file: the header's metadata followed by the ordered sequence
/// of tags, exactly the tags recoverable by sequential demuxing from the
/// body offset to the end of the buffer — none dropped, none reordered. All
/// payloads inside are views into the one caller-supplied buffer.
#[derive(Debug, Clone, PartialEq)]
pub struct FlvFile {
    /// The file-level metadata.
    pub header: FlvHeader,
    /// The tags, in byte order of the source.
    pub tags: Vec<FlvTag>,
}

/// The mathematical shape of an `FlvFile`.
pub struct FlvFileV {
    /// The file-level metadata.
    pub header: FlvHeader,
    /// The tags, in byte order of the source.
    pub tags: Seq<FlvTagV>,
}

/// The shapes of a sequence of tags.
pub open spec fn spec_tags_views(tags: Seq<FlvTag>) -> Seq<FlvTagV> {
    tags.map_values(|t: FlvTag| t@)
}

impl View for FlvFile {
    type V = FlvFileV;

    open spec fn view(&self) -> FlvFileV {
        FlvFileV { header: self.header, tags: spec_tags_views(self.tags@) }
    }
}

/// What demuxing the tag sequence from `pos` to the end of `b` yields: the
/// tags in order and the final cursor position, or the first error. Before
/// each tag stands a four-byte back-pointer, never interpreted, only
/// skipped. Fewer than four remaining bytes are a clean end of stream, as is
/// a back-pointer that consumes the final four bytes.
pub open spec fn spec_demux_tags(b: Seq<u8>, pos: int) -> Result<(Seq<FlvTagV>, int), FlvError>
    decreases b.len() - pos,
{
    if b.len() - pos < 4 {
        Ok((Seq::empty(), pos))
    } else if b.len() - pos == 4 {
        Ok((Seq::empty(), pos + 4))
    } else {
        match spec_parse_tag(b, pos + 4) {
            Err(e) => Err(e),
            Ok((tag, next)) => match spec_demux_tags(b, next) {
                Err(e) => Err(e),
                Ok((rest, end)) => Ok((seq![tag] + rest, end)),
            },
        }
    }
}

/// What demuxing a whole buffer yields: the header, then the tag sequence,
/// and the final cursor position — or the first error, with no partial
/// result. A buffer holding only a header is valid and yields no tags.
pub open spec fn spec_demux_file(b: Seq<u8>) -> Result<(FlvFileV, int), FlvError> {
    match spec_parse_header(b) {
        Err(e) => Err(e),
        Ok((header, body_start)) => match spec_demux_tags(b, body_start) {
            Err(e) => Err(e),
            Ok((tags, end)) => Ok((FlvFileV { header, tags }, end)),
        },
    }
}

/// A result of demuxing a tag suffix, with already-demuxed tags put before
/// its tag sequence.
pub open spec fn spec_with_prefix(
    prefix: Seq<FlvTagV>,
    r: Result<(Seq<FlvTagV>, int), FlvError>,
) -> Result<(Seq<FlvTagV>, int), FlvError> {
    match r {
        Ok((rest, end)) => Ok((prefix + rest, end)),
        Err(e) => Err(e),
    }
}

impl FlvFile {
    /// Demux a whole file from a cursor standing at the start of the buffer.
    /// All-or-nothing: on the first malformed tag the whole demux aborts
    /// with that error and no tags are returned. On success the cursor has
    /// examined the whole buffer, up to at most three trailing bytes of a
    /// partial back-pointer.
    pub fn demux(cursor: &mut FlvCursor) -> (r: Result<FlvFile, FlvError>)
        requires
            old(cursor).wf(),
            old(cursor).position() == 0,
        ensures
            final(cursor).wf(),
            final(cursor).content() == old(cursor).content(),
            match r {
                Ok(f) => spec_demux_file(old(cursor).content())
                    == Ok::<(FlvFileV, int), FlvError>((f@, final(cursor).position())),
                Err(e) => spec_demux_file(old(cursor).content())
                    == Err::<(FlvFileV, int), FlvError>(e),
            },
    {
        let ghost c = old(cursor).content();
        let header = match FlvHeader::demux(cursor) {
            Ok(h) => h,
            Err(e) => {
                return Err(e);
            },
        };
        let ghost body_start = cursor.position();
        let mut tags: Vec<FlvTag> = Vec::new();
        loop
            invariant
                c == old(cursor).content(),
                cursor.wf(),
                cursor.content() == c,
                body_start <= cursor.position(),
                spec_parse_header(c) == Ok::<(FlvHeader, int), FlvError>((header, body_start)),
                spec_demux_tags(c, body_start) == spec_with_prefix(
                    spec_tags_views(tags@),
                    spec_demux_tags(c, cursor.position()),
                ),
            ensures
                cursor.wf(),
                cursor.content() == c,
                spec_parse_header(c) == Ok::<(FlvHeader, int), FlvError>((header, body_start)),
                spec_demux_tags(c, body_start) == Ok::<(Seq<FlvTagV>, int), FlvError>((
                    spec_tags_views(tags@),
                    cursor.position(),
                )),
            decreases c.len() - cursor.position(),
        {
            let ghost pos0 = cursor.position();
            let ghost tags0 = spec_tags_views(tags@);
            if cursor.remaining() < 4 {
                proof {
                    assert(tags0 + Seq::<FlvTagV>::empty() =~= tags0);
                }
                break;
            }
            // The back-pointer is only there for backward seeking; skip it.
            cursor.skip(4);
            if !cursor.has_remaining() {
                proof {
                    assert(tags0 + Seq::<FlvTagV>::empty() =~= tags0);
                }
                break;
            }
            let tag = match FlvTag::demux(cursor) {
                Ok(t) => t,
                Err(e) => {
                    return Err(e);
                },
            };
            tags.push(tag);
            proof {
                assert(spec_tags_views(tags@) =~= tags0 + seq![tag@]);
                match spec_demux_tags(c, cursor.position()) {
                    Ok((rest, end)) => {
                        assert(tags0 + (seq![tag@] + rest) =~= (tags0 + seq![tag@]) + rest);
                    },
                    Err(_) => {},
                }
            }
        }
        Ok(FlvFile { header, tags })
    }
}

/// Law: an input ending exactly at a four-byte back-pointer demuxes cleanly:
/// the skip consumes the final bytes, no tag follows, and no error is raised.
pub proof fn lemma_empty_tail(b: Seq<u8>, pos: int)
    requires
        b.len() - pos == 4,
    ensures
        spec_demux_tags(b, pos) == Ok::<(Seq<FlvTagV>, int), FlvError>((Seq::empty(), pos + 4)),
{
}

/// Law: a tag whose envelope is cut short, or whose declared payload length
/// exceeds the remaining buffer, fails the whole tag sequence with a
/// truncation error — all-or-nothing, so no tag at all is returned.
pub proof fn lemma_truncation_rejected(b: Seq<u8>, pos: int)
    requires
        b.len() - pos > 4,
        b.len() - (pos + 4) < 11 || pos + 4 + 11 + spec_declared_size(b, pos + 4) > b.len(),
    ensures
        spec_demux_tags(b, pos) == Err::<(Seq<FlvTagV>, int), FlvError>(FlvError::Truncation),
{
}

/// Law: the cursor moves only forward, and a successful demux of the tag
/// sequence examines the whole buffer: fewer than four bytes — at most a
/// partial trailing back-pointer — can remain beyond the final position.
pub proof fn lemma_demux_examines_all(b: Seq<u8>, pos: int, tags: Seq<FlvTagV>, end: int)
    requires
        0 <= pos <= b.len(),
        spec_demux_tags(b, pos) == Ok::<(Seq<FlvTagV>, int), FlvError>((tags, end)),
    ensures
        pos <= end <= b.len(),
        b.len() - end < 4,
    decreases b.len() - pos,
{
    if b.len() - pos < 4 {
    } else if b.len() - pos == 4 {
    } else {
        match spec_parse_tag(b, pos + 4) {
            Ok((tag, next)) => {
                match spec_demux_tags(b, next) {
                    Ok((rest, e2)) => {
                        lemma_demux_examines_all(b, next, rest, e2);
                    },
                    Err(_) => {},
                }
            },
            Err(_) => {},
        }
    }
}

} // verus!
