//! The container format as a function on bytes: what each decoder returns at
//! a position of a source, and where it leaves off.

use crate::chunks::{
    DataChunkView, ExtendedInfoView, FactChunkView, FmtChunkView, OtherChunkView, RiffChunkView,
};
use crate::endian::le_value;
use crate::error::Error;
use crate::format::format_of;
use crate::fourcc::{spells_riff, spells_wave, tag_of, Tag};
use vstd::prelude::*;

verus! {

/// What a decoder yields: the decoded value and the position after it, or
/// the reason for which the bytes are rejected.
pub type Parsed<T> = Result<(T, int), Error>;

/// What a decoded container holds: its chunks, up to the header of the
/// `data` chunk.
pub struct DocumentView {
    pub riff_chunk: RiffChunkView,
    pub fmt_chunk: FmtChunkView,
    pub fact_chunk: Option<FactChunkView>,
    pub other_chunks: Seq<OtherChunkView>,
    pub data_chunk: DataChunkView,
}

/// The grammar accepts the bytes, with `value` decoded and `end` the
/// position after it.
pub open spec fn yields<T>(expected: Parsed<T>, value: T, end: int) -> bool {
    expected == Ok::<(T, int), Error>((value, end))
}

/// The grammar rejects the bytes for the reason `e`.
pub open spec fn rejects<T>(expected: Parsed<T>, e: Error) -> bool {
    expected == Err::<(T, int), Error>(e)
}

/// `n` bytes can be read at position `p` of `s`.
pub open spec fn readable(s: Seq<u8>, p: int, n: int) -> bool {
    0 <= p && 0 <= n && p + n <= s.len()
}

/// The 16-bit number at position `p`.
pub open spec fn u16_at(s: Seq<u8>, p: int) -> u16 {
    le_value(s.subrange(p, p + 2)) as u16
}

/// The 32-bit number at position `p`.
pub open spec fn u32_at(s: Seq<u8>, p: int) -> u32 {
    le_value(s.subrange(p, p + 4)) as u32
}

/// The 128-bit number at position `p`.
pub open spec fn u128_at(s: Seq<u8>, p: int) -> u128 {
    le_value(s.subrange(p, p + 16)) as u128
}

/// The tag at position `p`.
pub open spec fn tag_at(s: Seq<u8>, p: int) -> Tag {
    tag_of(s.subrange(p, p + 4))
}

/// The padding that a chunk of `size` bytes needs to end on an even offset.
pub open spec fn pad_of(size: u32) -> u8 {
    if size % 2 == 0 {
        0
    } else {
        1
    }
}

/// The container header at `p`: the tag `RIFF`, the declared size, and the
/// container type `WAVE`. The tag is judged as soon as it is read.
pub open spec fn riff_chunk_at(s: Seq<u8>, p: int) -> Parsed<RiffChunkView> {
    if !readable(s, p, 4) {
        Err(Error::IOError)
    } else if tag_at(s, p) != Tag::Riff {
        Err(Error::NotRiff)
    } else if !readable(s, p + 4, 8) {
        Err(Error::IOError)
    } else if tag_at(s, p + 8) != Tag::Wave {
        Err(Error::NotWave)
    } else {
        Ok(
            (
                RiffChunkView { id: Tag::Riff, file_size: u32_at(s, p + 4), file_type: Tag::Wave },
                p + 12,
            ),
        )
    }
}

/// The extension of a format descriptor at `p`, declared to take `size`
/// bytes: none for size 0, rejected below 22, else 22 fixed bytes and the
/// rest as it stands.
pub open spec fn extended_info_at(s: Seq<u8>, p: int, size: u16) -> Parsed<
    Option<ExtendedInfoView>,
> {
    if size == 0 {
        Ok((None, p))
    } else if size < 22 {
        Err(Error::InvalidExtendedInfo)
    } else if !readable(s, p, size as int) {
        Err(Error::IOError)
    } else {
        Ok(
            (
                Some(
                    ExtendedInfoView {
                        bits_per_coded_sample: u16_at(s, p),
                        channel_mask: u32_at(s, p + 2),
                        sub_format: u128_at(s, p + 6),
                        remaining_data: s.subrange(p + 22, p + size),
                    },
                ),
                p + size,
            ),
        )
    }
}

/// The format descriptor at `p`. After its 24 fixed bytes the next four are
/// looked at: where they spell a known tag the descriptor ends there, else
/// a 16-bit size and an extension of that size follow.
pub open spec fn fmt_chunk_at(s: Seq<u8>, p: int) -> Parsed<FmtChunkView> {
    if !readable(s, p, 4) {
        Err(Error::IOError)
    } else if tag_at(s, p) != Tag::Fmt {
        Err(Error::InvalidFmtChunk)
    } else if !readable(s, p + 4, 24) {
        // the 20 bytes of the fixed fields, and the 4 that are looked at
        Err(Error::IOError)
    } else {
        let extra_info_size = if tag_at(s, p + 24).is_known() {
            0u16
        } else {
            u16_at(s, p + 24)
        };
        let start = if tag_at(s, p + 24).is_known() {
            p + 24
        } else {
            p + 26
        };
        match extended_info_at(s, start, extra_info_size) {
            Err(e) => Err(e),
            Ok((extended_info, end)) => Ok(
                (
                    FmtChunkView {
                        id: Tag::Fmt,
                        data_size: u32_at(s, p + 4),
                        format: format_of(u16_at(s, p + 8)),
                        num_channels: u16_at(s, p + 10),
                        sample_rate: u32_at(s, p + 12),
                        byte_rate: u32_at(s, p + 16),
                        block_align: u16_at(s, p + 20),
                        bits_per_raw_sample: u16_at(s, p + 22),
                        extra_info_size,
                        extended_info,
                    },
                    end,
                ),
            ),
        }
    }
}

/// The `fact` chunk at `p`, or none, and nothing consumed, where the tag
/// there is another one.
pub open spec fn fact_chunk_at(s: Seq<u8>, p: int) -> Parsed<Option<FactChunkView>> {
    if !readable(s, p, 4) {
        Err(Error::IOError)
    } else if tag_at(s, p) != Tag::Fact {
        Ok((None, p))
    } else if !readable(s, p + 4, 8) {
        Err(Error::IOError)
    } else if u32_at(s, p + 4) < 4 {
        Err(Error::InvalidFactChunk)
    } else if !readable(s, p + 12, u32_at(s, p + 4) - 4) {
        Err(Error::IOError)
    } else {
        Ok(
            (
                Some(
                    FactChunkView {
                        id: Tag::Fact,
                        data_size: u32_at(s, p + 4),
                        sample_length: u32_at(s, p + 8),
                        remaining_data: s.subrange(p + 12, p + 8 + u32_at(s, p + 4)),
                    },
                ),
                p + 8 + u32_at(s, p + 4),
            ),
        )
    }
}

/// One whole chunk can be read at `p`: tag, size and as many bytes as the
/// size declares.
pub open spec fn chunk_readable(s: Seq<u8>, p: int) -> bool {
    readable(s, p, 8) && readable(s, p + 8, u32_at(s, p + 4) as int)
}

/// The chunk at `p`, kept whole.
pub open spec fn other_chunk_at(s: Seq<u8>, p: int) -> OtherChunkView {
    OtherChunkView {
        id: tag_at(s, p),
        data_size: u32_at(s, p + 4),
        data: s.subrange(p + 8, p + 8 + u32_at(s, p + 4)),
    }
}

/// The chunks from `p` up to the first tag `data`, and the position of that
/// tag; no position where the source ends before such a tag is found. The
/// chunks that were complete are listed in either case.
pub open spec fn scan_other_chunks(s: Seq<u8>, p: int) -> (Seq<OtherChunkView>, Option<int>)
    decreases s.len() - p,
{
    if !readable(s, p, 4) {
        (Seq::empty(), None)
    } else if tag_at(s, p) == Tag::Data {
        (Seq::empty(), Some(p))
    } else if !chunk_readable(s, p) {
        (Seq::empty(), None)
    } else {
        let rest = scan_other_chunks(s, p + 8 + u32_at(s, p + 4));
        (seq![other_chunk_at(s, p)] + rest.0, rest.1)
    }
}

/// The chunks between the format (or fact) chunk and the `data` chunk.
pub open spec fn other_chunks_at(s: Seq<u8>, p: int) -> Parsed<Seq<OtherChunkView>> {
    match scan_other_chunks(s, p).1 {
        Some(end) => Ok((scan_other_chunks(s, p).0, end)),
        None => Err(Error::IOError),
    }
}

/// The header of the `data` chunk at `p`: tag and declared size. The
/// samples are not part of it.
pub open spec fn data_chunk_at(s: Seq<u8>, p: int) -> Parsed<DataChunkView> {
    if !readable(s, p, 8) {
        Err(Error::IOError)
    } else {
        Ok(
            (
                DataChunkView {
                    id: tag_at(s, p),
                    data_size: u32_at(s, p + 4),
                    pad_byte: pad_of(u32_at(s, p + 4)),
                },
                p + 8,
            ),
        )
    }
}

/// A whole container from `p`: header, format, optional fact, other chunks,
/// and the header of the `data` chunk, in this order. The first failure is
/// the result.
pub open spec fn document_at(s: Seq<u8>, p: int) -> Parsed<DocumentView> {
    match riff_chunk_at(s, p) {
        Err(e) => Err(e),
        Ok((riff_chunk, fmt_start)) => match fmt_chunk_at(s, fmt_start) {
            Err(e) => Err(e),
            Ok((fmt_chunk, fact_start)) => match fact_chunk_at(s, fact_start) {
                Err(e) => Err(e),
                Ok((fact_chunk, others_start)) => match other_chunks_at(s, others_start) {
                    Err(e) => Err(e),
                    Ok((other_chunks, data_start)) => match data_chunk_at(s, data_start) {
                        Err(e) => Err(e),
                        Ok((data_chunk, end)) => Ok(
                            (
                                DocumentView {
                                    riff_chunk,
                                    fmt_chunk,
                                    fact_chunk,
                                    other_chunks,
                                    data_chunk,
                                },
                                end,
                            ),
                        ),
                    },
                },
            },
        },
    }
}

/// A container with nothing but what it must have: the header, a format
/// descriptor, and right after it the tag `data` with a declared size of 0,
/// at which the stream ends.
pub open spec fn is_minimal_wave(s: Seq<u8>) -> bool {
    &&& riff_chunk_at(s, 0) is Ok
    &&& fmt_chunk_at(s, 12) matches Ok((_, end)) && {
        &&& tag_at(s, end) == Tag::Data
        &&& readable(s, end, 8)
        &&& u32_at(s, end + 4) == 0
        &&& s.len() == end + 8
    }
}

/// Every minimal container decodes, to the very end of the stream, and the
/// decoded container has no `fact` chunk and no other chunks.
pub proof fn lemma_minimal_wave_decodes(s: Seq<u8>)
    requires
        is_minimal_wave(s),
    ensures
        document_at(s, 0) matches Ok((document, end)) && {
            &&& document.fact_chunk is None
            &&& document.other_chunks == Seq::<OtherChunkView>::empty()
            &&& document.data_chunk == (DataChunkView { id: Tag::Data, data_size: 0, pad_byte: 0 })
            &&& fmt_chunk_at(s, 12) == Ok::<_, Error>((document.fmt_chunk, end - 8))
            &&& end == s.len()
        },
{
}

/// A stream whose first four bytes are not `RIFF` is rejected as not being
/// a RIFF stream, whatever follows them.
pub proof fn lemma_not_riff(s: Seq<u8>, p: int)
    requires
        readable(s, p, 4),
        !spells_riff(s.subrange(p, p + 4)),
    ensures
        riff_chunk_at(s, p) == Err::<(RiffChunkView, int), _>(Error::NotRiff),
        document_at(s, p) == Err::<(DocumentView, int), _>(Error::NotRiff),
{
}

/// A stream that starts with `RIFF` and whose container type is not `WAVE`
/// is rejected as not being a WAVE stream.
pub proof fn lemma_not_wave(s: Seq<u8>, p: int)
    requires
        readable(s, p, 12),
        spells_riff(s.subrange(p, p + 4)),
        !spells_wave(s.subrange(p + 8, p + 12)),
    ensures
        riff_chunk_at(s, p) == Err::<(RiffChunkView, int), _>(Error::NotWave),
        document_at(s, p) == Err::<(DocumentView, int), _>(Error::NotWave),
{
}

/// A format descriptor whose fixed fields are followed by a known tag has
/// no extension: its extension size is recorded as 0, and it ends where
/// that tag begins.
pub proof fn lemma_fmt_before_known_tag(s: Seq<u8>, p: int)
    requires
        readable(s, p, 28),
        tag_at(s, p) == Tag::Fmt,
        tag_at(s, p + 24).is_known(),
    ensures
        fmt_chunk_at(s, p) matches Ok((chunk, end)) && {
            &&& chunk.extended_info is None
            &&& chunk.extra_info_size == 0
            &&& end == p + 24
        },
{
}

/// Two bytes that hold a number below 256 end in a zero byte, which no
/// known tag has in second place: a size below 256 is never taken for a tag.
pub proof fn lemma_small_size_is_no_tag(s: Seq<u8>, p: int)
    requires
        readable(s, p, 4),
        u16_at(s, p) < 256,
    ensures
        !tag_at(s, p).is_known(),
{
    let b = s.subrange(p, p + 2);
    reveal_with_fuel(le_value, 3);
    assert(b.drop_first().drop_first().len() == 0);
    assert(le_value(b) == b[0] + 256 * b[1]);
    assert(s.subrange(p, p + 4)[1] == b[1]);
}

/// A format descriptor that declares an extension of 1 to 21 bytes is
/// rejected.
pub proof fn lemma_short_extension_is_invalid(s: Seq<u8>, p: int)
    requires
        readable(s, p, 28),
        tag_at(s, p) == Tag::Fmt,
        0 < u16_at(s, p + 24) < 22,
    ensures
        fmt_chunk_at(s, p) == Err::<(FmtChunkView, int), _>(Error::InvalidExtendedInfo),
{
    lemma_small_size_is_no_tag(s, p + 24);
}

/// A container whose format descriptor declares an extension of 1 to 21
/// bytes is rejected for that.
pub proof fn lemma_short_extension_rejects_document(s: Seq<u8>, p: int)
    requires
        riff_chunk_at(s, p) is Ok,
        readable(s, p + 12, 28),
        tag_at(s, p + 12) == Tag::Fmt,
        0 < u16_at(s, p + 36) < 22,
    ensures
        document_at(s, p) == Err::<(DocumentView, int), _>(Error::InvalidExtendedInfo),
{
    lemma_short_extension_is_invalid(s, p + 12);
}

/// The padding is 1 for an odd size and 0 for an even one.
pub proof fn lemma_pad_of_parity(size: u32)
    ensures
        pad_of(size) == size % 2,
        size % 2 == 1 ==> pad_of(size) == 1,
        size % 2 == 0 ==> pad_of(size) == 0,
{
}

} // verus!
