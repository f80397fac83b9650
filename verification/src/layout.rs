//! The byte layout of a decoded container: how its chunks are written out,
//! and that writing out what was decoded gives the bytes that were read.

use crate::chunks::{
    DataChunkView, ExtendedInfoView, FactChunkView, FmtChunkView, OtherChunkView, RiffChunkView,
};
use crate::endian::{
    le_bytes, lemma_le_bytes_len, lemma_le_bytes_of_value, lemma_le_value_bound,
    lemma_le_value_of_bytes, lemma_radix_pow_values,
};
use crate::error::Error;
use crate::format::{format_of, lemma_code_of_format};
use crate::fourcc::{spells_capital_data, tag_of, Tag};
use crate::grammar::{
    data_chunk_at, document_at, extended_info_at, fact_chunk_at, fmt_chunk_at, is_minimal_wave,
    lemma_minimal_wave_decodes, other_chunk_at, readable, riff_chunk_at, scan_other_chunks, tag_at,
    u128_at, u16_at, u32_at, DocumentView,
};
use vstd::prelude::*;

verus! {

/// The four bytes of a tag. `data` is written in lower case.
pub open spec fn tag_bytes(tag: Tag) -> Seq<u8> {
    match tag {
        Tag::Riff => seq![0x52u8, 0x49u8, 0x46u8, 0x46u8],
        Tag::Wave => seq![0x57u8, 0x41u8, 0x56u8, 0x45u8],
        Tag::Fmt => seq![0x66u8, 0x6du8, 0x74u8, 0x20u8],
        Tag::Data => seq![0x64u8, 0x61u8, 0x74u8, 0x61u8],
        Tag::Fact => seq![0x66u8, 0x61u8, 0x63u8, 0x74u8],
        Tag::Other(name) => Seq::new(name.len(), |i: int| name[i] as u8),
    }
}

/// The two bytes of a 16-bit number.
pub open spec fn u16_bytes(x: u16) -> Seq<u8> {
    le_bytes(x as nat, 2)
}

/// The four bytes of a 32-bit number.
pub open spec fn u32_bytes(x: u32) -> Seq<u8> {
    le_bytes(x as nat, 4)
}

/// The sixteen bytes of a 128-bit number.
pub open spec fn u128_bytes(x: u128) -> Seq<u8> {
    le_bytes(x as nat, 16)
}

/// The container header: tag, declared size, container type.
pub open spec fn riff_chunk_bytes(chunk: RiffChunkView) -> Seq<u8> {
    tag_bytes(chunk.id) + u32_bytes(chunk.file_size) + tag_bytes(chunk.file_type)
}

/// The 22 fixed bytes of an extension and what it holds beyond them.
pub open spec fn extended_info_bytes(info: ExtendedInfoView) -> Seq<u8> {
    u16_bytes(info.bits_per_coded_sample) + u32_bytes(info.channel_mask) + u128_bytes(
        info.sub_format,
    ) + info.remaining_data
}

/// The format descriptor. Its size field and extension are written where
/// the descriptor has an extension, and left out where it has none.
pub open spec fn fmt_chunk_bytes(chunk: FmtChunkView) -> Seq<u8> {
    tag_bytes(chunk.id) + u32_bytes(chunk.data_size) + u16_bytes(chunk.format.code()) + u16_bytes(
        chunk.num_channels,
    ) + u32_bytes(chunk.sample_rate) + u32_bytes(chunk.byte_rate) + u16_bytes(chunk.block_align)
        + u16_bytes(chunk.bits_per_raw_sample) + match chunk.extended_info {
        Some(info) => u16_bytes(chunk.extra_info_size) + extended_info_bytes(info),
        None => Seq::empty(),
    }
}

/// The `fact` chunk, or nothing where there is none.
pub open spec fn fact_chunk_bytes(chunk: Option<FactChunkView>) -> Seq<u8> {
    match chunk {
        Some(chunk) => tag_bytes(chunk.id) + u32_bytes(chunk.data_size) + u32_bytes(
            chunk.sample_length,
        ) + chunk.remaining_data,
        None => Seq::empty(),
    }
}

/// A chunk that was kept whole: tag, declared size, and its bytes.
pub open spec fn other_chunk_bytes(chunk: OtherChunkView) -> Seq<u8> {
    tag_bytes(chunk.id) + u32_bytes(chunk.data_size) + chunk.data
}

/// The kept chunks one after the other.
pub open spec fn other_chunks_bytes(chunks: Seq<OtherChunkView>) -> Seq<u8>
    decreases chunks.len(),
{
    if chunks.len() == 0 {
        Seq::empty()
    } else {
        other_chunk_bytes(chunks[0]) + other_chunks_bytes(chunks.drop_first())
    }
}

/// The header of the `data` chunk: tag and declared size.
pub open spec fn data_chunk_bytes(chunk: DataChunkView) -> Seq<u8> {
    tag_bytes(chunk.id) + u32_bytes(chunk.data_size)
}

/// Everything of a container up to the samples.
pub open spec fn document_bytes(document: DocumentView) -> Seq<u8> {
    riff_chunk_bytes(document.riff_chunk) + fmt_chunk_bytes(document.fmt_chunk) + fact_chunk_bytes(
        document.fact_chunk,
    ) + other_chunks_bytes(document.other_chunks) + data_chunk_bytes(document.data_chunk)
}

/// The format descriptor at `p` is followed by a size field that declares an
/// extension of no bytes. Decoded, such a descriptor is the same as one
/// that ends after its fixed fields.
pub open spec fn declares_empty_extension(s: Seq<u8>, p: int) -> bool {
    !tag_at(s, p + 24).is_known() && u16_at(s, p + 24) == 0
}

/// Four bytes are the bytes of their tag, unless they spell `Data` with a
/// capital letter.
pub proof fn lemma_tag_bytes_of_tag(b: Seq<u8>)
    requires
        b.len() == 4,
        !spells_capital_data(b),
    ensures
        tag_bytes(tag_of(b)) == b,
{
    assert(tag_bytes(tag_of(b)) =~= b);
}

/// The two bytes at `p` are the bytes of the number read there.
pub proof fn lemma_u16_bytes_at(s: Seq<u8>, p: int)
    requires
        readable(s, p, 2),
    ensures
        u16_bytes(u16_at(s, p)) == s.subrange(p, p + 2),
{
    let b = s.subrange(p, p + 2);
    lemma_le_value_bound(b);
    lemma_radix_pow_values();
    lemma_le_bytes_of_value(b);
}

/// The four bytes at `p` are the bytes of the number read there.
pub proof fn lemma_u32_bytes_at(s: Seq<u8>, p: int)
    requires
        readable(s, p, 4),
    ensures
        u32_bytes(u32_at(s, p)) == s.subrange(p, p + 4),
{
    let b = s.subrange(p, p + 4);
    lemma_le_value_bound(b);
    lemma_radix_pow_values();
    lemma_le_bytes_of_value(b);
}

/// The sixteen bytes at `p` are the bytes of the number read there.
pub proof fn lemma_u128_bytes_at(s: Seq<u8>, p: int)
    requires
        readable(s, p, 16),
    ensures
        u128_bytes(u128_at(s, p)) == s.subrange(p, p + 16),
{
    let b = s.subrange(p, p + 16);
    lemma_le_value_bound(b);
    lemma_radix_pow_values();
    lemma_le_bytes_of_value(b);
}

/// A decoded container header, written out, is the twelve bytes it was
/// decoded from.
pub proof fn lemma_riff_chunk_bytes(s: Seq<u8>, p: int)
    requires
        riff_chunk_at(s, p) is Ok,
    ensures
        riff_chunk_at(s, p) matches Ok((chunk, end)) && riff_chunk_bytes(chunk) == s.subrange(
            p,
            end,
        ),
{
    let (chunk, end) = riff_chunk_at(s, p)->Ok_0;
    lemma_tag_bytes_of_tag(s.subrange(p, p + 4));
    lemma_u32_bytes_at(s, p + 4);
    lemma_tag_bytes_of_tag(s.subrange(p + 8, p + 12));
    assert(riff_chunk_bytes(chunk) =~= s.subrange(p, end));
}

/// A decoded extension, written out, is the bytes it was decoded from.
pub proof fn lemma_extended_info_bytes(s: Seq<u8>, p: int, size: u16)
    requires
        extended_info_at(s, p, size) is Ok,
        size != 0,
    ensures
        extended_info_at(s, p, size) matches Ok((Some(info), end)) && extended_info_bytes(info)
            == s.subrange(p, end),
{
    let (info, end) = extended_info_at(s, p, size)->Ok_0;
    lemma_u16_bytes_at(s, p);
    lemma_u32_bytes_at(s, p + 2);
    lemma_u128_bytes_at(s, p + 6);
    assert(extended_info_bytes(info->Some_0) =~= s.subrange(p, end));
}

/// A decoded format descriptor, written out, is the bytes it was decoded
/// from, unless they declare an empty extension.
pub proof fn lemma_fmt_chunk_bytes(s: Seq<u8>, p: int)
    requires
        fmt_chunk_at(s, p) is Ok,
        !declares_empty_extension(s, p),
    ensures
        fmt_chunk_at(s, p) matches Ok((chunk, end)) && fmt_chunk_bytes(chunk) == s.subrange(
            p,
            end,
        ),
{
    let (chunk, end) = fmt_chunk_at(s, p)->Ok_0;
    lemma_tag_bytes_of_tag(s.subrange(p, p + 4));
    lemma_u32_bytes_at(s, p + 4);
    lemma_u16_bytes_at(s, p + 8);
    lemma_code_of_format(u16_at(s, p + 8));
    lemma_u16_bytes_at(s, p + 10);
    lemma_u32_bytes_at(s, p + 12);
    lemma_u32_bytes_at(s, p + 16);
    lemma_u16_bytes_at(s, p + 20);
    lemma_u16_bytes_at(s, p + 22);
    let fixed = tag_bytes(chunk.id) + u32_bytes(chunk.data_size) + u16_bytes(chunk.format.code())
        + u16_bytes(chunk.num_channels) + u32_bytes(chunk.sample_rate) + u32_bytes(
        chunk.byte_rate,
    ) + u16_bytes(chunk.block_align) + u16_bytes(chunk.bits_per_raw_sample);
    assert(fixed =~= s.subrange(p, p + 24));
    if tag_at(s, p + 24).is_known() {
        assert(fmt_chunk_bytes(chunk) =~= s.subrange(p, end));
    } else {
        lemma_u16_bytes_at(s, p + 24);
        lemma_extended_info_bytes(s, p + 26, chunk.extra_info_size);
        assert(fmt_chunk_bytes(chunk) =~= s.subrange(p, end));
    }
}

/// A decoded `fact` chunk, written out, is the bytes it was decoded from;
/// where there is none, nothing was read and nothing is written.
pub proof fn lemma_fact_chunk_bytes(s: Seq<u8>, p: int)
    requires
        fact_chunk_at(s, p) is Ok,
    ensures
        fact_chunk_at(s, p) matches Ok((chunk, end)) && fact_chunk_bytes(chunk) == s.subrange(
            p,
            end,
        ),
{
    let (chunk, end) = fact_chunk_at(s, p)->Ok_0;
    if tag_at(s, p) == Tag::Fact {
        lemma_tag_bytes_of_tag(s.subrange(p, p + 4));
        lemma_u32_bytes_at(s, p + 4);
        lemma_u32_bytes_at(s, p + 8);
        assert(fact_chunk_bytes(chunk) =~= s.subrange(p, end));
    } else {
        assert(fact_chunk_bytes(chunk) =~= s.subrange(p, end));
    }
}

/// The chunks kept up to the tag `data`, written out, are the bytes from
/// the first of them up to that tag.
pub proof fn lemma_other_chunks_bytes(s: Seq<u8>, p: int)
    requires
        scan_other_chunks(s, p).1 is Some,
    ensures
        scan_other_chunks(s, p).1 matches Some(end) && p <= end <= s.len() && other_chunks_bytes(
            scan_other_chunks(s, p).0,
        ) == s.subrange(p, end),
    decreases s.len() - p,
{
    let end = scan_other_chunks(s, p).1->Some_0;
    if tag_at(s, p) == Tag::Data {
        assert(other_chunks_bytes(scan_other_chunks(s, p).0) =~= s.subrange(p, end));
    } else {
        let next = p + 8 + u32_at(s, p + 4);
        let chunk = other_chunk_at(s, p);
        let chunks = scan_other_chunks(s, p).0;
        lemma_other_chunks_bytes(s, next);
        lemma_tag_bytes_of_tag(s.subrange(p, p + 4));
        lemma_u32_bytes_at(s, p + 4);
        assert(other_chunk_bytes(chunk) =~= s.subrange(p, next));
        assert(chunks[0] == chunk);
        assert(chunks.drop_first() =~= scan_other_chunks(s, next).0);
        assert(other_chunks_bytes(chunks) =~= s.subrange(p, end));
    }
}

/// The header of the `data` chunk, written out, is the eight bytes it was
/// decoded from, unless the tag is spelled with a capital letter.
pub proof fn lemma_data_chunk_bytes(s: Seq<u8>, p: int)
    requires
        data_chunk_at(s, p) is Ok,
        !spells_capital_data(s.subrange(p, p + 4)),
    ensures
        data_chunk_at(s, p) matches Ok((chunk, end)) && data_chunk_bytes(chunk) == s.subrange(
            p,
            end,
        ),
{
    let (chunk, end) = data_chunk_at(s, p)->Ok_0;
    lemma_tag_bytes_of_tag(s.subrange(p, p + 4));
    lemma_u32_bytes_at(s, p + 4);
    assert(data_chunk_bytes(chunk) =~= s.subrange(p, end));
}

/// Decoding and writing out again gives back the bytes that were read: the
/// chunks of a decoded container, written out in the layout above, are the
/// bytes of the source from where decoding began to where it left off.
///
/// Two spellings decode to a value that is written out otherwise, and are
/// left out: a format descriptor that declares an empty extension, and a
/// `data` tag with a capital letter.
pub proof fn lemma_headers_round_trip(s: Seq<u8>, p: int)
    requires
        document_at(s, p) is Ok,
        !declares_empty_extension(s, p + 12),
        document_at(s, p) matches Ok((_, end)) && !spells_capital_data(
            s.subrange(end - 8, end - 4),
        ),
    ensures
        document_at(s, p) matches Ok((document, end)) && document_bytes(document) == s.subrange(
            p,
            end,
        ),
{
    let (document, end) = document_at(s, p)->Ok_0;
    let fmt_start = p + 12;
    let fact_start = fmt_chunk_at(s, fmt_start)->Ok_0.1;
    let others_start = fact_chunk_at(s, fact_start)->Ok_0.1;
    let data_start = scan_other_chunks(s, others_start).1->Some_0;
    lemma_riff_chunk_bytes(s, p);
    lemma_fmt_chunk_bytes(s, fmt_start);
    lemma_fact_chunk_bytes(s, fact_start);
    lemma_other_chunks_bytes(s, others_start);
    lemma_data_chunk_bytes(s, data_start);
    assert(fmt_start <= fact_start <= others_start <= data_start);
    assert(document_bytes(document) =~= s.subrange(p, end));
}

/// The container that has nothing but what it must have: the header, a
/// format descriptor without extension, and a `data` chunk of no bytes.
pub open spec fn minimal_document(
    file_size: u32,
    fmt_size: u32,
    format_code: u16,
    num_channels: u16,
    sample_rate: u32,
    byte_rate: u32,
    block_align: u16,
    bits_per_raw_sample: u16,
) -> DocumentView {
    DocumentView {
        riff_chunk: RiffChunkView { id: Tag::Riff, file_size, file_type: Tag::Wave },
        fmt_chunk: FmtChunkView {
            id: Tag::Fmt,
            data_size: fmt_size,
            format: format_of(format_code),
            num_channels,
            sample_rate,
            byte_rate,
            block_align,
            bits_per_raw_sample,
            extra_info_size: 0,
            extended_info: None,
        },
        fact_chunk: None,
        other_chunks: Seq::empty(),
        data_chunk: DataChunkView { id: Tag::Data, data_size: 0, pad_byte: 0 },
    }
}

/// The 16-bit number read where the bytes of `x` stand is `x`.
pub proof fn lemma_u16_at_bytes(s: Seq<u8>, p: int, x: u16)
    requires
        readable(s, p, 2),
        s.subrange(p, p + 2) == u16_bytes(x),
    ensures
        u16_at(s, p) == x,
{
    lemma_le_value_of_bytes(x as nat, 2);
    lemma_radix_pow_values();
}

/// The 32-bit number read where the bytes of `x` stand is `x`.
pub proof fn lemma_u32_at_bytes(s: Seq<u8>, p: int, x: u32)
    requires
        readable(s, p, 4),
        s.subrange(p, p + 4) == u32_bytes(x),
    ensures
        u32_at(s, p) == x,
{
    lemma_le_value_of_bytes(x as nat, 4);
    lemma_radix_pow_values();
}

/// Whatever the fields of a minimal container are, the bytes that it is
/// written out as are a minimal stream of 44 bytes, and they decode to
/// that container again.
pub proof fn lemma_minimal_document_decodes(
    file_size: u32,
    fmt_size: u32,
    format_code: u16,
    num_channels: u16,
    sample_rate: u32,
    byte_rate: u32,
    block_align: u16,
    bits_per_raw_sample: u16,
)
    ensures
        is_minimal_wave(
            document_bytes(
                minimal_document(
                    file_size,
                    fmt_size,
                    format_code,
                    num_channels,
                    sample_rate,
                    byte_rate,
                    block_align,
                    bits_per_raw_sample,
                ),
            ),
        ),
        document_at(
            document_bytes(
                minimal_document(
                    file_size,
                    fmt_size,
                    format_code,
                    num_channels,
                    sample_rate,
                    byte_rate,
                    block_align,
                    bits_per_raw_sample,
                ),
            ),
            0,
        ) == Ok::<_, Error>(
            (
                minimal_document(
                    file_size,
                    fmt_size,
                    format_code,
                    num_channels,
                    sample_rate,
                    byte_rate,
                    block_align,
                    bits_per_raw_sample,
                ),
                44int,
            ),
        ),
{
    let document = minimal_document(
        file_size,
        fmt_size,
        format_code,
        num_channels,
        sample_rate,
        byte_rate,
        block_align,
        bits_per_raw_sample,
    );
    let s = document_bytes(document);
    lemma_le_bytes_len(file_size as nat, 4);
    lemma_le_bytes_len(fmt_size as nat, 4);
    lemma_le_bytes_len(format_code as nat, 2);
    lemma_le_bytes_len(num_channels as nat, 2);
    lemma_le_bytes_len(sample_rate as nat, 4);
    lemma_le_bytes_len(byte_rate as nat, 4);
    lemma_le_bytes_len(block_align as nat, 2);
    lemma_le_bytes_len(bits_per_raw_sample as nat, 2);
    lemma_le_bytes_len(0, 4);
    lemma_code_of_format(format_code);
    let riff = riff_chunk_bytes(document.riff_chunk);
    let fmt = fmt_chunk_bytes(document.fmt_chunk);
    let data = data_chunk_bytes(document.data_chunk);
    assert(riff.len() == 12);
    assert(fmt.len() == 24);
    assert(data.len() == 8);
    assert(s =~= riff + fmt + data);
    assert(s.subrange(0, 12) =~= riff);
    assert(s.subrange(12, 36) =~= fmt);
    assert(s.subrange(36, 44) =~= data);

    assert(s.subrange(0, 4) =~= tag_bytes(Tag::Riff));
    assert(s.subrange(4, 8) =~= u32_bytes(file_size));
    assert(s.subrange(8, 12) =~= tag_bytes(Tag::Wave));
    lemma_u32_at_bytes(s, 4, file_size);

    assert(s.subrange(12, 16) =~= tag_bytes(Tag::Fmt));
    assert(s.subrange(16, 20) =~= u32_bytes(fmt_size));
    assert(s.subrange(20, 22) =~= u16_bytes(format_code));
    assert(s.subrange(22, 24) =~= u16_bytes(num_channels));
    assert(s.subrange(24, 28) =~= u32_bytes(sample_rate));
    assert(s.subrange(28, 32) =~= u32_bytes(byte_rate));
    assert(s.subrange(32, 34) =~= u16_bytes(block_align));
    assert(s.subrange(34, 36) =~= u16_bytes(bits_per_raw_sample));
    lemma_u32_at_bytes(s, 16, fmt_size);
    lemma_u16_at_bytes(s, 20, format_code);
    lemma_u16_at_bytes(s, 22, num_channels);
    lemma_u32_at_bytes(s, 24, sample_rate);
    lemma_u32_at_bytes(s, 28, byte_rate);
    lemma_u16_at_bytes(s, 32, block_align);
    lemma_u16_at_bytes(s, 34, bits_per_raw_sample);

    assert(s.subrange(36, 40) =~= tag_bytes(Tag::Data));
    assert(s.subrange(40, 44) =~= u32_bytes(0));
    lemma_u32_at_bytes(s, 40, 0);

    assert(riff_chunk_at(s, 0) is Ok);
    assert(fmt_chunk_at(s, 12) == Ok::<_, Error>((document.fmt_chunk, 36int)));
    assert(is_minimal_wave(s));
    lemma_minimal_wave_decodes(s);
}

} // verus!
