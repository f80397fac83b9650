use riff_wave_reader::{
    ByteCursor, DataChunk, Error, ExtendedInfo, FactChunk, FmtChunk, Format, FourCC, OtherChunk,
    RiffChunk, RiffWaveReader,
};

fn riff_header(file_size: u32) -> Vec<u8> {
    let mut bytes = b"RIFF".to_vec();
    bytes.extend_from_slice(&file_size.to_le_bytes());
    bytes.extend_from_slice(b"WAVE");
    bytes
}

fn fmt_base(data_size: u32, code: u16) -> Vec<u8> {
    let mut bytes = b"fmt ".to_vec();
    bytes.extend_from_slice(&data_size.to_le_bytes());
    bytes.extend_from_slice(&code.to_le_bytes());
    bytes.extend_from_slice(&2u16.to_le_bytes());
    bytes.extend_from_slice(&44100u32.to_le_bytes());
    bytes.extend_from_slice(&176400u32.to_le_bytes());
    bytes.extend_from_slice(&4u16.to_le_bytes());
    bytes.extend_from_slice(&16u16.to_le_bytes());
    bytes
}

fn data_header(tag: &[u8; 4], size: u32) -> Vec<u8> {
    let mut bytes = tag.to_vec();
    bytes.extend_from_slice(&size.to_le_bytes());
    bytes
}

fn expected_fmt(data_size: u32, format: Format) -> FmtChunk {
    FmtChunk {
        id: FourCC::Fmt,
        data_size,
        format,
        num_channels: 2,
        sample_rate: 44100,
        byte_rate: 176400,
        block_align: 4,
        bits_per_raw_sample: 16,
        extra_info_size: 0,
        extended_info: None,
    }
}

fn minimal_stream() -> Vec<u8> {
    let mut bytes = riff_header(36);
    bytes.extend(fmt_base(16, 1));
    bytes.extend(data_header(b"data", 0));
    bytes
}

#[test]
fn minimal_stream_decodes_without_fact_and_other_chunks() {
    let reader = RiffWaveReader::new(ByteCursor::new(minimal_stream())).unwrap();
    assert_eq!(
        reader.riff_chunk,
        RiffChunk { id: FourCC::Riff, file_size: 36, file_type: FourCC::Wave }
    );
    assert_eq!(reader.fmt_chunk, expected_fmt(16, Format::UncompressedPCM));
    assert_eq!(reader.fact_chunk, None);
    assert_eq!(reader.other_chunks, vec![]);
    assert_eq!(reader.data_chunk, DataChunk { id: FourCC::Data, data_size: 0, pad_byte: 0 });
    assert_eq!(reader.into_reader().position(), 44);
}

#[test]
fn capital_data_tag_is_the_data_chunk() {
    let mut bytes = riff_header(36);
    bytes.extend(fmt_base(16, 1));
    bytes.extend(data_header(b"Data", 2));
    bytes.extend_from_slice(&[9, 8]);
    let reader = RiffWaveReader::new(ByteCursor::new(bytes)).unwrap();
    assert_eq!(reader.other_chunks, vec![]);
    assert_eq!(reader.data_chunk, DataChunk { id: FourCC::Data, data_size: 2, pad_byte: 0 });
}

#[test]
fn first_tag_other_than_riff_is_not_riff() {
    let mut bytes = minimal_stream();
    bytes[3] = b'X';
    let r = RiffWaveReader::new(ByteCursor::new(bytes));
    assert!(matches!(r, Err(Error::NotRiff)));
}

#[test]
fn not_riff_is_decided_after_four_bytes() {
    let mut cursor = ByteCursor::new(b"RIFXrest of the stream".to_vec());
    assert_eq!(cursor.read_riff_chunk(), Err(Error::NotRiff));
    assert_eq!(cursor.position(), 4);
    let r = RiffWaveReader::new(ByteCursor::new(b"JUNK".to_vec()));
    assert!(matches!(r, Err(Error::NotRiff)));
}

#[test]
fn container_type_other_than_wave_is_not_wave() {
    let mut bytes = minimal_stream();
    bytes[8..12].copy_from_slice(b"AVI ");
    let r = RiffWaveReader::new(ByteCursor::new(bytes.clone()));
    assert!(matches!(r, Err(Error::NotWave)));
    let mut cursor = ByteCursor::new(bytes);
    assert_eq!(cursor.read_riff_chunk(), Err(Error::NotWave));
    assert_eq!(cursor.position(), 12);
}

#[test]
fn chunk_after_header_must_be_fmt() {
    let mut bytes = minimal_stream();
    bytes[12..16].copy_from_slice(b"fmtx");
    let r = RiffWaveReader::new(ByteCursor::new(bytes));
    assert!(matches!(r, Err(Error::InvalidFmtChunk)));
}

#[test]
fn fmt_followed_by_known_tag_has_no_extension() {
    let mut bytes = fmt_base(16, 3);
    bytes.extend(data_header(b"data", 0));
    let mut cursor = ByteCursor::new(bytes);
    let fmt = cursor.read_fmt_chunk().unwrap();
    assert_eq!(fmt.extra_info_size, 0);
    assert_eq!(fmt.extended_info, None);
    assert_eq!(fmt, expected_fmt(16, Format::IeeeFloatingPoint));
    assert_eq!(cursor.position(), 24);
}

#[test]
fn fmt_followed_by_fact_tag_has_no_extension() {
    let mut bytes = fmt_base(16, 6);
    bytes.extend_from_slice(b"fact");
    let mut cursor = ByteCursor::new(bytes);
    let fmt = cursor.read_fmt_chunk().unwrap();
    assert_eq!(fmt, expected_fmt(16, Format::G711ALaw));
    assert_eq!(cursor.position(), 24);
}

#[test]
fn extension_size_zero_is_no_extension() {
    let mut bytes = fmt_base(18, 7);
    bytes.extend_from_slice(&0u16.to_le_bytes());
    bytes.extend(data_header(b"data", 0));
    let mut cursor = ByteCursor::new(bytes);
    let fmt = cursor.read_fmt_chunk().unwrap();
    assert_eq!(fmt, expected_fmt(18, Format::G711ULaw));
    assert_eq!(cursor.position(), 26);
}

#[test]
fn extension_size_ten_is_invalid() {
    let mut bytes = riff_header(100);
    bytes.extend(fmt_base(28, 65534));
    bytes.extend_from_slice(&10u16.to_le_bytes());
    bytes.extend_from_slice(&[0u8; 10]);
    bytes.extend(data_header(b"data", 0));
    let r = RiffWaveReader::new(ByteCursor::new(bytes));
    assert!(matches!(r, Err(Error::InvalidExtendedInfo)));
}

#[test]
fn extension_sizes_below_twenty_two_are_invalid() {
    for size in [1u16, 10, 21] {
        let mut cursor = ByteCursor::new(vec![0u8; 64]);
        assert_eq!(cursor.read_extended_info(size), Err(Error::InvalidExtendedInfo));
        assert_eq!(cursor.position(), 0);
    }
    let mut bytes = fmt_base(40, 65534);
    bytes.extend_from_slice(&21u16.to_le_bytes());
    bytes.extend_from_slice(&[0u8; 30]);
    let mut cursor = ByteCursor::new(bytes);
    assert_eq!(cursor.read_fmt_chunk(), Err(Error::InvalidExtendedInfo));
    assert_eq!(cursor.position(), 26);
}

fn extension_bytes(extra: &[u8]) -> Vec<u8> {
    let mut bytes = Vec::new();
    bytes.extend_from_slice(&24u16.to_le_bytes());
    bytes.extend_from_slice(&0x0000_0003u32.to_le_bytes());
    bytes.extend_from_slice(&0x0123_4567_89ab_cdef_0011_2233_4455_6677u128.to_le_bytes());
    bytes.extend_from_slice(extra);
    bytes
}

#[test]
fn extension_is_decoded_with_its_remaining_bytes() {
    let mut bytes = fmt_base(43, 65534);
    bytes.extend_from_slice(&25u16.to_le_bytes());
    bytes.extend(extension_bytes(&[7, 8, 9]));
    bytes.extend(data_header(b"data", 0));
    let mut cursor = ByteCursor::new(bytes);
    let fmt = cursor.read_fmt_chunk().unwrap();
    assert_eq!(fmt.format, Format::ExtendedWave);
    assert_eq!(fmt.extra_info_size, 25);
    assert_eq!(
        fmt.extended_info,
        Some(ExtendedInfo {
            bits_per_coded_sample: 24,
            channel_mask: 3,
            sub_format: 0x0123_4567_89ab_cdef_0011_2233_4455_6677,
            remaining_data: vec![7, 8, 9],
        })
    );
    assert_eq!(cursor.position(), 24 + 2 + 25);
}

#[test]
fn extension_of_exactly_twenty_two_bytes_has_nothing_remaining() {
    let mut cursor = ByteCursor::new(extension_bytes(&[]));
    let info = cursor.read_extended_info(22).unwrap().unwrap();
    assert_eq!(info.remaining_data, Vec::<u8>::new());
    assert_eq!(cursor.position(), 22);
}

#[test]
fn extension_cut_short_is_an_io_error() {
    let mut cursor = ByteCursor::new(extension_bytes(&[1, 2]));
    assert_eq!(cursor.read_extended_info(30), Err(Error::IOError));
    assert_eq!(cursor.position(), 24);
}

#[test]
fn fact_chunk_is_decoded() {
    let mut bytes = b"fact".to_vec();
    bytes.extend_from_slice(&6u32.to_le_bytes());
    bytes.extend_from_slice(&1000u32.to_le_bytes());
    bytes.extend_from_slice(&[0xaa, 0xbb]);
    bytes.extend_from_slice(b"data");
    let mut cursor = ByteCursor::new(bytes);
    assert_eq!(
        cursor.read_fact_chunk(),
        Ok(Some(FactChunk {
            id: FourCC::Fact,
            data_size: 6,
            sample_length: 1000,
            remaining_data: vec![0xaa, 0xbb],
        }))
    );
    assert_eq!(cursor.position(), 14);
}

#[test]
fn absent_fact_chunk_leaves_the_tag_unread() {
    let mut cursor = ByteCursor::new(b"xxdata\0\0\0\0".to_vec());
    cursor.read_exact(2).unwrap();
    assert_eq!(cursor.read_fact_chunk(), Ok(None));
    assert_eq!(cursor.position(), 2);
    assert_eq!(cursor.read_fourcc(), Ok(FourCC::Data));
}

#[test]
fn fact_chunk_smaller_than_its_sample_length_is_invalid() {
    for size in [0u32, 3] {
        let mut bytes = b"fact".to_vec();
        bytes.extend_from_slice(&size.to_le_bytes());
        bytes.extend_from_slice(&1000u32.to_le_bytes());
        bytes.extend_from_slice(&[0u8; 16]);
        let mut cursor = ByteCursor::new(bytes);
        assert_eq!(cursor.read_fact_chunk(), Err(Error::InvalidFactChunk));
        assert_eq!(cursor.position(), 12);
    }
}

#[test]
fn fact_chunk_of_four_bytes_has_nothing_remaining() {
    let mut bytes = b"fact".to_vec();
    bytes.extend_from_slice(&4u32.to_le_bytes());
    bytes.extend_from_slice(&77u32.to_le_bytes());
    let mut cursor = ByteCursor::new(bytes);
    let fact = cursor.read_fact_chunk().unwrap().unwrap();
    assert_eq!(fact.sample_length, 77);
    assert_eq!(fact.remaining_data, Vec::<u8>::new());
    assert_eq!(cursor.position(), 12);
}

fn list_chunk() -> Vec<u8> {
    let mut bytes = b"LIST".to_vec();
    bytes.extend_from_slice(&8u32.to_le_bytes());
    bytes.extend_from_slice(&[1, 2, 3, 4, 5, 6, 7, 8]);
    bytes
}

fn expected_list_chunk() -> OtherChunk {
    OtherChunk {
        id: FourCC::Other(String::from("LIST")),
        data_size: 8,
        data: vec![1, 2, 3, 4, 5, 6, 7, 8],
    }
}

#[test]
fn list_chunk_between_fmt_and_data_is_kept() {
    let mut bytes = riff_header(62);
    bytes.extend(fmt_base(18, 1));
    bytes.extend_from_slice(&0u16.to_le_bytes());
    bytes.extend(list_chunk());
    bytes.extend(data_header(b"data", 4));
    bytes.extend_from_slice(&[0x10, 0x20, 0x30, 0x40]);
    let mut reader = RiffWaveReader::new(ByteCursor::new(bytes)).unwrap();
    assert_eq!(reader.other_chunks, vec![expected_list_chunk()]);
    assert_eq!(reader.other_chunks[0].data.len(), 8);
    assert_eq!(reader.fmt_chunk, expected_fmt(18, Format::UncompressedPCM));
    assert_eq!(reader.fact_chunk, None);
    assert_eq!(reader.data_chunk, DataChunk { id: FourCC::Data, data_size: 4, pad_byte: 0 });
    assert_eq!(reader.data(), Ok(vec![0x10, 0x20, 0x30, 0x40]));
}

#[test]
fn list_chunk_after_fact_chunk_is_kept() {
    let mut bytes = riff_header(72);
    bytes.extend(fmt_base(16, 1));
    bytes.extend_from_slice(b"fact");
    bytes.extend_from_slice(&4u32.to_le_bytes());
    bytes.extend_from_slice(&12u32.to_le_bytes());
    bytes.extend(list_chunk());
    bytes.extend(data_header(b"data", 1));
    bytes.push(0x55);
    let mut reader = RiffWaveReader::new(ByteCursor::new(bytes)).unwrap();
    assert_eq!(
        reader.fact_chunk,
        Some(FactChunk { id: FourCC::Fact, data_size: 4, sample_length: 12, remaining_data: vec![] })
    );
    assert_eq!(reader.other_chunks, vec![expected_list_chunk()]);
    assert_eq!(reader.data_chunk, DataChunk { id: FourCC::Data, data_size: 1, pad_byte: 1 });
    assert_eq!(reader.data(), Ok(vec![0x55]));
}

#[test]
fn unknown_tag_right_after_the_fmt_fields_is_taken_for_an_extension_size() {
    let mut bytes = fmt_base(16, 1);
    bytes.extend(list_chunk());
    bytes.extend(data_header(b"data", 0));
    let mut cursor = ByteCursor::new(bytes.clone());
    assert_eq!(cursor.read_fmt_chunk(), Err(Error::IOError));
    assert_eq!(cursor.position(), bytes.len());
}

#[test]
fn several_other_chunks_keep_their_order() {
    let mut bytes = b"LIST".to_vec();
    bytes.extend_from_slice(&1u32.to_le_bytes());
    bytes.push(0xee);
    bytes.extend_from_slice(b"cue ");
    bytes.extend_from_slice(&0u32.to_le_bytes());
    bytes.extend_from_slice(b"RIFF");
    bytes.extend_from_slice(&2u32.to_le_bytes());
    bytes.extend_from_slice(&[5, 6]);
    bytes.extend_from_slice(b"Data");
    let mut cursor = ByteCursor::new(bytes);
    let mut chunks = vec![OtherChunk { id: FourCC::Fact, data_size: 0, data: vec![] }];
    assert_eq!(cursor.read_other_chunks(&mut chunks), Ok(()));
    assert_eq!(
        chunks,
        vec![
            OtherChunk { id: FourCC::Fact, data_size: 0, data: vec![] },
            OtherChunk { id: FourCC::Other(String::from("LIST")), data_size: 1, data: vec![0xee] },
            OtherChunk { id: FourCC::Other(String::from("cue ")), data_size: 0, data: vec![] },
            OtherChunk { id: FourCC::Riff, data_size: 2, data: vec![5, 6] },
        ]
    );
    assert_eq!(cursor.position(), 27);
    assert_eq!(cursor.read_fourcc(), Ok(FourCC::Data));
}

#[test]
fn stream_without_data_tag_ends_in_an_io_error() {
    let mut bytes = b"LIST".to_vec();
    bytes.extend_from_slice(&2u32.to_le_bytes());
    bytes.extend_from_slice(&[1, 2]);
    bytes.extend_from_slice(b"JUNK");
    bytes.extend_from_slice(&9u32.to_le_bytes());
    bytes.extend_from_slice(&[1, 2, 3]);
    let mut cursor = ByteCursor::new(bytes);
    let mut chunks = Vec::new();
    assert_eq!(cursor.read_other_chunks(&mut chunks), Err(Error::IOError));
    assert_eq!(
        chunks,
        vec![OtherChunk {
            id: FourCC::Other(String::from("LIST")),
            data_size: 2,
            data: vec![1, 2],
        }]
    );
    assert_eq!(cursor.position(), 21);
}

#[test]
fn odd_data_size_needs_a_pad_byte() {
    let mut cursor = ByteCursor::new(data_header(b"data", 7));
    assert_eq!(
        cursor.read_data_chunk(),
        Ok(DataChunk { id: FourCC::Data, data_size: 7, pad_byte: 1 })
    );
    let mut cursor = ByteCursor::new(data_header(b"data", 8));
    assert_eq!(
        cursor.read_data_chunk(),
        Ok(DataChunk { id: FourCC::Data, data_size: 8, pad_byte: 0 })
    );
    let mut cursor = ByteCursor::new(data_header(b"data", u32::MAX));
    assert_eq!(cursor.read_data_chunk().unwrap().pad_byte, 1);
}

#[test]
fn truncated_streams_are_io_errors() {
    let whole = minimal_stream();
    for len in 0..whole.len() {
        let r = RiffWaveReader::new(ByteCursor::new(whole[..len].to_vec()));
        assert!(matches!(r, Err(Error::IOError)), "length {}", len);
    }
    assert!(RiffWaveReader::new(ByteCursor::new(whole)).is_ok());
}

#[test]
fn data_reads_to_the_end_of_the_source_once() {
    let mut bytes = minimal_stream();
    bytes.extend_from_slice(&[1, 2, 3, 4, 5]);
    let mut reader = RiffWaveReader::new(ByteCursor::new(bytes.clone())).unwrap();
    assert_eq!(reader.data_chunk.data_size, 0);
    assert_eq!(reader.data(), Ok(vec![1, 2, 3, 4, 5]));
    assert_eq!(reader.data(), Ok(vec![]));
    let cursor = reader.into_reader();
    assert_eq!(cursor.position(), bytes.len());
    assert_eq!(cursor.into_inner(), bytes);
}

#[test]
fn into_reader_gives_the_source_after_the_data_header() {
    let mut bytes = minimal_stream();
    bytes.extend_from_slice(&[0xde, 0xad]);
    let reader = RiffWaveReader::new(ByteCursor::new(bytes.clone())).unwrap();
    let mut cursor = reader.into_reader();
    assert_eq!(cursor.position(), 44);
    assert_eq!(cursor.get_ref(), &bytes);
    assert_eq!(cursor.read_to_end(), vec![0xde, 0xad]);
}

#[test]
fn decoding_starts_at_the_position_of_the_cursor() {
    let mut bytes = vec![0xff, 0xfe, 0xfd];
    bytes.extend(minimal_stream());
    let mut cursor = ByteCursor::new(bytes);
    cursor.read_exact(3).unwrap();
    let reader = RiffWaveReader::new(cursor).unwrap();
    assert_eq!(reader.riff_chunk.file_size, 36);
    assert_eq!(reader.into_reader().position(), 47);
}

fn tag_bytes(tag: &FourCC) -> Vec<u8> {
    match tag {
        FourCC::Riff => b"RIFF".to_vec(),
        FourCC::Wave => b"WAVE".to_vec(),
        FourCC::Fmt => b"fmt ".to_vec(),
        FourCC::Data => b"data".to_vec(),
        FourCC::Fact => b"fact".to_vec(),
        FourCC::Other(name) => name.chars().map(|c| c as u32 as u8).collect(),
    }
}

fn format_code(format: Format) -> u16 {
    match format {
        Format::UncompressedPCM => 1,
        Format::IeeeFloatingPoint => 3,
        Format::G711ALaw => 6,
        Format::G711ULaw => 7,
        Format::ExtendedWave => 65534,
        Format::Other(code) => code,
    }
}

fn headers(reader: &RiffWaveReader) -> Vec<u8> {
    let mut out = tag_bytes(&reader.riff_chunk.id);
    out.extend_from_slice(&reader.riff_chunk.file_size.to_le_bytes());
    out.extend(tag_bytes(&reader.riff_chunk.file_type));
    let fmt = &reader.fmt_chunk;
    out.extend(tag_bytes(&fmt.id));
    out.extend_from_slice(&fmt.data_size.to_le_bytes());
    out.extend_from_slice(&format_code(fmt.format).to_le_bytes());
    out.extend_from_slice(&fmt.num_channels.to_le_bytes());
    out.extend_from_slice(&fmt.sample_rate.to_le_bytes());
    out.extend_from_slice(&fmt.byte_rate.to_le_bytes());
    out.extend_from_slice(&fmt.block_align.to_le_bytes());
    out.extend_from_slice(&fmt.bits_per_raw_sample.to_le_bytes());
    if let Some(info) = &fmt.extended_info {
        out.extend_from_slice(&fmt.extra_info_size.to_le_bytes());
        out.extend_from_slice(&info.bits_per_coded_sample.to_le_bytes());
        out.extend_from_slice(&info.channel_mask.to_le_bytes());
        out.extend_from_slice(&info.sub_format.to_le_bytes());
        out.extend_from_slice(&info.remaining_data);
    }
    if let Some(fact) = &reader.fact_chunk {
        out.extend(tag_bytes(&fact.id));
        out.extend_from_slice(&fact.data_size.to_le_bytes());
        out.extend_from_slice(&fact.sample_length.to_le_bytes());
        out.extend_from_slice(&fact.remaining_data);
    }
    for chunk in &reader.other_chunks {
        out.extend(tag_bytes(&chunk.id));
        out.extend_from_slice(&chunk.data_size.to_le_bytes());
        out.extend_from_slice(&chunk.data);
    }
    out.extend(tag_bytes(&reader.data_chunk.id));
    out.extend_from_slice(&reader.data_chunk.data_size.to_le_bytes());
    out
}

#[test]
fn headers_written_out_again_are_the_bytes_that_were_read() {
    let mut bytes = riff_header(1234);
    bytes.extend(fmt_base(40, 65534));
    bytes.extend_from_slice(&24u16.to_le_bytes());
    bytes.extend(extension_bytes(&[0x80, 0xff]));
    bytes.extend_from_slice(b"fact");
    bytes.extend_from_slice(&5u32.to_le_bytes());
    bytes.extend_from_slice(&99u32.to_le_bytes());
    bytes.push(0x42);
    bytes.extend_from_slice(&[b'L', 0xe9, 0x00, 0xff]);
    bytes.extend_from_slice(&3u32.to_le_bytes());
    bytes.extend_from_slice(&[1, 2, 3]);
    bytes.extend_from_slice(b"WAVE");
    bytes.extend_from_slice(&0u32.to_le_bytes());
    bytes.extend(data_header(b"data", 3));
    let header_len = bytes.len();
    bytes.extend_from_slice(&[7, 7, 7, 0]);
    let reader = RiffWaveReader::new(ByteCursor::new(bytes.clone())).unwrap();
    assert_eq!(reader.other_chunks.len(), 2);
    assert_eq!(reader.other_chunks[0].id, FourCC::Other(String::from("L\u{e9}\0\u{ff}")));
    assert_eq!(reader.other_chunks[1].id, FourCC::Wave);
    assert_eq!(headers(&reader), &bytes[..header_len]);
    assert_eq!(reader.into_reader().position(), header_len);
}

#[test]
fn capital_data_tag_is_written_out_in_lower_case() {
    let mut bytes = riff_header(36);
    bytes.extend(fmt_base(16, 1));
    bytes.extend(data_header(b"Data", 0));
    let reader = RiffWaveReader::new(ByteCursor::new(bytes.clone())).unwrap();
    let written = headers(&reader);
    assert_eq!(written.len(), bytes.len());
    assert_eq!(&written[..36], &bytes[..36]);
    assert_eq!(&written[36..40], b"data");
    assert_eq!(&written[40..], &bytes[40..]);
}

#[test]
fn empty_extension_is_not_written_out() {
    let mut bytes = riff_header(38);
    bytes.extend(fmt_base(18, 1));
    bytes.extend_from_slice(&0u16.to_le_bytes());
    bytes.extend(data_header(b"data", 0));
    let with_size_field = RiffWaveReader::new(ByteCursor::new(bytes.clone())).unwrap();
    assert_eq!(with_size_field.fmt_chunk, expected_fmt(18, Format::UncompressedPCM));
    let written = headers(&with_size_field);
    assert_eq!(written.len() + 2, bytes.len());
    assert_eq!(&written[..36], &bytes[..36]);
    assert_eq!(&written[36..], &bytes[38..]);
}

#[test]
fn tags_can_be_cloned() {
    let tag = FourCC::Other(String::from("LIST"));
    assert_eq!(tag.clone(), tag);
    assert_eq!(FourCC::Data.clone(), FourCC::Data);
}
