//! The report on a decoded container: a few lines of text for each chunk.

use crate::chunks::{
    chunk_views, extended_info_view, fact_view, DataChunk, DataChunkView, ExtendedInfo,
    ExtendedInfoView, FactChunk, FactChunkView, FmtChunk, FmtChunkView, OtherChunk, OtherChunkView,
    RiffChunk, RiffChunkView,
};
use crate::format::Format;
use crate::fourcc::{FourCC, Tag};
use crate::grammar::DocumentView;
use crate::reader::RiffWaveReader;
use crate::text::{
    bracketed, debug_quoted, debug_quoted_string, decimal, hex_items, joined, lemma_joined_next,
    lower_hex, prefixed_binary, push_digits, push_hex_list,
};
use vstd::prelude::*;
use vstd::string::StringExecFns;

verus! {

/// The name of a format, with the code in brackets where it has none.
pub open spec fn format_name(format: Format) -> Seq<char> {
    match format {
        Format::UncompressedPCM => "UncompressedPCM"@,
        Format::IeeeFloatingPoint => "IeeeFloatingPoint"@,
        Format::G711ALaw => "G711ALaw"@,
        Format::G711ULaw => "G711ULaw"@,
        Format::ExtendedWave => "ExtendedWave"@,
        Format::Other(code) => "Other("@ + decimal(code as nat) + ")"@,
    }
}

/// The lines on the container header and the format descriptor.
pub open spec fn header_text(riff: RiffChunkView, fmt: FmtChunkView) -> Seq<char> {
    "------ Header ------\nSize:            "@ + decimal(riff.file_size as nat)
        + "\nFormat:          "@ + format_name(fmt.format) + "\nChannels:        "@ + decimal(
        fmt.num_channels as nat,
    ) + "\nSample Rate:     "@ + decimal(fmt.sample_rate as nat) + "\nByte Rate:       "@
        + decimal(fmt.byte_rate as nat) + "\nBlock Align:     "@ + decimal(fmt.block_align as nat)
        + "\nBits per Raw:    "@ + decimal(fmt.bits_per_raw_sample as nat)
        + "\nExtra Info:      "@ + decimal(fmt.extra_info_size as nat)
}

/// The lines on the extension of the format descriptor; nothing where it
/// has none.
pub open spec fn extended_text(info: Option<ExtendedInfoView>) -> Seq<char> {
    match info {
        None => Seq::empty(),
        Some(info) => "\n----- Extended -----\nBits per Coded:  "@ + decimal(
            info.bits_per_coded_sample as nat,
        ) + "\nChannel Mask:    "@ + prefixed_binary(info.channel_mask as nat)
            + "\nSub Format:      "@ + lower_hex(info.sub_format as nat)
            + "\nRemaining Data:  "@ + bracketed(hex_items(info.remaining_data)),
    }
}

/// The lines on the `fact` chunk; nothing where there is none.
pub open spec fn fact_text(fact: Option<FactChunkView>) -> Seq<char> {
    match fact {
        None => Seq::empty(),
        Some(fact) => "\n------- Fact -------\nFact Length:     "@ + decimal(
            fact.data_size as nat,
        ) + "\nSample Length:   "@ + decimal(fact.sample_length as nat)
            + "\nRemaining Data:  "@ + bracketed(hex_items(fact.remaining_data)),
    }
}

/// The characters of a tag that the decoder does not know; nothing for the
/// tags that it knows.
pub open spec fn tag_name(tag: Tag) -> Seq<char> {
    match tag {
        Tag::Other(name) => name,
        _ => Seq::empty(),
    }
}

/// The name of each chunk, as `{:?}` writes it.
pub open spec fn quoted_names(chunks: Seq<OtherChunkView>) -> Seq<Seq<char>> {
    Seq::new(chunks.len(), |i: int| debug_quoted(tag_name(chunks[i].id)))
}

/// The characters of each string.
pub open spec fn string_views(strings: Seq<String>) -> Seq<Seq<char>> {
    Seq::new(strings.len(), |i: int| strings[i]@)
}

/// The lines on the other chunks, from their names as they are to be
/// shown; nothing where there are none.
pub open spec fn other_chunks_text(names: Seq<Seq<char>>) -> Seq<char> {
    if names.len() == 0 {
        Seq::empty()
    } else {
        "\n--- Other Chunks ---\nChunk Ids:       "@ + bracketed(names)
    }
}

/// The lines on the `data` chunk.
pub open spec fn data_text(data: DataChunkView) -> Seq<char> {
    "\n------- Data -------\nData Length:     "@ + decimal(data.data_size as nat)
        + "\nPadding Byte:    "@ + decimal(data.pad_byte as nat)
}

/// The whole report: header, then extension, `fact` chunk and other chunks
/// as far as the container has them, then the `data` chunk.
pub open spec fn report_text(document: DocumentView) -> Seq<char> {
    header_text(document.riff_chunk, document.fmt_chunk) + extended_text(
        document.fmt_chunk.extended_info,
    ) + fact_text(document.fact_chunk) + other_chunks_text(quoted_names(document.other_chunks))
        + data_text(document.data_chunk)
}

fn format_name_string(format: Format) -> (name: String)
    ensures
        name@ == format_name(format),
{
    match format {
        Format::UncompressedPCM => "UncompressedPCM".to_owned(),
        Format::IeeeFloatingPoint => "IeeeFloatingPoint".to_owned(),
        Format::G711ALaw => "G711ALaw".to_owned(),
        Format::G711ULaw => "G711ULaw".to_owned(),
        Format::ExtendedWave => "ExtendedWave".to_owned(),
        Format::Other(code) => {
            let mut name = "Other(".to_owned();
            push_digits(&mut name, code as u128, 10, 1);
            name.append(")");
            name
        },
    }
}

fn prefixed_binary_string(n: u32) -> (text: String)
    ensures
        text@ == prefixed_binary(n as nat),
{
    let mut text = "0b".to_owned();
    push_digits(&mut text, n as u128, 2, 16);
    text
}

fn header_string(riff: &RiffChunk, fmt: &FmtChunk) -> (text: String)
    ensures
        text@ == header_text(riff@, fmt@),
{
    let mut text = "------ Header ------\nSize:            ".to_owned();
    push_digits(&mut text, riff.file_size as u128, 10, 1);
    text.append("\nFormat:          ");
    text.append(format_name_string(fmt.format).as_str());
    text.append("\nChannels:        ");
    push_digits(&mut text, fmt.num_channels as u128, 10, 1);
    text.append("\nSample Rate:     ");
    push_digits(&mut text, fmt.sample_rate as u128, 10, 1);
    text.append("\nByte Rate:       ");
    push_digits(&mut text, fmt.byte_rate as u128, 10, 1);
    text.append("\nBlock Align:     ");
    push_digits(&mut text, fmt.block_align as u128, 10, 1);
    text.append("\nBits per Raw:    ");
    push_digits(&mut text, fmt.bits_per_raw_sample as u128, 10, 1);
    text.append("\nExtra Info:      ");
    push_digits(&mut text, fmt.extra_info_size as u128, 10, 1);
    text
}

fn extended_string(info: &Option<ExtendedInfo>) -> (text: String)
    ensures
        text@ == extended_text(extended_info_view(*info)),
{
    match info {
        None => String::new(),
        Some(info) => {
            let mut text = "\n----- Extended -----\nBits per Coded:  ".to_owned();
            push_digits(&mut text, info.bits_per_coded_sample as u128, 10, 1);
            text.append("\nChannel Mask:    ");
            text.append(prefixed_binary_string(info.channel_mask).as_str());
            text.append("\nSub Format:      ");
            push_digits(&mut text, info.sub_format, 16, 1);
            text.append("\nRemaining Data:  ");
            push_hex_list(&mut text, &info.remaining_data);
            text
        },
    }
}

fn fact_string(fact: &Option<FactChunk>) -> (text: String)
    ensures
        text@ == fact_text(fact_view(*fact)),
{
    match fact {
        None => String::new(),
        Some(fact) => {
            let mut text = "\n------- Fact -------\nFact Length:     ".to_owned();
            push_digits(&mut text, fact.data_size as u128, 10, 1);
            text.append("\nSample Length:   ");
            push_digits(&mut text, fact.sample_length as u128, 10, 1);
            text.append("\nRemaining Data:  ");
            push_hex_list(&mut text, &fact.remaining_data);
            text
        },
    }
}

fn quoted_name_string(id: &FourCC) -> (quoted: String)
    ensures
        quoted@ == debug_quoted(tag_name(id@)),
{
    match id {
        FourCC::Other(name) => debug_quoted_string(name.as_str()),
        _ => {
            proof {
                reveal_strlit("");
                assert(""@ =~= Seq::<char>::empty());
            }
            debug_quoted_string("")
        },
    }
}

/// The name of each chunk, as `{:?}` writes it. A chunk with a tag that
/// the decoder knows has the empty name.
pub fn quoted_chunk_names(chunks: &Vec<OtherChunk>) -> (names: Vec<String>)
    ensures
        string_views(names@) == quoted_names(chunk_views(chunks@)),
{
    let mut names: Vec<String> = Vec::new();
    let mut i: usize = 0;
    while i < chunks.len()
        invariant
            i <= chunks.len(),
            names.len() == i,
            string_views(names@) == quoted_names(chunk_views(chunks@)).take(i as int),
        decreases chunks.len() - i,
    {
        let quoted = quoted_name_string(&chunks[i].id);
        proof {
            let all = quoted_names(chunk_views(chunks@));
            let longer = string_views(names@.push(quoted));
            assert(chunk_views(chunks@)[i as int] == chunks@[i as int]@);
            assert forall|j: int| 0 <= j < i + 1 implies longer[j] == all.take(i + 1)[j] by {
                if j < i {
                    assert(string_views(names@)[j] == all.take(i as int)[j]);
                }
            }
            assert(longer =~= all.take(i + 1));
        }
        names.push(quoted);
        i += 1;
    }
    proof {
        assert(quoted_names(chunk_views(chunks@)).take(i as int) =~= quoted_names(
            chunk_views(chunks@),
        ));
    }
    names
}

/// The lines of the report on the other chunks, from their names as they
/// are to be shown: a heading and the list of the names, or nothing where
/// there are no names.
pub fn other_chunks_string(names: &Vec<String>) -> (text: String)
    ensures
        text@ == other_chunks_text(string_views(names@)),
{
    if names.len() == 0 {
        return String::new();
    }
    let ghost items = string_views(names@);
    let mut list = "[".to_owned();
    let mut i: usize = 0;
    while i < names.len()
        invariant
            i <= names.len(),
            items == string_views(names@),
            list@ == "["@ + joined(items.take(i as int)),
        decreases names.len() - i,
    {
        if i > 0 {
            list.append(", ");
        }
        list.append(names[i].as_str());
        proof {
            lemma_joined_next(items, i as int);
            assert(list@ =~= "["@ + joined(items.take(i + 1)));
        }
        i += 1;
    }
    list.append("]");
    proof {
        assert(items.take(i as int) =~= items);
    }
    let mut text = "\n--- Other Chunks ---\nChunk Ids:       ".to_owned();
    text.append(list.as_str());
    text
}

fn data_string(data: &DataChunk) -> (text: String)
    ensures
        text@ == data_text(data@),
{
    let mut text = "\n------- Data -------\nData Length:     ".to_owned();
    push_digits(&mut text, data.data_size as u128, 10, 1);
    text.append("\nPadding Byte:    ");
    push_digits(&mut text, data.pad_byte as u128, 10, 1);
    text
}

impl RiffWaveReader {
    /// The report on the container: its sizes and format, the extension,
    /// the `fact` chunk and the names of the other chunks where it has them,
    /// and the declared length and padding of the `data` chunk.
    pub fn to_string(&self) -> (text: String)
        ensures
            text@ == report_text(self@),
    {
        let mut text = header_string(&self.riff_chunk, &self.fmt_chunk);
        text.append(extended_string(&self.fmt_chunk.extended_info).as_str());
        text.append(fact_string(&self.fact_chunk).as_str());
        let names = quoted_chunk_names(&self.other_chunks);
        text.append(other_chunks_string(&names).as_str());
        text.append(data_string(&self.data_chunk).as_str());
        text
    }
}

} // verus!
