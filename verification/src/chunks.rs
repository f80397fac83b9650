//! The chunks of a decoded container, and what each stands for in contracts.

use crate::format::Format;
use crate::fourcc::{FourCC, Tag};
use vstd::prelude::*;

verus! {

/// The container header: the first twelve bytes of a stream.
#[derive(Debug, PartialEq, Eq)]
pub struct RiffChunk {
    pub id: FourCC,
    /// The number of bytes that are declared to follow this field.
    pub file_size: u32,
    pub file_type: FourCC,
}

/// The format descriptor.
#[derive(Debug, PartialEq, Eq)]
pub struct FmtChunk {
    pub id: FourCC,
    pub data_size: u32,
    pub format: Format,
    pub num_channels: u16,
    pub sample_rate: u32,
    pub byte_rate: u32,
    pub block_align: u16,
    pub bits_per_raw_sample: u16,
    /// The declared size of the extension, 0 where the stream has none.
    pub extra_info_size: u16,
    pub extended_info: Option<ExtendedInfo>,
}

/// The extension of a format descriptor.
#[derive(Debug, PartialEq, Eq)]
pub struct ExtendedInfo {
    pub bits_per_coded_sample: u16,
    pub channel_mask: u32,
    pub sub_format: u128,
    /// What the extension holds beyond its 22 fixed bytes.
    pub remaining_data: Vec<u8>,
}

/// The optional `fact` chunk.
#[derive(Debug, PartialEq, Eq)]
pub struct FactChunk {
    pub id: FourCC,
    pub data_size: u32,
    pub sample_length: u32,
    /// What the chunk holds beyond the 4 bytes of its sample length.
    pub remaining_data: Vec<u8>,
}

/// A chunk that the decoder does not interpret, kept whole.
#[derive(Debug, PartialEq, Eq)]
pub struct OtherChunk {
    pub id: FourCC,
    pub data_size: u32,
    pub data: Vec<u8>,
}

/// The header of the `data` chunk. The samples themselves are not held here.
#[derive(Debug, PartialEq, Eq)]
pub struct DataChunk {
    pub id: FourCC,
    pub data_size: u32,
    /// 1 where `data_size` is odd, so that a padding byte follows the
    /// samples, and 0 where it is even.
    pub pad_byte: u8,
}

pub struct RiffChunkView {
    pub id: Tag,
    pub file_size: u32,
    pub file_type: Tag,
}

pub struct ExtendedInfoView {
    pub bits_per_coded_sample: u16,
    pub channel_mask: u32,
    pub sub_format: u128,
    pub remaining_data: Seq<u8>,
}

pub struct FmtChunkView {
    pub id: Tag,
    pub data_size: u32,
    pub format: Format,
    pub num_channels: u16,
    pub sample_rate: u32,
    pub byte_rate: u32,
    pub block_align: u16,
    pub bits_per_raw_sample: u16,
    pub extra_info_size: u16,
    pub extended_info: Option<ExtendedInfoView>,
}

pub struct FactChunkView {
    pub id: Tag,
    pub data_size: u32,
    pub sample_length: u32,
    pub remaining_data: Seq<u8>,
}

pub struct OtherChunkView {
    pub id: Tag,
    pub data_size: u32,
    pub data: Seq<u8>,
}

pub struct DataChunkView {
    pub id: Tag,
    pub data_size: u32,
    pub pad_byte: u8,
}

impl View for RiffChunk {
    type V = RiffChunkView;

    open spec fn view(&self) -> RiffChunkView {
        RiffChunkView { id: self.id@, file_size: self.file_size, file_type: self.file_type@ }
    }
}

impl View for ExtendedInfo {
    type V = ExtendedInfoView;

    open spec fn view(&self) -> ExtendedInfoView {
        ExtendedInfoView {
            bits_per_coded_sample: self.bits_per_coded_sample,
            channel_mask: self.channel_mask,
            sub_format: self.sub_format,
            remaining_data: self.remaining_data@,
        }
    }
}

impl View for FmtChunk {
    type V = FmtChunkView;

    open spec fn view(&self) -> FmtChunkView {
        FmtChunkView {
            id: self.id@,
            data_size: self.data_size,
            format: self.format,
            num_channels: self.num_channels,
            sample_rate: self.sample_rate,
            byte_rate: self.byte_rate,
            block_align: self.block_align,
            bits_per_raw_sample: self.bits_per_raw_sample,
            extra_info_size: self.extra_info_size,
            extended_info: extended_info_view(self.extended_info),
        }
    }
}

impl View for FactChunk {
    type V = FactChunkView;

    open spec fn view(&self) -> FactChunkView {
        FactChunkView {
            id: self.id@,
            data_size: self.data_size,
            sample_length: self.sample_length,
            remaining_data: self.remaining_data@,
        }
    }
}

impl View for OtherChunk {
    type V = OtherChunkView;

    open spec fn view(&self) -> OtherChunkView {
        OtherChunkView { id: self.id@, data_size: self.data_size, data: self.data@ }
    }
}

impl View for DataChunk {
    type V = DataChunkView;

    open spec fn view(&self) -> DataChunkView {
        DataChunkView { id: self.id@, data_size: self.data_size, pad_byte: self.pad_byte }
    }
}

/// The views of a run of chunks, in order.
pub open spec fn chunk_views(chunks: Seq<OtherChunk>) -> Seq<OtherChunkView> {
    Seq::new(chunks.len(), |i: int| chunks[i]@)
}

/// The view of an extension that may be absent.
pub open spec fn extended_info_view(info: Option<ExtendedInfo>) -> Option<ExtendedInfoView> {
    match info {
        Some(info) => Some(info@),
        None => None,
    }
}

/// The view of a `fact` chunk that may be absent.
pub open spec fn fact_view(fact: Option<FactChunk>) -> Option<FactChunkView> {
    match fact {
        Some(chunk) => Some(chunk@),
        None => None,
    }
}

} // verus!
