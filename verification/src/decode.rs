//! The chunk decoders, one for each kind of chunk. Each reads at the
//! position of the cursor and leaves it after what it has decoded.

use crate::chunks::{
    chunk_views, extended_info_view, fact_view, DataChunk, ExtendedInfo, FactChunk, FmtChunk,
    OtherChunk, OtherChunkView, RiffChunk,
};
use crate::cursor::ByteCursor;
use crate::error::Error;
use crate::format::Format;
use crate::fourcc::FourCC;
use crate::grammar::{
    data_chunk_at, extended_info_at, fact_chunk_at, fmt_chunk_at, rejects, riff_chunk_at,
    scan_other_chunks, yields,
};
use vstd::prelude::*;

verus! {

impl ByteCursor {
    /// Decodes the container header. A first tag other than `RIFF` is
    /// rejected as soon as it is read, with the position just after it.
    pub fn read_riff_chunk(&mut self) -> (r: Result<RiffChunk, Error>)
        ensures
            final(self)@.wf(),
            match r {
                Ok(chunk) => {
                    &&& yields(
                        riff_chunk_at(old(self)@.bytes, old(self)@.pos),
                        chunk@,
                        final(self)@.pos,
                    )
                    &&& final(self)@.bytes == old(self)@.bytes
                },
                Err(e) => {
                    &&& rejects(riff_chunk_at(old(self)@.bytes, old(self)@.pos), e)
                    &&& final(self)@ == match e {
                        Error::NotRiff => old(self)@.at(old(self)@.pos + 4),
                        Error::NotWave => old(self)@.at(old(self)@.pos + 12),
                        _ => old(self)@.at_end(),
                    }
                },
            },
    {
        let id = self.read_fourcc()?;
        match id {
            FourCC::Riff => {},
            _ => {
                return Err(Error::NotRiff);
            },
        }
        let file_size = self.read_u32()?;
        let file_type = self.read_fourcc()?;
        match file_type {
            FourCC::Wave => {},
            _ => {
                return Err(Error::NotWave);
            },
        }
        Ok(RiffChunk { id, file_size, file_type })
    }

    /// Decodes the extension of a format descriptor that is declared to
    /// take `size` bytes.
    pub fn read_extended_info(&mut self, size: u16) -> (r: Result<Option<ExtendedInfo>, Error>)
        ensures
            final(self)@.wf(),
            match r {
                Ok(info) => {
                    &&& yields(
                        extended_info_at(old(self)@.bytes, old(self)@.pos, size),
                        extended_info_view(info),
                        final(self)@.pos,
                    )
                    &&& final(self)@.bytes == old(self)@.bytes
                },
                Err(e) => {
                    &&& rejects(extended_info_at(old(self)@.bytes, old(self)@.pos, size), e)
                    &&& final(self)@ == match e {
                        Error::InvalidExtendedInfo => old(self)@,
                        _ => old(self)@.at_end(),
                    }
                },
            },
    {
        // tells that the position lies within the source
        let _ = self.position();
        if size == 0 {
            return Ok(None);
        }
        if size < 22 {
            return Err(Error::InvalidExtendedInfo);
        }
        let bits_per_coded_sample = self.read_u16()?;
        let channel_mask = self.read_u32()?;
        let sub_format = self.read_u128()?;
        let remaining_size = (size - 22) as usize;
        let remaining_data = self.read_exact(remaining_size)?;
        Ok(Some(ExtendedInfo { bits_per_coded_sample, channel_mask, sub_format, remaining_data }))
    }

    /// Decodes the format descriptor.
    pub fn read_fmt_chunk(&mut self) -> (r: Result<FmtChunk, Error>)
        ensures
            final(self)@.wf(),
            match r {
                Ok(chunk) => {
                    &&& yields(
                        fmt_chunk_at(old(self)@.bytes, old(self)@.pos),
                        chunk@,
                        final(self)@.pos,
                    )
                    &&& final(self)@.bytes == old(self)@.bytes
                },
                Err(e) => {
                    &&& rejects(fmt_chunk_at(old(self)@.bytes, old(self)@.pos), e)
                    &&& final(self)@ == match e {
                        Error::InvalidFmtChunk => old(self)@.at(old(self)@.pos + 4),
                        Error::InvalidExtendedInfo => old(self)@.at(old(self)@.pos + 26),
                        _ => old(self)@.at_end(),
                    }
                },
            },
    {
        let id = self.read_fourcc()?;
        match id {
            FourCC::Fmt => {},
            _ => {
                return Err(Error::InvalidFmtChunk);
            },
        }
        let data_size = self.read_u32()?;
        let format = Format::from(self.read_u16()?);
        let num_channels = self.read_u16()?;
        let sample_rate = self.read_u32()?;
        let byte_rate = self.read_u32()?;
        let block_align = self.read_u16()?;
        let bits_per_raw_sample = self.read_u16()?;
        let (extra_info_size, extended_info) = if self.read_is_fourcc()? {
            (0, None)
        } else {
            let extra_info_size = self.read_u16()?;
            (extra_info_size, self.read_extended_info(extra_info_size)?)
        };
        Ok(
            FmtChunk {
                id,
                data_size,
                format,
                num_channels,
                sample_rate,
                byte_rate,
                block_align,
                bits_per_raw_sample,
                extra_info_size,
                extended_info,
            },
        )
    }

    /// Decodes the `fact` chunk if the next tag is `fact`. Any other tag
    /// stays unread, and no chunk is reported.
    pub fn read_fact_chunk(&mut self) -> (r: Result<Option<FactChunk>, Error>)
        ensures
            final(self)@.wf(),
            match r {
                Ok(chunk) => {
                    &&& yields(
                        fact_chunk_at(old(self)@.bytes, old(self)@.pos),
                        fact_view(chunk),
                        final(self)@.pos,
                    )
                    &&& final(self)@.bytes == old(self)@.bytes
                },
                Err(e) => {
                    &&& rejects(fact_chunk_at(old(self)@.bytes, old(self)@.pos), e)
                    &&& final(self)@ == match e {
                        Error::InvalidFactChunk => old(self)@.at(old(self)@.pos + 12),
                        _ => old(self)@.at_end(),
                    }
                },
            },
    {
        match self.peek_fourcc()? {
            FourCC::Fact => {},
            _ => {
                return Ok(None);
            },
        }
        let id = self.read_fourcc()?;
        let data_size = self.read_u32()?;
        let sample_length = self.read_u32()?;
        if data_size < 4 {
            return Err(Error::InvalidFactChunk);
        }
        let remaining_size = (data_size - 4) as usize;
        let remaining_data = self.read_exact(remaining_size)?;
        Ok(Some(FactChunk { id, data_size, sample_length, remaining_data }))
    }

    /// Appends to `other_chunks` every chunk up to the next tag `data`,
    /// which stays unread. Where the source ends first, the chunks that were
    /// complete have still been appended.
    pub fn read_other_chunks(&mut self, other_chunks: &mut Vec<OtherChunk>) -> (r: Result<
        (),
        Error,
    >)
        ensures
            final(self)@.wf(),
            chunk_views(final(other_chunks)@) == chunk_views(old(other_chunks)@)
                + scan_other_chunks(old(self)@.bytes, old(self)@.pos).0,
            match r {
                Ok(_) => {
                    &&& scan_other_chunks(old(self)@.bytes, old(self)@.pos).1 == Some(
                        final(self)@.pos,
                    )
                    &&& final(self)@.bytes == old(self)@.bytes
                },
                Err(e) => {
                    &&& scan_other_chunks(old(self)@.bytes, old(self)@.pos).1 is None
                    &&& e == Error::IOError
                    &&& final(self)@ == old(self)@.at_end()
                },
            },
    {
        // tells that the position lies within the source
        let _ = self.position();
        let ghost bytes = self@.bytes;
        let ghost start = self@.pos;
        let ghost before = chunk_views(other_chunks@);
        proof {
            assert(before + scan_other_chunks(bytes, start).0 =~= chunk_views(other_chunks@)
                + scan_other_chunks(bytes, self@.pos).0);
        }
        loop
            invariant
                bytes == old(self)@.bytes,
                start == old(self)@.pos,
                before == chunk_views(old(other_chunks)@),
                self@.wf(),
                self@.bytes == bytes,
                before + scan_other_chunks(bytes, start).0 == chunk_views(other_chunks@)
                    + scan_other_chunks(bytes, self@.pos).0,
                scan_other_chunks(bytes, start).1 == scan_other_chunks(bytes, self@.pos).1,
            decreases self@.bytes.len() - self@.pos,
        {
            let ghost views = chunk_views(other_chunks@);
            let ghost rest = scan_other_chunks(bytes, self@.pos).0;
            proof {
                assert(views + Seq::<OtherChunkView>::empty() =~= views);
            }
            match self.peek_fourcc()? {
                FourCC::Data => {
                    return Ok(());
                },
                _ => {},
            }
            let id = self.read_fourcc()?;
            let data_size = self.read_u32()?;
            let data = self.read_exact(data_size as usize)?;
            let chunk = OtherChunk { id, data_size, data };
            proof {
                let tail = scan_other_chunks(bytes, self@.pos).0;
                assert(rest == seq![chunk@] + tail);
                assert(chunk_views(other_chunks@.push(chunk)) =~= views.push(chunk@));
                assert(views.push(chunk@) + tail =~= views + rest);
            }
            other_chunks.push(chunk);
        }
    }

    /// Decodes the header of the `data` chunk: its tag and declared size.
    /// The samples stay unread.
    pub fn read_data_chunk(&mut self) -> (r: Result<DataChunk, Error>)
        ensures
            final(self)@.wf(),
            match r {
                Ok(chunk) => {
                    &&& yields(
                        data_chunk_at(old(self)@.bytes, old(self)@.pos),
                        chunk@,
                        final(self)@.pos,
                    )
                    &&& chunk.pad_byte == chunk.data_size % 2
                    &&& final(self)@.bytes == old(self)@.bytes
                },
                Err(e) => {
                    &&& rejects(data_chunk_at(old(self)@.bytes, old(self)@.pos), e)
                    &&& final(self)@ == old(self)@.at_end()
                },
            },
    {
        let id = self.read_fourcc()?;
        let data_size = self.read_u32()?;
        let pad_byte: u8 = if data_size % 2 == 0 {
            0
        } else {
            1
        };
        Ok(DataChunk { id, data_size, pad_byte })
    }
}

} // verus!
