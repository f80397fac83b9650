//! The decoded container: its chunks, and the source from which the
//! samples can still be read.

use crate::chunks::{chunk_views, fact_view, DataChunk, FactChunk, FmtChunk, OtherChunk, RiffChunk};
use crate::cursor::ByteCursor;
use crate::error::Error;
use crate::grammar::{document_at, rejects, yields, DocumentView};
use vstd::prelude::*;

verus! {

/// A decoded RIFF/WAVE container. The chunks up to the header of the `data`
/// chunk are held here; the source is left just after that header.
#[derive(Debug)]
pub struct RiffWaveReader {
    /// The source, left just after the header of the `data` chunk.
    pub reader: ByteCursor,
    pub riff_chunk: RiffChunk,
    pub fmt_chunk: FmtChunk,
    pub fact_chunk: Option<FactChunk>,
    pub data_chunk: DataChunk,
    pub other_chunks: Vec<OtherChunk>,
}

impl View for RiffWaveReader {
    type V = DocumentView;

    open spec fn view(&self) -> DocumentView {
        DocumentView {
            riff_chunk: self.riff_chunk@,
            fmt_chunk: self.fmt_chunk@,
            fact_chunk: fact_view(self.fact_chunk),
            other_chunks: chunk_views(self.other_chunks@),
            data_chunk: self.data_chunk@,
        }
    }
}

impl RiffWaveReader {
    /// Decodes a container from `reader`, starting at its position. Either
    /// the whole of it decodes, up to the header of the `data` chunk, or the
    /// first failure is returned and nothing else.
    pub fn new(reader: ByteCursor) -> (r: Result<RiffWaveReader, Error>)
        ensures
            match r {
                Ok(document) => {
                    &&& yields(
                        document_at(reader@.bytes, reader@.pos),
                        document@,
                        document.reader@.pos,
                    )
                    &&& document.reader@.bytes == reader@.bytes
                    &&& document.reader@.wf()
                },
                Err(e) => rejects(document_at(reader@.bytes, reader@.pos), e),
            },
    {
        let mut reader = reader;
        let riff_chunk = reader.read_riff_chunk()?;
        let fmt_chunk = reader.read_fmt_chunk()?;
        let fact_chunk = reader.read_fact_chunk()?;
        let mut other_chunks = Vec::new();
        reader.read_other_chunks(&mut other_chunks)?;
        let data_chunk = reader.read_data_chunk()?;
        Ok(RiffWaveReader { reader, riff_chunk, fmt_chunk, fact_chunk, data_chunk, other_chunks })
    }

    /// Reads everything that is left in the source: the samples, and
    /// whatever follows them. The declared size of the `data` chunk sets no
    /// limit. A second call finds nothing left.
    pub fn data(&mut self) -> (r: Result<Vec<u8>, Error>)
        ensures
            final(self)@ == old(self)@,
            final(self).reader@ == old(self).reader@.at_end(),
            match r {
                Ok(data) => data@ == old(self).reader@.bytes.subrange(
                    old(self).reader@.pos,
                    old(self).reader@.bytes.len() as int,
                ),
                Err(_) => false,
            },
    {
        Ok(self.reader.read_to_end())
    }

    /// Gives the source back, at the position that it was left at.
    pub fn into_reader(self) -> (reader: ByteCursor)
        ensures
            reader@ == self.reader@,
    {
        self.reader
    }
}

} // verus!
