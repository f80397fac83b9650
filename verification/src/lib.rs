//! Decoder for RIFF/WAVE containers held in memory.
//!
//! A container is decoded from a [`ByteCursor`] into a [`RiffWaveReader`]:
//! the container header, the format descriptor, an optional `fact` chunk,
//! the chunks that the decoder does not interpret, and the header of the
//! `data` chunk. The samples stay in the source and are read on demand.
//!
//! What the decoders return is stated against a description of the format
//! as functions on bytes (`grammar`); how a decoded container is laid out
//! as bytes again, and that this gives back what was read, is in `layout`.

pub mod chunks;
pub mod cursor;
pub mod decode;
pub mod endian;
pub mod error;
pub mod format;
pub mod fourcc;
pub mod grammar;
pub mod layout;
pub mod reader;
pub mod report;
pub mod text;

pub use chunks::{DataChunk, ExtendedInfo, FactChunk, FmtChunk, OtherChunk, RiffChunk};
pub use cursor::ByteCursor;
pub use error::Error;
pub use format::Format;
pub use fourcc::FourCC;
pub use reader::RiffWaveReader;
