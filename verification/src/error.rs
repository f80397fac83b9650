//! The ways in which decoding a stream can fail.

use vstd::prelude::*;

verus! {

/// Why a stream was rejected.
#[derive(Debug, Clone, Copy, PartialEq, Eq)]
pub enum Error {
    /// The stream does not start with the tag `RIFF`.
    NotRiff,
    /// The container type is not `WAVE`.
    NotWave,
    /// The chunk after the container header is not tagged `fmt `.
    InvalidFmtChunk,
    /// The extended format information declares a size between 1 and 21 bytes.
    InvalidExtendedInfo,
    /// The fact chunk declares fewer than the 4 bytes of its sample length.
    InvalidFactChunk,
    /// The source ended before a read was complete.
    IOError,
}

impl Error {
    /// The text that describes each failure.
    pub open spec fn spec_message(self) -> Seq<char> {
        match self {
            Error::NotRiff => "Not a riff file"@,
            Error::NotWave => "Not a wave format file"@,
            Error::InvalidFmtChunk => "Invalid fmt chunk"@,
            Error::InvalidExtendedInfo => "Invalid Extended Info, less than 22 bytes"@,
            Error::InvalidFactChunk => "Invalid fact chunk, less than 4 bytes"@,
            Error::IOError => "IO error reading file: failed to fill whole buffer"@,
        }
    }

    /// A description of the failure for people to read.
    pub fn message(&self) -> (text: String)
        ensures
            text@ == self.spec_message(),
    {
        match self {
            Error::NotRiff => "Not a riff file".to_owned(),
            Error::NotWave => "Not a wave format file".to_owned(),
            Error::InvalidFmtChunk => "Invalid fmt chunk".to_owned(),
            Error::InvalidExtendedInfo => "Invalid Extended Info, less than 22 bytes".to_owned(),
            Error::InvalidFactChunk => "Invalid fact chunk, less than 4 bytes".to_owned(),
            Error::IOError => "IO error reading file: failed to fill whole buffer".to_owned(),
        }
    }
}

} // verus!
