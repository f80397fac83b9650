//! The audio format code of a `fmt ` chunk.

use vstd::prelude::*;

verus! {

/// How the samples are coded. The codes that have a name are mapped to it;
/// every other code is kept as a number.
#[derive(Debug, Copy, Clone, PartialEq, Eq)]
pub enum Format {
    UncompressedPCM,
    IeeeFloatingPoint,
    G711ALaw,
    G711ULaw,
    ExtendedWave,
    Other(u16),
}

/// The format that a code of the `fmt ` chunk denotes.
pub open spec fn format_of(code: u16) -> Format {
    if code == 1 {
        Format::UncompressedPCM
    } else if code == 3 {
        Format::IeeeFloatingPoint
    } else if code == 6 {
        Format::G711ALaw
    } else if code == 7 {
        Format::G711ULaw
    } else if code == 65534 {
        Format::ExtendedWave
    } else {
        Format::Other(code)
    }
}

impl Format {
    /// The code that is written in a `fmt ` chunk for this format.
    pub open spec fn code(self) -> u16 {
        match self {
            Format::UncompressedPCM => 1,
            Format::IeeeFloatingPoint => 3,
            Format::G711ALaw => 6,
            Format::G711ULaw => 7,
            Format::ExtendedWave => 65534,
            Format::Other(code) => code,
        }
    }
}

/// Every code is the code of the format that it denotes.
pub proof fn lemma_code_of_format(code: u16)
    ensures
        format_of(code).code() == code,
{
}

impl From<u16> for Format {
    fn from(format: u16) -> (decoded: Format)
        ensures
            decoded == format_of(format),
    {
        match format {
            1 => Format::UncompressedPCM,
            3 => Format::IeeeFloatingPoint,
            6 => Format::G711ALaw,
            7 => Format::G711ULaw,
            65534 => Format::ExtendedWave,
            _ => Format::Other(format),
        }
    }
}

impl vstd::std_specs::convert::FromSpecImpl<u16> for Format {
    open spec fn obeys_from_spec() -> bool {
        true
    }

    open spec fn from_spec(format: u16) -> Format {
        format_of(format)
    }
}

} // verus!
