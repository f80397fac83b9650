//! Four-character codes: the tags that name the chunks of a container.

use vstd::prelude::*;

verus! {

/// A chunk tag, classified. The five tags that the decoder knows have a
/// variant each; any other tag keeps its characters.
#[derive(Debug, PartialEq, Eq)]
pub enum FourCC {
    Riff,
    Fmt,
    Data,
    Wave,
    Fact,
    Other(String),
}

/// What a `FourCC` stands for in contracts.
pub enum Tag {
    Riff,
    Fmt,
    Data,
    Wave,
    Fact,
    Other(Seq<char>),
}

impl View for FourCC {
    type V = Tag;

    open spec fn view(&self) -> Tag {
        match self {
            FourCC::Riff => Tag::Riff,
            FourCC::Fmt => Tag::Fmt,
            FourCC::Data => Tag::Data,
            FourCC::Wave => Tag::Wave,
            FourCC::Fact => Tag::Fact,
            FourCC::Other(name) => Tag::Other(name@),
        }
    }
}

/// `b` is exactly the four bytes given.
pub open spec fn spells(b: Seq<u8>, c0: u8, c1: u8, c2: u8, c3: u8) -> bool {
    b.len() == 4 && b[0] == c0 && b[1] == c1 && b[2] == c2 && b[3] == c3
}

/// Each byte as the character with the same code point.
pub open spec fn latin1(b: Seq<u8>) -> Seq<char> {
    Seq::new(b.len(), |i: int| b[i] as char)
}

/// The bytes `RIFF`.
pub open spec fn spells_riff(b: Seq<u8>) -> bool {
    spells(b, 0x52, 0x49, 0x46, 0x46)
}

/// The bytes `WAVE`.
pub open spec fn spells_wave(b: Seq<u8>) -> bool {
    spells(b, 0x57, 0x41, 0x56, 0x45)
}

/// The bytes `fmt` and a space.
pub open spec fn spells_fmt(b: Seq<u8>) -> bool {
    spells(b, 0x66, 0x6d, 0x74, 0x20)
}

/// The bytes `data`.
pub open spec fn spells_data(b: Seq<u8>) -> bool {
    spells(b, 0x64, 0x61, 0x74, 0x61)
}

/// The bytes `Data`, with a capital letter.
pub open spec fn spells_capital_data(b: Seq<u8>) -> bool {
    spells(b, 0x44, 0x61, 0x74, 0x61)
}

/// The bytes `fact`.
pub open spec fn spells_fact(b: Seq<u8>) -> bool {
    spells(b, 0x66, 0x61, 0x63, 0x74)
}

/// The classification of raw tag bytes. `data` is accepted with a capital
/// `D` too; whatever is not one of the known spellings is kept as it is.
pub open spec fn tag_of(b: Seq<u8>) -> Tag {
    if spells_riff(b) {
        Tag::Riff
    } else if spells_wave(b) {
        Tag::Wave
    } else if spells_fmt(b) {
        Tag::Fmt
    } else if spells_data(b) || spells_capital_data(b) {
        Tag::Data
    } else if spells_fact(b) {
        Tag::Fact
    } else {
        Tag::Other(latin1(b))
    }
}

impl Tag {
    /// Whether the tag is one of the five that the decoder knows.
    pub open spec fn is_known(self) -> bool {
        !(self is Other)
    }
}

fn spells_exec(data: &[u8], c0: u8, c1: u8, c2: u8, c3: u8) -> (yes: bool)
    ensures
        yes == spells(data@, c0, c1, c2, c3),
{
    data.len() == 4 && data[0] == c0 && data[1] == c1 && data[2] == c2 && data[3] == c3
}

fn latin1_string(data: &[u8]) -> (name: String)
    ensures
        name@ == latin1(data@),
{
    let mut name = String::new();
    let mut i: usize = 0;
    while i < data.len()
        invariant
            i <= data.len(),
            name@ == latin1(data@.subrange(0, i as int)),
        decreases data.len() - i,
    {
        name.push(data[i] as char);
        proof {
            assert(name@ =~= latin1(data@.subrange(0, i + 1)));
        }
        i += 1;
    }
    proof {
        assert(data@.subrange(0, i as int) =~= data@);
    }
    name
}

impl FourCC {
    /// Whether this is one of the five tags that the decoder knows.
    pub fn is_known(&self) -> (known: bool)
        ensures
            known == self@.is_known(),
    {
        match self {
            FourCC::Other(_) => false,
            _ => true,
        }
    }
}

impl Clone for FourCC {
    fn clone(&self) -> (copy: FourCC)
        ensures
            copy@ == self@,
    {
        match self {
            FourCC::Riff => FourCC::Riff,
            FourCC::Fmt => FourCC::Fmt,
            FourCC::Data => FourCC::Data,
            FourCC::Wave => FourCC::Wave,
            FourCC::Fact => FourCC::Fact,
            FourCC::Other(name) => FourCC::Other(name.clone()),
        }
    }
}

impl From<&[u8]> for FourCC {
    /// Classifies raw tag bytes.
    fn from(data: &[u8]) -> (tag: FourCC)
        ensures
            tag@ == tag_of(data@),
    {
        if spells_exec(data, 0x52, 0x49, 0x46, 0x46) {
            FourCC::Riff
        } else if spells_exec(data, 0x57, 0x41, 0x56, 0x45) {
            FourCC::Wave
        } else if spells_exec(data, 0x66, 0x6d, 0x74, 0x20) {
            FourCC::Fmt
        } else if spells_exec(data, 0x64, 0x61, 0x74, 0x61) || spells_exec(
            data,
            0x44,
            0x61,
            0x74,
            0x61,
        ) {
            FourCC::Data
        } else if spells_exec(data, 0x66, 0x61, 0x63, 0x74) {
            FourCC::Fact
        } else {
            FourCC::Other(latin1_string(data))
        }
    }
}

impl vstd::std_specs::convert::FromSpecImpl<&[u8]> for FourCC {
    /// Two strings with the same characters are not known to be the same
    /// value, so the conversion is specified through the view, in the
    /// `ensures` of `from`, and not by equality with `from_spec`.
    open spec fn obeys_from_spec() -> bool {
        false
    }

    open spec fn from_spec(data: &[u8]) -> FourCC {
        choose|tag: FourCC| tag@ == tag_of(data@)
    }
}

} // verus!
