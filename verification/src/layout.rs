//! The three on-disk layouts of an image, their short names and their magic
//! headers.

use vstd::prelude::*;
use crate::error::{outcome, Error, ErrorKind, ErrorView};
use crate::text::{lowercase, same_text, to_lowercase};

verus! {

/// The byte order in which an image is stored.
#[derive(PartialEq, Eq, Structural, Debug, Clone, Copy)]
pub enum RomType {
    /// Byte-swapped: every pair of bytes is exchanged (`v64`).
    ByteSwapped,
    /// Little-endian: every four-byte word is reversed (`n64`).
    LittleEndian,
    /// Big-endian: the native order of the console (`z64`).
    BigEndian,
}

/// The number of bytes in a magic header.
pub const MAGIC_LEN: usize = 4;

/// The error for a short name that names no layout.
pub open spec fn invalid_layout_name() -> ErrorView {
    ErrorView {
        kind: ErrorKind::InvalidLayoutName,
        message: "the type you entered was not valid!"@,
    }
}

/// The error for a header that matches no layout.
pub open spec fn unrecognized_format() -> ErrorView {
    ErrorView {
        kind: ErrorKind::UnrecognizedFormat,
        message: "Did not recognize a supported format!"@,
    }
}

/// The error for an input too short to hold a header.
pub open spec fn missing_header() -> ErrorView {
    ErrorView {
        kind: ErrorKind::MalformedInput,
        message: "failed to read the first 4 bytes of the ROM file"@,
    }
}

impl RomType {
    /// The short name of the layout, which is also its file extension.
    pub open spec fn spec_name(self) -> Seq<char> {
        match self {
            RomType::ByteSwapped => "v64"@,
            RomType::LittleEndian => "n64"@,
            RomType::BigEndian => "z64"@,
        }
    }

    /// The first four bytes of an image stored in this layout.
    pub open spec fn spec_magic(self) -> Seq<u8> {
        match self {
            RomType::ByteSwapped => seq![0x37u8, 0x80u8, 0x40u8, 0x12u8],
            RomType::LittleEndian => seq![0x40u8, 0x12u8, 0x37u8, 0x80u8],
            RomType::BigEndian => seq![0x80u8, 0x37u8, 0x12u8, 0x40u8],
        }
    }

    /// The layout that a short name stands for.
    pub open spec fn spec_from_string(s: Seq<char>) -> Result<RomType, ErrorView> {
        if s == RomType::LittleEndian.spec_name() {
            Ok(RomType::LittleEndian)
        } else if s == RomType::BigEndian.spec_name() {
            Ok(RomType::BigEndian)
        } else if s == RomType::ByteSwapped.spec_name() {
            Ok(RomType::ByteSwapped)
        } else {
            Err(invalid_layout_name())
        }
    }

    /// The short name of the layout: `v64`, `n64` or `z64`.
    pub fn as_str(&self) -> (name: &str)
        ensures
            name@ == self.spec_name(),
    {
        match self {
            RomType::ByteSwapped => "v64",
            RomType::LittleEndian => "n64",
            RomType::BigEndian => "z64",
        }
    }

    /// The short name of the layout, as an owned string.
    pub fn to_string(&self) -> (name: String)
        ensures
            name@ == self.spec_name(),
    {
        String::from_str(self.as_str())
    }

    /// The layout that the short name `s` stands for. The name is matched
    /// exactly; anything but `v64`, `n64` and `z64` is turned down.
    pub fn from_string(s: &str) -> (r: Result<RomType, Error>)
        ensures
            outcome(r) == RomType::spec_from_string(s@),
    {
        if same_text(s, "n64") {
            Ok(RomType::LittleEndian)
        } else if same_text(s, "z64") {
            Ok(RomType::BigEndian)
        } else if same_text(s, "v64") {
            Ok(RomType::ByteSwapped)
        } else {
            Err(Error::new(ErrorKind::InvalidLayoutName, "the type you entered was not valid!"))
        }
    }

    /// The first four bytes of an image stored in this layout.
    pub fn magic(&self) -> (bytes: [u8; 4])
        ensures
            bytes@ == self.spec_magic(),
    {
        let bytes: [u8; 4] = match self {
            RomType::ByteSwapped => [0x37, 0x80, 0x40, 0x12],
            RomType::LittleEndian => [0x40, 0x12, 0x37, 0x80],
            RomType::BigEndian => [0x80, 0x37, 0x12, 0x40],
        };
        assert(bytes@ =~= self.spec_magic());
        bytes
    }
}

/// The layout that a short name stands for once it is put in lowercase, so
/// that `Z64` is as good as `z64`.
pub fn to_rom_type(s: &str) -> (r: Result<RomType, Error>)
    ensures
        outcome(r) == RomType::spec_from_string(lowercase(s@)),
{
    let lower = to_lowercase(s);
    RomType::from_string(lower.as_str())
}

/// The layout whose magic header is `header`, if there is one.
pub open spec fn layout_of_magic(header: Seq<u8>) -> Option<RomType> {
    if header == RomType::ByteSwapped.spec_magic() {
        Some(RomType::ByteSwapped)
    } else if header == RomType::LittleEndian.spec_magic() {
        Some(RomType::LittleEndian)
    } else if header == RomType::BigEndian.spec_magic() {
        Some(RomType::BigEndian)
    } else {
        None
    }
}

/// What detection makes of the bytes at the start of an image.
pub open spec fn spec_determine_format(image: Seq<u8>) -> Result<RomType, ErrorView> {
    if image.len() < MAGIC_LEN {
        Err(missing_header())
    } else {
        match layout_of_magic(image.subrange(0, MAGIC_LEN as int)) {
            Some(layout) => Ok(layout),
            None => Err(unrecognized_format()),
        }
    }
}

/// Tells the layout of an image from its first four bytes. `image` holds the
/// start of the image: the header alone, or any longer prefix. Bytes past the
/// fourth are not looked at.
pub fn determine_format(image: &[u8]) -> (r: Result<RomType, Error>)
    ensures
        outcome(r) == spec_determine_format(image@),
{
    if image.len() < MAGIC_LEN {
        return Err(
            Error::new(
                ErrorKind::MalformedInput,
                "failed to read the first 4 bytes of the ROM file",
            ),
        );
    }
    let header: [u8; 4] = [image[0], image[1], image[2], image[3]];
    proof {
        assert(header@ =~= image@.subrange(0, MAGIC_LEN as int));
    }
    if is_magic(&header, RomType::ByteSwapped) {
        Ok(RomType::ByteSwapped)
    } else if is_magic(&header, RomType::LittleEndian) {
        Ok(RomType::LittleEndian)
    } else if is_magic(&header, RomType::BigEndian) {
        Ok(RomType::BigEndian)
    } else {
        Err(Error::new(ErrorKind::UnrecognizedFormat, "Did not recognize a supported format!"))
    }
}

/// Whether `header` is the magic header of `layout`, byte for byte.
fn is_magic(header: &[u8; 4], layout: RomType) -> (same: bool)
    ensures
        same == (header@ == layout.spec_magic()),
{
    let magic = layout.magic();
    let same = header[0] == magic[0] && header[1] == magic[1] && header[2] == magic[2]
        && header[3] == magic[3];
    proof {
        if same {
            assert(header@ =~= magic@);
        }
    }
    same
}

} // verus!
