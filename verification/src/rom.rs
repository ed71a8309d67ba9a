//! An image on disk, known by its path and its layout, and the conversions
//! that can be asked of it.

use vstd::prelude::*;
use crate::error::{Error, ErrorView};
use crate::layout::{to_rom_type, RomType};
use crate::plan::{select_kernel, spec_select_kernel_checked};
use crate::stream::{Conversion, ConversionView};
use crate::text::lowercase;

verus! {

/// An image: where it lies and how it is stored.
#[derive(Debug, Clone)]
pub struct Rom {
    rom_type: RomType,
    path: String,
}

/// The mathematical content of a [`Rom`].
pub struct RomView {
    /// The layout the image is stored in.
    pub rom_type: RomType,
    /// The path of the image.
    pub path: Seq<char>,
}

impl View for Rom {
    type V = RomView;

    closed spec fn view(&self) -> RomView {
        RomView { rom_type: self.rom_type, path: self.path@ }
    }
}

/// What [`Rom::new`] answers: the image, if the name of the layout is a
/// short name once put in lowercase.
pub open spec fn spec_new_rom(rom_type: Seq<char>, path: Seq<char>) -> Result<RomView, ErrorView> {
    match RomType::spec_from_string(lowercase(rom_type)) {
        Ok(layout) => Ok(RomView { rom_type: layout, path }),
        Err(e) => Err(e),
    }
}

/// A result with the image or the error replaced by its view.
pub open spec fn rom_outcome(r: Result<Rom, Error>) -> Result<RomView, ErrorView> {
    match r {
        Ok(rom) => Ok(rom@),
        Err(e) => Err(e@),
    }
}

impl Rom {
    /// Describes the image at `path`, stored in the layout that `rom_type`
    /// names: `z64`, `v64` or `n64`, in upper or lower case.
    pub fn new(rom_type: String, path: String) -> (r: Result<Rom, Error>)
        ensures
            rom_outcome(r) == spec_new_rom(rom_type@, path@),
    {
        match to_rom_type(rom_type.as_str()) {
            Ok(layout) => Ok(Rom { rom_type: layout, path }),
            Err(e) => Err(e),
        }
    }

    /// The short name of the layout the image is stored in.
    pub fn get_rom_type(&self) -> (name: String)
        ensures
            name@ == self@.rom_type.spec_name(),
    {
        self.rom_type.to_string()
    }

    /// The layout the image is stored in.
    pub fn rom_type(&self) -> (layout: RomType)
        ensures
            layout == self@.rom_type,
    {
        self.rom_type
    }

    /// The path of the image.
    pub fn path(&self) -> (path: &str)
        ensures
            path@ == self@.path,
    {
        self.path.as_str()
    }
}

/// Starts conversions of one image.
pub struct Converter {
    rom: Rom,
}

impl View for Converter {
    type V = RomView;

    closed spec fn view(&self) -> RomView {
        self.rom@
    }
}

/// What a conversion of `rom` into `target` starts as: nothing fed yet, and
/// the kernel that leads from the image's layout to `target`; or the error
/// where the image is stored as `target` already.
pub open spec fn spec_start(rom: RomView, target: RomType) -> Result<ConversionView, ErrorView> {
    match spec_select_kernel_checked(rom.rom_type, target) {
        Ok(kernel) => Ok(
            ConversionView { kernel, consumed: Seq::empty(), produced: Seq::empty() },
        ),
        Err(e) => Err(e),
    }
}

/// A result with the conversion or the error replaced by its view.
pub open spec fn start_outcome(r: Result<Conversion, Error>) -> Result<
    ConversionView,
    ErrorView,
> {
    match r {
        Ok(conversion) => Ok(conversion@),
        Err(e) => Err(e@),
    }
}

impl Converter {
    /// A converter for `rom`.
    pub fn new(rom: Rom) -> (converter: Converter)
        ensures
            converter@ == rom@,
    {
        Converter { rom }
    }

    /// The image that is converted.
    pub fn rom(&self) -> (rom: &Rom)
        ensures
            rom@ == self@,
    {
        &self.rom
    }

    /// Starts the conversion of the image into `target`.
    pub fn start(&self, target: RomType) -> (r: Result<Conversion, Error>)
        ensures
            start_outcome(r) == spec_start(self@, target),
    {
        match select_kernel(self.rom.rom_type, target) {
            Ok(kernel) => Ok(Conversion::new(kernel)),
            Err(e) => Err(e),
        }
    }

    /// Starts the conversion of the image into the byte-swapped layout.
    pub fn to_byteswapped(&self) -> (r: Result<Conversion, Error>)
        ensures
            start_outcome(r) == spec_start(self@, RomType::ByteSwapped),
    {
        self.start(RomType::ByteSwapped)
    }

    /// Starts the conversion of the image into the little-endian layout.
    pub fn to_little_endian(&self) -> (r: Result<Conversion, Error>)
        ensures
            start_outcome(r) == spec_start(self@, RomType::LittleEndian),
    {
        self.start(RomType::LittleEndian)
    }

    /// Starts the conversion of the image into the big-endian layout.
    pub fn to_big_endian(&self) -> (r: Result<Conversion, Error>)
        ensures
            start_outcome(r) == spec_start(self@, RomType::BigEndian),
    {
        self.start(RomType::BigEndian)
    }
}

} // verus!
