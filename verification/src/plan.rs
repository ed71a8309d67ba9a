//! Deciding what a conversion has to do: which layout is asked for, and
//! which kernel leads from the layout an image has to the one it shall get.

use vstd::prelude::*;
use crate::error::{outcome, Error, ErrorKind, ErrorView};
use crate::kernel::Kernel;
use crate::layout::{determine_format, spec_determine_format, RomType};

verus! {

/// The error for a conversion that would change nothing, because the image
/// is already stored as `layout`.
pub open spec fn no_op_conversion(layout: RomType) -> ErrorView {
    ErrorView {
        kind: ErrorKind::NoOpConversion,
        message: "No need to convert, the ROM type ("@ + layout.spec_name()
            + ") is already the output type ("@ + layout.spec_name() + ")!"@,
    }
}

/// The kernel that rewrites an image stored as `source` into `target`, or
/// `None` where the two are the same and nothing is to be done.
pub open spec fn spec_select_kernel(source: RomType, target: RomType) -> Option<Kernel> {
    match (source, target) {
        (RomType::ByteSwapped, RomType::LittleEndian) => Some(Kernel::ByteEndianSwap),
        (RomType::ByteSwapped, RomType::BigEndian) => Some(Kernel::ByteSwap),
        (RomType::LittleEndian, RomType::ByteSwapped) => Some(Kernel::ByteSwap),
        (RomType::LittleEndian, RomType::BigEndian) => Some(Kernel::EndianSwap),
        (RomType::BigEndian, RomType::ByteSwapped) => Some(Kernel::ByteSwap),
        (RomType::BigEndian, RomType::LittleEndian) => Some(Kernel::EndianSwap),
        _ => None,
    }
}

/// What [`select_kernel`] answers.
pub open spec fn spec_select_kernel_checked(source: RomType, target: RomType) -> Result<
    Kernel,
    ErrorView,
> {
    match spec_select_kernel(source, target) {
        Some(kernel) => Ok(kernel),
        None => Err(no_op_conversion(source)),
    }
}

/// Picks the kernel that rewrites an image stored as `source` into
/// `target`. A request to convert a layout into itself is turned down.
pub fn select_kernel(source: RomType, target: RomType) -> (r: Result<Kernel, Error>)
    ensures
        outcome(r) == spec_select_kernel_checked(source, target),
        r is Err <==> source == target,
{
    match (source, target) {
        (RomType::ByteSwapped, RomType::LittleEndian) => Ok(Kernel::ByteEndianSwap),
        (RomType::ByteSwapped, RomType::BigEndian) => Ok(Kernel::ByteSwap),
        (RomType::LittleEndian, RomType::ByteSwapped) => Ok(Kernel::ByteSwap),
        (RomType::LittleEndian, RomType::BigEndian) => Ok(Kernel::EndianSwap),
        (RomType::BigEndian, RomType::ByteSwapped) => Ok(Kernel::ByteSwap),
        (RomType::BigEndian, RomType::LittleEndian) => Ok(Kernel::EndianSwap),
        _ => Err(no_op_error(source)),
    }
}

/// Builds the error for a conversion of `layout` into itself.
fn no_op_error(layout: RomType) -> (e: Error)
    ensures
        e@ == no_op_conversion(layout),
{
    let mut message = String::from_str("No need to convert, the ROM type (");
    message.append(layout.as_str());
    message.append(") is already the output type (");
    message.append(layout.as_str());
    message.append(")!");
    Error { kind: ErrorKind::NoOpConversion, message }
}

/// The layout a caller asks for: the one named outright where a name is
/// given, else the one the output file's extension names, else big-endian.
pub open spec fn spec_resolve_output_type(
    requested: Option<Seq<char>>,
    extension: Option<Seq<char>>,
) -> Result<RomType, ErrorView> {
    match (requested, extension) {
        (Some(name), _) => RomType::spec_from_string(name),
        (None, Some(ext)) => RomType::spec_from_string(ext),
        (None, None) => Ok(RomType::BigEndian),
    }
}

/// The view of an optional string.
pub open spec fn text_of(s: Option<&str>) -> Option<Seq<char>> {
    match s {
        Some(text) => Some(text@),
        None => None,
    }
}

/// Settles the layout to convert to. `requested` is the short name the
/// caller gave, if any; `extension` is the extension of the output file, if
/// one was given and has one. A name given outright wins over the
/// extension, and with neither the layout is big-endian.
pub fn resolve_output_type(requested: Option<&str>, extension: Option<&str>) -> (r: Result<
    RomType,
    Error,
>)
    ensures
        outcome(r) == spec_resolve_output_type(text_of(requested), text_of(extension)),
{
    match requested {
        Some(name) => RomType::from_string(name),
        None => match extension {
            Some(ext) => RomType::from_string(ext),
            None => Ok(RomType::BigEndian),
        },
    }
}

/// The name of the output file where the caller gave none: `rom.` and the
/// short name of the layout.
pub open spec fn spec_default_file_name(layout: RomType) -> Seq<char> {
    "rom."@ + layout.spec_name()
}

/// The name of the output file where the caller gave none.
pub fn default_file_name(layout: RomType) -> (name: String)
    ensures
        name@ == spec_default_file_name(layout),
{
    let mut name = String::from_str("rom.");
    name.append(layout.as_str());
    name
}

/// A conversion that has been agreed on.
#[derive(PartialEq, Eq, Structural, Debug, Clone, Copy)]
pub struct Plan {
    /// The layout the image is stored in.
    pub source: RomType,
    /// The layout it shall be stored in.
    pub target: RomType,
    /// The kernel that leads from the one to the other.
    pub kernel: Kernel,
}

/// What [`plan_conversion`] answers: the first of the three checks that
/// fails decides the error.
pub open spec fn spec_plan_conversion(
    image: Seq<u8>,
    requested: Option<Seq<char>>,
    extension: Option<Seq<char>>,
) -> Result<Plan, ErrorView> {
    match spec_determine_format(image) {
        Err(e) => Err(e),
        Ok(source) => match spec_resolve_output_type(requested, extension) {
            Err(e) => Err(e),
            Ok(target) => match spec_select_kernel(source, target) {
                None => Err(no_op_conversion(source)),
                Some(kernel) => Ok(Plan { source, target, kernel }),
            },
        },
    }
}

/// Plans the conversion of an image: detects its layout from its first
/// bytes, settles the layout asked for, and picks the kernel. `image` holds
/// the start of the image, four bytes or more.
pub fn plan_conversion(image: &[u8], requested: Option<&str>, extension: Option<&str>) -> (r:
    Result<Plan, Error>)
    ensures
        outcome(r) == spec_plan_conversion(image@, text_of(requested), text_of(extension)),
{
    let source = match determine_format(image) {
        Ok(layout) => layout,
        Err(e) => {
            return Err(e);
        },
    };
    let target = match resolve_output_type(requested, extension) {
        Ok(layout) => layout,
        Err(e) => {
            return Err(e);
        },
    };
    match select_kernel(source, target) {
        Ok(kernel) => Ok(Plan { source, target, kernel }),
        Err(e) => Err(e),
    }
}

} // verus!
