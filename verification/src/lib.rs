//! Layout detection and conversion for Nintendo 64 cartridge images.
//!
//! An image is stored in one of three byte orders: byte-swapped (`v64`),
//! little-endian (`n64`) or big-endian (`z64`). The library tells the layout
//! of an image from its first four bytes, picks the permutation that leads
//! from one layout to another, and applies it, to a whole image at once or
//! chunk by chunk. It reads and writes no files: it works on the bytes it is
//! given.

pub mod error;
pub mod kernel;
pub mod kernel_laws;
pub mod layout;
pub mod layout_laws;
pub mod plan;
pub mod plan_laws;
pub mod rom;
pub mod stream;
pub mod text;

pub use error::{Error, ErrorKind};
pub use kernel::{byte_endian_swap, byte_swap, endian_swap, Kernel};
pub use layout::{determine_format, to_rom_type, RomType};
pub use plan::{default_file_name, plan_conversion, resolve_output_type, select_kernel, Plan};
pub use rom::{Converter, Rom};
pub use stream::{Conversion, Step, CHUNK_LEN, ROM_LEN};
