//! What holds of the choice of kernels.

use vstd::prelude::*;
use crate::kernel::Kernel;
use crate::kernel_laws::{lemma_group_sizes, lemma_permuted_twice};
use crate::layout::RomType;
use crate::plan::spec_select_kernel;

verus! {

/// Whether `a` and `b` are the byte-swapped and the little-endian layout, in
/// either order. Between these two the way there is the half-word swap and
/// the way back is the pair swap, and the two do not undo each other.
pub open spec fn is_swapped_little_pair(a: RomType, b: RomType) -> bool {
    ||| a == RomType::ByteSwapped && b == RomType::LittleEndian
    ||| a == RomType::LittleEndian && b == RomType::ByteSwapped
}

/// A kernel is chosen exactly for two layouts that differ.
pub proof fn lemma_kernel_chosen_iff_distinct(source: RomType, target: RomType)
    ensures
        spec_select_kernel(source, target) is Some <==> source != target,
{
}

/// Converting an image from `a` to `b` and back from `b` to `a` gives the
/// image back, byte for byte. This holds of every two distinct layouts but
/// the byte-swapped and the little-endian one, see
/// [`is_swapped_little_pair`].
pub proof fn lemma_round_trip(a: RomType, b: RomType, image: Seq<u8>)
    requires
        a != b,
        !is_swapped_little_pair(a, b),
        spec_select_kernel(a, b).unwrap().whole_groups(image.len()),
    ensures
        spec_select_kernel(a, b) is Some,
        spec_select_kernel(b, a) == spec_select_kernel(a, b),
        spec_select_kernel(b, a).unwrap().permuted(
            spec_select_kernel(a, b).unwrap().permuted(image),
        ) == image,
{
    lemma_permuted_twice(spec_select_kernel(a, b).unwrap(), image);
}

/// The kernel chosen for `source` and `target` turns the magic header of
/// `source` into that of `target`, so that the converted image is detected
/// as `target`. The one exception is the way from little-endian to
/// byte-swapped, for which the pair swap is chosen.
pub proof fn lemma_kernel_rewrites_magic(source: RomType, target: RomType)
    requires
        source != target,
        !(source == RomType::LittleEndian && target == RomType::ByteSwapped),
    ensures
        spec_select_kernel(source, target) is Some,
        spec_select_kernel(source, target).unwrap().permuted(source.spec_magic())
            == target.spec_magic(),
{
    let kernel = spec_select_kernel(source, target).unwrap();
    let from = source.spec_magic();
    let to = kernel.permuted(from);
    lemma_group_sizes(kernel);
    assert(kernel.source_index(0) == kernel.spec_table()[0]);
    assert(kernel.source_index(1) == kernel.spec_table()[1]);
    if kernel == Kernel::ByteSwap {
        assert(kernel.source_index(2) == 2 + kernel.spec_table()[0]);
        assert(kernel.source_index(3) == 2 + kernel.spec_table()[1]);
    } else {
        assert(kernel.source_index(2) == kernel.spec_table()[2]);
        assert(kernel.source_index(3) == kernel.spec_table()[3]);
    }
    assert(to =~= target.spec_magic());
}

} // verus!
