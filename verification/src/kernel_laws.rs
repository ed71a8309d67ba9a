//! What holds of every kernel and every input.

use vstd::prelude::*;
use vstd::seq_lib::{lemma_multiset_commutative, to_multiset_build};
use crate::kernel::Kernel;

verus! {

/// The first index of the group that holds index `i`.
pub open spec fn group_start(kernel: Kernel, i: int) -> int {
    i - i % (kernel.spec_group() as int)
}

/// A kernel moves bytes inside their groups only, and within a group it is a
/// bijection on the positions: the byte at an output position comes from the
/// same group of the input, two output positions never draw on the same
/// input position, and every input position `j` supplies an output position
/// of its group, namely the one the table gives for `j`.
pub proof fn lemma_positions_bijective(kernel: Kernel)
    ensures
        forall|i: int|
            0 <= i ==> 0 <= #[trigger] kernel.source_index(i) && group_start(
                kernel,
                kernel.source_index(i),
            ) == group_start(kernel, i),
        forall|i: int, j: int|
            0 <= i && 0 <= j && #[trigger] kernel.source_index(i) == #[trigger] kernel.source_index(
                j,
            ) ==> i == j,
        forall|j: int|
            0 <= j ==> kernel.source_index(#[trigger] kernel.source_index(j)) == j,
{
    assert forall|j: int| 0 <= j implies kernel.source_index(#[trigger] kernel.source_index(j))
        == j by {
        lemma_source_index_involutive(kernel, j);
    }
    assert forall|i: int, j: int|
        0 <= i && 0 <= j && #[trigger] kernel.source_index(i) == #[trigger] kernel.source_index(
            j,
        ) implies i == j by {
        lemma_source_index_involutive(kernel, i);
        lemma_source_index_involutive(kernel, j);
    }
    assert forall|i: int| 0 <= i implies 0 <= #[trigger] kernel.source_index(i) && group_start(
        kernel,
        kernel.source_index(i),
    ) == group_start(kernel, i) by {
        lemma_source_index_involutive(kernel, i);
    }
}

/// Following the table twice leads back to where one started, and the table
/// never leaves the group.
pub proof fn lemma_source_index_involutive(kernel: Kernel, i: int)
    requires
        0 <= i,
    ensures
        0 <= kernel.source_index(i),
        group_start(kernel, kernel.source_index(i)) == group_start(kernel, i),
        group_start(kernel, i) <= kernel.source_index(i) < group_start(kernel, i)
            + kernel.spec_group(),
        kernel.source_index(kernel.source_index(i)) == i,
{
    lemma_table_entries(kernel);
    let j = kernel.source_index(i);
    match kernel {
        Kernel::ByteSwap => {
            assert(i % 2 == 0 || i % 2 == 1);
            assert(j % 2 == 1 - i % 2);
        },
        Kernel::EndianSwap => {
            assert(0 <= i % 4 < 4);
            assert(j % 4 == 3 - i % 4);
        },
        Kernel::ByteEndianSwap => {
            assert(0 <= i % 4 < 4);
            assert(j % 4 == (if i % 4 < 2 { i % 4 + 2 } else { i % 4 - 2 }));
        },
    }
}

/// The entries of the three tables, one by one.
proof fn lemma_table_entries(kernel: Kernel)
    ensures
        kernel == Kernel::ByteSwap ==> kernel.spec_group() == 2 && kernel.spec_table()[0] == 1
            && kernel.spec_table()[1] == 0,
        kernel == Kernel::EndianSwap ==> kernel.spec_group() == 4 && kernel.spec_table()[0] == 3
            && kernel.spec_table()[1] == 2 && kernel.spec_table()[2] == 1
            && kernel.spec_table()[3] == 0,
        kernel == Kernel::ByteEndianSwap ==> kernel.spec_group() == 4 && kernel.spec_table()[0]
            == 2 && kernel.spec_table()[1] == 3 && kernel.spec_table()[2] == 0
            && kernel.spec_table()[3] == 1,
{
}

/// A kernel keeps the length of its input.
pub proof fn lemma_permuted_len(kernel: Kernel, input: Seq<u8>)
    ensures
        kernel.permuted(input).len() == input.len(),
{
}

/// Applying a kernel twice gives the input back: each kernel is its own
/// inverse.
pub proof fn lemma_permuted_twice(kernel: Kernel, input: Seq<u8>)
    requires
        kernel.whole_groups(input.len()),
    ensures
        kernel.permuted(kernel.permuted(input)) == input,
{
    let once = kernel.permuted(input);
    let twice = kernel.permuted(once);
    assert forall|i: int| 0 <= i < input.len() implies twice[i] == input[i] by {
        lemma_source_index_involutive(kernel, i);
        lemma_source_index_in_range(kernel, input.len(), i);
    }
    assert(twice =~= input);
}

/// A group has two bytes for the pair swap and four for the other kernels,
/// so a multiple of four bytes is a whole number of groups for every kernel.
pub proof fn lemma_group_sizes(kernel: Kernel)
    ensures
        kernel.spec_group() == (if kernel == Kernel::ByteSwap {
            2nat
        } else {
            4nat
        }),
        forall|len: nat| len % 4 == 0 ==> #[trigger] kernel.whole_groups(len),
{
    lemma_table_entries(kernel);
    assert forall|len: nat| len % 4 == 0 implies #[trigger] kernel.whole_groups(len) by {
        if kernel == Kernel::ByteSwap {
            assert(len % 2 == 0);
        }
    }
}

/// In an input of whole groups the table never points past the end.
pub proof fn lemma_source_index_in_range(kernel: Kernel, len: nat, i: int)
    requires
        kernel.whole_groups(len),
        0 <= i < len,
    ensures
        0 <= kernel.source_index(i) < len,
{
    lemma_table_entries(kernel);
    lemma_source_index_involutive(kernel, i);
    match kernel {
        Kernel::ByteSwap => {
            assert((i - i % 2) % 2 == 0);
        },
        Kernel::EndianSwap => {
            assert((i - i % 4) % 4 == 0);
        },
        Kernel::ByteEndianSwap => {
            assert((i - i % 4) % 4 == 0);
        },
    }
}

/// A kernel may be applied piece by piece: the image of two inputs put end
/// to end is the two images put end to end, as long as each piece consists
/// of whole groups.
pub proof fn lemma_permuted_concat(kernel: Kernel, first: Seq<u8>, second: Seq<u8>)
    requires
        kernel.whole_groups(first.len()),
        kernel.whole_groups(second.len()),
    ensures
        kernel.permuted(first + second) == kernel.permuted(first) + kernel.permuted(second),
{
    let whole = first + second;
    let left = kernel.permuted(whole);
    let right = kernel.permuted(first) + kernel.permuted(second);
    assert forall|i: int| 0 <= i < whole.len() implies left[i] == right[i] by {
        if i < first.len() {
            lemma_source_index_in_range(kernel, first.len(), i);
        } else {
            let k = i - first.len();
            lemma_source_index_in_range(kernel, second.len(), k);
            lemma_table_entries(kernel);
            match kernel {
                Kernel::ByteSwap => {
                    assert(i % 2 == k % 2);
                },
                Kernel::EndianSwap => {
                    assert(i % 4 == k % 4);
                },
                Kernel::ByteEndianSwap => {
                    assert(i % 4 == k % 4);
                },
            }
            assert(kernel.source_index(i) == first.len() + kernel.source_index(k));
        }
    }
    assert(left =~= right);
}

/// A kernel neither drops nor duplicates a byte value: input and output hold
/// the same bytes, each as often as the other.
pub proof fn lemma_permuted_keeps_bytes(kernel: Kernel, input: Seq<u8>)
    requires
        kernel.whole_groups(input.len()),
    ensures
        kernel.permuted(input).to_multiset() == input.to_multiset(),
    decreases input.len(),
{
    lemma_table_entries(kernel);
    let g = kernel.spec_group() as int;
    let n = input.len() as int;
    if n == 0 {
        assert(kernel.permuted(input) =~= input);
    } else {
        assert(n >= g) by {
            if kernel == Kernel::ByteSwap {
                assert(n % 2 == 0);
            } else {
                assert(n % 4 == 0);
            }
        }
        let head = input.subrange(0, n - g);
        let tail = input.subrange(n - g, n);
        assert(input =~= head + tail);
        assert(kernel.whole_groups(head.len())) by {
            if kernel == Kernel::ByteSwap {
                assert((n - 2) % 2 == 0);
            } else {
                assert((n - 4) % 4 == 0);
            }
        }
        lemma_permuted_keeps_bytes(kernel, head);
        lemma_one_group_keeps_bytes(kernel, tail);
        lemma_permuted_concat(kernel, head, tail);
        lemma_multiset_commutative(head, tail);
        lemma_multiset_commutative(kernel.permuted(head), kernel.permuted(tail));
    }
}

/// The bytes of a single group are the same before and after.
proof fn lemma_one_group_keeps_bytes(kernel: Kernel, group: Seq<u8>)
    requires
        group.len() == kernel.spec_group(),
    ensures
        kernel.permuted(group).to_multiset() == group.to_multiset(),
{
    broadcast use vstd::multiset::group_multiset_axioms;

    lemma_table_entries(kernel);
    let out = kernel.permuted(group);
    let none = Seq::<u8>::empty();
    if kernel == Kernel::ByteSwap {
        let (a, b) = (group[0], group[1]);
        assert(group =~= none.push(a).push(b));
        assert(out =~= none.push(b).push(a));
        to_multiset_build(none, a);
        to_multiset_build(none.push(a), b);
        to_multiset_build(none, b);
        to_multiset_build(none.push(b), a);
        assert(out.to_multiset() =~= group.to_multiset());
    } else {
        let (a, b, c, d) = (group[0], group[1], group[2], group[3]);
        let (w, x, y, z) = (out[0], out[1], out[2], out[3]);
        assert(group =~= none.push(a).push(b).push(c).push(d));
        assert(out =~= none.push(w).push(x).push(y).push(z));
        to_multiset_build(none, a);
        to_multiset_build(none.push(a), b);
        to_multiset_build(none.push(a).push(b), c);
        to_multiset_build(none.push(a).push(b).push(c), d);
        to_multiset_build(none, w);
        to_multiset_build(none.push(w), x);
        to_multiset_build(none.push(w).push(x), y);
        to_multiset_build(none.push(w).push(x).push(y), z);
        assert(out.to_multiset() =~= group.to_multiset());
    }
}

} // verus!
