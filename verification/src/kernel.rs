//! The three byte permutations that rewrite an image from one layout to
//! another.
//!
//! Every kernel works on groups of two or four bytes and moves each byte to
//! another place inside its own group. A kernel is described by a table: for
//! each place in a group of the output, the place in the same group of the
//! input that supplies the byte.

use vstd::prelude::*;
use crate::error::{Error, ErrorKind, ErrorView};

verus! {

/// One of the three permutations.
#[derive(PartialEq, Eq, Structural, Debug, Clone, Copy)]
pub enum Kernel {
    /// Exchanges the two bytes of every pair.
    ByteSwap,
    /// Reverses every four-byte word.
    EndianSwap,
    /// Exchanges the two halves of every four-byte word.
    ByteEndianSwap,
}

/// The error for an input that ends inside a group.
pub open spec fn partial_group() -> ErrorView {
    ErrorView {
        kind: ErrorKind::MalformedInput,
        message: "the input does not consist of whole groups of bytes"@,
    }
}

impl Kernel {
    /// The table of the kernel: entry `k` is the offset, inside a group of the
    /// input, of the byte that lands at offset `k` of the same group of the
    /// output.
    pub open spec fn spec_table(self) -> Seq<int> {
        match self {
            Kernel::ByteSwap => seq![1, 0],
            Kernel::EndianSwap => seq![3, 2, 1, 0],
            Kernel::ByteEndianSwap => seq![2, 3, 0, 1],
        }
    }

    /// The number of bytes in a group.
    pub open spec fn spec_group(self) -> nat {
        self.spec_table().len()
    }

    /// Whether a sequence of `len` bytes consists of whole groups.
    pub open spec fn whole_groups(self, len: nat) -> bool {
        len % self.spec_group() == 0
    }

    /// The index in the input of the byte that lands at index `i` of the
    /// output.
    pub open spec fn source_index(self, i: int) -> int {
        let g = self.spec_group() as int;
        i - i % g + self.spec_table()[i % g]
    }

    /// The image of `input` under the kernel. It is meaningful when `input`
    /// consists of whole groups.
    pub open spec fn permuted(self, input: Seq<u8>) -> Seq<u8> {
        Seq::new(input.len(), |i: int| input[self.source_index(i)])
    }

    /// The number of bytes in a group: 2 for the pair swap, 4 for the others.
    pub fn group(&self) -> (g: usize)
        ensures
            g == self.spec_group(),
            g == 2 || g == 4,
    {
        match self {
            Kernel::ByteSwap => 2,
            Kernel::EndianSwap => 4,
            Kernel::ByteEndianSwap => 4,
        }
    }

    /// Entry `k` of the table.
    pub fn offset(&self, k: usize) -> (o: usize)
        requires
            k < self.spec_group(),
        ensures
            o == self.spec_table()[k as int],
            o < self.spec_group(),
    {
        match self {
            Kernel::ByteSwap => 1 - k,
            Kernel::EndianSwap => 3 - k,
            Kernel::ByteEndianSwap => if k < 2 { k + 2 } else { k - 2 },
        }
    }

    /// Applies the kernel to `input`, which must consist of whole groups.
    pub fn apply(&self, input: &[u8]) -> (r: Result<Vec<u8>, Error>)
        ensures
            match r {
                Ok(out) => self.whole_groups(input@.len())
                    && out@ == self.permuted(input@)
                    && out@.len() == input@.len(),
                Err(e) => !self.whole_groups(input@.len()) && e@ == partial_group(),
            },
    {
        let g = self.group();
        let n = input.len();
        if n % g != 0 {
            return Err(
                Error::new(
                    ErrorKind::MalformedInput,
                    "the input does not consist of whole groups of bytes",
                ),
            );
        }
        let mut out: Vec<u8> = Vec::with_capacity(n);
        let mut i: usize = 0;
        while i < n
            invariant
                i <= n,
                n == input@.len(),
                n % g == 0,
                g == self.spec_group(),
                g == 2 || g == 4,
                out@.len() == i,
                forall|j: int| 0 <= j < i ==> out@[j] == input@[self.source_index(j)],
            decreases n - i,
        {
            let k = i % g;
            let source = i - k + self.offset(k);
            out.push(input[source]);
            i += 1;
        }
        assert(out@ =~= self.permuted(input@));
        Ok(out)
    }
}

/// Exchanges the two bytes of every pair: offsets `0 1 2 3` of the input
/// land in the order `1 0 3 2`.
pub fn byte_swap(input: &[u8]) -> (r: Result<Vec<u8>, Error>)
    ensures
        match r {
            Ok(out) => input@.len() % 2 == 0 && out@ == Kernel::ByteSwap.permuted(input@)
                && out@.len() == input@.len(),
            Err(e) => input@.len() % 2 != 0 && e@ == partial_group(),
        },
{
    Kernel::ByteSwap.apply(input)
}

/// Reverses every four-byte word: offsets `0 1 2 3` of the input land in
/// the order `3 2 1 0`.
pub fn endian_swap(input: &[u8]) -> (r: Result<Vec<u8>, Error>)
    ensures
        match r {
            Ok(out) => input@.len() % 4 == 0 && out@ == Kernel::EndianSwap.permuted(input@)
                && out@.len() == input@.len(),
            Err(e) => input@.len() % 4 != 0 && e@ == partial_group(),
        },
{
    Kernel::EndianSwap.apply(input)
}

/// Exchanges the two halves of every four-byte word: offsets `0 1 2 3` of
/// the input land in the order `2 3 0 1`.
pub fn byte_endian_swap(input: &[u8]) -> (r: Result<Vec<u8>, Error>)
    ensures
        match r {
            Ok(out) => input@.len() % 4 == 0 && out@ == Kernel::ByteEndianSwap.permuted(input@)
                && out@.len() == input@.len(),
            Err(e) => input@.len() % 4 != 0 && e@ == partial_group(),
        },
{
    Kernel::ByteEndianSwap.apply(input)
}

} // verus!
