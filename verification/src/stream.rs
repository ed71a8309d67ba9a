//! Converting an image chunk by chunk.
//!
//! An image has exactly [`ROM_LEN`] bytes and is converted in chunks of
//! [`CHUNK_LEN`] bytes, first to last. A [`Conversion`] keeps count: it says
//! which chunk to read next, turns each chunk read into the chunk to write,
//! and says when the image is complete. Reading and writing are the
//! caller's part.

use vstd::prelude::*;
use crate::error::{Error, ErrorKind, ErrorView};
use crate::kernel::Kernel;
use crate::kernel_laws::{lemma_group_sizes, lemma_permuted_concat};

verus! {

/// The number of bytes in an image: 8 MiB.
pub const ROM_LEN: u64 = 8388608;

/// The number of bytes in a chunk. It is a multiple of every kernel's group
/// and divides [`ROM_LEN`], so that an image is a whole number of chunks.
pub const CHUNK_LEN: usize = 262144;

/// What the caller has to do next.
#[derive(PartialEq, Eq, Structural, Debug, Clone, Copy)]
pub enum Step {
    /// Read `len` bytes of the source at `offset` and feed them.
    Read { offset: u64, len: usize },
    /// The image is complete.
    Finished,
}

/// The error for a chunk that does not have [`CHUNK_LEN`] bytes.
pub open spec fn short_read() -> ErrorView {
    ErrorView { kind: ErrorKind::Io, message: "a chunk of the image was not read in full"@ }
}

/// The error for a chunk fed after the last.
pub open spec fn image_complete() -> ErrorView {
    ErrorView {
        kind: ErrorKind::MalformedInput,
        message: "the image is complete and takes no more bytes"@,
    }
}

/// A conversion under way.
pub struct Conversion {
    kernel: Kernel,
    position: u64,
    consumed: Ghost<Seq<u8>>,
    produced: Ghost<Seq<u8>>,
}

/// The mathematical content of a [`Conversion`].
pub struct ConversionView {
    /// The kernel that is applied.
    pub kernel: Kernel,
    /// The bytes fed so far, in the order they were fed.
    pub consumed: Seq<u8>,
    /// The bytes handed back so far, in the order they were handed back.
    pub produced: Seq<u8>,
}

impl ConversionView {
    /// Whether the whole image has gone through.
    pub open spec fn finished(self) -> bool {
        self.consumed.len() == ROM_LEN
    }

    /// What holds of every conversion at every moment: whole chunks have
    /// gone through, no more than an image holds, and what was handed back
    /// is the image under the kernel of what was fed.
    pub open spec fn consistent(self) -> bool {
        &&& self.consumed.len() <= ROM_LEN
        &&& self.consumed.len() % (CHUNK_LEN as nat) == 0
        &&& self.produced == self.kernel.permuted(self.consumed)
    }
}

impl View for Conversion {
    type V = ConversionView;

    closed spec fn view(&self) -> ConversionView {
        ConversionView {
            kernel: self.kernel,
            consumed: self.consumed@,
            produced: self.produced@,
        }
    }
}

impl Conversion {
    #[verifier::type_invariant]
    spec fn well_formed(self) -> bool {
        &&& self.position == self.consumed@.len()
        &&& self@.consistent()
    }

    /// Starts the conversion of an image with `kernel`.
    pub fn new(kernel: Kernel) -> (c: Conversion)
        ensures
            c@ == (ConversionView { kernel, consumed: Seq::empty(), produced: Seq::empty() }),
            c@.consistent(),
    {
        assert(kernel.permuted(Seq::empty()) =~= Seq::<u8>::empty());
        Conversion {
            kernel,
            position: 0,
            consumed: Ghost(Seq::empty()),
            produced: Ghost(Seq::empty()),
        }
    }

    /// The kernel that is applied.
    pub fn kernel(&self) -> (kernel: Kernel)
        ensures
            kernel == self@.kernel,
    {
        self.kernel
    }

    /// The number of bytes that have gone through.
    pub fn position(&self) -> (position: u64)
        ensures
            position == self@.consumed.len(),
            self@.consistent(),
    {
        proof {
            use_type_invariant(self);
        }
        self.position
    }

    /// Whether the whole image has gone through.
    pub fn is_finished(&self) -> (finished: bool)
        ensures
            finished == self@.finished(),
            self@.consistent(),
    {
        proof {
            use_type_invariant(self);
        }
        self.position == ROM_LEN
    }

    /// How much of the image has gone through, in percent.
    pub fn percent_done(&self) -> (percent: u8)
        ensures
            percent == self@.consumed.len() * 100 / (ROM_LEN as nat),
            percent <= 100,
    {
        proof {
            use_type_invariant(self);
        }
        (self.position * 100 / ROM_LEN) as u8
    }

    /// What to do next: read the chunk that follows those already fed, or
    /// nothing more once the image is complete.
    pub fn next_step(&self) -> (step: Step)
        ensures
            self@.consistent(),
            self@.finished() ==> step == Step::Finished,
            !self@.finished() ==> step == (Step::Read {
                offset: self@.consumed.len() as u64,
                len: CHUNK_LEN,
            }),
    {
        proof {
            use_type_invariant(self);
        }
        if self.position == ROM_LEN {
            Step::Finished
        } else {
            Step::Read { offset: self.position, len: CHUNK_LEN }
        }
    }

    /// Takes the chunk that was read and hands back the chunk to write.
    ///
    /// The chunk must have [`CHUNK_LEN`] bytes: a shorter one means that the
    /// read fell short, and is an I/O failure. Once the image is complete no
    /// further chunk is accepted. A chunk that is turned down leaves the
    /// conversion as it was.
    pub fn feed(&mut self, chunk: &[u8]) -> (r: Result<Vec<u8>, Error>)
        ensures
            final(self)@.consistent(),
            match r {
                Ok(out) => {
                    &&& !old(self)@.finished()
                    &&& chunk@.len() == CHUNK_LEN
                    &&& out@ == old(self)@.kernel.permuted(chunk@)
                    &&& out@.len() == CHUNK_LEN
                    &&& final(self)@ == (ConversionView {
                        kernel: old(self)@.kernel,
                        consumed: old(self)@.consumed + chunk@,
                        produced: old(self)@.produced + out@,
                    })
                },
                Err(e) => {
                    &&& final(self)@ == old(self)@
                    &&& old(self)@.finished() ==> e@ == image_complete()
                    &&& !old(self)@.finished() ==> chunk@.len() != CHUNK_LEN && e@ == short_read()
                },
            },
    {
        proof {
            use_type_invariant(&*self);
        }
        if self.position == ROM_LEN {
            return Err(
                Error::new(
                    ErrorKind::MalformedInput,
                    "the image is complete and takes no more bytes",
                ),
            );
        }
        if chunk.len() != CHUNK_LEN {
            return Err(Error::new(ErrorKind::Io, "a chunk of the image was not read in full"));
        }
        proof {
            lemma_group_sizes(self.kernel);
            assert(self.kernel.whole_groups(chunk@.len()));
            assert(self.kernel.whole_groups(self.consumed@.len()));
        }
        let out = match self.kernel.apply(chunk) {
            Ok(out) => out,
            Err(e) => {
                return Err(e);
            },
        };
        proof {
            lemma_permuted_concat(self.kernel, self.consumed@, chunk@);
        }
        *self = Conversion {
            kernel: self.kernel,
            position: self.position + CHUNK_LEN as u64,
            consumed: Ghost(self.consumed@ + chunk@),
            produced: Ghost(self.produced@ + out@),
        };
        Ok(out)
    }
}

/// An image is a whole number of chunks, and a chunk is a whole number of
/// sixteen-byte blocks, hence of groups of every kernel.
pub proof fn lemma_chunks_fit(kernel: Kernel)
    ensures
        ROM_LEN % (CHUNK_LEN as u64) == 0,
        CHUNK_LEN % 16 == 0,
        kernel.whole_groups(CHUNK_LEN as nat),
        kernel.whole_groups(ROM_LEN as nat),
{
    lemma_group_sizes(kernel);
}

/// Every kernel accepts an image of [`ROM_LEN`] bytes and makes of it an
/// image of [`ROM_LEN`] bytes.
pub proof fn lemma_image_length_kept(kernel: Kernel, image: Seq<u8>)
    requires
        image.len() == ROM_LEN,
    ensures
        kernel.whole_groups(image.len()),
        kernel.permuted(image).len() == ROM_LEN,
{
    lemma_group_sizes(kernel);
}

} // verus!
