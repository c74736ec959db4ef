//! The recording worker's decisions: the serial read buffer, the notice for
//! a file that already holds data, and the count of bytes copied.

use vstd::prelude::*;
use crate::view::{Alert, AlertType};

verus! {

/// The read buffer that the serial port is opened with, in bytes.
pub const SERIAL_BUFFER_SIZE: u32 = 1024;

/// The notice shown when the output file already holds data.
pub const APPEND_NOTICE: &'static str = "The file is not empty, appending data to the end.";

/// The alert to show before recording into a file of `file_size` bytes:
/// a notice exactly when the file is not empty, since new data go after
/// what it holds.
pub fn append_notice(file_size: u64) -> (alert: Option<Alert>)
    ensures
        alert is Some <==> file_size != 0,
        alert matches Some(a) ==> a.kind == AlertType::Info && a.message@ == APPEND_NOTICE@,
{
    if file_size != 0 {
        Some(Alert { kind: AlertType::Info, message: String::from_str(APPEND_NOTICE) })
    } else {
        None
    }
}

/// The sum of a sequence of lengths.
pub open spec fn total(lengths: Seq<usize>) -> int
    decreases lengths.len(),
{
    if lengths.len() == 0 {
        0
    } else {
        total(lengths.drop_last()) + lengths.last()
    }
}

/// What to do after a read from the serial port.
pub enum ReadStep {
    /// The read brought a chunk: write it to the file and report its length
    /// to `chunk_written`.
    Chunk,
    /// The port is done: release it, close the file, and report this many
    /// bytes as copied.
    Finished(usize),
}

/// The count of one recording: the lengths of the chunks copied so far.
pub struct Transfer {
    received: usize,
    chunks: Ghost<Seq<usize>>,
}

impl View for Transfer {
    type V = Seq<usize>;

    closed spec fn view(&self) -> Seq<usize> {
        self.chunks@
    }
}

impl Transfer {
    #[verifier::type_invariant]
    spec fn inv(self) -> bool {
        self.received == total(self.chunks@)
    }

    /// Nothing copied yet.
    pub fn new() -> (t: Self)
        ensures
            t@ == Seq::<usize>::empty(),
    {
        Transfer { received: 0, chunks: Ghost(Seq::empty()) }
    }

    /// The number of bytes copied so far.
    pub fn received(&self) -> (n: usize)
        ensures
            n == total(self@),
    {
        proof {
            use_type_invariant(self);
        }
        self.received
    }

    /// Decides from a read's `done` flag (absent counts as not done) whether
    /// the port is done, and if so reports the bytes copied.
    pub fn read_step(&self, done: Option<bool>) -> (step: ReadStep)
        ensures
            match done {
                Some(true) => step == ReadStep::Finished(total(self@) as usize),
                _ => step is Chunk,
            },
    {
        proof {
            use_type_invariant(self);
        }
        if done.unwrap_or(false) {
            ReadStep::Finished(self.received)
        } else {
            ReadStep::Chunk
        }
    }

    /// Counts a chunk of `len` bytes.
    pub fn chunk_written(&mut self, len: usize)
        requires
            total(old(self)@) + len <= usize::MAX,
        ensures
            final(self)@ == old(self)@.push(len),
            total(final(self)@) == total(old(self)@) + len,
    {
        proof {
            use_type_invariant(&*self);
        }
        let ghost chunks = self.chunks@.push(len);
        assert(chunks.drop_last() =~= self.chunks@);
        *self = Transfer { received: self.received + len, chunks: Ghost(chunks) };
    }
}

} // verus!
