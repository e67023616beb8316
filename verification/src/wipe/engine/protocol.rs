//! What passes between the engine and its caller: the actions the engine
//! asks for, the reports it takes, and the phases it goes through.

use vstd::prelude::*;
use crate::dev::IoFailure;

verus! {

/// One of the two buffers.
#[derive(Clone, Copy, Debug, PartialEq, Eq, Structural)]
pub enum Target {
    Main,
    Tail,
}

/// One of the two handles to the device.
#[derive(Clone, Copy, Debug, PartialEq, Eq, Structural)]
pub enum Handle {
    /// The handle the pass writes through, opened in the run's mode.
    Primary,
    /// A second, never direct, handle for the tail.
    Auxiliary,
}

/// How strongly a handle is flushed.
#[derive(Clone, Copy, Debug, PartialEq, Eq, Structural)]
pub enum Flush {
    /// The platform's strongest flush.
    Strong,
    /// A best-effort flush.
    Soft,
}

/// Why a pass ended without finishing.
#[derive(Clone, Copy, Debug, PartialEq, Eq, Structural)]
pub enum PassError {
    /// A write, an open or a flush failed.
    Io(IoFailure),
    /// The random source signalled its end before the buffer was full.
    RandomSourceDry,
    /// Bytes remain to be written, but the main buffer is empty.
    EmptyBuffer,
    /// With direct I/O, the main buffer's length is no multiple of the
    /// sector.
    MisalignedBuffer,
    /// With direct I/O, the sector is not a power of two, or too large.
    BadSector,
    /// The report does not answer the action that was asked for.
    OutOfStep,
}

/// What the caller reports on the action it was last asked for.
#[derive(Clone, Copy, Debug, PartialEq, Eq, Structural)]
pub enum Report {
    /// The action was carried out in full.
    Done,
    /// The random source delivered this many bytes.
    Read(usize),
    /// The action failed.
    Failed(IoFailure),
}

/// What the engine asks the caller to do next.
#[derive(Clone, Copy, Debug, PartialEq, Eq, Structural)]
pub enum PassAction {
    /// Read up to `len` random bytes into the target buffer, from index
    /// `from` on, and report how many were read.
    ReadRandom { target: Target, from: usize, len: usize },
    /// Write the first `len` bytes of the main buffer through the primary
    /// handle, at its cursor.
    WriteMain { len: usize },
    /// Open the auxiliary handle: the same device, in fast mode.
    OpenAuxiliary,
    /// Write the first `len` bytes of the tail buffer through the auxiliary
    /// handle, at the absolute offset `offset`.
    WriteTail { offset: u64, len: usize },
    /// Show the tracker's status line.
    ShowStatus,
    /// End the status line.
    EndLine,
    /// Flush a handle.
    Sync { handle: Handle, flush: Flush },
    /// The pass is complete.
    Finished,
    /// The pass is over and has failed.
    Failed(PassError),
}

/// Where a pass stands: what the engine has asked for and waits to hear of.
#[derive(Clone, Copy, Debug, PartialEq, Eq, Structural)]
pub enum Phase {
    /// Nothing has been asked for yet.
    Ready,
    /// A random read into the main buffer.
    FillingMain,
    /// A write of `len` bytes from the main buffer.
    WritingMain { len: usize },
    /// The status line after a chunk from the main buffer.
    StatusAfterMain,
    /// A random read into the first `len` bytes of the tail buffer.
    FillingTail { len: usize },
    /// The opening of the auxiliary handle, for a tail of `len` bytes.
    OpeningAuxiliary { len: usize },
    /// The write of the tail of `len` bytes.
    WritingTail { len: usize },
    /// The status line after the tail.
    StatusAfterTail,
    /// A flush of the auxiliary handle.
    SyncingTail { flush: Flush },
    /// The end of the status line.
    EndingLine,
    /// A flush of the primary handle.
    SyncingMain { flush: Flush },
    /// The pass is complete.
    Finished,
    /// The pass has failed.
    Failed(PassError),
}

impl Phase {
    /// The length of the tail, in the phases that prepare and write it.
    pub open spec fn tail_len(self) -> Option<usize> {
        match self {
            Phase::FillingTail { len } => Some(len),
            Phase::OpeningAuxiliary { len } => Some(len),
            Phase::WritingTail { len } => Some(len),
            _ => None,
        }
    }

    /// Whether every byte of the device has been written in this phase.
    pub open spec fn past_writing(self) -> bool {
        match self {
            Phase::StatusAfterTail => true,
            Phase::SyncingTail { flush } => true,
            Phase::EndingLine => true,
            Phase::SyncingMain { flush } => true,
            Phase::Finished => true,
            _ => false,
        }
    }
}

} // verus!
