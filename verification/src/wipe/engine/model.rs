//! The engine as mathematical values, and the step it takes on each
//! report.

use vstd::prelude::*;
use vstd::arithmetic::power2::is_pow2;
use crate::dev::IoFailure;
use crate::dev::UnsupportedCodes;
use crate::wipe::buffers::grown_to;
use crate::wipe::buffers::zeroed_prefix;
use crate::wipe::buffers::BuffersView;
use crate::wipe::engine::protocol::Target;
use crate::wipe::engine::protocol::Handle;
use crate::wipe::engine::protocol::Flush;
use crate::wipe::engine::protocol::PassError;
use crate::wipe::engine::protocol::Report;
use crate::wipe::engine::protocol::PassAction;
use crate::wipe::engine::protocol::Phase;
use crate::wipe::plan::full_limit_of;
use crate::wipe::plan::Fill;
use crate::wipe::progress::ProgressView;

verus! {

/// What a step sees around the engine.
pub struct Surroundings {
    /// Length of the main buffer.
    pub main_len: nat,
    /// Whether the tracker shows a status line for each chunk.
    pub shows_status: bool,
    /// Whether the tracker wants the status line ended.
    pub line_end_due: bool,
}

/// What the engine sees of the buffers and the tracker it is handed.
pub open spec fn surroundings(main: Seq<u8>, progress: ProgressView) -> Surroundings {
    Surroundings {
        main_len: main.len(),
        shows_status: progress.shows_status(),
        line_end_due: !progress.quiet,
    }
}

/// The chunk that goes out next from the main buffer: all that is left
/// before `full_limit`, but no more than the buffer holds.
pub open spec fn chunk_len(written: nat, full_limit: nat, main_len: nat) -> nat {
    if full_limit - written < main_len {
        (full_limit - written) as nat
    } else {
        main_len
    }
}

/// A count of random bytes grown by a read, stopping at `usize::MAX`.
pub open spec fn capped_fill(filled: nat, read: nat) -> nat {
    if filled + read > usize::MAX {
        usize::MAX as nat
    } else {
        filled + read
    }
}

/// Whether direct I/O can work with `sector`: it is a power of two, and no
/// larger than one allocation may be.
pub open spec fn usable_sector(sector: usize) -> bool {
    is_pow2(sector as int) && sector <= isize::MAX
}

/// A [`PassEngine`] as mathematical values.
pub struct EngineView {
    /// Size of the device, in bytes.
    pub device_size: nat,
    /// The effective sector.
    pub sector: nat,
    /// Whether writes bypass the page cache.
    pub direct: bool,
    /// Whether the pass ends with the strongest flush.
    pub durable: bool,
    /// What the pass writes.
    pub fill: Fill,
    /// Whether the caller holds an auxiliary handle already.
    pub aux_supplied: bool,
    /// The error codes that mean "no such flush on this device".
    pub codes: UnsupportedCodes,
    /// Bytes that go out through the main buffer.
    pub full_limit: nat,
    /// Bytes written so far; they are the device's first.
    pub written: nat,
    /// Random bytes read so far into the buffer being filled.
    pub filled: nat,
    /// What the engine waits to hear of.
    pub phase: Phase,
}

impl EngineView {
    /// The engine before its first step.
    pub open spec fn initial(
        device_size: nat,
        sector: nat,
        direct: bool,
        durable: bool,
        fill: Fill,
        aux_supplied: bool,
        codes: UnsupportedCodes,
    ) -> EngineView {
        EngineView {
            device_size,
            sector,
            direct,
            durable,
            fill,
            aux_supplied,
            codes,
            full_limit: full_limit_of(device_size, sector, direct),
            written: 0,
            filled: 0,
            phase: Phase::Ready,
        }
    }

    /// What holds of the engine in every phase.
    ///
    /// The main buffer's share is as the layout gives it. With direct I/O
    /// the sector is a power of two within `isize::MAX` and what is written
    /// so far is a multiple of it. Before the tail, no more than the main buffer's share is
    /// written; a chunk or a tail that is under way fits what is left; and
    /// from the tail's status on, every byte of the device is written.
    pub open spec fn inv(self) -> bool {
        &&& self.device_size <= u64::MAX
        &&& self.sector <= usize::MAX
        &&& self.filled <= usize::MAX
        &&& self.direct ==> is_pow2(self.sector as int) && self.sector <= isize::MAX
        &&& self.full_limit == full_limit_of(self.device_size, self.sector, self.direct)
        &&& self.written <= self.device_size
        &&& match self.phase {
            Phase::Ready => self.written == 0,
            Phase::FillingMain => self.written == 0,
            Phase::WritingMain { len } => {
                &&& len > 0
                &&& self.written + len <= self.full_limit
                &&& self.direct ==> self.written % self.sector == 0 && len as nat % self.sector
                    == 0
            },
            Phase::StatusAfterMain => {
                &&& self.written <= self.full_limit
                &&& self.direct ==> self.written % self.sector == 0
            },
            Phase::FillingTail { len } => self.tail_pending(len),
            Phase::OpeningAuxiliary { len } => self.tail_pending(len),
            Phase::WritingTail { len } => self.tail_pending(len),
            Phase::Failed(e) => true,
            _ => self.written == self.device_size,
        }
    }

    /// The main buffer's share is written and a tail of `len` bytes is
    /// still to be written.
    pub open spec fn tail_pending(self, len: usize) -> bool {
        &&& self.direct
        &&& self.written == self.full_limit
        &&& len == self.device_size - self.full_limit
        &&& 0 < len < self.sector
    }

    /// The engine in another phase.
    pub open spec fn at(self, phase: Phase) -> EngineView {
        EngineView { phase, ..self }
    }

    /// The pass fails.
    pub open spec fn fail(self, error: PassError) -> (EngineView, PassAction) {
        (self.at(Phase::Failed(error)), PassAction::Failed(error))
    }

    /// The flush a sync begins with: the strongest for a durable pass, a
    /// best-effort one otherwise.
    pub open spec fn first_flush(self) -> Flush {
        if self.durable {
            Flush::Strong
        } else {
            Flush::Soft
        }
    }

    /// The primary handle is flushed; this is the last thing a pass does.
    pub open spec fn sync_main(self) -> (EngineView, PassAction) {
        (
            self.at(Phase::SyncingMain { flush: self.first_flush() }),
            PassAction::Sync { handle: Handle::Primary, flush: self.first_flush() },
        )
    }

    /// The status line is ended, where there is one, before the primary
    /// handle is flushed.
    pub open spec fn end_line(self, around: Surroundings) -> (EngineView, PassAction) {
        if around.line_end_due {
            (self.at(Phase::EndingLine), PassAction::EndLine)
        } else {
            self.sync_main()
        }
    }

    /// The handle that wrote the tail is flushed.
    pub open spec fn sync_tail(self) -> (EngineView, PassAction) {
        (
            self.at(Phase::SyncingTail { flush: self.first_flush() }),
            PassAction::Sync { handle: Handle::Auxiliary, flush: self.first_flush() },
        )
    }

    /// The tail is written at the offset where the main buffer's share
    /// ends.
    pub open spec fn write_tail(self, len: usize) -> (EngineView, PassAction) {
        (
            self.at(Phase::WritingTail { len }),
            PassAction::WriteTail { offset: self.written as u64, len },
        )
    }

    /// The tail buffer is filled: the tail goes out through the auxiliary
    /// handle, which is opened first where the caller holds none.
    pub open spec fn tail_ready(self, len: usize) -> (EngineView, PassAction) {
        if self.aux_supplied {
            self.write_tail(len)
        } else {
            (self.at(Phase::OpeningAuxiliary { len }), PassAction::OpenAuxiliary)
        }
    }

    /// The main buffer's share is written. With direct I/O, what is left of
    /// the device is the tail: its buffer is filled like the main one, zeros
    /// at once and random bytes from the source.
    pub open spec fn after_full(self, around: Surroundings) -> (EngineView, PassAction) {
        let tail: usize = (self.device_size - self.written) as usize;
        if self.direct && self.written < self.device_size {
            match self.fill {
                Fill::Zero => self.tail_ready(tail),
                Fill::Random => (
                    EngineView { phase: Phase::FillingTail { len: tail }, filled: 0, ..self },
                    PassAction::ReadRandom { target: Target::Tail, from: 0, len: tail },
                ),
            }
        } else {
            self.end_line(around)
        }
    }

    /// The next chunk from the main buffer, or what follows the last one.
    pub open spec fn next_write(self, around: Surroundings) -> (EngineView, PassAction) {
        if self.written < self.full_limit {
            if around.main_len == 0 {
                self.fail(PassError::EmptyBuffer)
            } else if self.direct && around.main_len % self.sector != 0 {
                self.fail(PassError::MisalignedBuffer)
            } else {
                let len: usize = chunk_len(self.written, self.full_limit, around.main_len) as usize;
                (self.at(Phase::WritingMain { len }), PassAction::WriteMain { len })
            }
        } else {
            self.after_full(around)
        }
    }

    /// A flush has failed. A failure that means "no such flush" sends a
    /// strong flush to the soft one and lets a soft flush count as done;
    /// any other failure ends the pass.
    pub open spec fn after_flush_failure(
        self,
        handle: Handle,
        flush: Flush,
        failure: IoFailure,
        around: Surroundings,
    ) -> (EngineView, PassAction) {
        if self.codes.covers(failure) {
            match flush {
                Flush::Strong => match handle {
                    Handle::Primary => (
                        self.at(Phase::SyncingMain { flush: Flush::Soft }),
                        PassAction::Sync { handle, flush: Flush::Soft },
                    ),
                    Handle::Auxiliary => (
                        self.at(Phase::SyncingTail { flush: Flush::Soft }),
                        PassAction::Sync { handle, flush: Flush::Soft },
                    ),
                },
                Flush::Soft => self.after_flush(handle, around),
            }
        } else {
            self.fail(PassError::Io(failure))
        }
    }

    /// A flush is done: after the tail's the status line is ended, after
    /// the primary handle's the pass is complete.
    pub open spec fn after_flush(self, handle: Handle, around: Surroundings) -> (
        EngineView,
        PassAction,
    ) {
        match handle {
            Handle::Primary => (self.at(Phase::Finished), PassAction::Finished),
            Handle::Auxiliary => self.end_line(around),
        }
    }

    /// The engine with a chunk of `len` bytes more written.
    pub open spec fn with_chunk(self, len: usize) -> EngineView {
        EngineView { written: self.written + len as nat, ..self }
    }

    /// A read from the random source has returned `read` bytes for a buffer
    /// of `want` bytes. An empty read ends the pass; otherwise the source is
    /// asked again until the buffer is full.
    pub open spec fn after_read(self, target: Target, want: nat, read: usize, around: Surroundings) -> (
        EngineView,
        PassAction,
    ) {
        if read == 0 {
            self.fail(PassError::RandomSourceDry)
        } else {
            let filled: nat = capped_fill(self.filled, read as nat);
            let fuller: EngineView = EngineView { filled, ..self };
            if filled >= want {
                match target {
                    Target::Main => fuller.next_write(around),
                    Target::Tail => fuller.tail_ready(want as usize),
                }
            } else {
                (
                    fuller,
                    PassAction::ReadRandom {
                        target,
                        from: filled as usize,
                        len: (want - filled) as usize,
                    },
                )
            }
        }
    }

    /// The pass begins: the main buffer is filled, with zeros at once and
    /// with random bytes from the source, and then written out.
    pub open spec fn begin(self, around: Surroundings) -> (EngineView, PassAction) {
        if self.fill == Fill::Random && around.main_len > 0 {
            (
                EngineView { phase: Phase::FillingMain, filled: 0, ..self },
                PassAction::ReadRandom {
                    target: Target::Main,
                    from: 0,
                    len: around.main_len as usize,
                },
            )
        } else {
            self.next_write(around)
        }
    }

    /// One step of the pass: the engine and the action it asks for, after
    /// `report` on the action before.
    pub open spec fn step(self, report: Report, around: Surroundings) -> (EngineView, PassAction) {
        match self.phase {
            Phase::Ready => self.begin(around),
            Phase::FillingMain => match report {
                Report::Read(read) => self.after_read(Target::Main, around.main_len, read, around),
                Report::Failed(failure) => self.fail(PassError::Io(failure)),
                Report::Done => self.fail(PassError::OutOfStep),
            },
            Phase::WritingMain { len } => match report {
                Report::Done => if around.shows_status {
                    (self.with_chunk(len).at(Phase::StatusAfterMain), PassAction::ShowStatus)
                } else {
                    self.with_chunk(len).next_write(around)
                },
                Report::Failed(failure) => self.fail(PassError::Io(failure)),
                Report::Read(read) => self.fail(PassError::OutOfStep),
            },
            Phase::StatusAfterMain => match report {
                Report::Read(read) => self.fail(PassError::OutOfStep),
                _ => self.next_write(around),
            },
            Phase::FillingTail { len } => match report {
                Report::Read(read) => self.after_read(Target::Tail, len as nat, read, around),
                Report::Failed(failure) => self.fail(PassError::Io(failure)),
                Report::Done => self.fail(PassError::OutOfStep),
            },
            Phase::OpeningAuxiliary { len } => match report {
                Report::Done => self.write_tail(len),
                Report::Failed(failure) => self.fail(PassError::Io(failure)),
                Report::Read(read) => self.fail(PassError::OutOfStep),
            },
            Phase::WritingTail { len } => match report {
                Report::Done => if around.shows_status {
                    (self.with_chunk(len).at(Phase::StatusAfterTail), PassAction::ShowStatus)
                } else {
                    self.with_chunk(len).sync_tail()
                },
                Report::Failed(failure) => self.fail(PassError::Io(failure)),
                Report::Read(read) => self.fail(PassError::OutOfStep),
            },
            Phase::StatusAfterTail => match report {
                Report::Read(read) => self.fail(PassError::OutOfStep),
                _ => self.sync_tail(),
            },
            Phase::SyncingTail { flush } => match report {
                Report::Done => self.after_flush(Handle::Auxiliary, around),
                Report::Failed(failure) => self.after_flush_failure(
                    Handle::Auxiliary,
                    flush,
                    failure,
                    around,
                ),
                Report::Read(read) => self.fail(PassError::OutOfStep),
            },
            Phase::EndingLine => match report {
                Report::Read(read) => self.fail(PassError::OutOfStep),
                _ => self.sync_main(),
            },
            Phase::SyncingMain { flush } => match report {
                Report::Done => self.after_flush(Handle::Primary, around),
                Report::Failed(failure) => self.after_flush_failure(
                    Handle::Primary,
                    flush,
                    failure,
                    around,
                ),
                Report::Read(read) => self.fail(PassError::OutOfStep),
            },
            Phase::Finished => (self, PassAction::Finished),
            Phase::Failed(error) => (self, PassAction::Failed(error)),
        }
    }

    /// The buffers after a step that leads from this engine to `next`.
    pub open spec fn buffers_after(self, next: EngineView, buffers: BuffersView) -> BuffersView {
        BuffersView {
            main: self.main_after(buffers.main),
            tail: self.tail_after(next, buffers.tail),
            ..buffers
        }
    }

    /// Whether the tracker `progress` counts the bytes of this engine's
    /// pass: it has begun a pass, is on schedule, and agrees with the engine
    /// on the device's size and on what is written.
    pub open spec fn in_step_with(self, progress: ProgressView) -> bool {
        &&& progress.on_schedule()
        &&& progress.current_pass >= 1
        &&& progress.device_size == self.device_size
        &&& progress.pass_done == self.written
    }

    /// The chunk that a step records with the tracker: the one whose write
    /// is reported done.
    pub open spec fn chunk_recorded(self, report: Report) -> Option<usize> {
        if report == Report::Done {
            match self.phase {
                Phase::WritingMain { len } => Some(len),
                Phase::WritingTail { len } => Some(len),
                _ => None,
            }
        } else {
            None
        }
    }

    /// The main buffer after a step: zeroed by the first step of a zero
    /// pass, and otherwise as it was.
    pub open spec fn main_after(self, main: Seq<u8>) -> Seq<u8> {
        if self.phase == Phase::Ready && self.fill == Fill::Zero {
            zeroed_prefix(main, main.len())
        } else {
            main
        }
    }

    /// The tail buffer after a step that leads from this engine to `next`.
    /// The step that turns to the tail makes the buffer long enough and, in
    /// a zero pass, zeroes the tail's bytes; no other step touches it.
    pub open spec fn tail_after(self, next: EngineView, tail: Seq<u8>) -> Seq<u8> {
        match next.phase.tail_len() {
            Some(len) => if self.phase.tail_len() is None {
                match self.fill {
                    Fill::Zero => zeroed_prefix(grown_to(tail, len as nat), len as nat),
                    Fill::Random => grown_to(tail, len as nat),
                }
            } else {
                tail
            },
            None => tail,
        }
    }
}

} // verus!
