//! The pass engine: one overwrite sweep of the device as a state machine.
//!
//! The engine performs no I/O. Each call of [`PassEngine::step`] takes the
//! caller's report on the action it was last asked for and answers with the
//! next one: fill a buffer from the random source, write a chunk, show the
//! status, flush a handle. The first call starts the pass. A failed write,
//! open or flush ends the pass for good; nothing is retried.

pub mod laws;
pub mod model;
pub mod protocol;

use vstd::prelude::*;
use vstd::arithmetic::power2::is_pow2;
use crate::dev::aligned::is_power_of_two;
use crate::dev::IoFailure;
use crate::dev::UnsupportedCodes;
use crate::wipe::buffers::Buffers;
use crate::wipe::buffers::BuffersView;
use crate::wipe::plan::pass_layout;
use crate::wipe::plan::Fill;
use crate::wipe::plan::PassLayout;
use crate::wipe::progress::ProgressTracker;
use laws::lemma_after_full_keeps_inv;
use laws::lemma_engine_layout;
use laws::lemma_multiples;

pub use laws::awaits;
pub use laws::lemma_end_is_final;
pub use laws::lemma_end_means_all_written;
pub use laws::lemma_main_writes_fit;
pub use laws::lemma_step_awaits_its_action;
pub use laws::lemma_step_keeps_inv;
pub use laws::lemma_tail_write_is_the_rest;
pub use laws::lemma_written_grows_by_chunks;
pub use laws::same_pass;
pub use model::capped_fill;
pub use model::chunk_len;
pub use model::EngineView;
pub use model::Surroundings;
pub use model::surroundings;
pub use model::usable_sector;
pub use protocol::Flush;
pub use protocol::Handle;
pub use protocol::PassAction;
pub use protocol::PassError;
pub use protocol::Phase;
pub use protocol::Report;
pub use protocol::Target;

verus! {

/// One overwrite pass over a device, as a state machine that the caller
/// drives; see the module's description.
pub struct PassEngine {
    device_size: u64,
    sector: usize,
    direct: bool,
    durable: bool,
    fill: Fill,
    aux_supplied: bool,
    codes: UnsupportedCodes,
    full_limit: u64,
    written: u64,
    filled: usize,
    phase: Phase,
}

impl View for PassEngine {
    type V = EngineView;

    closed spec fn view(&self) -> EngineView {
        EngineView {
            device_size: self.device_size as nat,
            sector: self.sector as nat,
            direct: self.direct,
            durable: self.durable,
            fill: self.fill,
            aux_supplied: self.aux_supplied,
            codes: self.codes,
            full_limit: self.full_limit as nat,
            written: self.written as nat,
            filled: self.filled as nat,
            phase: self.phase,
        }
    }
}

impl PassEngine {
    /// The engine fulfils its invariant.
    pub closed spec fn wf(&self) -> bool {
        self@.inv()
    }

    /// What a well-formed engine fulfils.
    pub proof fn lemma_wf_is_inv(&self)
        ensures
            self.wf() == self@.inv(),
    {
    }

    /// An engine for one pass over a device of `device_size` bytes, with
    /// given codes for "no such flush".
    ///
    /// Whether the pass writes directly is taken from `buffers`. With
    /// direct I/O a sector that is not usable is refused, and nothing else
    /// is.
    pub fn with_codes(
        device_size: u64,
        fill: Fill,
        durable: bool,
        sector: usize,
        buffers: &Buffers,
        aux_supplied: bool,
        codes: UnsupportedCodes,
    ) -> (r: Result<PassEngine, PassError>)
        ensures
            r is Err <==> buffers@.direct && !usable_sector(sector),
            r matches Err(e) ==> e == PassError::BadSector,
            r matches Ok(engine) ==> engine.wf() && engine@ == EngineView::initial(
                device_size as nat,
                sector as nat,
                buffers@.direct,
                durable,
                fill,
                aux_supplied,
                codes,
            ),
    {
        let direct: bool = buffers.use_direct();
        if direct && !(is_power_of_two(sector) && sector <= isize::MAX as usize) {
            return Err(PassError::BadSector);
        }
        proof {
            reveal(is_pow2);
        }
        let layout: PassLayout = pass_layout(device_size, sector, direct);
        Ok(
            PassEngine {
                device_size,
                sector,
                direct,
                durable,
                fill,
                aux_supplied,
                codes,
                full_limit: layout.full_limit,
                written: 0,
                filled: 0,
                phase: Phase::Ready,
            },
        )
    }

    /// An engine for one pass over a device of `device_size` bytes, with
    /// the running platform's codes for "no such flush".
    ///
    /// Whether the pass writes directly is taken from `buffers`. With
    /// direct I/O a sector that is not usable is refused, and nothing else
    /// is.
    pub fn new(
        device_size: u64,
        fill: Fill,
        durable: bool,
        sector: usize,
        buffers: &Buffers,
        aux_supplied: bool,
    ) -> (r: Result<PassEngine, PassError>)
        ensures
            r is Err <==> buffers@.direct && !usable_sector(sector),
            r matches Err(e) ==> e == PassError::BadSector,
            r matches Ok(engine) ==> engine.wf() && engine@ == EngineView::initial(
                device_size as nat,
                sector as nat,
                buffers@.direct,
                durable,
                fill,
                aux_supplied,
                engine@.codes,
            ),
    {
        let codes: UnsupportedCodes = UnsupportedCodes::platform();
        Self::with_codes(device_size, fill, durable, sector, buffers, aux_supplied, codes)
    }

    /// Bytes written so far.
    pub fn written(&self) -> (n: u64)
        ensures
            n == self@.written,
    {
        self.written
    }

    /// Bytes that go out through the main buffer.
    pub fn full_limit(&self) -> (n: u64)
        ensures
            n == self@.full_limit,
    {
        self.full_limit
    }

    /// What the engine waits to hear of.
    pub fn phase(&self) -> (phase: Phase)
        ensures
            phase == self@.phase,
    {
        self.phase
    }

    /// What the pass writes.
    pub fn fill(&self) -> (fill: Fill)
        ensures
            fill == self@.fill,
    {
        self.fill
    }

    /// Ends the pass with `error`; see [`EngineView::fail`].
    fn fail(&mut self, error: PassError) -> (action: PassAction)
        ensures
            (final(self)@, action) == old(self)@.fail(error),
    {
        self.phase = Phase::Failed(error);
        PassAction::Failed(error)
    }

    /// The flush a sync begins with; see [`EngineView::first_flush`].
    fn first_flush(&self) -> (flush: Flush)
        ensures
            flush == self@.first_flush(),
    {
        if self.durable {
            Flush::Strong
        } else {
            Flush::Soft
        }
    }

    /// Asks for the flush of the primary handle; see [`EngineView::sync_main`].
    fn sync_main(&mut self) -> (action: PassAction)
        ensures
            (final(self)@, action) == old(self)@.sync_main(),
    {
        let flush: Flush = self.first_flush();
        self.phase = Phase::SyncingMain { flush };
        PassAction::Sync { handle: Handle::Primary, flush }
    }

    /// Ends the status line where there is one; see [`EngineView::end_line`].
    fn end_line(&mut self, due: bool, Ghost(around): Ghost<Surroundings>) -> (action: PassAction)
        requires
            around.line_end_due == due,
        ensures
            (final(self)@, action) == old(self)@.end_line(around),
    {
        if due {
            self.phase = Phase::EndingLine;
            PassAction::EndLine
        } else {
            self.sync_main()
        }
    }

    /// Asks for the flush of the auxiliary handle; see [`EngineView::sync_tail`].
    fn sync_tail(&mut self) -> (action: PassAction)
        ensures
            (final(self)@, action) == old(self)@.sync_tail(),
    {
        let flush: Flush = self.first_flush();
        self.phase = Phase::SyncingTail { flush };
        PassAction::Sync { handle: Handle::Auxiliary, flush }
    }

    /// Asks for the write of the tail; see [`EngineView::write_tail`].
    fn write_tail(&mut self, len: usize) -> (action: PassAction)
        ensures
            (final(self)@, action) == old(self)@.write_tail(len),
    {
        self.phase = Phase::WritingTail { len };
        PassAction::WriteTail { offset: self.written, len }
    }

    /// Goes on once the tail buffer is filled; see [`EngineView::tail_ready`].
    fn tail_ready(&mut self, len: usize) -> (action: PassAction)
        ensures
            (final(self)@, action) == old(self)@.tail_ready(len),
    {
        if self.aux_supplied {
            self.write_tail(len)
        } else {
            self.phase = Phase::OpeningAuxiliary { len };
            PassAction::OpenAuxiliary
        }
    }

    /// Goes on after a flush; see [`EngineView::after_flush`].
    fn after_flush(&mut self, handle: Handle, due: bool, Ghost(around): Ghost<Surroundings>) -> (action:
        PassAction)
        requires
            around.line_end_due == due,
        ensures
            (final(self)@, action) == old(self)@.after_flush(handle, around),
    {
        match handle {
            Handle::Primary => {
                self.phase = Phase::Finished;
                PassAction::Finished
            },
            Handle::Auxiliary => self.end_line(due, Ghost(around)),
        }
    }

    /// Decides on a failed flush; see [`EngineView::after_flush_failure`].
    fn after_flush_failure(
        &mut self,
        handle: Handle,
        flush: Flush,
        failure: IoFailure,
        due: bool,
        Ghost(around): Ghost<Surroundings>,
    ) -> (action: PassAction)
        requires
            around.line_end_due == due,
        ensures
            (final(self)@, action) == old(self)@.after_flush_failure(
                handle,
                flush,
                failure,
                around,
            ),
    {
        if self.codes.is_unsupported(failure) {
            match flush {
                Flush::Strong => {
                    match handle {
                        Handle::Primary => {
                            self.phase = Phase::SyncingMain { flush: Flush::Soft };
                        },
                        Handle::Auxiliary => {
                            self.phase = Phase::SyncingTail { flush: Flush::Soft };
                        },
                    }
                    PassAction::Sync { handle, flush: Flush::Soft }
                },
                Flush::Soft => self.after_flush(handle, due, Ghost(around)),
            }
        } else {
            self.fail(PassError::Io(failure))
        }
    }

    /// Turns to the tail or to the end of the pass, and prepares the tail
    /// buffer; see [`EngineView::after_full`].
    #[verifier::rlimit(40)]
    fn after_full(&mut self, buffers: &mut Buffers, due: bool, Ghost(around): Ghost<Surroundings>) -> (action:
        PassAction)
        requires
            old(self)@.at(Phase::StatusAfterMain).inv(),
            old(self)@.written >= old(self)@.full_limit,
            old(self)@.phase.tail_len() is None,
            old(buffers).wf(),
            around.line_end_due == due,
        ensures
            (final(self)@, action) == old(self)@.after_full(around),
            final(buffers).wf(),
            final(buffers)@ == (BuffersView {
                tail: old(self)@.tail_after(final(self)@, old(buffers)@.tail),
                ..old(buffers)@
            }),
            final(buffers).main_alignment() == old(buffers).main_alignment(),
            final(buffers).main_address() == old(buffers).main_address(),
    {
        proof {
            lemma_after_full_keeps_inv(self@, around);
        }
        if self.direct && self.written < self.device_size {
            let tail: usize = (self.device_size - self.written) as usize;
            match self.fill {
                Fill::Zero => {
                    buffers.fill_tail_zero(tail);
                    self.tail_ready(tail)
                },
                Fill::Random => {
                    buffers.reserve_tail(tail);
                    self.filled = 0;
                    self.phase = Phase::FillingTail { len: tail };
                    PassAction::ReadRandom { target: Target::Tail, from: 0, len: tail }
                },
            }
        } else {
            self.end_line(due, Ghost(around))
        }
    }

    /// Asks for the next chunk, or goes on behind the last one; see
    /// [`EngineView::next_write`].
    #[verifier::rlimit(40)]
    fn next_write(&mut self, buffers: &mut Buffers, due: bool, Ghost(around): Ghost<Surroundings>) -> (action:
        PassAction)
        requires
            old(self)@.at(Phase::StatusAfterMain).inv(),
            old(self)@.phase.tail_len() is None,
            old(buffers).wf(),
            around.line_end_due == due,
            around.main_len == old(buffers)@.main.len(),
        ensures
            (final(self)@, action) == old(self)@.next_write(around),
            final(buffers).wf(),
            final(buffers)@ == (BuffersView {
                tail: old(self)@.tail_after(final(self)@, old(buffers)@.tail),
                ..old(buffers)@
            }),
            final(buffers).main_alignment() == old(buffers).main_alignment(),
            final(buffers).main_address() == old(buffers).main_address(),
    {
        if self.written < self.full_limit {
            let main_len: usize = buffers.main_len();
            if main_len == 0 {
                self.fail(PassError::EmptyBuffer)
            } else if self.direct && {
                proof {
                    reveal(is_pow2);
                }
                main_len % self.sector != 0
            } {
                self.fail(PassError::MisalignedBuffer)
            } else {
                let left: u64 = self.full_limit - self.written;
                let len: usize = if left < main_len as u64 {
                    left as usize
                } else {
                    main_len
                };
                self.phase = Phase::WritingMain { len };
                PassAction::WriteMain { len }
            }
        } else {
            self.after_full(buffers, due, Ghost(around))
        }
    }

    /// Takes a read from the random source; see [`EngineView::after_read`].
    #[verifier::rlimit(40)]
    fn after_read(
        &mut self,
        target: Target,
        want: usize,
        read: usize,
        buffers: &mut Buffers,
        due: bool,
        Ghost(around): Ghost<Surroundings>,
    ) -> (action: PassAction)
        requires
            old(self).wf(),
            old(buffers).wf(),
            target == Target::Main ==> old(self)@.phase == Phase::FillingMain && want == old(
                buffers,
            )@.main.len(),
            target == Target::Tail ==> old(self)@.phase == (Phase::FillingTail { len: want }),
            around.line_end_due == due,
            around.main_len == old(buffers)@.main.len(),
        ensures
            (final(self)@, action) == old(self)@.after_read(target, want as nat, read, around),
            final(buffers).wf(),
            final(buffers)@ == (BuffersView {
                tail: old(self)@.tail_after(final(self)@, old(buffers)@.tail),
                ..old(buffers)@
            }),
            final(buffers).main_alignment() == old(buffers).main_alignment(),
            final(buffers).main_address() == old(buffers).main_address(),
    {
        if read == 0 {
            self.fail(PassError::RandomSourceDry)
        } else {
            self.filled = self.filled.saturating_add(read);
            if self.filled >= want {
                match target {
                    Target::Main => {
                        proof {
                            lemma_engine_layout(self@);
                        }
                        self.next_write(buffers, due, Ghost(around))
                    },
                    Target::Tail => self.tail_ready(want),
                }
            } else {
                PassAction::ReadRandom { target, from: self.filled, len: want - self.filled }
            }
        }
    }

    /// Begins the pass, zeroing the main buffer for a zero pass; see
    /// [`EngineView::begin`].
    #[verifier::rlimit(40)]
    fn begin(&mut self, buffers: &mut Buffers, due: bool, Ghost(around): Ghost<Surroundings>) -> (action:
        PassAction)
        requires
            old(self).wf(),
            old(self)@.phase == Phase::Ready,
            old(buffers).wf(),
            around.line_end_due == due,
            around.main_len == old(buffers)@.main.len(),
        ensures
            (final(self)@, action) == old(self)@.begin(around),
            final(buffers).wf(),
            final(buffers)@ == old(self)@.buffers_after(final(self)@, old(buffers)@),
            final(buffers).main_alignment() == old(buffers).main_alignment(),
            final(buffers).main_address() == old(buffers).main_address(),
    {
        proof {
            lemma_engine_layout(self@);
        }
        match self.fill {
            Fill::Zero => {
                buffers.fill_main_zero();
                self.next_write(buffers, due, Ghost(around))
            },
            Fill::Random => {
                let main_len: usize = buffers.main_len();
                if main_len > 0 {
                    self.filled = 0;
                    self.phase = Phase::FillingMain;
                    PassAction::ReadRandom { target: Target::Main, from: 0, len: main_len }
                } else {
                    self.next_write(buffers, due, Ghost(around))
                }
            },
        }
    }

    /// Counts a chunk as written and records it with the tracker.
    fn record(&mut self, len: usize, progress: &mut ProgressTracker)
        requires
            old(self)@.written + len <= old(self)@.device_size,
        ensures
            final(self)@ == old(self)@.with_chunk(len),
            old(progress)@.after_chunk(final(progress)@, len as nat),
            old(self)@.in_step_with(old(progress)@) ==> final(self)@.in_step_with(
                final(progress)@,
            ),
    {
        self.written = self.written + len as u64;
        progress.record_chunk(len as u64);
    }

    /// The write of a chunk from the main buffer is reported done.
    #[verifier::rlimit(40)]
    fn on_main_written(
        &mut self,
        len: usize,
        progress: &mut ProgressTracker,
        buffers: &mut Buffers,
        due: bool,
        Ghost(around): Ghost<Surroundings>,
    ) -> (action: PassAction)
        requires
            old(self).wf(),
            old(self)@.phase == (Phase::WritingMain { len }),
            old(buffers).wf(),
            around == surroundings(old(buffers)@.main, old(progress)@),
            due == around.line_end_due,
        ensures
            (final(self)@, action) == old(self)@.step(Report::Done, around),
            old(progress)@.after_chunk(final(progress)@, len as nat),
            final(buffers).wf(),
            final(buffers)@ == old(self)@.buffers_after(final(self)@, old(buffers)@),
            final(buffers).main_alignment() == old(buffers).main_alignment(),
            final(buffers).main_address() == old(buffers).main_address(),
            old(self)@.in_step_with(old(progress)@) ==> final(self)@.in_step_with(
                final(progress)@,
            ),
    {
        proof {
            lemma_engine_layout(self@);
            if self@.direct {
                lemma_multiples(self@.written as int, len as int, self@.sector as int);
            }
        }
        self.record(len, progress);
        if progress.shows_status() {
            self.phase = Phase::StatusAfterMain;
            PassAction::ShowStatus
        } else {
            self.next_write(buffers, due, Ghost(around))
        }
    }

    /// The write of the tail is reported done.
    #[verifier::rlimit(40)]
    fn on_tail_written(&mut self, len: usize, progress: &mut ProgressTracker) -> (action:
        PassAction)
        requires
            old(self).wf(),
            old(self)@.phase == (Phase::WritingTail { len }),
        ensures
            forall|around: Surroundings|
                around.shows_status == old(progress)@.shows_status() ==> (final(self)@, action)
                    == #[trigger] old(self)@.step(Report::Done, around),
            old(progress)@.after_chunk(final(progress)@, len as nat),
            old(self)@.in_step_with(old(progress)@) ==> final(self)@.in_step_with(
                final(progress)@,
            ),
    {
        proof {
            lemma_engine_layout(self@);
        }
        self.record(len, progress);
        if progress.shows_status() {
            self.phase = Phase::StatusAfterTail;
            PassAction::ShowStatus
        } else {
            self.sync_tail()
        }
    }

    /// A flush is reported on.
    #[verifier::rlimit(40)]
    fn on_flush_report(
        &mut self,
        handle: Handle,
        flush: Flush,
        report: Report,
        due: bool,
        Ghost(around): Ghost<Surroundings>,
    ) -> (action: PassAction)
        requires
            handle == Handle::Primary ==> old(self)@.phase == (Phase::SyncingMain { flush }),
            handle == Handle::Auxiliary ==> old(self)@.phase == (Phase::SyncingTail { flush }),
            due == around.line_end_due,
        ensures
            (final(self)@, action) == old(self)@.step(report, around),
    {
        match report {
            Report::Done => self.after_flush(handle, due, Ghost(around)),
            Report::Failed(failure) => self.after_flush_failure(
                handle,
                flush,
                failure,
                due,
                Ghost(around),
            ),
            Report::Read(read) => self.fail(PassError::OutOfStep),
        }
    }

    /// A read from the random source is reported on.
    #[verifier::rlimit(40)]
    fn on_fill_report(
        &mut self,
        target: Target,
        want: usize,
        report: Report,
        buffers: &mut Buffers,
        due: bool,
        Ghost(around): Ghost<Surroundings>,
    ) -> (action: PassAction)
        requires
            old(self).wf(),
            old(buffers).wf(),
            target == Target::Main ==> old(self)@.phase == Phase::FillingMain && want == old(
                buffers,
            )@.main.len(),
            target == Target::Tail ==> old(self)@.phase == (Phase::FillingTail { len: want }),
            around.line_end_due == due,
            around.main_len == old(buffers)@.main.len(),
        ensures
            (final(self)@, action) == old(self)@.step(report, around),
            final(buffers).wf(),
            final(buffers)@ == old(self)@.buffers_after(final(self)@, old(buffers)@),
            final(buffers).main_alignment() == old(buffers).main_alignment(),
            final(buffers).main_address() == old(buffers).main_address(),
    {
        match report {
            Report::Read(read) => self.after_read(target, want, read, buffers, due, Ghost(around)),
            Report::Failed(failure) => self.fail(PassError::Io(failure)),
            Report::Done => self.fail(PassError::OutOfStep),
        }
    }

    /// The status line, or its end, is reported on; nothing that goes wrong
    /// with it ends the pass.
    #[verifier::rlimit(40)]
    fn on_shown(
        &mut self,
        report: Report,
        buffers: &mut Buffers,
        due: bool,
        Ghost(around): Ghost<Surroundings>,
    ) -> (action: PassAction)
        requires
            old(self).wf(),
            old(buffers).wf(),
            old(self)@.phase == Phase::StatusAfterMain || old(self)@.phase
                == Phase::StatusAfterTail || old(self)@.phase == Phase::EndingLine,
            around.line_end_due == due,
            around.main_len == old(buffers)@.main.len(),
        ensures
            (final(self)@, action) == old(self)@.step(report, around),
            final(buffers).wf(),
            final(buffers)@ == old(self)@.buffers_after(final(self)@, old(buffers)@),
            final(buffers).main_alignment() == old(buffers).main_alignment(),
            final(buffers).main_address() == old(buffers).main_address(),
    {
        match report {
            Report::Read(read) => self.fail(PassError::OutOfStep),
            _ => match self.phase {
                Phase::StatusAfterMain => self.next_write(buffers, due, Ghost(around)),
                Phase::StatusAfterTail => self.sync_tail(),
                _ => self.sync_main(),
            },
        }
    }

    /// One step of the pass: takes the report on the action asked for last
    /// and answers with the next action. The first step starts the pass; its
    /// report is not looked at.
    ///
    /// The engine moves as [`EngineView::step`] says. A chunk whose write is
    /// reported done is recorded with the tracker. The main buffer is zeroed
    /// by the first step of a zero pass; the tail buffer is prepared by the
    /// step that turns to the tail; otherwise the buffers stay as they are.
    /// A tracker that is on schedule and counts the bytes of this pass stays
    /// so.
    #[verifier::rlimit(40)]
    pub fn step(
        &mut self,
        report: Report,
        progress: &mut ProgressTracker,
        buffers: &mut Buffers,
    ) -> (action: PassAction)
        requires
            old(self).wf(),
            old(buffers).wf(),
        ensures
            final(self).wf(),
            final(buffers).wf(),
            (final(self)@, action) == old(self)@.step(
                report,
                surroundings(old(buffers)@.main, old(progress)@),
            ),
            match old(self)@.chunk_recorded(report) {
                Some(len) => old(progress)@.after_chunk(final(progress)@, len as nat),
                None => final(progress)@ == old(progress)@,
            },
            final(buffers)@ == old(self)@.buffers_after(final(self)@, old(buffers)@),
            final(buffers).main_alignment() == old(buffers).main_alignment(),
            final(buffers).main_address() == old(buffers).main_address(),
            old(self)@.in_step_with(old(progress)@) ==> final(self)@.in_step_with(
                final(progress)@,
            ),
    {
        let main_len: usize = buffers.main_len();
        let ghost around: Surroundings = surroundings(old(buffers)@.main, old(progress)@);
        proof {
            lemma_step_keeps_inv(self@, report, around);
        }
        let due: bool = progress.finish_line();
        match self.phase {
            Phase::Ready => self.begin(buffers, due, Ghost(around)),
            Phase::FillingMain => self.on_fill_report(
                Target::Main,
                main_len,
                report,
                buffers,
                due,
                Ghost(around),
            ),
            Phase::WritingMain { len } => match report {
                Report::Done => self.on_main_written(len, progress, buffers, due, Ghost(around)),
                Report::Failed(failure) => self.fail(PassError::Io(failure)),
                Report::Read(read) => self.fail(PassError::OutOfStep),
            },
            Phase::StatusAfterMain => self.on_shown(report, buffers, due, Ghost(around)),
            Phase::FillingTail { len } => self.on_fill_report(
                Target::Tail,
                len,
                report,
                buffers,
                due,
                Ghost(around),
            ),
            Phase::OpeningAuxiliary { len } => match report {
                Report::Done => self.write_tail(len),
                Report::Failed(failure) => self.fail(PassError::Io(failure)),
                Report::Read(read) => self.fail(PassError::OutOfStep),
            },
            Phase::WritingTail { len } => match report {
                Report::Done => self.on_tail_written(len, progress),
                Report::Failed(failure) => self.fail(PassError::Io(failure)),
                Report::Read(read) => self.fail(PassError::OutOfStep),
            },
            Phase::StatusAfterTail => self.on_shown(report, buffers, due, Ghost(around)),
            Phase::SyncingTail { flush } => self.on_flush_report(
                Handle::Auxiliary,
                flush,
                report,
                due,
                Ghost(around),
            ),
            Phase::EndingLine => self.on_shown(report, buffers, due, Ghost(around)),
            Phase::SyncingMain { flush } => self.on_flush_report(
                Handle::Primary,
                flush,
                report,
                due,
                Ghost(around),
            ),
            Phase::Finished => PassAction::Finished,
            Phase::Failed(error) => PassAction::Failed(error),
        }
    }
}

/// Begins a pass that overwrites the device with random bytes, drawn
/// afresh for this pass: the engine for it, before its first step.
///
/// With direct I/O a sector that is not usable is refused, and nothing else
/// is.
pub fn pass_random(
    device_size: u64,
    durable: bool,
    sector: usize,
    buffers: &Buffers,
    aux_supplied: bool,
) -> (r: Result<PassEngine, PassError>)
    ensures
        r is Err <==> buffers@.direct && !usable_sector(sector),
        r matches Err(e) ==> e == PassError::BadSector,
        r matches Ok(engine) ==> engine.wf() && engine@ == EngineView::initial(
            device_size as nat,
            sector as nat,
            buffers@.direct,
            durable,
            Fill::Random,
            aux_supplied,
            engine@.codes,
        ),
{
    PassEngine::new(device_size, Fill::Random, durable, sector, buffers, aux_supplied)
}

/// Begins the final pass, which overwrites the device with zeros: the
/// engine for it, before its first step.
///
/// With direct I/O a sector that is not usable is refused, and nothing else
/// is.
pub fn pass_zeros(
    device_size: u64,
    durable: bool,
    sector: usize,
    buffers: &Buffers,
    aux_supplied: bool,
) -> (r: Result<PassEngine, PassError>)
    ensures
        r is Err <==> buffers@.direct && !usable_sector(sector),
        r matches Err(e) ==> e == PassError::BadSector,
        r matches Ok(engine) ==> engine.wf() && engine@ == EngineView::initial(
            device_size as nat,
            sector as nat,
            buffers@.direct,
            durable,
            Fill::Zero,
            aux_supplied,
            engine@.codes,
        ),
{
    PassEngine::new(device_size, Fill::Zero, durable, sector, buffers, aux_supplied)
}

} // verus!
