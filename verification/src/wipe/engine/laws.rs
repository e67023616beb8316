//! What holds of every step of the engine: its invariant, the fit and the
//! alignment of every write, and that the end is final.

use vstd::prelude::*;
use vstd::arithmetic::power2::is_pow2;
use crate::dev::IoFailure;
use crate::wipe::engine::model::Surroundings;
use crate::wipe::engine::model::chunk_len;
use crate::wipe::engine::model::capped_fill;
use crate::wipe::engine::model::EngineView;
use crate::wipe::engine::protocol::Target;
use crate::wipe::engine::protocol::Handle;
use crate::wipe::engine::protocol::Flush;
use crate::wipe::engine::protocol::PassError;
use crate::wipe::engine::protocol::Report;
use crate::wipe::engine::protocol::PassAction;
use crate::wipe::engine::protocol::Phase;
use crate::wipe::plan::lemma_layout;

verus! {

/// Sums and differences of multiples are multiples.
pub(crate) proof fn lemma_multiples(a: int, b: int, s: int)
    requires
        s > 0,
        a % s == 0,
        b % s == 0,
    ensures
        (a + b) % s == 0,
        (a - b) % s == 0,
{
    vstd::arithmetic::div_mod::lemma_fundamental_div_mod(a, s);
    vstd::arithmetic::div_mod::lemma_fundamental_div_mod(b, s);
    let p: int = a / s;
    let q: int = b / s;
    assert(a + b == (p + q) * s && a - b == (p - q) * s) by (nonlinear_arith)
        requires
            a == s * p,
            b == s * q,
    ;
    vstd::arithmetic::div_mod::lemma_mod_multiples_basic(p + q, s);
    vstd::arithmetic::div_mod::lemma_mod_multiples_basic(p - q, s);
}

/// What the layout gives an engine that fulfils its invariant.
pub(crate) proof fn lemma_engine_layout(v: EngineView)
    requires
        v.at(Phase::Failed(PassError::OutOfStep)).inv(),
    ensures
        v.full_limit <= v.device_size,
        v.direct ==> v.sector > 0 && v.full_limit % v.sector == 0 && v.device_size - v.full_limit
            < v.sector,
        !v.direct ==> v.full_limit == v.device_size,
{
    if v.direct {
        reveal(is_pow2);
        lemma_layout(v.device_size, v.sector, v.direct);
    }
}

/// From the tail on, a pass keeps its invariant.
#[verifier::rlimit(40)]
pub(crate) proof fn lemma_rest_keeps_inv(v: EngineView, around: Surroundings)
    requires
        v.at(Phase::Finished).inv(),
    ensures
        v.sync_main().0.inv(),
        v.end_line(around).0.inv(),
        v.sync_tail().0.inv(),
        v.after_flush(Handle::Primary, around).0.inv(),
        v.after_flush(Handle::Auxiliary, around).0.inv(),
        forall|handle: Handle, flush: Flush, failure: IoFailure|
            (#[trigger] v.after_flush_failure(handle, flush, failure, around)).0.inv(),
{
}

/// Once the main buffer's share is written, what follows keeps the
/// invariant.
#[verifier::rlimit(40)]
pub(crate) proof fn lemma_after_full_keeps_inv(v: EngineView, around: Surroundings)
    requires
        v.at(Phase::StatusAfterMain).inv(),
        v.written >= v.full_limit,
    ensures
        v.after_full(around).0.inv(),
        v.direct && v.written < v.device_size ==> v.device_size - v.written < v.sector && v.at(
            Phase::WritingTail { len: (v.device_size - v.written) as usize },
        ).inv(),
{
    lemma_engine_layout(v);
    if v.direct && v.written < v.device_size {
    } else {
        lemma_rest_keeps_inv(v, around);
    }
}

/// Turning to the next chunk keeps the invariant.
#[verifier::rlimit(40)]
pub(crate) proof fn lemma_next_write_keeps_inv(v: EngineView, around: Surroundings)
    requires
        v.at(Phase::StatusAfterMain).inv(),
        around.main_len <= usize::MAX,
    ensures
        v.next_write(around).0.inv(),
{
    lemma_engine_layout(v);
    if v.written < v.full_limit {
        if around.main_len != 0 && !(v.direct && around.main_len % v.sector != 0) {
            if v.direct {
                lemma_multiples(v.full_limit as int, v.written as int, v.sector as int);
            }
        }
    } else {
        lemma_after_full_keeps_inv(v, around);
    }
}

/// A read from the random source keeps the invariant.
#[verifier::rlimit(40)]
pub(crate) proof fn lemma_after_read_keeps_inv(
    v: EngineView,
    target: Target,
    want: nat,
    read: usize,
    around: Surroundings,
)
    requires
        v.inv(),
        around.main_len <= usize::MAX,
        target == Target::Main ==> v.phase == Phase::FillingMain && want == around.main_len,
        target == Target::Tail ==> v.phase == (Phase::FillingTail { len: want as usize }) && want
            <= usize::MAX,
    ensures
        v.after_read(target, want, read, around).0.inv(),
{
    if read != 0 {
        let filled: nat = capped_fill(v.filled, read as nat);
        let fuller: EngineView = EngineView { filled, ..v };
        if filled >= want && target == Target::Main {
            lemma_engine_layout(v);
            lemma_next_write_keeps_inv(fuller, around);
        }
    }
}

/// Every step keeps the engine's invariant.
#[verifier::rlimit(40)]
pub proof fn lemma_step_keeps_inv(v: EngineView, report: Report, around: Surroundings)
    requires
        v.inv(),
        around.main_len <= usize::MAX,
    ensures
        v.step(report, around).0.inv(),
{
    lemma_engine_layout(v);
    match v.phase {
        Phase::Ready => {
            lemma_next_write_keeps_inv(v, around);
        },
        Phase::FillingMain => {
            if let Report::Read(read) = report {
                lemma_after_read_keeps_inv(v, Target::Main, around.main_len, read, around);
            }
        },
        Phase::WritingMain { len } => {
            if v.direct {
                lemma_multiples(v.written as int, len as int, v.sector as int);
            }
            lemma_next_write_keeps_inv(v.with_chunk(len), around);
        },
        Phase::StatusAfterMain => {
            lemma_next_write_keeps_inv(v, around);
        },
        Phase::FillingTail { len } => {
            if let Report::Read(read) = report {
                lemma_after_read_keeps_inv(v, Target::Tail, len as nat, read, around);
            }
        },
        Phase::OpeningAuxiliary { len } => {},
        Phase::WritingTail { len } => {
            lemma_rest_keeps_inv(v.with_chunk(len), around);
        },
        Phase::StatusAfterTail => {
            lemma_rest_keeps_inv(v, around);
        },
        Phase::SyncingTail { flush } => {
            lemma_rest_keeps_inv(v, around);
        },
        Phase::EndingLine => {
            lemma_rest_keeps_inv(v, around);
        },
        Phase::SyncingMain { flush } => {
            lemma_rest_keeps_inv(v, around);
        },
        Phase::Finished => {},
        Phase::Failed(error) => {},
    }
}

/// Every chunk from the main buffer is the next one: it is not empty, fits
/// the buffer and what is left of the main buffer's share, and begins where
/// the bytes written so far end. With direct I/O its offset and its length
/// are multiples of the sector.
#[verifier::rlimit(40)]
pub proof fn lemma_main_writes_fit(v: EngineView, report: Report, around: Surroundings)
    requires
        v.inv(),
        around.main_len <= usize::MAX,
    ensures
        v.step(report, around).1 matches PassAction::WriteMain { len } ==> {
            let next: EngineView = v.step(report, around).0;
            &&& 0 < len <= around.main_len
            &&& len == chunk_len(next.written, next.full_limit, around.main_len)
            &&& next.written + len <= next.full_limit
            &&& next.direct ==> next.written % next.sector == 0 && len as nat % next.sector == 0
        },
{
    lemma_step_keeps_inv(v, report, around);
    lemma_step_awaits_its_action(v, report, around);
    lemma_written_grows_by_chunks(v, report, around);
}

/// The tail is written only with direct I/O: it begins where the main
/// buffer's share ends, reaches the end of the device, is not empty and is
/// shorter than a sector.
#[verifier::rlimit(40)]
pub proof fn lemma_tail_write_is_the_rest(v: EngineView, report: Report, around: Surroundings)
    requires
        v.inv(),
        around.main_len <= usize::MAX,
    ensures
        v.step(report, around).1 matches PassAction::WriteTail { offset, len } ==> {
            let next: EngineView = v.step(report, around).0;
            &&& next.direct
            &&& offset == next.full_limit
            &&& offset + len == next.device_size
            &&& 0 < len < next.sector
            &&& next.written == next.full_limit
        },
{
    lemma_step_keeps_inv(v, report, around);
    lemma_step_awaits_its_action(v, report, around);
    lemma_written_grows_by_chunks(v, report, around);
    lemma_engine_layout(v);
}

/// Whether the engine `next` waits to hear of `action`: each action puts
/// the engine in the phase that goes with it.
pub open spec fn awaits(next: EngineView, action: PassAction) -> bool {
    match action {
        PassAction::ReadRandom { target, from, len } => from == next.filled && (match target {
            Target::Main => next.phase == Phase::FillingMain,
            Target::Tail => next.phase == (Phase::FillingTail { len: (from + len) as usize }),
        }),
        PassAction::WriteMain { len } => next.phase == (Phase::WritingMain { len }),
        PassAction::OpenAuxiliary => next.phase is OpeningAuxiliary,
        PassAction::WriteTail { offset, len } => next.phase == (Phase::WritingTail { len })
            && offset == next.written,
        PassAction::ShowStatus => next.phase == Phase::StatusAfterMain || next.phase
            == Phase::StatusAfterTail,
        PassAction::EndLine => next.phase == Phase::EndingLine,
        PassAction::Sync { handle, flush } => match handle {
            Handle::Primary => next.phase == (Phase::SyncingMain { flush }),
            Handle::Auxiliary => next.phase == (Phase::SyncingTail { flush }),
        },
        PassAction::Finished => next.phase == Phase::Finished,
        PassAction::Failed(error) => next.phase == Phase::Failed(error),
    }
}

/// What follows a chunk leaves the engine waiting for what it asks.
#[verifier::rlimit(40)]
proof fn lemma_moves_await(v: EngineView, around: Surroundings)
    requires
        v.at(Phase::StatusAfterMain).inv() || v.at(Phase::Finished).inv(),
        around.main_len <= usize::MAX,
    ensures
        awaits(v.sync_main().0, v.sync_main().1),
        awaits(v.sync_tail().0, v.sync_tail().1),
        awaits(v.end_line(around).0, v.end_line(around).1),
        awaits(v.after_full(around).0, v.after_full(around).1),
        awaits(v.next_write(around).0, v.next_write(around).1),
        forall|len: usize| awaits((#[trigger] v.tail_ready(len)).0, v.tail_ready(len).1),
        forall|handle: Handle|
            awaits((#[trigger] v.after_flush(handle, around)).0, v.after_flush(handle, around).1),
        forall|handle: Handle, flush: Flush, failure: IoFailure|
            awaits(
                (#[trigger] v.after_flush_failure(handle, flush, failure, around)).0,
                v.after_flush_failure(handle, flush, failure, around).1,
            ),
{
    if v.at(Phase::StatusAfterMain).inv() {
        lemma_engine_layout(v);
    }
}

/// After every step the engine waits to hear of the action it has asked
/// for.
#[verifier::rlimit(40)]
pub proof fn lemma_step_awaits_its_action(v: EngineView, report: Report, around: Surroundings)
    requires
        v.inv(),
        around.main_len <= usize::MAX,
    ensures
        awaits(v.step(report, around).0, v.step(report, around).1),
{
    lemma_engine_layout(v);
    match v.phase {
        Phase::Ready => {
            lemma_moves_await(v, around);
        },
        Phase::FillingMain => {
            if let Report::Read(read) = report {
                let fuller: EngineView = EngineView {
                    filled: capped_fill(v.filled, read as nat),
                    ..v
                };
                lemma_moves_await(fuller, around);
            }
        },
        Phase::WritingMain { len } => {
            if v.direct {
                lemma_multiples(v.written as int, len as int, v.sector as int);
            }
            lemma_moves_await(v.with_chunk(len), around);
        },
        Phase::StatusAfterMain => {
            lemma_moves_await(v, around);
        },
        Phase::FillingTail { len } => {
            if let Report::Read(read) = report {
                let fuller: EngineView = EngineView {
                    filled: capped_fill(v.filled, read as nat),
                    ..v
                };
                assert(awaits(fuller.tail_ready(len).0, fuller.tail_ready(len).1));
            }
        },
        Phase::OpeningAuxiliary { len } => {},
        Phase::WritingTail { len } => {
            lemma_moves_await(v.with_chunk(len), around);
        },
        Phase::StatusAfterTail => {
            lemma_moves_await(v, around);
        },
        Phase::SyncingTail { flush } => {
            lemma_moves_await(v, around);
        },
        Phase::EndingLine => {
            lemma_moves_await(v, around);
        },
        Phase::SyncingMain { flush } => {
            lemma_moves_await(v, around);
        },
        Phase::Finished => {},
        Phase::Failed(error) => {},
    }
}

/// The primary handle is flushed, and the pass is complete, only once every
/// byte of the device is written; so the tail is written and flushed before
/// the pass counts as done.
#[verifier::rlimit(40)]
pub proof fn lemma_end_means_all_written(v: EngineView, report: Report, around: Surroundings)
    requires
        v.inv(),
        around.main_len <= usize::MAX,
    ensures
        ({
            let action: PassAction = v.step(report, around).1;
            ||| action == PassAction::Finished
            ||| action == PassAction::EndLine
            ||| action matches PassAction::Sync { handle, flush }
        }) ==> v.step(report, around).0.written == v.device_size,
{
    lemma_step_keeps_inv(v, report, around);
    lemma_step_awaits_its_action(v, report, around);
    lemma_written_grows_by_chunks(v, report, around);
}

/// Nothing is retried and nothing follows the end: a pass that has failed
/// stays failed with the same error, and a complete one stays complete.
#[verifier::rlimit(40)]
pub proof fn lemma_end_is_final(v: EngineView, report: Report, around: Surroundings)
    ensures
        v.phase matches Phase::Failed(error) ==> v.step(report, around) == (
            v,
            PassAction::Failed(error),
        ),
        v.phase == Phase::Finished ==> v.step(report, around) == (v, PassAction::Finished),
{
}

/// Whether two engines differ at most in their phase and in the count of
/// random bytes read.
pub open spec fn same_pass(a: EngineView, b: EngineView) -> bool {
    b == (EngineView { phase: b.phase, filled: b.filled, ..a })
}

/// What follows a chunk changes nothing but the phase and the count of
/// random bytes read.
#[verifier::rlimit(40)]
pub(crate) proof fn lemma_moves_keep_counts(v: EngineView, around: Surroundings)
    ensures
        same_pass(v.next_write(around).0, v),
        same_pass(v.after_full(around).0, v),
        same_pass(v.end_line(around).0, v),
        same_pass(v.sync_tail().0, v),
        same_pass(v.sync_main().0, v),
        forall|len: usize| same_pass((#[trigger] v.tail_ready(len)).0, v),
        forall|handle: Handle| same_pass((#[trigger] v.after_flush(handle, around)).0, v),
        forall|handle: Handle, flush: Flush, failure: IoFailure|
            same_pass((#[trigger] v.after_flush_failure(handle, flush, failure, around)).0, v),
        forall|target: Target, want: nat, read: usize|
            same_pass((#[trigger] v.after_read(target, want, read, around)).0, v),
{
    assert forall|target: Target, want: nat, read: usize|
        same_pass((#[trigger] v.after_read(target, want, read, around)).0, v) by {
        let fuller: EngineView = EngineView {
            filled: capped_fill(v.filled, read as nat),
            ..v
        };
        assert(same_pass(fuller.next_write(around).0, fuller));
        assert(same_pass(fuller.tail_ready(want as usize).0, fuller));
    }
}

/// A step changes the count of bytes written only by the chunk it records,
/// and leaves what the pass was set up with as it is.
#[verifier::rlimit(40)]
pub proof fn lemma_written_grows_by_chunks(v: EngineView, report: Report, around: Surroundings)
    ensures
        same_pass(
            v.step(report, around).0,
            match v.chunk_recorded(report) {
                Some(len) => v.with_chunk(len),
                None => v,
            },
        ),
{
    lemma_moves_keep_counts(v, around);
    match v.phase {
        Phase::WritingMain { len } => {
            lemma_moves_keep_counts(v.with_chunk(len), around);
        },
        Phase::WritingTail { len } => {
            lemma_moves_keep_counts(v.with_chunk(len), around);
        },
        _ => {},
    }
}

} // verus!
