//! What a pass leaves on the device.
//!
//! The device is a sequence of bytes. The first part follows the engine
//! step by step: whenever a write is reported done, the device takes the
//! bytes, and what holds of its beginning is carried from step to step. The
//! second part applies all the writes of a pass at once; they are fixed by
//! the device's size, the sector, the mode and the length of the main buffer.

use vstd::prelude::*;
use crate::dev::aligned::all_zero;
use crate::wipe::buffers::BuffersView;
use crate::wipe::engine::chunk_len;
use crate::wipe::engine::lemma_main_writes_fit;
use crate::wipe::engine::lemma_written_grows_by_chunks;
use crate::wipe::engine::lemma_step_keeps_inv;
use crate::wipe::engine::EngineView;
use crate::wipe::engine::Phase;
use crate::wipe::engine::Report;
use crate::wipe::engine::Surroundings;
use crate::wipe::plan::full_limit_of;
use crate::wipe::plan::lemma_layout;
use crate::wipe::plan::tail_of;

verus! {

/// The device with `bytes` written at `offset`. The device keeps its size;
/// what would lie past its end is not written.
pub open spec fn overwritten(device: Seq<u8>, offset: nat, bytes: Seq<u8>) -> Seq<u8> {
    Seq::new(
        device.len(),
        |i: int|
            if offset <= i < offset + bytes.len() {
                bytes[i - offset]
            } else {
                device[i]
            },
    )
}

/// The device once `report` has reached the engine: where the report says
/// that the chunk or the tail asked for is written, the device holds its
/// bytes, behind what was written before.
pub open spec fn device_after_report(
    v: EngineView,
    report: Report,
    device: Seq<u8>,
    main: Seq<u8>,
    tail: Seq<u8>,
) -> Seq<u8> {
    if report == Report::Done {
        match v.phase {
            Phase::WritingMain { len } => overwritten(device, v.written, main.take(len as int)),
            Phase::WritingTail { len } => overwritten(device, v.written, tail.take(len as int)),
            _ => device,
        }
    } else {
        device
    }
}

/// The device has the size the engine was told, and what the engine counts
/// as written is all zeros.
pub open spec fn zero_so_far(v: EngineView, device: Seq<u8>) -> bool {
    device.len() == v.device_size && all_zero(device.take(v.written as int))
}

/// Two devices have the size the engine was told and agree on what the
/// engine counts as written.
pub open spec fn same_so_far(v: EngineView, first: Seq<u8>, second: Seq<u8>) -> bool {
    &&& first.len() == v.device_size
    &&& second.len() == v.device_size
    &&& first.take(v.written as int) == second.take(v.written as int)
}

/// The buffers hold enough for the write that the engine waits to hear of.
pub open spec fn buffers_hold_the_write(v: EngineView, main: Seq<u8>, tail: Seq<u8>) -> bool {
    match v.phase {
        Phase::WritingMain { len } => len <= main.len(),
        Phase::WritingTail { len } => len <= tail.len(),
        _ => true,
    }
}

/// The bytes of the write that the engine waits to hear of are zeros.
pub open spec fn write_is_zeros(v: EngineView, main: Seq<u8>, tail: Seq<u8>) -> bool {
    match v.phase {
        Phase::WritingMain { len } => len <= main.len() && all_zero(main.take(len as int)),
        Phase::WritingTail { len } => len <= tail.len() && all_zero(tail.take(len as int)),
        _ => true,
    }
}

/// The buffers of a zero pass hold zeros: the main buffer once the pass
/// has begun, and the tail buffer's share while the tail is under way.
pub open spec fn holds_zeros(v: EngineView, buffers: BuffersView) -> bool {
    &&& v.phase != Phase::Ready ==> all_zero(buffers.main)
    &&& v.phase.tail_len() matches Some(len) ==> len <= buffers.tail.len() && all_zero(
        buffers.tail.take(len as int),
    )
}

/// In a zero pass the engine keeps zeros in the buffers as long as nobody
/// else writes to them, and so every write it asks for holds zeros.
#[verifier::rlimit(40)]
pub proof fn lemma_zero_pass_holds_zeros(
    v: EngineView,
    report: Report,
    around: Surroundings,
    buffers: BuffersView,
)
    requires
        v.inv(),
        v.fill == crate::wipe::plan::Fill::Zero,
        around.main_len == buffers.main.len(),
        around.main_len <= usize::MAX,
        holds_zeros(v, buffers),
    ensures
        ({
            let next: EngineView = v.step(report, around).0;
            let after: BuffersView = v.buffers_after(next, buffers);
            &&& holds_zeros(next, after)
            &&& after.main.len() == buffers.main.len()
            &&& write_is_zeros(next, after.main, after.tail)
        }),
{
    lemma_step_keeps_inv(v, report, around);
    lemma_written_grows_by_chunks(v, report, around);
    lemma_main_writes_fit(v, report, around);
    let next: EngineView = v.step(report, around).0;
    let after: BuffersView = v.buffers_after(next, buffers);
    assert(all_zero(after.main));
    match next.phase {
        Phase::WritingMain { len } => {
            assert(len <= after.main.len());
        },
        _ => {},
    }
}

/// As long as the writes hold zeros, every step leaves what is written so
/// far all zeros, whatever is reported.
#[verifier::rlimit(40)]
pub proof fn lemma_step_keeps_zeros(
    v: EngineView,
    report: Report,
    around: Surroundings,
    device: Seq<u8>,
    main: Seq<u8>,
    tail: Seq<u8>,
)
    requires
        v.inv(),
        around.main_len <= usize::MAX,
        zero_so_far(v, device),
        write_is_zeros(v, main, tail),
    ensures
        zero_so_far(v.step(report, around).0, device_after_report(v, report, device, main, tail)),
{
    lemma_step_keeps_inv(v, report, around);
    lemma_written_grows_by_chunks(v, report, around);
    let next: EngineView = v.step(report, around).0;
    let after: Seq<u8> = device_after_report(v, report, device, main, tail);
    assert forall|i: int| 0 <= i < next.written implies after.take(next.written as int)[i]
        == 0u8 by {
        if i < v.written {
            assert(device.take(v.written as int)[i] == 0u8);
        } else {
            match v.phase {
                Phase::WritingMain { len } => {
                    assert(main.take(len as int)[i - v.written] == 0u8);
                },
                Phase::WritingTail { len } => {
                    assert(tail.take(len as int)[i - v.written] == 0u8);
                },
                _ => {},
            }
        }
    }
}

/// Every step leaves what is written so far free of the device's old
/// content: two devices that went through the same pass agree on it.
#[verifier::rlimit(40)]
pub proof fn lemma_step_keeps_cover(
    v: EngineView,
    report: Report,
    around: Surroundings,
    first: Seq<u8>,
    second: Seq<u8>,
    main: Seq<u8>,
    tail: Seq<u8>,
)
    requires
        v.inv(),
        around.main_len <= usize::MAX,
        same_so_far(v, first, second),
        buffers_hold_the_write(v, main, tail),
    ensures
        same_so_far(
            v.step(report, around).0,
            device_after_report(v, report, first, main, tail),
            device_after_report(v, report, second, main, tail),
        ),
{
    lemma_step_keeps_inv(v, report, around);
    lemma_written_grows_by_chunks(v, report, around);
    let next: EngineView = v.step(report, around).0;
    let one: Seq<u8> = device_after_report(v, report, first, main, tail);
    let two: Seq<u8> = device_after_report(v, report, second, main, tail);
    assert forall|i: int| 0 <= i < next.written implies one.take(next.written as int)[i]
        == two.take(next.written as int)[i] by {
        if i < v.written {
            assert(first.take(v.written as int)[i] == second.take(v.written as int)[i]);
        }
    }
    assert(one.take(next.written as int) =~= two.take(next.written as int));
}

/// Once the pass is complete, what is written so far is the whole device:
/// after a zero pass every byte of it is zero.
pub proof fn lemma_finished_zero_pass(v: EngineView, device: Seq<u8>)
    requires
        v.inv(),
        v.phase == Phase::Finished,
        zero_so_far(v, device),
    ensures
        device.len() == v.device_size,
        all_zero(device),
{
    assert(device.take(v.written as int) =~= device);
}

/// Once the pass is complete, nothing of the device's old content is left:
/// two devices that went through the same pass are the same.
pub proof fn lemma_finished_pass_covers(v: EngineView, first: Seq<u8>, second: Seq<u8>)
    requires
        v.inv(),
        v.phase == Phase::Finished,
        same_so_far(v, first, second),
    ensures
        first == second,
{
    assert(first.take(v.written as int) =~= first);
    assert(second.take(v.written as int) =~= second);
}

/// The device after the chunks that a pass writes from the main buffer,
/// from `written` up to `full_limit`: each chunk is the beginning of the
/// buffer, as long as [`chunk_len`] says, and lies behind the one before.
pub open spec fn after_main_writes(
    device: Seq<u8>,
    written: nat,
    full_limit: nat,
    main: Seq<u8>,
) -> Seq<u8>
    decreases full_limit - written,
{
    if written >= full_limit || main.len() == 0 {
        device
    } else {
        let len: nat = chunk_len(written, full_limit, main.len());
        after_main_writes(
            overwritten(device, written, main.take(len as int)),
            written + len,
            full_limit,
            main,
        )
    }
}

/// The device after a whole pass: the chunks from the main buffer, and
/// behind them the tail from the tail buffer where the pass has one.
pub open spec fn after_pass(
    device: Seq<u8>,
    sector: nat,
    direct: bool,
    main: Seq<u8>,
    tail: Seq<u8>,
) -> Seq<u8> {
    let full_limit: nat = full_limit_of(device.len(), sector, direct);
    let rest: nat = tail_of(device.len(), sector, direct);
    let filled: Seq<u8> = after_main_writes(device, 0, full_limit, main);
    if rest > 0 {
        overwritten(filled, full_limit, tail.take(rest as int))
    } else {
        filled
    }
}

/// The chunks from the main buffer keep the device's size and change
/// nothing outside of their range.
pub proof fn lemma_main_writes_frame(device: Seq<u8>, written: nat, full_limit: nat, main: Seq<u8>)
    ensures
        after_main_writes(device, written, full_limit, main).len() == device.len(),
        forall|i: int|
            0 <= i < device.len() && !(written <= i < full_limit) ==> after_main_writes(
                device,
                written,
                full_limit,
                main,
            )[i] == device[i],
    decreases full_limit - written,
{
    if written >= full_limit || main.len() == 0 {
    } else {
        let len: nat = chunk_len(written, full_limit, main.len());
        let once: Seq<u8> = overwritten(device, written, main.take(len as int));
        lemma_main_writes_frame(once, written + len, full_limit, main);
        let all: Seq<u8> = after_main_writes(device, written, full_limit, main);
        assert(all == after_main_writes(once, written + len, full_limit, main));
        assert forall|i: int| 0 <= i < device.len() && !(written <= i < full_limit) implies all[i]
            == device[i] by {
            assert(all[i] == once[i]);
        }
    }
}

/// Every byte in the range of the chunks is a byte of the main buffer
/// afterwards: where the buffer is all zeros, so is the range.
pub proof fn lemma_main_writes_zero(device: Seq<u8>, written: nat, full_limit: nat, main: Seq<u8>)
    requires
        full_limit <= device.len(),
        main.len() > 0,
        all_zero(main),
    ensures
        forall|i: int|
            written <= i < full_limit ==> after_main_writes(device, written, full_limit, main)[i]
                == 0u8,
    decreases full_limit - written,
{
    if written >= full_limit {
    } else {
        let len: nat = chunk_len(written, full_limit, main.len());
        let once: Seq<u8> = overwritten(device, written, main.take(len as int));
        lemma_main_writes_zero(once, written + len, full_limit, main);
        lemma_main_writes_frame(once, written + len, full_limit, main);
        let all: Seq<u8> = after_main_writes(device, written, full_limit, main);
        assert(all == after_main_writes(once, written + len, full_limit, main));
        assert forall|i: int| written <= i < full_limit implies all[i] == 0u8 by {
            if i < written + len {
                assert(all[i] == once[i]);
                assert(once[i] == main.take(len as int)[i - written]);
            }
        }
    }
}

/// Within the range of the chunks nothing of the device's old content is
/// left: two devices of one size agree there afterwards.
pub proof fn lemma_main_writes_cover(
    first: Seq<u8>,
    second: Seq<u8>,
    written: nat,
    full_limit: nat,
    main: Seq<u8>,
)
    requires
        first.len() == second.len(),
        full_limit <= first.len(),
        main.len() > 0,
    ensures
        forall|i: int|
            written <= i < full_limit ==> after_main_writes(first, written, full_limit, main)[i]
                == after_main_writes(second, written, full_limit, main)[i],
    decreases full_limit - written,
{
    if written >= full_limit {
    } else {
        let len: nat = chunk_len(written, full_limit, main.len());
        let once: Seq<u8> = overwritten(first, written, main.take(len as int));
        let twice: Seq<u8> = overwritten(second, written, main.take(len as int));
        lemma_main_writes_cover(once, twice, written + len, full_limit, main);
        lemma_main_writes_frame(once, written + len, full_limit, main);
        lemma_main_writes_frame(twice, written + len, full_limit, main);
        let all_first: Seq<u8> = after_main_writes(first, written, full_limit, main);
        let all_second: Seq<u8> = after_main_writes(second, written, full_limit, main);
        assert(all_first == after_main_writes(once, written + len, full_limit, main));
        assert(all_second == after_main_writes(twice, written + len, full_limit, main));
        assert forall|i: int| written <= i < full_limit implies all_first[i] == all_second[i] by {
            if i < written + len {
                assert(all_first[i] == once[i]);
                assert(all_second[i] == twice[i]);
            }
        }
    }
}

/// A pass leaves the device at its size.
pub proof fn lemma_pass_keeps_size(
    device: Seq<u8>,
    sector: nat,
    direct: bool,
    main: Seq<u8>,
    tail: Seq<u8>,
)
    ensures
        after_pass(device, sector, direct, main, tail).len() == device.len(),
{
    lemma_main_writes_frame(device, 0, full_limit_of(device.len(), sector, direct), main);
}

/// After a zero pass the device has its size and every byte of it is zero:
/// this holds whenever the sector is not zero, the main buffer is not empty
/// and all zeros, and the tail buffer holds zeros for the tail.
pub proof fn lemma_zero_pass_leaves_zeros(
    device: Seq<u8>,
    sector: nat,
    direct: bool,
    main: Seq<u8>,
    tail: Seq<u8>,
)
    requires
        sector > 0,
        main.len() > 0,
        all_zero(main),
        tail.len() >= tail_of(device.len(), sector, direct),
        all_zero(tail.take(tail_of(device.len(), sector, direct) as int)),
    ensures
        after_pass(device, sector, direct, main, tail).len() == device.len(),
        all_zero(after_pass(device, sector, direct, main, tail)),
{
    let full_limit: nat = full_limit_of(device.len(), sector, direct);
    lemma_layout(device.len(), sector, direct);
    lemma_main_writes_frame(device, 0, full_limit, main);
    lemma_main_writes_zero(device, 0, full_limit, main);
}

/// A pass overwrites every byte: what it leaves is fixed by the two
/// buffers alone, whatever the device held before. This holds whenever the
/// sector is not zero, the main buffer is not empty and the tail buffer
/// holds the tail.
pub proof fn lemma_pass_leaves_nothing(
    first: Seq<u8>,
    second: Seq<u8>,
    sector: nat,
    direct: bool,
    main: Seq<u8>,
    tail: Seq<u8>,
)
    requires
        first.len() == second.len(),
        sector > 0,
        main.len() > 0,
        tail.len() >= tail_of(first.len(), sector, direct),
    ensures
        after_pass(first, sector, direct, main, tail) == after_pass(
            second,
            sector,
            direct,
            main,
            tail,
        ),
{
    let full_limit: nat = full_limit_of(first.len(), sector, direct);
    lemma_layout(first.len(), sector, direct);
    lemma_main_writes_frame(first, 0, full_limit, main);
    lemma_main_writes_frame(second, 0, full_limit, main);
    lemma_main_writes_cover(first, second, 0, full_limit, main);
    assert(after_pass(first, sector, direct, main, tail) =~= after_pass(
        second,
        sector,
        direct,
        main,
        tail,
    ));
}

} // verus!
