//! Progress accounting: bytes written per pass and overall, the percentage
//! of the current pass and the estimated time left, rendered as one status
//! line per chunk.

use vstd::prelude::*;
use vstd::string::*;
use std::time::Duration;
use std::time::Instant;

verus! {

/// `std::time::Instant`, a point on the monotonic clock. Nothing inside a
/// value is visible to the proofs.
#[verifier::external_type_specification]
#[verifier::external_body]
pub struct ExInstant(std::time::Instant);

/// `Instant::now` reads the clock; nothing is claimed of the reading.
pub assume_specification[ std::time::Instant::now ]() -> (t: Instant);

/// `Instant::elapsed` is the time since the instant was taken; nothing is
/// claimed of its length.
pub assume_specification[ std::time::Instant::elapsed ](t: &Instant) -> (d: Duration);

/// `Duration::as_nanos` is the duration in whole nanoseconds; nothing is
/// claimed of the number.
pub assume_specification[ core::time::Duration::as_nanos ](d: &Duration) -> (n: u128);

/// Nanoseconds in a second.
pub const NANOS_PER_SECOND: u64 = 1000000000;

/// One decimal digit as text.
pub open spec fn digit_text(d: nat) -> Seq<char> {
    if d == 0 {
        "0"@
    } else if d == 1 {
        "1"@
    } else if d == 2 {
        "2"@
    } else if d == 3 {
        "3"@
    } else if d == 4 {
        "4"@
    } else if d == 5 {
        "5"@
    } else if d == 6 {
        "6"@
    } else if d == 7 {
        "7"@
    } else if d == 8 {
        "8"@
    } else {
        "9"@
    }
}

/// A number in decimal, without sign, padding or leading zeros.
pub open spec fn decimal_text(n: nat) -> Seq<char>
    decreases n,
{
    if n < 10 {
        digit_text(n)
    } else {
        decimal_text(n / 10) + digit_text(n % 10)
    }
}

/// The two lowest decimal digits of a number, tens first.
pub open spec fn two_digit_text(value: nat) -> Seq<char> {
    digit_text((value / 10) % 10) + digit_text(value % 10)
}

/// A percentage right-aligned in three columns; values over 100 show as 100.
pub open spec fn percent_text(percent: nat) -> Seq<char> {
    if percent >= 100 {
        decimal_text(100)
    } else if percent >= 10 {
        " "@ + decimal_text(percent)
    } else {
        "  "@ + decimal_text(percent)
    }
}

/// An estimate in whole seconds as `mm:ss`, or as `h:mm:ss` from one hour
/// on; an unknown estimate as `--:--`.
pub open spec fn eta_text(eta: Option<u64>) -> Seq<char> {
    match eta {
        Some(secs) => if secs >= 3600 {
            decimal_text((secs / 3600) as nat) + ":"@ + two_digit_text(((secs % 3600) / 60) as nat)
                + ":"@ + two_digit_text((secs % 60) as nat)
        } else {
            two_digit_text((secs / 60) as nat) + ":"@ + two_digit_text((secs % 60) as nat)
        },
        None => "--:--"@,
    }
}

/// The share of `size` that `done` is, in percent, rounded to the nearest
/// whole number (halves up) and capped at 100. Of an empty target, anything
/// done is all of it.
pub open spec fn percent_of(done: nat, size: nat) -> nat {
    if size == 0 {
        if done == 0 {
            0
        } else {
            100
        }
    } else {
        let rounded: nat = (200 * done + size) / (2 * size);
        if rounded > 100 {
            100
        } else {
            rounded
        }
    }
}

/// Whole seconds left, by linear extrapolation from the average throughput
/// since the clock started.
///
/// Unknown while nothing is done; zero once `done` has reached `total`;
/// unknown while no time has passed. Otherwise the time left is
/// `(total - done) * elapsed / done`, cut to whole nanoseconds and then
/// rounded up to whole seconds, and capped at `u64::MAX`.
pub open spec fn eta_seconds(done: nat, total: nat, elapsed_nanos: nat) -> Option<u64> {
    if done == 0 {
        None
    } else if done >= total {
        Some(0u64)
    } else if elapsed_nanos == 0 {
        None
    } else {
        let left_nanos: nat = ((total - done) * elapsed_nanos / (done as int)) as nat;
        let whole: nat = left_nanos / (NANOS_PER_SECOND as nat);
        let secs: nat = if left_nanos % (NANOS_PER_SECOND as nat) == 0 {
            whole
        } else {
            whole + 1
        };
        if secs > u64::MAX {
            Some(u64::MAX)
        } else {
            Some(secs as u64)
        }
    }
}

/// A byte count grown by a chunk, stopping at `u64::MAX`.
pub open spec fn capped_sum(count: nat, chunk: nat) -> nat {
    if count + chunk > u64::MAX {
        u64::MAX as nat
    } else {
        count + chunk
    }
}

/// What a [`ProgressTracker`] holds, as mathematical values. The two clocks
/// are left out: nothing can be said of a clock reading.
pub struct ProgressView {
    pub device_size: nat,
    pub total_passes: nat,
    pub total_target: nat,
    pub total_done: nat,
    pub pass_done: nat,
    pub current_pass: nat,
    pub quiet: bool,
    pub line: Seq<char>,
}

impl ProgressView {
    /// Whether a status line is produced at all: not when quiet, and not
    /// for an empty device.
    pub open spec fn shows_status(self) -> bool {
        !self.quiet && self.device_size != 0
    }

    /// The status line for this state, given the time since the pass began
    /// and since the run began, both in nanoseconds. The leading carriage
    /// return rewrites the line in place.
    pub open spec fn status_text(self, pass_nanos: nat, total_nanos: nat) -> Seq<char> {
        "\rPass "@ + decimal_text(self.current_pass) + "/"@ + decimal_text(self.total_passes)
            + " | Progress: "@ + percent_text(percent_of(self.pass_done, self.device_size))
            + "% | Pass ETA: "@ + eta_text(
            eta_seconds(self.pass_done, self.device_size, pass_nanos),
        ) + " | Total ETA: "@ + eta_text(
            eta_seconds(self.total_done, self.total_target, total_nanos),
        )
    }

    /// Whether `next` is this state with one more chunk of `chunk` bytes
    /// recorded: both counters have grown by it, stopping at `u64::MAX`,
    /// and where a status is shown the line is the status text of the new
    /// counts for some reading of the two clocks.
    pub open spec fn after_chunk(self, next: ProgressView, chunk: nat) -> bool {
        &&& next.pass_done == capped_sum(self.pass_done, chunk)
        &&& next.total_done == capped_sum(self.total_done, chunk)
        &&& next.device_size == self.device_size
        &&& next.total_passes == self.total_passes
        &&& next.total_target == self.total_target
        &&& next.current_pass == self.current_pass
        &&& next.quiet == self.quiet
        &&& !self.shows_status() ==> next.line == self.line
        &&& self.shows_status() ==> exists|pass_nanos: u64, total_nanos: u64|
            next.line == #[trigger] next.status_text(pass_nanos as nat, total_nanos as nat)
    }

    /// The run is on schedule: what is done, plus what the current pass and
    /// the passes after it still have to write, does not exceed the target.
    /// A target that was capped at `u64::MAX` bounds every count.
    pub open spec fn on_schedule(self) -> bool {
        ||| self.total_target == u64::MAX
        ||| {
            &&& self.current_pass <= self.total_passes
            &&& self.pass_done <= self.device_size
            &&& self.total_done + (if self.current_pass == 0 {
                0
            } else {
                self.device_size - self.pass_done
            }) + (self.total_passes - self.current_pass) * self.device_size <= self.total_target
        }
    }
}

/// Progress of a run: counts bytes per pass and overall, and keeps the two
/// clocks from which the estimates are made.
pub struct ProgressTracker {
    total_start: Instant,
    pass_start: Instant,
    device_size: u64,
    total_passes: usize,
    total_target_bytes: u64,
    total_bytes_done: u64,
    pass_bytes_done: u64,
    current_pass: usize,
    quiet: bool,
    line: String,
}

impl View for ProgressTracker {
    type V = ProgressView;

    closed spec fn view(&self) -> ProgressView {
        ProgressView {
            device_size: self.device_size as nat,
            total_passes: self.total_passes as nat,
            total_target: self.total_target_bytes as nat,
            total_done: self.total_bytes_done as nat,
            pass_done: self.pass_bytes_done as nat,
            current_pass: self.current_pass as nat,
            quiet: self.quiet,
            line: self.line@,
        }
    }
}

/// The text of one decimal digit.
fn digit_str(d: u8) -> (s: &'static str)
    requires
        d < 10,
    ensures
        s@ == digit_text(d as nat),
{
    match d {
        0 => "0",
        1 => "1",
        2 => "2",
        3 => "3",
        4 => "4",
        5 => "5",
        6 => "6",
        7 => "7",
        8 => "8",
        _ => "9",
    }
}

/// Appends `n` in decimal.
pub fn push_num(line: &mut String, n: u64)
    ensures
        final(line)@ == old(line)@ + decimal_text(n as nat),
    decreases n,
{
    if n >= 10 {
        push_num(line, n / 10);
    }
    let d: u8 = (n % 10) as u8;
    line.append(digit_str(d));
    assert(line@ =~= old(line)@ + decimal_text(n as nat));
}

/// Appends the two lowest decimal digits of `value`, tens first.
pub fn push_two_digits(line: &mut String, value: u8)
    ensures
        final(line)@ == old(line)@ + two_digit_text(value as nat),
{
    let tens: u8 = (value / 10) % 10;
    let ones: u8 = value % 10;
    line.append(digit_str(tens));
    line.append(digit_str(ones));
    assert(line@ =~= old(line)@ + two_digit_text(value as nat));
}

/// Appends a percentage, right-aligned in three columns and capped at 100.
pub fn push_percent(line: &mut String, percent: u64)
    ensures
        final(line)@ == old(line)@ + percent_text(percent as nat),
{
    let p: u64 = if percent > 100 {
        100
    } else {
        percent
    };
    if p < 100 {
        if p < 10 {
            line.append("  ");
        } else {
            line.append(" ");
        }
    }
    push_num(line, p);
    assert(line@ =~= old(line)@ + percent_text(percent as nat));
}

/// Appends an estimate: `mm:ss`, `h:mm:ss` from one hour on, or `--:--`
/// when it is unknown.
pub fn append_eta(line: &mut String, eta: Option<u64>)
    ensures
        final(line)@ == old(line)@ + eta_text(eta),
{
    match eta {
        Some(secs) => {
            if secs >= 3600 {
                let hours: u64 = secs / 3600;
                let minutes: u64 = (secs % 3600) / 60;
                let seconds: u64 = secs % 60;
                push_num(line, hours);
                line.append(":");
                push_two_digits(line, minutes as u8);
                line.append(":");
                push_two_digits(line, seconds as u8);
            } else {
                let minutes: u64 = secs / 60;
                let seconds: u64 = secs % 60;
                push_two_digits(line, minutes as u8);
                line.append(":");
                push_two_digits(line, seconds as u8);
            }
        },
        None => {
            line.append("--:--");
        },
    }
    assert(line@ =~= old(line)@ + eta_text(eta));
}

/// The percentage of `size` that `done` is; see [`percent_of`].
pub fn percent(done: u64, size: u64) -> (p: u64)
    ensures
        p == percent_of(done as nat, size as nat),
        p <= 100,
{
    if size == 0 {
        if done == 0 {
            0
        } else {
            100
        }
    } else {
        let doubled: u128 = 200 * (done as u128) + (size as u128);
        let rounded: u128 = doubled / (2 * (size as u128));
        if rounded > 100 {
            100
        } else {
            rounded as u64
        }
    }
}

impl ProgressTracker {
    /// A tracker for a run of `total_passes` passes over `device_size`
    /// bytes. Both clocks start now. The target is `device_size *
    /// total_passes`, capped at `u64::MAX`; a run counts as having at least
    /// one pass.
    pub fn new(total_passes: usize, device_size: u64, quiet: bool) -> (tracker: ProgressTracker)
        ensures
            tracker@.device_size == device_size,
            tracker@.total_passes == (if total_passes == 0 {
                1nat
            } else {
                total_passes as nat
            }),
            tracker@.total_target == (if device_size * total_passes > u64::MAX {
                u64::MAX as nat
            } else {
                (device_size * total_passes) as nat
            }),
            tracker@.total_done == 0,
            tracker@.pass_done == 0,
            tracker@.current_pass == 0,
            tracker@.quiet == quiet,
            tracker@.line == Seq::<char>::empty(),
            total_passes >= 1 ==> tracker@.on_schedule(),
    {
        let target: u64 = match device_size.checked_mul(total_passes as u64) {
            Some(bytes) => bytes,
            None => u64::MAX,
        };
        ProgressTracker {
            total_start: Instant::now(),
            pass_start: Instant::now(),
            device_size,
            total_passes: if total_passes == 0 {
                1
            } else {
                total_passes
            },
            total_target_bytes: target,
            total_bytes_done: 0,
            pass_bytes_done: 0,
            current_pass: 0,
            quiet,
            line: String::new(),
        }
    }

    /// Begins pass `pass_index`: restarts the pass clock and sets the bytes
    /// of the pass back to zero. Nothing else changes.
    ///
    /// A run that is on schedule stays so when it moves on to a later pass
    /// within its count.
    pub fn start_pass(&mut self, pass_index: usize)
        ensures
            final(self)@ == (ProgressView {
                current_pass: pass_index as nat,
                pass_done: 0,
                ..old(self)@
            }),
            old(self)@.on_schedule() && old(self)@.current_pass < pass_index
                && pass_index <= old(self)@.total_passes ==> final(self)@.on_schedule(),
    {
        proof {
            let v = self@;
            if v.on_schedule() && v.current_pass < pass_index && pass_index <= v.total_passes
                && v.total_target != u64::MAX {
                let d: int = v.device_size as int;
                let t: int = v.total_passes as int;
                let c: int = v.current_pass as int;
                let p: int = pass_index as int;
                assert((t - c) * d >= d + (t - p) * d) by (nonlinear_arith)
                    requires
                        c < p,
                        p <= t,
                        0 <= d,
                ;
            }
        }
        self.current_pass = pass_index;
        self.pass_start = Instant::now();
        self.pass_bytes_done = 0;
    }

    /// The estimate for one counter; see [`eta_seconds`].
    pub fn eta(done: u64, total: u64, elapsed_nanos: u64) -> (eta: Option<u64>)
        ensures
            eta == eta_seconds(done as nat, total as nat, elapsed_nanos as nat),
    {
        if done == 0 {
            return None;
        }
        if done >= total {
            return Some(0);
        }
        if elapsed_nanos == 0 {
            return None;
        }
        let left: u64 = total - done;
        assert((left as u128) * (elapsed_nanos as u128) <= 0xffff_ffff_ffff_ffff
            * 0xffff_ffff_ffff_ffff) by (nonlinear_arith)
            requires
                left <= 0xffff_ffff_ffff_ffff,
                elapsed_nanos <= 0xffff_ffff_ffff_ffff,
        ;
        let left_nanos: u128 = (left as u128) * (elapsed_nanos as u128) / (done as u128);
        let whole: u128 = left_nanos / (NANOS_PER_SECOND as u128);
        let secs: u128 = if left_nanos % (NANOS_PER_SECOND as u128) == 0 {
            whole
        } else {
            whole + 1
        };
        if secs > u64::MAX as u128 {
            Some(u64::MAX)
        } else {
            Some(secs as u64)
        }
    }

    /// The status line for the present counts and the given clock readings.
    pub fn render_status(&self, pass_nanos: u64, total_nanos: u64) -> (text: String)
        ensures
            text@ == self@.status_text(pass_nanos as nat, total_nanos as nat),
    {
        let shown: u64 = percent(self.pass_bytes_done, self.device_size);
        let pass_eta: Option<u64> = Self::eta(self.pass_bytes_done, self.device_size, pass_nanos);
        let total_eta: Option<u64> = Self::eta(
            self.total_bytes_done,
            self.total_target_bytes,
            total_nanos,
        );
        let mut text: String = String::new();
        text.append("\rPass ");
        push_num(&mut text, self.current_pass as u64);
        text.append("/");
        push_num(&mut text, self.total_passes as u64);
        text.append(" | Progress: ");
        push_percent(&mut text, shown);
        text.append("% | Pass ETA: ");
        append_eta(&mut text, pass_eta);
        text.append(" | Total ETA: ");
        append_eta(&mut text, total_eta);
        assert(text@ =~= self@.status_text(pass_nanos as nat, total_nanos as nat));
        text
    }

    /// Records a chunk of `chunk_bytes` written: both counters grow by it,
    /// stopping at `u64::MAX`. Where a status is shown, the status line is
    /// renewed from the new counts and from what the two clocks read.
    ///
    /// A run that is on schedule stays so as long as the pass, once begun,
    /// does not record more than the device holds.
    pub fn record_chunk(&mut self, chunk_bytes: u64)
        ensures
            old(self)@.after_chunk(final(self)@, chunk_bytes as nat),
            old(self)@.on_schedule() && old(self)@.current_pass >= 1 && old(self)@.pass_done
                + chunk_bytes <= old(self)@.device_size ==> final(self)@.on_schedule(),
    {
        self.pass_bytes_done = self.pass_bytes_done.saturating_add(chunk_bytes);
        self.total_bytes_done = self.total_bytes_done.saturating_add(chunk_bytes);
        if !self.quiet && self.device_size != 0 {
            let pass_nanos: u64 = saturate(self.pass_start.elapsed().as_nanos());
            let total_nanos: u64 = saturate(self.total_start.elapsed().as_nanos());
            let text: String = self.render_status(pass_nanos, total_nanos);
            self.line = text;
            assert(self@.line == self@.status_text(pass_nanos as nat, total_nanos as nat));
        }
    }

    /// Ends the status line of a pass: says whether a line end is to be
    /// printed, which it is unless the tracker is quiet.
    pub fn finish_line(&self) -> (due: bool)
        ensures
            due == !self@.quiet,
    {
        !self.quiet
    }

    /// Whether a status line is produced for each chunk.
    pub fn shows_status(&self) -> (b: bool)
        ensures
            b == self@.shows_status(),
    {
        !self.quiet && self.device_size != 0
    }

    /// The status line as last rendered; empty before the first chunk.
    pub fn status_line(&self) -> (text: &str)
        ensures
            text@ == self@.line,
    {
        self.line.as_str()
    }

    /// Size of the device, in bytes.
    pub fn device_size(&self) -> (n: u64)
        ensures
            n == self@.device_size,
    {
        self.device_size
    }

    /// Number of passes in the run, at least one.
    pub fn total_passes(&self) -> (n: usize)
        ensures
            n == self@.total_passes,
    {
        self.total_passes
    }

    /// Bytes the whole run is to write.
    pub fn total_target_bytes(&self) -> (n: u64)
        ensures
            n == self@.total_target,
    {
        self.total_target_bytes
    }

    /// Bytes recorded since the run began.
    pub fn total_bytes_done(&self) -> (n: u64)
        ensures
            n == self@.total_done,
    {
        self.total_bytes_done
    }

    /// Bytes recorded since the current pass began.
    pub fn pass_bytes_done(&self) -> (n: u64)
        ensures
            n == self@.pass_done,
    {
        self.pass_bytes_done
    }

    /// Index of the current pass; zero before the first pass begins.
    pub fn current_pass(&self) -> (n: usize)
        ensures
            n == self@.current_pass,
    {
        self.current_pass
    }
}

/// A nanosecond count cut down to what fits in 64 bits.
fn saturate(nanos: u128) -> (n: u64)
    ensures
        n == (if nanos > u64::MAX {
            u64::MAX
        } else {
            nanos as u64
        }),
{
    if nanos > u64::MAX as u128 {
        u64::MAX
    } else {
        nanos as u64
    }
}

/// The percentage never exceeds 100, and it is 100 once everything is
/// done.
pub proof fn lemma_percent_in_range(done: nat, size: nat)
    ensures
        percent_of(done, size) <= 100,
        size > 0 && done >= size ==> percent_of(done, size) == 100,
{
    if size > 0 && done >= size {
        let s: int = size as int;
        let d: int = done as int;
        assert((200 * d + s) / (2 * s) >= 100) by (nonlinear_arith)
            requires
                s > 0,
                d >= s,
        ;
    }
}

/// The estimate is unknown while nothing is done, whatever the clock
/// reads, and it is zero once something is done and the target is reached.
pub proof fn lemma_eta_at_the_ends(done: nat, total: nat, elapsed_nanos: nat)
    ensures
        done == 0 ==> eta_seconds(done, total, elapsed_nanos) is None,
        done > 0 && done >= total ==> eta_seconds(done, total, elapsed_nanos) == Some(0u64),
{
}

/// Recording a chunk never lowers a count.
pub proof fn lemma_counts_never_fall(before: ProgressView, after: ProgressView, chunk: nat)
    requires
        before.after_chunk(after, chunk),
        before.pass_done <= u64::MAX,
        before.total_done <= u64::MAX,
    ensures
        after.pass_done >= before.pass_done,
        after.total_done >= before.total_done,
{
}

/// A run that is on schedule stays so over a chunk, as long as the pass has
/// begun and the chunk does not take it past the end of the device.
pub proof fn lemma_chunk_keeps_schedule(before: ProgressView, after: ProgressView, chunk: nat)
    requires
        before.after_chunk(after, chunk),
        before.on_schedule(),
        before.current_pass >= 1,
        before.pass_done + chunk <= before.device_size,
        before.device_size <= u64::MAX,
    ensures
        after.on_schedule(),
{
}

/// While a run is on schedule, the bytes done never exceed the target.
pub proof fn lemma_on_schedule_within_target(v: ProgressView)
    requires
        v.on_schedule(),
        v.total_done <= u64::MAX,
    ensures
        v.total_done <= v.total_target,
{
    if v.total_target != u64::MAX {
        assert((v.total_passes - v.current_pass) * v.device_size >= 0) by (nonlinear_arith)
            requires
                v.current_pass <= v.total_passes,
        ;
    }
}

} // verus!
