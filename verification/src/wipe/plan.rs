//! What a run consists of: which pass is filled with what, and how one pass
//! divides the device between whole sectors and a tail.

use vstd::prelude::*;
use vstd::arithmetic::div_mod::lemma_fundamental_div_mod;
use vstd::arithmetic::div_mod::lemma_mod_multiples_basic;
use crate::dev::SyncMode;

verus! {

/// What a pass writes.
#[derive(Clone, Copy, Debug, PartialEq, Eq, Structural)]
pub enum Fill {
    /// Cryptographically strong random bytes, drawn afresh for the pass.
    Random,
    /// Zeros.
    Zero,
}

/// The fill of pass `index` in a run of `total` passes: every pass before
/// the last is random, the last one is zeros.
pub open spec fn fill_of_pass(index: nat, total: nat) -> Fill {
    if index < total {
        Fill::Random
    } else {
        Fill::Zero
    }
}

/// One pass of a run: its index, counted from one, and its fill.
#[derive(Clone, Copy, Debug, PartialEq, Eq, Structural)]
pub struct PassStep {
    pub index: usize,
    pub fill: Fill,
}

/// What a [`PassPlan`] holds, as mathematical values.
pub struct PassPlanView {
    /// Number of passes of the run, at least one.
    pub total_passes: nat,
    /// Index of the pass handed out last; zero before the first.
    pub current_pass: nat,
    /// Whether each pass ends with the strongest flush.
    pub durable: bool,
    /// Whether writes bypass the page cache.
    pub direct: bool,
    /// The effective sector of the device.
    pub sector: nat,
}

/// The schedule of a run: passes `1..N-1` random, pass `N` zeros, in that
/// order, each handed out once.
pub struct PassPlan {
    total_passes: usize,
    current_pass: usize,
    durable: bool,
    direct: bool,
    sector: usize,
}

impl View for PassPlan {
    type V = PassPlanView;

    closed spec fn view(&self) -> PassPlanView {
        PassPlanView {
            total_passes: self.total_passes as nat,
            current_pass: self.current_pass as nat,
            durable: self.durable,
            direct: self.direct,
            sector: self.sector as nat,
        }
    }
}

impl PassPlan {
    /// A plan has at least one pass and has handed out no more than it has.
    pub closed spec fn wf(&self) -> bool {
        1 <= self.total_passes && self.current_pass <= self.total_passes
    }

    /// The plan of a run of `total_passes` passes under `mode` on a device
    /// with effective sector `sector`. A run without passes is refused.
    pub fn new(total_passes: usize, mode: SyncMode, sector: usize) -> (plan: Option<PassPlan>)
        ensures
            total_passes == 0 <==> plan is None,
            plan matches Some(p) ==> p.wf() && p@ == (PassPlanView {
                total_passes: total_passes as nat,
                current_pass: 0,
                durable: mode == SyncMode::Durable,
                direct: mode == SyncMode::Direct,
                sector: sector as nat,
            }),
    {
        if total_passes == 0 {
            None
        } else {
            Some(
                PassPlan {
                    total_passes,
                    current_pass: 0,
                    durable: mode.is_durable(),
                    direct: mode.is_direct(),
                    sector,
                },
            )
        }
    }

    /// Hands out the next pass, or `None` once every pass was handed out.
    /// Passes come in the order of their index, each with the fill that
    /// [`fill_of_pass`] gives it.
    pub fn next_pass(&mut self) -> (step: Option<PassStep>)
        requires
            old(self).wf(),
        ensures
            final(self).wf(),
            old(self)@.current_pass >= old(self)@.total_passes ==> step is None && final(self)@
                == old(self)@,
            old(self)@.current_pass < old(self)@.total_passes ==> {
                &&& step == Some(
                    PassStep {
                        index: (old(self)@.current_pass + 1) as usize,
                        fill: fill_of_pass(old(self)@.current_pass + 1, old(self)@.total_passes),
                    },
                )
                &&& final(self)@ == (PassPlanView {
                    current_pass: old(self)@.current_pass + 1,
                    ..old(self)@
                })
            },
    {
        if self.current_pass >= self.total_passes {
            None
        } else {
            self.current_pass = self.current_pass + 1;
            let fill: Fill = fill_for_pass(self.current_pass, self.total_passes);
            Some(PassStep { index: self.current_pass, fill })
        }
    }

    /// Number of passes of the run.
    pub fn total_passes(&self) -> (n: usize)
        ensures
            n == self@.total_passes,
    {
        self.total_passes
    }

    /// Whether each pass ends with the strongest flush.
    pub fn durable(&self) -> (b: bool)
        ensures
            b == self@.durable,
    {
        self.durable
    }

    /// Whether writes bypass the page cache.
    pub fn direct(&self) -> (b: bool)
        ensures
            b == self@.direct,
    {
        self.direct
    }

    /// The effective sector of the device.
    pub fn sector(&self) -> (n: usize)
        ensures
            n == self@.sector,
    {
        self.sector
    }
}

/// The fill of pass `pass_index`, counted from one, in a run of
/// `total_passes` passes.
pub fn fill_for_pass(pass_index: usize, total_passes: usize) -> (fill: Fill)
    ensures
        fill == fill_of_pass(pass_index as nat, total_passes as nat),
{
    if pass_index < total_passes {
        Fill::Random
    } else {
        Fill::Zero
    }
}

/// The bytes of a pass that go out through the main buffer: with direct
/// I/O the largest multiple of the sector within the device, otherwise the
/// whole device.
pub open spec fn full_limit_of(device_size: nat, sector: nat, direct: bool) -> nat {
    if direct {
        (device_size - device_size % sector) as nat
    } else {
        device_size
    }
}

/// The bytes of a pass left over for the tail buffer.
pub open spec fn tail_of(device_size: nat, sector: nat, direct: bool) -> nat {
    (device_size - full_limit_of(device_size, sector, direct)) as nat
}

/// How one pass divides the device.
#[derive(Clone, Copy, Debug, PartialEq, Eq, Structural)]
pub struct PassLayout {
    /// Bytes written from the main buffer, from offset zero.
    pub full_limit: u64,
    /// Bytes written from the tail buffer, from offset `full_limit`.
    pub tail: u64,
}

/// Divides a device of `device_size` bytes for one pass.
///
/// With direct I/O the sector must not be zero; without it the sector
/// plays no part.
pub fn pass_layout(device_size: u64, sector: usize, direct: bool) -> (layout: PassLayout)
    requires
        direct ==> sector > 0,
    ensures
        layout.full_limit == full_limit_of(device_size as nat, sector as nat, direct),
        layout.tail == tail_of(device_size as nat, sector as nat, direct),
        layout.full_limit + layout.tail == device_size,
        direct ==> layout.full_limit as nat % sector as nat == 0 && layout.tail < sector,
        !direct ==> layout.tail == 0,
{
    if direct {
        proof {
            lemma_layout(device_size as nat, sector as nat, direct);
        }
        let tail: u64 = device_size % (sector as u64);
        PassLayout { full_limit: device_size - tail, tail }
    } else {
        PassLayout { full_limit: device_size, tail: 0 }
    }
}

/// For every device size and every sector but zero: the full part and the
/// tail make up the device, the tail is shorter than a sector, and with
/// direct I/O the full part is a multiple of the sector.
pub proof fn lemma_layout(device_size: nat, sector: nat, direct: bool)
    requires
        sector > 0,
    ensures
        full_limit_of(device_size, sector, direct) + tail_of(device_size, sector, direct)
            == device_size,
        tail_of(device_size, sector, direct) < sector,
        direct ==> full_limit_of(device_size, sector, direct) % sector == 0,
        full_limit_of(device_size, sector, direct) <= device_size,
        device_size % sector <= device_size,
{
    vstd::arithmetic::div_mod::lemma_mod_decreases(device_size, sector);
    if direct {
        let d: int = device_size as int;
        let s: int = sector as int;
        lemma_fundamental_div_mod(d, s);
        assert(d - d % s == (d / s) * s) by (nonlinear_arith)
            requires
                d == s * (d / s) + d % s,
        ;
        lemma_mod_multiples_basic(d / s, s);
    }
}

} // verus!
