//! The sync modes and what they mean when the device is opened.

use vstd::prelude::*;
use vstd::string::*;
use crate::platform::Platform;

verus! {

/// How writes reach the medium and how strongly a pass is flushed.
#[derive(Clone, Copy, Debug, PartialEq, Eq, Structural)]
pub enum SyncMode {
    /// No barrier beyond what the operating system does by default.
    Fast,
    /// Write-through open where available, and a full flush at pass end.
    Durable,
    /// Bypass the page cache; buffers, lengths and offsets must be
    /// sector-aligned.
    Direct,
}

impl SyncMode {
    /// The mode's name as given on the command line.
    pub fn label(self) -> (s: &'static str)
        ensures
            self == SyncMode::Fast ==> s@ == "fast"@,
            self == SyncMode::Durable ==> s@ == "durable"@,
            self == SyncMode::Direct ==> s@ == "direct"@,
    {
        match self {
            SyncMode::Fast => "fast",
            SyncMode::Durable => "durable",
            SyncMode::Direct => "direct",
        }
    }

    /// Whether a pass must end with the strongest flush.
    pub fn is_durable(self) -> (b: bool)
        ensures
            b == (self == SyncMode::Durable),
    {
        match self {
            SyncMode::Durable => true,
            _ => false,
        }
    }

    /// Whether writes bypass the page cache.
    pub fn is_direct(self) -> (b: bool)
        ensures
            b == (self == SyncMode::Direct),
    {
        match self {
            SyncMode::Direct => true,
            _ => false,
        }
    }
}

/// The platform's flag for opening write-only. Nothing is claimed of its
/// value, which differs between targets: this is `libc::O_WRONLY`.
#[verifier::external_body]
fn flag_write_only() -> (flag: i32) {
    libc::O_WRONLY
}

/// The platform's flag for write-through opens. Nothing is claimed of its
/// value, which differs between targets: this is `libc::O_SYNC`.
#[verifier::external_body]
fn flag_write_through() -> (flag: i32) {
    libc::O_SYNC
}

/// The platform's flag for opens that bypass the page cache. Nothing is
/// claimed of its value, which differs between targets: this is
/// `libc::O_DIRECT`.
#[verifier::external_body]
fn flag_direct() -> (flag: i32) {
    libc::O_DIRECT
}

/// The open flags for `mode` on `platform`, given the platform's three flag
/// values.
///
/// A device is always opened write-only. On Linux a durable open adds the
/// write-through flag and a direct open the cache-bypass flag; elsewhere the
/// mode adds nothing at open time.
pub open spec fn open_flags_from(
    platform: Platform,
    mode: SyncMode,
    write_only: i32,
    write_through: i32,
    direct: i32,
) -> i32 {
    if platform == Platform::Linux && mode == SyncMode::Durable {
        write_only | write_through
    } else if platform == Platform::Linux && mode == SyncMode::Direct {
        write_only | direct
    } else {
        write_only
    }
}

/// Combines the platform's flag values into the flags for one open.
pub fn compose_open_flags(
    platform: Platform,
    mode: SyncMode,
    write_only: i32,
    write_through: i32,
    direct: i32,
) -> (flags: i32)
    ensures
        flags == open_flags_from(platform, mode, write_only, write_through, direct),
{
    match platform {
        Platform::Linux => match mode {
            SyncMode::Fast => write_only,
            SyncMode::Durable => write_only | write_through,
            SyncMode::Direct => write_only | direct,
        },
        Platform::MacOs => write_only,
    }
}

/// The flags with which the device is opened for writing under `mode`.
///
/// The flag values come from the platform, so the result is stated over
/// whatever they are.
pub fn open_flags(platform: Platform, mode: SyncMode) -> (flags: i32)
    ensures
        exists|write_only: i32, write_through: i32, direct: i32|
            flags == open_flags_from(platform, mode, write_only, write_through, direct),
{
    let write_only: i32 = flag_write_only();
    let write_through: i32 = flag_write_through();
    let direct: i32 = flag_direct();
    compose_open_flags(platform, mode, write_only, write_through, direct)
}

/// Whether the page cache is switched off on the handle after it is opened.
/// This is how the cache is kept clean where no open flag does it.
pub fn disables_cache_after_open(platform: Platform) -> (b: bool)
    ensures
        b == (platform == Platform::MacOs),
{
    match platform {
        Platform::Linux => false,
        Platform::MacOs => true,
    }
}

/// Whether a device path can be handed to the operating system: it must
/// hold no NUL character.
pub fn path_is_passable(dev_path: &str) -> (ok: bool)
    ensures
        ok == (forall|i: int| 0 <= i < dev_path@.len() ==> dev_path@[i] != '\0'),
{
    let n: usize = dev_path.unicode_len();
    let mut i: usize = 0;
    while i < n
        invariant
            i <= n,
            n == dev_path@.len(),
            forall|j: int| 0 <= j < i ==> dev_path@[j] != '\0',
        decreases n - i,
    {
        if dev_path.get_char(i) == '\0' {
            return false;
        }
        i = i + 1;
    }
    true
}

} // verus!
