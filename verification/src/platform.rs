//! The operating systems the engine knows how to drive.

use vstd::prelude::*;

verus! {

/// Operating system a runner is built for.
#[derive(Clone, Copy, Debug, PartialEq, Eq, Structural)]
pub enum Platform {
    Linux,
    MacOs,
}

impl Platform {
    /// Human-readable name of the platform.
    pub fn name(&self) -> (s: &'static str)
        ensures
            *self == Platform::Linux ==> s@ == "Linux"@,
            *self == Platform::MacOs ==> s@ == "macOS"@,
    {
        match self {
            Platform::Linux => "Linux",
            Platform::MacOs => "macOS",
        }
    }

    /// Whether unbuffered (direct) I/O can be requested on this platform.
    pub fn supports_direct(&self) -> (b: bool)
        ensures
            b == (*self == Platform::Linux),
    {
        match self {
            Platform::Linux => true,
            Platform::MacOs => false,
        }
    }
}

} // verus!
