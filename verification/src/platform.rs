//! Platform identity and the platform-specific worker executable filename.
//!
//! The worker binary is shipped under a filename that encodes the target
//! operating system and CPU architecture, matching what the release pipeline
//! produces. The host application determines the platform once and passes it
//! in, so the policy stays an explicit, testable value rather than scattered
//! conditional compilation.

use vstd::prelude::*;

verus! {

/// The target platforms the worker is built for. `Other` stands for any
/// platform without a dedicated worker build; on it the bare command name is
/// used and resolution is left to the PATH at spawn time.
#[derive(Clone, Copy, PartialEq, Eq, Structural, Debug)]
pub enum Platform {
    WindowsX64,
    MacosArm64,
    MacosX64,
    LinuxX64,
    Other,
}

/// The exact worker filename for each platform.
pub open spec fn spec_goworker_name(p: Platform) -> Seq<char> {
    match p {
        Platform::WindowsX64 => "goworker-x86_64-pc-windows-msvc.exe"@,
        Platform::MacosArm64 => "goworker-aarch64-apple-darwin"@,
        Platform::MacosX64 => "goworker-x86_64-apple-darwin"@,
        Platform::LinuxX64 => "goworker-x86_64-unknown-linux-gnu"@,
        Platform::Other => "goworker"@,
    }
}

/// Return the platform+arch specific filename for the Go worker.
///
/// This must match exactly what the release build step produces.
pub fn goworker_name(p: Platform) -> (r: &'static str)
    ensures
        r@ == spec_goworker_name(p),
{
    match p {
        Platform::WindowsX64 => "goworker-x86_64-pc-windows-msvc.exe",
        Platform::MacosArm64 => "goworker-aarch64-apple-darwin",
        Platform::MacosX64 => "goworker-x86_64-apple-darwin",
        Platform::LinuxX64 => "goworker-x86_64-unknown-linux-gnu",
        Platform::Other => "goworker",
    }
}

/// The bare command name used as a last resort when no candidate path exists:
/// spawn then relies on the PATH.
pub open spec fn spec_fallback_worker_name(windows: bool) -> Seq<char> {
    if windows {
        "goworker.exe"@
    } else {
        "goworker"@
    }
}

/// Return the bare, platform-appropriate worker command name.
pub fn fallback_worker_name(windows: bool) -> (r: &'static str)
    ensures
        r@ == spec_fallback_worker_name(windows),
{
    if windows {
        "goworker.exe"
    } else {
        "goworker"
    }
}

} // verus!
