//! Deciding whether a best-effort cache release succeeded.
use vstd::prelude::*;

verus! {

/// What the cache-release actions of one backend reported.
#[derive(Clone, Copy, Debug, PartialEq, Eq)]
pub enum CacheReleaseReport {
    /// Whether the filesystem sync ran, and whether the control value was
    /// written to the kernel's cache-drop file.
    PseudoFile { sync_ok: bool, write_ok: bool },
    /// Whether the purge tool was launched and waited for without a launch
    /// error (its exit code is not read).
    Subprocess { launched: bool },
    /// The return indicator of the native working-set call: nonzero on success.
    NativeCall { status: i32 },
    /// No backend serves this host.
    Unsupported,
}

/// A release succeeds where at least one of its actions did; never on a
/// host that no backend serves.
pub open spec fn release_succeeded(report: CacheReleaseReport) -> bool {
    match report {
        CacheReleaseReport::PseudoFile { sync_ok, write_ok } => sync_ok || write_ok,
        CacheReleaseReport::Subprocess { launched } => launched,
        CacheReleaseReport::NativeCall { status } => status != 0,
        CacheReleaseReport::Unsupported => false,
    }
}

/// Whether the cache release that `report` describes succeeded.
pub fn release_memory_cache(report: CacheReleaseReport) -> (r: bool)
    ensures
        r == release_succeeded(report),
        report is Unsupported ==> !r,
{
    match report {
        CacheReleaseReport::PseudoFile { sync_ok, write_ok } => sync_ok || write_ok,
        CacheReleaseReport::Subprocess { launched } => launched,
        CacheReleaseReport::NativeCall { status } => status != 0,
        CacheReleaseReport::Unsupported => false,
    }
}

} // verus!
