//! The immutable description of the supervised backend, and the
//! platform-appropriate candidate paths to its interpreter.

use vstd::prelude::*;

verus! {

/// The platform the application runs on, as far as the layout of the
/// backend's virtual environment goes.
#[derive(Clone, Copy, PartialEq, Eq, Structural, Debug)]
pub enum Platform {
    Windows,
    Posix,
}

/// The platform's path, relative to the base directory, of the
/// virtual-environment interpreter.
pub open spec fn primary_suffix(p: Platform) -> Seq<char> {
    match p {
        Platform::Windows => "\\.venv\\Scripts\\python.exe"@,
        Platform::Posix => "/.venv/bin/python"@,
    }
}

/// The POSIX-style location tried as a fallback on every platform.
pub open spec fn fallback_suffix() -> Seq<char> {
    "/.venv/bin/python"@
}

/// The ordered candidate paths to the backend interpreter under `base_dir`:
/// the platform's virtual-environment interpreter first, then the
/// POSIX-style location as a fallback. The resolver later picks the first
/// candidate that exists.
pub fn candidate_paths(base_dir: &str, platform: Platform) -> (v: Vec<String>)
    ensures
        v@.len() == 2,
        v@[0]@ == base_dir@ + primary_suffix(platform),
        v@[1]@ == base_dir@ + fallback_suffix(),
{
    let mut v: Vec<String> = Vec::new();
    let first = match platform {
        Platform::Windows => String::from_str(base_dir).concat("\\.venv\\Scripts\\python.exe"),
        Platform::Posix => String::from_str(base_dir).concat("/.venv/bin/python"),
    };
    v.push(first);
    v.push(String::from_str(base_dir).concat("/.venv/bin/python"));
    v
}

/// Everything the supervisor needs to know about the backend. Constructed
/// once at startup and immutable thereafter; host and port together define
/// the single readiness signal used throughout.
pub struct BackendConfig {
    /// Host probed for readiness.
    pub host: String,
    /// TCP port probed for readiness.
    pub port: u16,
    /// Working directory handed to the spawned process.
    pub base_dir: String,
    /// Ordered candidate paths to the backend interpreter.
    pub candidates: Vec<String>,
    /// Arguments handed to the spawned interpreter.
    pub args: Vec<String>,
    /// Milliseconds slept between readiness probes.
    pub interval_ms: u64,
    /// Upper bound on readiness probes.
    pub max_attempts: u32,
}

impl BackendConfig {
    /// A usable configuration probes at least once and has at least one
    /// candidate path to try.
    pub open spec fn wf(&self) -> bool {
        &&& 1 <= self.max_attempts
        &&& self.candidates@.len() >= 1
    }

    /// Assembles a configuration.
    pub fn new(
        host: String,
        port: u16,
        base_dir: String,
        candidates: Vec<String>,
        args: Vec<String>,
        interval_ms: u64,
        max_attempts: u32,
    ) -> (c: Self)
        requires
            1 <= max_attempts,
            candidates@.len() >= 1,
        ensures
            c.wf(),
            c.host == host,
            c.port == port,
            c.base_dir == base_dir,
            c.candidates == candidates,
            c.args == args,
            c.interval_ms == interval_ms,
            c.max_attempts == max_attempts,
    {
        BackendConfig { host, port, base_dir, candidates, args, interval_ms, max_attempts }
    }
}

} // verus!
