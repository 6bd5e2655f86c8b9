//! The values agreed between the shell and the backend.

use vstd::prelude::*;

verus! {

/// Exit status of a shutdown that the user asked for.
pub const EXIT_NORMAL: i32 = 0;

/// Exit status when the backend never became ready within the attempt budget.
pub const EXIT_BACKEND_UNREACHABLE: i32 = 1;

/// The port on which the backend is expected to listen.
pub const TARGET_PORT: u16 = 8964;

/// Pause between two readiness probes, in milliseconds.
pub const PROBE_INTERVAL_MILLIS: u64 = 500;

/// Number of probes made before the backend is given up.
pub const MAX_PROBE_ATTEMPTS: u32 = 60;

/// Settings of one supervised start, threaded into every component that needs
/// the port so that another port can be injected.
#[derive(Clone, Copy, Debug, PartialEq, Eq, Structural)]
pub struct SupervisorConfig {
    pub port: u16,
    pub interval_millis: u64,
    pub max_attempts: u32,
}

impl SupervisorConfig {
    /// The configuration the shell ships with.
    pub fn standard() -> (config: SupervisorConfig)
        ensures
            config.port == TARGET_PORT,
            config.interval_millis == PROBE_INTERVAL_MILLIS,
            config.max_attempts == MAX_PROBE_ATTEMPTS,
    {
        SupervisorConfig {
            port: TARGET_PORT,
            interval_millis: PROBE_INTERVAL_MILLIS,
            max_attempts: MAX_PROBE_ATTEMPTS,
        }
    }
}

} // verus!
