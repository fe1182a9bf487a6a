//! Process-wide settings, fixed once the command line has been read.

use vstd::prelude::*;

verus! {

/// The port used when none is given. Binding it needs elevated rights, on
/// purpose: the stream carries sensitive material.
pub const DEFAULT_LISTEN_ADDRESS: u32 = 21;

/// Seconds to wait for a connection when no timeout is given.
pub const DEFAULT_TIMEOUT: u32 = 3600;

/// The largest body accepted for one secret when no limit is given: 1 MiB.
pub const DEFAULT_MAX_TRANSMISSION_BYTES: u32 = 1048576;

/// Seconds an upload may go without body bytes before it is aborted.
pub const IDLE_TIMEOUT: u32 = 30;

/// Seconds that running handlers are given to finish once the receiver
/// shuts down; after that they are cancelled.
pub const GRACE_PERIOD: u32 = 10;

/// The number of secrets that the sender delivers at the same time.
pub const CONCURRENT_UPLOADS: usize = 4;

/// Timeout, port and size limit of one run.
#[derive(Clone, Copy, Debug, PartialEq, Eq, Structural)]
pub struct GlobalSettings {
    pub timeout_seconds: u32,
    pub socket_port: u32,
    pub max_transmission_bytes: u32,
}

impl GlobalSettings {
    /// The settings of a run that was given no option.
    pub open spec fn initial() -> GlobalSettings {
        GlobalSettings {
            timeout_seconds: DEFAULT_TIMEOUT,
            socket_port: DEFAULT_LISTEN_ADDRESS,
            max_transmission_bytes: DEFAULT_MAX_TRANSMISSION_BYTES,
        }
    }
}

impl Default for GlobalSettings {
    fn default() -> (settings: GlobalSettings)
        ensures
            settings == GlobalSettings::initial(),
    {
        GlobalSettings {
            timeout_seconds: DEFAULT_TIMEOUT,
            socket_port: DEFAULT_LISTEN_ADDRESS,
            max_transmission_bytes: DEFAULT_MAX_TRANSMISSION_BYTES,
        }
    }
}

} // verus!
