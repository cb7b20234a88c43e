use vstd::prelude::*;

use crate::identity::IdentityError;
use crate::network::ConfigError;

verus! {

/// Default time a session is given to connect to its relay, in milliseconds.
pub const RELAY_TIMEOUT_MS: u64 = 30000;

/// Why a node stopped other than by an interrupt.
#[derive(Clone, Copy, Debug, PartialEq, Eq, Structural)]
pub enum NodeError {
    /// The stored identity could not be read or used.
    Identity(IdentityError),
    /// The network name or relay URL was rejected.
    Config(ConfigError),
    /// The session could not be built, or did not reach its relay in time.
    Connectivity,
    /// The event channel closed while the node was serving.
    Runtime,
}

impl NodeError {
    /// The process exit code for this error: never zero.
    pub fn exit_code(&self) -> (r: u8)
        ensures
            r != 0,
    {
        match self {
            NodeError::Identity(_) => 2,
            NodeError::Config(_) => 3,
            NodeError::Connectivity => 4,
            NodeError::Runtime => 5,
        }
    }
}

/// The exit code of a process that ended with `outcome`: zero exactly on a clean shutdown.
pub fn exit_code(outcome: &Result<(), NodeError>) -> (r: u8)
    ensures
        (r == 0) == (outcome is Ok),
{
    match outcome {
        Ok(()) => 0,
        Err(e) => e.exit_code(),
    }
}

/// Where the wait for a relay connection stands.
#[derive(Clone, Debug, PartialEq, Eq)]
pub enum RelayReadiness {
    /// The session's home relay is known: the session is ready.
    Ready(String),
    /// No home relay yet; poll again.
    Waiting,
    /// No home relay within the timeout.
    TimedOut,
}

/// Decides, after `elapsed_ms` of waiting, whether a session whose home relay is
/// `home_relay` is ready, may be waited for further, or has timed out.
pub fn relay_readiness(home_relay: Option<String>, elapsed_ms: u64, timeout_ms: u64) -> (r:
    RelayReadiness)
    ensures
        match home_relay {
            Some(u) => r == RelayReadiness::Ready(u),
            None => if elapsed_ms >= timeout_ms {
                r == RelayReadiness::TimedOut
            } else {
                r == RelayReadiness::Waiting
            },
        },
{
    match home_relay {
        Some(u) => RelayReadiness::Ready(u),
        None => if elapsed_ms >= timeout_ms {
            RelayReadiness::TimedOut
        } else {
            RelayReadiness::Waiting
        },
    }
}

} // verus!
