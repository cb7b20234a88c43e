//! Orchestration logic of a bootstrap node for a p2panda network: the node's identity and
//! its key file, the configuration of a bootstrap-only session, the status report, the
//! event observer and the shutdown controller.
pub mod hex;
pub mod identity;
pub mod network;
pub mod node;
pub mod observer;
pub mod report;
pub mod shutdown;
