//! A supervisor for a single Wi-Fi association on a device whose radio is
//! driven by a separate embedded controller (EC).
//!
//! The crate holds the decision logic of the supervisor: the connection state
//! machine, the SSID candidate selector, the subscriber registry, the poll
//! pump gating and the suspend/resume reconciler. Everything here works on
//! plain values; the surrounding process performs the EC commands, the
//! credential-store reads and the message transport, feeding results back in
//! as arguments.

pub mod key_cache;
pub mod laws;
pub mod machine;
pub mod model;
pub mod registry;
pub mod selector;
pub mod ssid_set;
pub mod types;
