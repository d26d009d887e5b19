//! Leader election for a small cluster of peers: the tunables of a node, the
//! role state machine that timers and messages drive, and the wire messages.
pub mod config;
pub mod messaging;
pub mod state;
pub mod text;
pub mod trace;

pub use config::{Config, ConfigError, ConfigViolation};
