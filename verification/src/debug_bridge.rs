//! The debug bridge: it publishes the presence and darkness of the house on
//! its own topics.
pub use crate::devices::debug_bridge::{DebugBridge, DebugBridgeConfig};
