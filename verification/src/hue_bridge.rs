//! The Hue bridge: it mirrors the presence and darkness of the house into
//! flags of the bridge.
pub use crate::devices::hue_bridge::{Flag, FlagIDs, HueBridge, HueBridgeConfig};
