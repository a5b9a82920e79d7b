//! The presence of the house, from the devices that report whether they are
//! home.
pub use crate::devices::presence::{Presence, PresenceConfig, DEFAULT_PRESENCE};
pub use crate::event::OnPresence;
