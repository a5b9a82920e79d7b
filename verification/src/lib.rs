//! Home automation logic: MQTT message handling for the devices of a house,
//! the Google Home fulfillment data model, and the small protocols that the
//! devices speak.
pub mod auth;
pub mod config;
pub mod debug_bridge;
pub mod device_manager;
pub mod devices;
pub mod error;
pub mod event;
pub mod google_home;
pub mod helper;
pub mod hue_bridge;
pub mod light_sensor;
pub mod messages;
pub mod mqtt;
pub mod ntfy;
pub mod presence;
pub mod secret;
pub mod state;
pub mod text;
pub mod traits;
pub mod web;
pub mod zigbee;
