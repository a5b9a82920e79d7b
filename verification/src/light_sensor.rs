//! The light sensor: it tells when it gets dark or light.
pub use crate::devices::light_sensor::{LightSensor, LightSensorConfig, DEFAULT_DARKNESS};
pub use crate::event::OnDarkness;
