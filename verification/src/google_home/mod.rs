//! The data model of Google Home smart-home fulfillment.
pub mod command;
pub mod device;
pub mod errors;
pub mod fulfillment;
pub mod response;
pub mod traits;
pub mod types;

pub use device::Name;
pub use response::Response;
