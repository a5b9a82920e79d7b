//! What the web endpoint answers with.
pub use crate::auth::User;
pub use crate::error::{ApiError, ApiErrorJson};
