//! Errors of serialization.
pub use crate::serialize::{SerializeError, SerializeResult};
