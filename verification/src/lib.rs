//! Methods to serialize to or deserialize from json, for every type that
//! `serde` can serialize or deserialize.

pub mod convert;
pub mod error;
pub mod external;
pub mod laws;

pub use convert::Json;
pub use error::{ErrInto, Error};
