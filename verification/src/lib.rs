//! Typed request and response model for the Hangar plugin repository's REST interface.

pub mod api;
pub mod decode;
pub mod error;
pub mod json;
pub mod object;
pub mod text;
pub mod timestamp;
