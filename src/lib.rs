//! Validation of WebP image data: container-level metadata read through
//! `image_webp`, and the flat record handed across a foreign-function boundary.

pub mod boundary;
pub mod decoder;

pub use boundary::{validate_webp_buffer, WebpValidationResult};
pub use decoder::{validate_webp, validation_outcome, WebpInfo};
