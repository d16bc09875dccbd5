//! Verified core of a desktop game-library viewer: decoding catalog rows,
//! resolving cover-art and banner files by slug, and deciding the outcome of
//! replacing an image from a URL.

pub mod assets;
pub mod catalog;
pub mod error;
pub mod fetch;
pub mod listing;
pub mod text;
