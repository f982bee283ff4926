//! Resolution cache and request coalescing for a video redirect proxy.
//!
//! A request names a video; the cache answers with a media URL while one is
//! valid, lets exactly one caller resolve the video when none is, and makes
//! the others wait for that caller. Around it stand the readers of the
//! extraction tool's answers and the records of the playlist catalog.

pub mod cache;
pub mod catalog;
pub mod expiry;
pub mod media;
pub mod pattern;
pub mod playlist;
pub mod proxy;
pub mod youtube;

pub use proxy::{proxy_video, Error};
