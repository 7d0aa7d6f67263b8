//! The core of a camera server: a frame captured in packed luma/chroma
//! format is converted to an RGB raster, the raster is encoded as JPEG, and
//! the latest image is kept in a single-slot cache for readers.
//!
//! - [`channel`] and [`binary32`]: the colour arithmetic of one pixel;
//! - [`yuyv`]: the conversion of a whole frame;
//! - [`jpeg`]: the encoding, done by the `image` crate;
//! - [`cache`]: the single slot that holds the latest image;
//! - [`source`]: the order of the device calls and the naming of their
//!   failures;
//! - [`producer`]: what a capture attempt leads to, on demand or in a
//!   continuous loop;
//! - [`reply`]: what a request is answered with;
//! - [`frame`] and [`error`]: the data and the errors that pass between them.
//!
//! The library makes no device call and opens no socket. Its caller does, and
//! hands it what came back.

pub mod binary32;
pub mod cache;
pub mod channel;
pub mod error;
pub mod frame;
pub mod jpeg;
pub mod producer;
pub mod reply;
pub mod source;
pub mod yuyv;
