//! Conversion between a folder of PNG images, one per canonical icon size,
//! and an ICO icon container.
//!
//! The library works on file contents: the caller reads the candidate PNG
//! files and writes the container (or the other way round), and everything
//! in between is decided here.

pub mod sizes;
pub mod decimal;
pub mod codec;
pub mod naming;
pub mod naming_laws;
pub mod encoder;
pub mod encoder_laws;
pub mod decoder;
pub mod decoder_laws;
pub mod plan;
