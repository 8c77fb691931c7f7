//! Interactive front-end logic for turning an image sequence into a video.
//!
//! The library holds everything that can be decided without touching the
//! console or a subprocess: resolving each answer the user types (frame
//! rate, output format, transparency, crop region, output name), stepping
//! the interactive session forward, and building the exact argument list
//! for the external encoder.

pub mod encoder;
pub mod options;
pub mod session;
pub mod text;

use vstd::prelude::*;

verus! {

/// Frame rate used when the typed frame rate is empty or not a number.
pub const DEFAULT_FPS: u32 = 24;

} // verus!
