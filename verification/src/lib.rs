//! Interactive 2D viewport transform engine.
//!
//! The engine turns discrete input events (pointer, wheel, keyboard, resize)
//! into a running affine transform, keeps that transform consistent across
//! resizes, and derives the per-frame uniform snapshot a renderer needs to
//! draw content undistorted regardless of window aspect ratio.
//!
//! All coordinates and transform coefficients are exact rational numbers
//! (`rational::Rat`), so every contract below is stated and proved over
//! exact fraction arithmetic; conversion to machine floating point happens
//! only outside this library, at the rendering boundary.

pub mod affine;
pub mod error;
pub mod rational;
pub mod snapshot;
pub mod state;
pub mod viewport;
