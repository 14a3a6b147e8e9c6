//! A verified QR-code styling pipeline.
//!
//! Starting from the black/white bitmap that an external QR encoder renders,
//! the library applies pixel-level effects — a transparent background, a
//! centered logo scaled from the detected module size, a radial two-color
//! gradient or a flat per-frame color — and hands the result to an external
//! PNG codec.  Every transformation on pixels is verified; the external
//! encoder, decoder and codec are reached only through narrow trusted
//! wrappers.

pub mod color;
pub mod detect;
pub mod encode;
pub mod errors;
pub mod filters;
pub mod grid;
pub mod logo;
pub mod palette;
pub mod pipeline;
