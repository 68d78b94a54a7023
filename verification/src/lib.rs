//! Panel-layout geometry engine.
//!
//! Four rectangular panels are arranged around a screen; their sizes and
//! positions morph continuously as a 2D orientation vector rotates.  All
//! geometry is computed in fixed-point arithmetic (see [`fixed`]), so every
//! operation is exact and fully specified.

pub mod direction;
pub mod fixed;
pub mod movement;
pub mod play_area;
