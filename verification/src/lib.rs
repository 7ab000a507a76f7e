//! Byte-exact layout planning for tiled GPU images.
//!
//! Given an image description (dimensionality, pixel format, extent, mip-level
//! count, sample count, usage flags), this library computes the on-device
//! memory layout: the tiling in effect for every mip level, per-level byte
//! offsets and row strides, the per-array-layer stride, the total size and
//! alignment, the sparse mip-tail boundary, the packed tile-mode register tag
//! and the hardware page-table-entry kind. Everything is pure arithmetic over
//! small value types, and every function carries a contract that pins down the
//! exact bytes it computes.
#![allow(non_snake_case)]

pub mod rounding;
pub mod extent;
pub mod format;
pub mod tiling;
pub mod image;
pub mod pte;
pub mod laws;
