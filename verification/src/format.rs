//! Pixel-format metadata consumed by the layout arithmetic.

use vstd::prelude::*;

verus! {

/// The depth/stencil family a pixel format belongs to, as the hardware
/// page-table-entry tables distinguish them. Color formats are
/// `NotDepthStencil`.
#[derive(Clone, Copy, Debug, PartialEq, Eq, Structural)]
pub enum DepthStencilFormat {
    NotDepthStencil,
    /// 16-bit unorm depth.
    Z16,
    /// 24-bit depth packed with 8-bit stencil, depth in the low bits.
    Z24S8,
    /// 24-bit depth packed with 8-bit stencil, stencil in the low bits.
    S8Z24,
    /// 32-bit float depth.
    Zf32,
    /// 32-bit float depth plus 8-bit stencil in a second 32-bit word.
    Zf32S8,
}

/// The format properties the layout arithmetic reads: the byte size of one
/// element (a texel, or one compression block), the block shape in pixels,
/// and the depth/stencil family used by the PTE-kind tables.
#[derive(Clone, Copy, Debug, PartialEq, Eq, Structural)]
pub struct Format {
    /// Bytes per element. For block-compressed formats an element is one
    /// whole block.
    pub el_size_B: u32,
    /// Pixels per element horizontally (1 for uncompressed formats).
    pub block_width_px: u32,
    /// Pixels per element vertically (1 for uncompressed formats).
    pub block_height_px: u32,
    /// Which depth/stencil family the format belongs to, if any.
    pub depth_stencil: DepthStencilFormat,
}

impl Format {
    /// Hardware formats have power-of-two element sizes of at most 16 bytes
    /// and compression blocks of at most 16x16 pixels; depth/stencil formats
    /// are never block-compressed and their element size is fixed by their
    /// bit layout.
    pub open spec fn wf(self) -> bool {
        &&& (self.el_size_B == 1 || self.el_size_B == 2 || self.el_size_B == 4
            || self.el_size_B == 8 || self.el_size_B == 16)
        &&& 1 <= self.block_width_px <= 16
        &&& 1 <= self.block_height_px <= 16
        &&& match self.depth_stencil {
            DepthStencilFormat::NotDepthStencil => true,
            DepthStencilFormat::Z16 => self.el_size_B == 2 && self.block_width_px == 1
                && self.block_height_px == 1,
            DepthStencilFormat::Z24S8 | DepthStencilFormat::S8Z24 | DepthStencilFormat::Zf32 => {
                self.el_size_B == 4 && self.block_width_px == 1 && self.block_height_px == 1
            },
            DepthStencilFormat::Zf32S8 => self.el_size_B == 8 && self.block_width_px == 1
                && self.block_height_px == 1,
        }
    }
}

} // verus!
