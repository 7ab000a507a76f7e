//! Tile-block geometry: choosing, clamping and measuring the block shape
//! used by tiled image storage.

use vstd::prelude::*;
use vstd::arithmetic::power2::pow2;
use crate::extent::{bytes_h, bytes_w, Extent4D};
use crate::format::Format;
use crate::image::{ImageDim, ImageUsageFlags, SampleLayout, IMAGE_USAGE_LINEAR_BIT};
use crate::rounding::{ceil_log2, ceil_log2_u32, div_ceil, div_ceil_u32, lemma_div_ceil_props};

verus! {

/// A tiling: either the linear (non-tiled) marker, or a tile-block shape
/// measured in GOBs: `2^x_log2` GOBs wide, `2^y_log2` tall, `2^z_log2` deep.
/// A GOB (the elementary tiled block) is 64 bytes wide, 4 or 8 rows tall and
/// one slice deep.
#[derive(Clone, Copy, Debug, PartialEq, Eq, Structural)]
pub struct Tiling {
    pub is_tiled: bool,
    /// Whether a GOB is eight rows tall rather than four.
    pub gob_height_8: bool,
    pub x_log2: u8,
    pub y_log2: u8,
    pub z_log2: u8,
}

/// The linear (non-tiled) marker.
pub open spec fn linear_tiling() -> Tiling {
    Tiling { is_tiled: false, gob_height_8: false, x_log2: 0, y_log2: 0, z_log2: 0 }
}

/// The largest block shape the hardware supports for ordinary tiled images:
/// one GOB wide, 32 GOBs tall, 32 slices deep (before clamping to the image).
pub open spec fn full_tiling() -> Tiling {
    Tiling { is_tiled: true, gob_height_8: true, x_log2: 0, y_log2: 5, z_log2: 5 }
}

impl Tiling {
    /// Hardware limits on the block exponents; the linear marker carries
    /// all-zero geometry.
    pub open spec fn wf(self) -> bool {
        if self.is_tiled {
            self.x_log2 <= 4 && self.y_log2 <= 5 && self.z_log2 <= 5
        } else {
            !self.gob_height_8 && self.x_log2 == 0 && self.y_log2 == 0 && self.z_log2 == 0
        }
    }

    /// Rows per GOB.
    pub open spec fn gob_height(self) -> int {
        if self.gob_height_8 {
            8
        } else {
            4
        }
    }

    /// Byte width of one tile block (1 for linear).
    pub open spec fn extent_w_B(self) -> int {
        if self.is_tiled {
            64 * pow2(self.x_log2 as nat) as int
        } else {
            1
        }
    }

    /// Row height of one tile block (1 for linear).
    pub open spec fn extent_h(self) -> int {
        if self.is_tiled {
            self.gob_height() * pow2(self.y_log2 as nat) as int
        } else {
            1
        }
    }

    /// Slice depth of one tile block (1 for linear).
    pub open spec fn extent_d(self) -> int {
        if self.is_tiled {
            pow2(self.z_log2 as nat) as int
        } else {
            1
        }
    }

    /// Flat byte size of one tile block.
    pub open spec fn size_B_spec(self) -> int {
        self.extent_w_B() * self.extent_h() * self.extent_d()
    }

    pub proof fn lemma_bounds(self)
        requires
            self.wf(),
        ensures
            1 <= self.extent_w_B() <= 1024,
            1 <= self.extent_h() <= 256,
            1 <= self.extent_d() <= 32,
            self.extent_w_B() * self.extent_h() <= 0x40000,
            1 <= self.size_B_spec() <= 0x800000,
    {
        lemma_pow2_small_values();
        if self.is_tiled {
            lemma_pow2_le(self.x_log2 as nat, 4);
            lemma_pow2_le(self.y_log2 as nat, 5);
            lemma_pow2_le(self.z_log2 as nat, 5);
        }
        assert(self.extent_w_B() * self.extent_h() <= 0x40000) by (nonlinear_arith)
            requires
                1 <= self.extent_w_B() <= 1024,
                1 <= self.extent_h() <= 256,
        ;
        assert(1 <= self.size_B_spec() <= 0x800000) by (nonlinear_arith)
            requires
                1 <= self.extent_w_B() <= 1024,
                1 <= self.extent_h() <= 256,
                1 <= self.extent_d() <= 32,
        ;
    }

    /// The byte extent of one tile block along each axis.
    pub fn extent_B(&self) -> (r: Extent4D)
        requires
            self.wf(),
        ensures
            r.width == self.extent_w_B(),
            r.height == self.extent_h(),
            r.depth == self.extent_d(),
            r.array_len == 1,
    {
        proof {
            self.lemma_bounds();
        }
        if self.is_tiled {
            let gh: u32 = if self.gob_height_8 {
                8
            } else {
                4
            };
            Extent4D {
                width: 64 * pow2_u32(self.x_log2),
                height: gh * pow2_u32(self.y_log2),
                depth: pow2_u32(self.z_log2),
                array_len: 1,
            }
        } else {
            Extent4D { width: 1, height: 1, depth: 1, array_len: 1 }
        }
    }

    /// Flat byte size of one tile block.
    pub fn size_B(&self) -> (r: u32)
        requires
            self.wf(),
        ensures
            r == self.size_B_spec(),
    {
        proof {
            self.lemma_bounds();
        }
        let e = self.extent_B();
        e.width * e.height * e.depth
    }

    /// The tiling `clamp` produces: linear stays linear; a tiled block keeps
    /// its GOB width only if the extent covers a whole block along every
    /// axis, and its height/depth exponents are lowered until the block no
    /// longer overshoots the extent's GOB rows and slices.
    pub open spec fn clamp_spec(self, w_B: int, h_B: int, d: int) -> Tiling {
        if !self.is_tiled {
            self
        } else {
            let x = if w_B < self.extent_w_B() || h_B < self.extent_h() || d < self.extent_d() {
                0
            } else {
                self.x_log2 as int
            };
            let cy = ceil_log2(div_ceil(h_B, self.gob_height()));
            let y = if self.y_log2 as int <= cy {
                self.y_log2 as int
            } else {
                cy
            };
            let cz = ceil_log2(d);
            let z = if self.z_log2 as int <= cz {
                self.z_log2 as int
            } else {
                cz
            };
            Tiling {
                is_tiled: true,
                gob_height_8: self.gob_height_8,
                x_log2: x as u8,
                y_log2: y as u8,
                z_log2: z as u8,
            }
        }
    }

    /// Restricts this tiling to fit a (byte) extent: smaller mip levels may
    /// legitimately use a smaller block shape.
    pub fn clamp(&self, extent_B: Extent4D) -> (r: Tiling)
        requires
            self.wf(),
            1 <= extent_B.height,
            1 <= extent_B.depth,
        ensures
            r == self.clamp_spec(extent_B.width as int, extent_B.height as int, extent_B.depth as int),
            r.wf(),
    {
        if !self.is_tiled {
            return *self;
        }
        let te = self.extent_B();
        let x_log2: u8 = if extent_B.width < te.width || extent_B.height < te.height
            || extent_B.depth < te.depth {
            0
        } else {
            self.x_log2
        };
        let gh: u32 = if self.gob_height_8 {
            8
        } else {
            4
        };
        proof {
            lemma_div_ceil_props(extent_B.height as int, gh as int);
        }
        let h_gobs = div_ceil_u32(extent_B.height, gh);
        let cy = ceil_log2_u32(h_gobs);
        let y_log2: u8 = if (self.y_log2 as u32) <= cy {
            self.y_log2
        } else {
            cy as u8
        };
        let cz = ceil_log2_u32(extent_B.depth);
        let z_log2: u8 = if (self.z_log2 as u32) <= cz {
            self.z_log2
        } else {
            cz as u8
        };
        Tiling { is_tiled: true, gob_height_8: self.gob_height_8, x_log2, y_log2, z_log2 }
    }
}

/// The tiling `choose` picks: the linear marker when linear usage is
/// requested, otherwise the full tiling clamped to the image's byte extent.
pub open spec fn choose_tiling_spec(
    extent_px: Extent4D,
    format: Format,
    sample_layout: SampleLayout,
    usage: ImageUsageFlags,
) -> Tiling {
    if usage & IMAGE_USAGE_LINEAR_BIT != 0 {
        linear_tiling()
    } else {
        full_tiling().clamp_spec(
            bytes_w(extent_px, format, sample_layout),
            bytes_h(extent_px, format, sample_layout),
            extent_px.depth as int,
        )
    }
}

/// Chooses the best tiling for a full image: linear when the usage asks for
/// it, else the largest supported block clamped to the image's own extent.
pub fn choose_tiling(
    extent_px: Extent4D,
    format: Format,
    sample_layout: SampleLayout,
    usage: ImageUsageFlags,
) -> (r: Tiling)
    requires
        format.wf(),
        sample_layout != SampleLayout::Invalid,
        1 <= extent_px.height,
        1 <= extent_px.depth,
        crate::extent::sa_w(extent_px, sample_layout) <= u32::MAX,
        crate::extent::sa_h(extent_px, sample_layout) <= u32::MAX,
        bytes_w(extent_px, format, sample_layout) <= u32::MAX,
    ensures
        r == choose_tiling_spec(extent_px, format, sample_layout, usage),
        r.wf(),
{
    if usage & IMAGE_USAGE_LINEAR_BIT != 0 {
        Tiling { is_tiled: false, gob_height_8: false, x_log2: 0, y_log2: 0, z_log2: 0 }
    } else {
        let base = Tiling { is_tiled: true, gob_height_8: true, x_log2: 0, y_log2: 5, z_log2: 5 };
        proof {
            assert(1 <= extent_px.height * sample_layout.grid_h()) by (nonlinear_arith)
                requires
                    1 <= extent_px.height,
                    1 <= sample_layout.grid_h(),
            ;
            lemma_div_ceil_props(
                crate::extent::sa_h(extent_px, sample_layout),
                format.block_height_px as int,
            );
        }
        let ext_B = extent_px.to_B(format, sample_layout);
        base.clamp(ext_B)
    }
}

/// The generation's fixed sparse-residency tiling: the 64-KiB standard
/// sparse block for the element size, expressed as a tile shape. Only 2-D
/// and 3-D images support sparse residency.
pub open spec fn sparse_spec(format: Format, dim: ImageDim) -> Tiling {
    match dim {
        ImageDim::_1D => linear_tiling(),
        ImageDim::_2D => {
            if format.el_size_B == 1 {
                Tiling { is_tiled: true, gob_height_8: true, x_log2: 2, y_log2: 5, z_log2: 0 }
            } else if format.el_size_B == 2 {
                Tiling { is_tiled: true, gob_height_8: true, x_log2: 3, y_log2: 4, z_log2: 0 }
            } else if format.el_size_B == 4 {
                Tiling { is_tiled: true, gob_height_8: true, x_log2: 3, y_log2: 4, z_log2: 0 }
            } else if format.el_size_B == 8 {
                Tiling { is_tiled: true, gob_height_8: true, x_log2: 4, y_log2: 3, z_log2: 0 }
            } else {
                Tiling { is_tiled: true, gob_height_8: true, x_log2: 4, y_log2: 3, z_log2: 0 }
            }
        },
        ImageDim::_3D => {
            if format.el_size_B == 1 {
                Tiling { is_tiled: true, gob_height_8: true, x_log2: 0, y_log2: 2, z_log2: 5 }
            } else if format.el_size_B == 2 {
                Tiling { is_tiled: true, gob_height_8: true, x_log2: 0, y_log2: 2, z_log2: 5 }
            } else if format.el_size_B == 4 {
                Tiling { is_tiled: true, gob_height_8: true, x_log2: 1, y_log2: 2, z_log2: 4 }
            } else if format.el_size_B == 8 {
                Tiling { is_tiled: true, gob_height_8: true, x_log2: 2, y_log2: 1, z_log2: 4 }
            } else {
                Tiling { is_tiled: true, gob_height_8: true, x_log2: 2, y_log2: 1, z_log2: 4 }
            }
        },
    }
}

/// The fixed sparse-residency tiling for a format and dimensionality.
pub fn sparse(format: Format, dim: ImageDim) -> (r: Tiling)
    requires
        format.wf(),
        dim != ImageDim::_1D,
    ensures
        r == sparse_spec(format, dim),
        r.wf(),
        r.is_tiled,
{
    match dim {
        ImageDim::_1D => Tiling { is_tiled: true, gob_height_8: true, x_log2: 0, y_log2: 0, z_log2: 0 },
        ImageDim::_2D => {
            if format.el_size_B == 1 {
                Tiling { is_tiled: true, gob_height_8: true, x_log2: 2, y_log2: 5, z_log2: 0 }
            } else if format.el_size_B == 2 {
                Tiling { is_tiled: true, gob_height_8: true, x_log2: 3, y_log2: 4, z_log2: 0 }
            } else if format.el_size_B == 4 {
                Tiling { is_tiled: true, gob_height_8: true, x_log2: 3, y_log2: 4, z_log2: 0 }
            } else if format.el_size_B == 8 {
                Tiling { is_tiled: true, gob_height_8: true, x_log2: 4, y_log2: 3, z_log2: 0 }
            } else {
                Tiling { is_tiled: true, gob_height_8: true, x_log2: 4, y_log2: 3, z_log2: 0 }
            }
        },
        ImageDim::_3D => {
            if format.el_size_B == 1 {
                Tiling { is_tiled: true, gob_height_8: true, x_log2: 0, y_log2: 2, z_log2: 5 }
            } else if format.el_size_B == 2 {
                Tiling { is_tiled: true, gob_height_8: true, x_log2: 0, y_log2: 2, z_log2: 5 }
            } else if format.el_size_B == 4 {
                Tiling { is_tiled: true, gob_height_8: true, x_log2: 1, y_log2: 2, z_log2: 4 }
            } else if format.el_size_B == 8 {
                Tiling { is_tiled: true, gob_height_8: true, x_log2: 2, y_log2: 1, z_log2: 4 }
            } else {
                Tiling { is_tiled: true, gob_height_8: true, x_log2: 2, y_log2: 1, z_log2: 4 }
            }
        },
    }
}

/// `pow2` for the small exponents tile shapes use.
pub(crate) fn pow2_u32(e: u8) -> (r: u32)
    requires
        e <= 5,
    ensures
        r == pow2(e as nat),
        r <= 32,
{
    proof {
        vstd::arithmetic::power2::lemma2_to64();
    }
    match e {
        0 => 1,
        1 => 2,
        2 => 4,
        3 => 8,
        4 => 16,
        _ => 32,
    }
}

/// `pow2(e) <= pow2(cap)` for exponents below a cap.
proof fn lemma_pow2_le(e: nat, cap: nat)
    requires
        e <= cap,
        cap <= 5,
    ensures
        1 <= pow2(e) <= pow2(cap),
{
    vstd::arithmetic::power2::lemma_pow2_pos(e);
    if e < cap {
        vstd::arithmetic::power2::lemma_pow2_strictly_increases(e, cap);
    }
}

/// Concrete values of the small powers of two the tile bounds use.
proof fn lemma_pow2_small_values()
    ensures
        pow2(0) == 1 && pow2(1) == 2 && pow2(2) == 4 && pow2(3) == 8 && pow2(4) == 16 && pow2(5)
            == 32,
{
    vstd::arithmetic::power2::lemma2_to64();
}

} // verus!
