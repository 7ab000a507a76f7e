//! Image layout planning: mip-level walk, per-level offsets and strides,
//! array stride, total size, alignment, sparse mip tail, tile mode and
//! PTE kind.

use vstd::prelude::*;
use vstd::arithmetic::power2::pow2;
use crate::extent::{minify_axis, Extent4D};
use crate::format::Format;
use crate::pte::{choose_pte_kind_spec, DeviceInfo, valid_sample_count, CLS_FERMI_A};
use crate::rounding::{div_ceil, round_up, lemma_div_ceil_props, lemma_round_up_props};
use crate::tiling::{choose_tiling_spec, linear_tiling, sparse_spec, Tiling};

verus! {

broadcast use vstd::array::group_array_axioms;

/// Usage flags a construction request may carry.
pub type ImageUsageFlags = u8;

/// The image will be accessed through 2-D views of individual layers/slices.
pub const IMAGE_USAGE_2D_VIEW_BIT: ImageUsageFlags = 1;

/// The image must be stored linearly (row-major, untiled).
pub const IMAGE_USAGE_LINEAR_BIT: ImageUsageFlags = 2;

/// The image's backing memory may be bound page by page (sparse residency).
pub const IMAGE_USAGE_SPARSE_RESIDENCY_BIT: ImageUsageFlags = 4;

/// Image dimensionality.
#[derive(Clone, Copy, Debug, PartialEq, Eq, Structural)]
pub enum ImageDim {
    _1D,
    _2D,
    _3D,
}

/// The fixed 2-D supersample grid a sample count maps onto: how many
/// pixel-positions-worth of storage one logical pixel occupies.
#[derive(Clone, Copy, Debug, PartialEq, Eq, Structural)]
pub enum SampleLayout {
    _1x1,
    _2x1,
    _2x2,
    _4x2,
    _4x4,
    Invalid,
}

impl SampleLayout {
    /// Width of the supersample grid (0 for the invalid sentinel).
    pub open spec fn grid_w(self) -> int {
        match self {
            SampleLayout::_1x1 => 1,
            SampleLayout::_2x1 => 2,
            SampleLayout::_2x2 => 2,
            SampleLayout::_4x2 => 4,
            SampleLayout::_4x4 => 4,
            SampleLayout::Invalid => 0,
        }
    }

    /// Height of the supersample grid (0 for the invalid sentinel).
    pub open spec fn grid_h(self) -> int {
        match self {
            SampleLayout::_1x1 => 1,
            SampleLayout::_2x1 => 1,
            SampleLayout::_2x2 => 2,
            SampleLayout::_4x2 => 2,
            SampleLayout::_4x4 => 4,
            SampleLayout::Invalid => 0,
        }
    }

    /// The layout a requested sample count resolves to; counts other than
    /// 1, 2, 4, 8 and 16 yield the invalid sentinel.
    pub open spec fn choose_sample_layout_spec(samples: u32) -> SampleLayout {
        match samples {
            1u32 => SampleLayout::_1x1,
            2u32 => SampleLayout::_2x1,
            4u32 => SampleLayout::_2x2,
            8u32 => SampleLayout::_4x2,
            16u32 => SampleLayout::_4x4,
            _ => SampleLayout::Invalid,
        }
    }

    /// Maps a requested sample count to its supersample grid shape: total
    /// over all inputs, with every unsupported count mapped to `Invalid`.
    pub fn choose_sample_layout(samples: u32) -> (r: SampleLayout)
        ensures
            r == Self::choose_sample_layout_spec(samples),
    {
        match samples {
            1 => SampleLayout::_1x1,
            2 => SampleLayout::_2x1,
            4 => SampleLayout::_2x2,
            8 => SampleLayout::_4x2,
            16 => SampleLayout::_4x4,
            _ => SampleLayout::Invalid,
        }
    }

    /// The grid extent one pixel expands to under this layout. Querying the
    /// invalid sentinel is a contract violation, excluded by `requires`.
    pub fn px_extent_sa(&self) -> (r: Extent4D)
        requires
            *self != SampleLayout::Invalid,
        ensures
            r.width == self.grid_w(),
            r.height == self.grid_h(),
            r.depth == 1,
            r.array_len == 1,
    {
        match self {
            SampleLayout::_1x1 => Extent4D::new(1, 1, 1, 1),
            SampleLayout::_2x1 => Extent4D::new(2, 1, 1, 1),
            SampleLayout::_2x2 => Extent4D::new(2, 2, 1, 1),
            SampleLayout::_4x2 => Extent4D::new(4, 2, 1, 1),
            SampleLayout::_4x4 => Extent4D::new(4, 4, 1, 1),
            SampleLayout::Invalid => Extent4D::new(0, 0, 0, 0),
        }
    }
}

/// The hardware caps images at 16 mip levels.
pub const MAX_LEVELS: usize = 16;

/// A construction request: what the caller wants laid out.
#[derive(Clone, Copy, Debug, PartialEq, Eq, Structural)]
pub struct ImageInitInfo {
    pub dim: ImageDim,
    pub format: Format,
    pub extent_px: Extent4D,
    pub levels: u32,
    pub samples: u32,
    pub usage: ImageUsageFlags,
}

/// The data layout of a single mip level within one array layer.
#[derive(Clone, Copy, Debug, PartialEq, Eq, Structural)]
pub struct ImageLevel {
    pub offset_B: u64,
    pub tiling: Tiling,
    pub row_stride_B: u32,
}

/// The value an unused slot of the level table carries.
pub open spec fn empty_level() -> ImageLevel {
    ImageLevel { offset_B: 0, tiling: linear_tiling(), row_stride_B: 0 }
}

/// A computed image layout: an immutable value once built.
#[derive(Clone, Copy, Debug)]
pub struct Image {
    pub dim: ImageDim,
    pub format: Format,
    pub extent_px: Extent4D,
    pub sample_layout: SampleLayout,
    pub num_levels: u32,
    /// First mip level folded into the sparse mip tail; 0 (unset) when the
    /// image is not sparse.
    pub mip_tail_first_lod: u32,
    pub levels: [ImageLevel; MAX_LEVELS],
    pub array_stride_B: u64,
    pub align_B: u32,
    pub size_B: u64,
    /// Packed tile-mode register tag: level 0's Y block exponent in bits
    /// 4..8 and its Z block exponent in bits 8..12.
    pub tile_mode: u16,
    pub pte_kind: u8,
}

/// Width in pixels of mip level `l`.
pub open spec fn level_px_w(e: Extent4D, l: int) -> int {
    minify_axis(e.width as int, l as nat)
}

/// Height in pixels of mip level `l`.
pub open spec fn level_px_h(e: Extent4D, l: int) -> int {
    minify_axis(e.height as int, l as nat)
}

/// Depth in pixels of mip level `l`.
pub open spec fn level_px_d(e: Extent4D, l: int) -> int {
    minify_axis(e.depth as int, l as nat)
}

/// Byte width of mip level `l`: pixels to samples to elements to bytes.
pub open spec fn level_B_w(e: Extent4D, f: Format, sl: SampleLayout, l: int) -> int {
    div_ceil(level_px_w(e, l) * sl.grid_w(), f.block_width_px as int) * f.el_size_B
}

/// Row count of mip level `l` in elements.
pub open spec fn level_B_h(e: Extent4D, f: Format, sl: SampleLayout, l: int) -> int {
    div_ceil(level_px_h(e, l) * sl.grid_h(), f.block_height_px as int)
}

/// Slice count of mip level `l`.
pub open spec fn level_B_d(e: Extent4D, l: int) -> int {
    level_px_d(e, l)
}

/// The tiling stored for mip level `l`: the base tiling clamped to the
/// level's byte extent (the base itself when linear).
pub open spec fn level_tiling_spec(base: Tiling, e: Extent4D, f: Format, sl: SampleLayout, l: int) -> Tiling {
    if base.is_tiled {
        base.clamp_spec(level_B_w(e, f, sl, l), level_B_h(e, f, sl, l), level_B_d(e, l))
    } else {
        base
    }
}

/// The row stride stored for mip level `l`: the byte width rounded up to the
/// level's tile width, or to 128 bytes for linear images (rendering requires
/// 128-byte row alignment).
pub open spec fn level_row_stride_spec(base: Tiling, e: Extent4D, f: Format, sl: SampleLayout, l: int) -> int {
    if base.is_tiled {
        round_up(level_B_w(e, f, sl, l), level_tiling_spec(base, e, f, sl, l).extent_w_B())
    } else {
        round_up(level_B_w(e, f, sl, l), 128)
    }
}

/// The byte size of mip level `l` under a given level tiling: the byte
/// extent rounded up to whole tile blocks and flattened, or row stride times
/// rows for linear levels.
pub open spec fn level_size_with_tiling(e: Extent4D, f: Format, sl: SampleLayout, l: int, lt: Tiling) -> int {
    if lt.is_tiled {
        round_up(level_B_w(e, f, sl, l), lt.extent_w_B())
            * round_up(level_B_h(e, f, sl, l), lt.extent_h())
            * round_up(level_B_d(e, l), lt.extent_d())
    } else {
        round_up(level_B_w(e, f, sl, l), 128) * level_B_h(e, f, sl, l)
    }
}

/// The byte size of mip level `l` as the planner lays it out.
pub open spec fn level_size_spec(base: Tiling, e: Extent4D, f: Format, sl: SampleLayout, l: int) -> int {
    level_size_with_tiling(e, f, sl, l, level_tiling_spec(base, e, f, sl, l))
}

/// Byte offset of mip level `l` within one array layer: the sizes of all
/// previous levels, packed with no gaps.
pub open spec fn level_offset_spec(base: Tiling, e: Extent4D, f: Format, sl: SampleLayout, l: int) -> int
    decreases l,
{
    if l <= 0 {
        0
    } else {
        level_offset_spec(base, e, f, sl, l - 1) + level_size_spec(base, e, f, sl, l - 1)
    }
}

/// The first level among `0..k` whose clamped tiling differs from the base
/// tiling, else `n`.
pub open spec fn mip_tail_upto(base: Tiling, e: Extent4D, f: Format, sl: SampleLayout, n: int, k: int) -> int
    decreases k,
{
    if k <= 0 {
        n
    } else {
        let p = mip_tail_upto(base, e, f, sl, n, k - 1);
        if p < n {
            p
        } else if level_tiling_spec(base, e, f, sl, k - 1) != base {
            k - 1
        } else {
            n
        }
    }
}

impl ImageInitInfo {
    /// What a well-formed construction request looks like: hardware extent
    /// and level-count limits, a supported sample count, and the
    /// dimensionality, multisampling and linear-usage constraints whose
    /// violation is a fatal contract error.
    pub open spec fn wf(self) -> bool {
        &&& self.format.wf()
        &&& valid_sample_count(self.samples)
        &&& 1 <= self.levels <= 16
        &&& 1 <= self.extent_px.width <= 0x8000
        &&& 1 <= self.extent_px.height <= 0x8000
        &&& 1 <= self.extent_px.depth <= 0x4000
        &&& 1 <= self.extent_px.array_len <= 0x800
        &&& (self.dim == ImageDim::_1D ==> self.extent_px.height == 1 && self.extent_px.depth == 1
            && self.samples == 1)
        &&& (self.dim == ImageDim::_2D ==> self.extent_px.depth == 1)
        &&& (self.dim == ImageDim::_3D ==> self.extent_px.array_len == 1 && self.samples == 1)
        &&& (self.samples != 1 ==> self.levels == 1)
        &&& (self.usage & IMAGE_USAGE_LINEAR_BIT != 0 ==> self.dim == ImageDim::_2D && self.levels
            == 1 && self.samples == 1)
        &&& (self.usage & IMAGE_USAGE_SPARSE_RESIDENCY_BIT != 0 ==> self.dim != ImageDim::_1D)
    }

    /// The tiling the planner starts from: the generation's sparse tiling
    /// when sparse residency is requested, else the best tiling for the full
    /// extent.
    pub open spec fn base_tiling_spec(self) -> Tiling {
        if self.usage & IMAGE_USAGE_SPARSE_RESIDENCY_BIT != 0 {
            sparse_spec(self.format, self.dim)
        } else {
            choose_tiling_spec(
                self.extent_px,
                self.format,
                SampleLayout::choose_sample_layout_spec(self.samples),
                self.usage,
            )
        }
    }

    /// Where the sparse mip tail starts: the first level whose clamped
    /// tiling diverges from the base tiling, the level count when none does,
    /// and the unset sentinel 0 for non-sparse images.
    pub open spec fn mip_tail_spec(self) -> int {
        if self.usage & IMAGE_USAGE_SPARSE_RESIDENCY_BIT != 0 {
            mip_tail_upto(
                self.base_tiling_spec(),
                self.extent_px,
                self.format,
                SampleLayout::choose_sample_layout_spec(self.samples),
                self.levels as int,
                self.levels as int,
            )
        } else {
            0
        }
    }
}

/// The larger of two integers.
pub open spec fn max2(a: int, b: int) -> int {
    if a >= b {
        a
    } else {
        b
    }
}

/// The alignment the planner settles on: level 0's tile size, raised to 64
/// KiB for sparse binding, to 4 KiB for any tiled image (64 KiB when the PTE
/// kind falls in the reserved range 0xb..=0xe), and to 128 bytes for linear
/// images.
pub open spec fn align_spec(usage: ImageUsageFlags, t0: Tiling, pte: u8) -> int {
    let a0 = t0.size_B_spec();
    let a1 = if usage & IMAGE_USAGE_SPARSE_RESIDENCY_BIT != 0 {
        max2(a0, 0x10000)
    } else {
        a0
    };
    if t0.is_tiled {
        let a2 = max2(a1, 4096);
        if 0xb <= pte <= 0xe {
            max2(a2, 0x10000)
        } else {
            a2
        }
    } else {
        max2(a1, 128)
    }
}

impl Image {
    /// The bounds and shape facts every image this library hands out
    /// satisfies, and that its queries rely on.
    pub open spec fn wf(self) -> bool {
        &&& 1 <= self.num_levels <= 16
        &&& self.format.wf()
        &&& self.sample_layout != SampleLayout::Invalid
        &&& (self.num_levels > 1 ==> self.sample_layout == SampleLayout::_1x1)
        &&& 1 <= self.extent_px.width <= 0x20000
        &&& 1 <= self.extent_px.height <= 0x20000
        &&& 1 <= self.extent_px.depth <= 0x4000
        &&& 1 <= self.extent_px.array_len <= 0x4000
        &&& (self.dim == ImageDim::_1D ==> self.extent_px.height == 1 && self.extent_px.depth == 1)
        &&& (self.dim == ImageDim::_2D ==> self.extent_px.depth == 1)
        &&& (self.dim == ImageDim::_3D ==> self.extent_px.array_len == 1)
        &&& (forall|l: int| 0 <= l < self.num_levels ==> (#[trigger] self.levels[l]).tiling.wf())
        &&& (forall|l: int|
            0 <= l < self.num_levels ==> (#[trigger] self.levels[l]).offset_B
                <= 0x1000_0000_0000_0000)
        &&& (forall|l: int|
            0 <= l < self.num_levels ==> (!(#[trigger] self.levels[l]).tiling.is_tiled ==> self.dim
                == ImageDim::_2D && self.num_levels == 1 && self.sample_layout
                == SampleLayout::_1x1))
        &&& self.array_stride_B <= 0x1000_0000_0000_0000
        &&& self.array_stride_B * self.extent_px.array_len <= 0x2000_0000_0000_0000
        &&& self.size_B <= 0x4000_0000_0000_0000
    }

    /// What `new` computes, clause by clause: every field of the image as a
    /// function of the construction request and the device.
    pub open spec fn constructed_from(self, dev: DeviceInfo, info: ImageInitInfo) -> bool {
        let base = info.base_tiling_spec();
        let sl = SampleLayout::choose_sample_layout_spec(info.samples);
        let e = info.extent_px;
        let f = info.format;
        let n = info.levels as int;
        let t0 = level_tiling_spec(base, e, f, sl, 0);
        let stride = round_up(level_offset_spec(base, e, f, sl, n), t0.size_B_spec());
        let pte: u8 = if t0.is_tiled {
            choose_pte_kind_spec(dev, f, info.samples, false)
        } else {
            0
        };
        &&& self.dim == info.dim
        &&& self.format == f
        &&& self.extent_px == e
        &&& self.sample_layout == sl
        &&& self.num_levels == info.levels
        &&& (forall|l: int|
            0 <= l < n ==> (#[trigger] self.levels[l]).offset_B == level_offset_spec(
                base, e, f, sl, l))
        &&& (forall|l: int|
            0 <= l < n ==> (#[trigger] self.levels[l]).tiling == level_tiling_spec(
                base, e, f, sl, l))
        &&& (forall|l: int|
            0 <= l < n ==> (#[trigger] self.levels[l]).row_stride_B == level_row_stride_spec(
                base, e, f, sl, l))
        &&& (forall|l: int| n <= l < 16 ==> #[trigger] self.levels[l] == empty_level())
        &&& self.mip_tail_first_lod == info.mip_tail_spec()
        &&& self.array_stride_B == stride
        &&& self.align_B == align_spec(info.usage, t0, pte)
        &&& self.size_B == round_up(
            stride * info.extent_px.array_len,
            align_spec(info.usage, t0, pte),
        )
        &&& self.tile_mode == (if t0.is_tiled {
            t0.y_log2 * 16 + t0.z_log2 * 256
        } else {
            0
        })
        &&& self.pte_kind == pte
    }
}

/// Per-level arithmetic bounds: every quantity the planner computes for one
/// mip level is positive and fits comfortably below the machine limits.
pub proof fn lemma_level_arith(e: Extent4D, f: Format, sl: SampleLayout, base: Tiling, l: int)
    requires
        f.wf(),
        sl != SampleLayout::Invalid,
        base.wf(),
        1 <= e.width <= 0x20000,
        1 <= e.height <= 0x20000,
        1 <= e.depth <= 0x4000,
        0 <= l < 16,
    ensures
        1 <= level_px_w(e, l) <= e.width,
        1 <= level_px_h(e, l) <= e.height,
        1 <= level_px_d(e, l) <= e.depth,
        1 <= level_px_w(e, l) * sl.grid_w() <= 4 * e.width,
        1 <= level_px_h(e, l) * sl.grid_h() <= 4 * e.height,
        1 <= level_B_w(e, f, sl, l) <= 64 * e.width,
        1 <= level_B_h(e, f, sl, l) <= 4 * e.height,
        1 <= level_B_d(e, l) <= e.depth,
        level_tiling_spec(base, e, f, sl, l).wf(),
        level_tiling_spec(base, e, f, sl, l).is_tiled == base.is_tiled,
        1 <= level_row_stride_spec(base, e, f, sl, l) <= 64 * e.width + 1024,
        1 <= level_size_spec(base, e, f, sl, l) <= 0x800_0000_0000_0000,
        e.width <= 0x8000 && e.height <= 0x8000 ==> level_size_spec(base, e, f, sl, l)
            <= 0x80_0000_0000_0000,
        e.width <= 0x8000 && e.height <= 0x8000 && e.depth == 1 ==> level_size_spec(
            base, e, f, sl, l) <= 0x2000_0000_0000,
{
    vstd::arithmetic::power2::lemma_pow2_pos(l as nat);
    let p = pow2(l as nat) as int;
    vstd::arithmetic::div_mod::lemma_div_nonincreasing(e.width as int, p);
    vstd::arithmetic::div_mod::lemma_div_pos_is_pos(e.width as int, p);
    vstd::arithmetic::div_mod::lemma_div_nonincreasing(e.height as int, p);
    vstd::arithmetic::div_mod::lemma_div_pos_is_pos(e.height as int, p);
    vstd::arithmetic::div_mod::lemma_div_nonincreasing(e.depth as int, p);
    vstd::arithmetic::div_mod::lemma_div_pos_is_pos(e.depth as int, p);
    let pw = level_px_w(e, l);
    let ph = level_px_h(e, l);
    assert(1 <= pw * sl.grid_w() <= 4 * e.width) by (nonlinear_arith)
        requires
            1 <= pw <= e.width,
            1 <= sl.grid_w() <= 4,
    ;
    assert(1 <= ph * sl.grid_h() <= 4 * e.height) by (nonlinear_arith)
        requires
            1 <= ph <= e.height,
            1 <= sl.grid_h() <= 4,
    ;
    lemma_div_ceil_props(pw * sl.grid_w(), f.block_width_px as int);
    lemma_div_ceil_props(ph * sl.grid_h(), f.block_height_px as int);
    let ew = div_ceil(pw * sl.grid_w(), f.block_width_px as int);
    assert(1 <= ew * f.el_size_B <= 64 * e.width) by (nonlinear_arith)
        requires
            1 <= ew <= 4 * e.width,
            1 <= f.el_size_B <= 16,
            1 <= e.width,
    ;
    let bw = level_B_w(e, f, sl, l);
    let bh = level_B_h(e, f, sl, l);
    let bd = level_B_d(e, l);
    let lt = level_tiling_spec(base, e, f, sl, l);
    if base.is_tiled {
        crate::rounding::lemma_ceil_log2_nonneg(div_ceil(bh, base.gob_height()));
        crate::rounding::lemma_ceil_log2_nonneg(bd);
    }
    assert(lt.wf());
    lt.lemma_bounds();
    lemma_round_up_props(bw, lt.extent_w_B());
    lemma_round_up_props(bh, lt.extent_h());
    lemma_round_up_props(bd, lt.extent_d());
    lemma_round_up_props(bw, 128);
    let aw = round_up(bw, lt.extent_w_B());
    let ah = round_up(bh, lt.extent_h());
    let ad = round_up(bd, lt.extent_d());
    if lt.is_tiled {
        assert(1 <= aw * ah * ad <= 0x800_0000_0000_0000) by (nonlinear_arith)
            requires
                1 <= aw <= 64 * 0x20000 + 1024,
                1 <= ah <= 4 * 0x20000 + 256,
                1 <= ad <= 0x4000 + 32,
        ;
        if e.width <= 0x8000 && e.height <= 0x8000 {
            assert(aw * ah * ad <= 0x80_0000_0000_0000) by (nonlinear_arith)
                requires
                    1 <= aw <= 64 * 0x8000 + 1024,
                    1 <= ah <= 4 * 0x8000 + 256,
                    1 <= ad <= 0x4000 + 32,
            ;
            if e.depth == 1 {
                assert(aw * ah * ad <= 0x2000_0000_0000) by (nonlinear_arith)
                    requires
                        1 <= aw <= 64 * 0x8000 + 1024,
                        1 <= ah <= 4 * 0x8000 + 256,
                        1 <= ad <= 32,
                ;
            }
        }
    } else {
        let lw = round_up(bw, 128);
        assert(1 <= lw * bh <= 0x800_0000_0000_0000) by (nonlinear_arith)
            requires
                1 <= lw <= 64 * 0x20000 + 1024,
                1 <= bh <= 4 * 0x20000,
        ;
        if e.width <= 0x8000 && e.height <= 0x8000 {
            assert(lw * bh <= 0x2000_0000_0000) by (nonlinear_arith)
                requires
                    1 <= lw <= 64 * 0x8000 + 1024,
                    1 <= bh <= 4 * 0x8000,
            ;
        }
    }
}

/// Accumulated level offsets stay well below the 64-bit limit.
pub proof fn lemma_offset_bounds(base: Tiling, e: Extent4D, f: Format, sl: SampleLayout, n: int)
    requires
        f.wf(),
        sl != SampleLayout::Invalid,
        base.wf(),
        1 <= e.width <= 0x20000,
        1 <= e.height <= 0x20000,
        1 <= e.depth <= 0x4000,
        0 <= n <= 16,
    ensures
        0 <= level_offset_spec(base, e, f, sl, n) <= n * 0x800_0000_0000_0000,
        e.width <= 0x8000 && e.height <= 0x8000 ==> level_offset_spec(base, e, f, sl, n) <= n
            * 0x80_0000_0000_0000,
        e.width <= 0x8000 && e.height <= 0x8000 && e.depth == 1 ==> level_offset_spec(
            base, e, f, sl, n) <= n * 0x2000_0000_0000,
    decreases n,
{
    if n > 0 {
        lemma_offset_bounds(base, e, f, sl, n - 1);
        lemma_level_arith(e, f, sl, base, n - 1);
    }
}

/// The base tiling a well-formed request resolves to is itself well-formed.
pub proof fn lemma_base_tiling_wf(info: ImageInitInfo)
    requires
        info.wf(),
    ensures
        info.base_tiling_spec().wf(),
{
    if info.usage & IMAGE_USAGE_SPARSE_RESIDENCY_BIT == 0 {
        let sl = SampleLayout::choose_sample_layout_spec(info.samples);
        if info.usage & IMAGE_USAGE_LINEAR_BIT == 0 {
            let e = info.extent_px;
            let f = info.format;
            crate::rounding::lemma_ceil_log2_nonneg(
                div_ceil(crate::extent::bytes_h(e, f, sl), 8),
            );
            crate::rounding::lemma_ceil_log2_nonneg(e.depth as int);
        }
    }
}

/// Bounds for a level's byte extent rounded to an arbitrary well-formed
/// tiling (as the level-size and depth-stride queries compute it).
pub proof fn lemma_size_with_tiling_bounds(
    e: Extent4D,
    f: Format,
    sl: SampleLayout,
    l: int,
    lt: Tiling,
)
    requires
        f.wf(),
        sl != SampleLayout::Invalid,
        lt.wf(),
        1 <= e.width <= 0x20000,
        1 <= e.height <= 0x20000,
        1 <= e.depth <= 0x4000,
        0 <= l < 16,
    ensures
        1 <= round_up(level_B_w(e, f, sl, l), lt.extent_w_B()) <= 0x1000000,
        1 <= round_up(level_B_h(e, f, sl, l), lt.extent_h()) <= 0x100000,
        1 <= round_up(level_B_d(e, l), lt.extent_d()) <= 0x8000,
        1 <= level_size_with_tiling(e, f, sl, l, lt) <= 0x800_0000_0000_0000,
{
    lemma_level_arith(e, f, sl, linear_tiling(), l);
    lt.lemma_bounds();
    lemma_round_up_props(level_B_w(e, f, sl, l), lt.extent_w_B());
    lemma_round_up_props(level_B_h(e, f, sl, l), lt.extent_h());
    lemma_round_up_props(level_B_d(e, l), lt.extent_d());
    lemma_round_up_props(level_B_w(e, f, sl, l), 128);
    let aw = round_up(level_B_w(e, f, sl, l), lt.extent_w_B());
    let ah = round_up(level_B_h(e, f, sl, l), lt.extent_h());
    let ad = round_up(level_B_d(e, l), lt.extent_d());
    if lt.is_tiled {
        assert(1 <= aw * ah * ad <= 0x800_0000_0000_0000) by (nonlinear_arith)
            requires
                1 <= aw <= 0x1000000,
                1 <= ah <= 0x100000,
                1 <= ad <= 0x8000,
        ;
    } else {
        let lw = round_up(level_B_w(e, f, sl, l), 128);
        assert(1 <= lw * level_B_h(e, f, sl, l) <= 0x800_0000_0000_0000) by (nonlinear_arith)
            requires
                1 <= lw <= 64 * 0x20000 + 1024,
                1 <= level_B_h(e, f, sl, l) <= 4 * 0x20000,
        ;
    }
}

/// The mip-tail scan yields either the no-tail sentinel `n` or the index of
/// a level it has already passed.
pub proof fn lemma_mip_tail_upto_range(
    base: Tiling,
    e: Extent4D,
    f: Format,
    sl: SampleLayout,
    n: int,
    k: int,
)
    requires
        0 <= k,
    ensures
        mip_tail_upto(base, e, f, sl, n, k) == n || 0 <= mip_tail_upto(base, e, f, sl, n, k) < k,
    decreases k,
{
    if k > 0 {
        lemma_mip_tail_upto_range(base, e, f, sl, n, k - 1);
    }
}

/// The planner's totals stay within 64-bit range: the per-layer byte total,
/// the array stride and the whole-image size.
pub proof fn lemma_total_bounds(info: ImageInitInfo, base: Tiling)
    requires
        info.wf(),
        base.wf(),
    ensures
        ({
            let sl = SampleLayout::choose_sample_layout_spec(info.samples);
            let e = info.extent_px;
            let f = info.format;
            let n = info.levels as int;
            let t0 = level_tiling_spec(base, e, f, sl, 0);
            let off = level_offset_spec(base, e, f, sl, n);
            let stride = round_up(off, t0.size_B_spec());
            &&& 0 <= off <= 0x800_0000_0000_0000
            &&& 1 <= t0.size_B_spec() <= 0x800000
            &&& 0 <= stride <= 0x1000_0000_0000_0000
            &&& stride * e.array_len <= 0x2000_0000_0000_0000
        }),
{
    let sl = SampleLayout::choose_sample_layout_spec(info.samples);
    let e = info.extent_px;
    let f = info.format;
    let n = info.levels as int;
    let t0 = level_tiling_spec(base, e, f, sl, 0);
    let off = level_offset_spec(base, e, f, sl, n);
    lemma_offset_bounds(base, e, f, sl, n);
    lemma_level_arith(e, f, sl, base, 0);
    t0.lemma_bounds();
    lemma_round_up_props(off, t0.size_B_spec());
    let stride = round_up(off, t0.size_B_spec());
    if e.array_len >= 2 {
        // Layered images are 1-D or 2-D, so every level is one slice deep
        // and a layer stays small.
        assert(e.depth == 1);
        assert(off <= 16 * 0x2000_0000_0000);
        assert(stride * e.array_len <= 0x2000_0000_0000_0000) by (nonlinear_arith)
            requires
                0 <= stride <= 0x4_0000_0000_0000,
                0 <= e.array_len <= 0x800,
        ;
    } else {
        assert(e.array_len == 1);
        assert(stride * e.array_len == stride) by (nonlinear_arith)
            requires
                e.array_len == 1,
        ;
    }
}

/// Every level the planner stores carries a well-formed tiling and an
/// in-range offset.
pub proof fn lemma_levels_wf(info: ImageInitInfo, base: Tiling)
    requires
        info.wf(),
        base.wf(),
    ensures
        forall|l: int|
            0 <= l < info.levels ==> (#[trigger] level_tiling_spec(
                base,
                info.extent_px,
                info.format,
                SampleLayout::choose_sample_layout_spec(info.samples),
                l,
            )).wf() && level_tiling_spec(
                base,
                info.extent_px,
                info.format,
                SampleLayout::choose_sample_layout_spec(info.samples),
                l,
            ).is_tiled == base.is_tiled,
        forall|l: int|
            0 <= l < info.levels ==> 0 <= #[trigger] level_offset_spec(
                base,
                info.extent_px,
                info.format,
                SampleLayout::choose_sample_layout_spec(info.samples),
                l,
            ) <= 0x1000_0000_0000_0000,
{
    let sl = SampleLayout::choose_sample_layout_spec(info.samples);
    let e = info.extent_px;
    let f = info.format;
    assert forall|l: int|
        0 <= l < info.levels implies (#[trigger] level_tiling_spec(base, e, f, sl, l)).wf()
        && level_tiling_spec(base, e, f, sl, l).is_tiled == base.is_tiled by {
        lemma_level_arith(e, f, sl, base, l);
    }
    assert forall|l: int|
        0 <= l < info.levels implies 0 <= #[trigger] level_offset_spec(base, e, f, sl, l)
        <= 0x1000_0000_0000_0000 by {
        lemma_offset_bounds(base, e, f, sl, l);
    }
}

/// Walks the mip levels in increasing order: computes each level's byte
/// extent, clamps the tiling to it (recording where a sparse image's clamped
/// tiling first diverges from the base: the mip tail), stores offset, tiling
/// and row stride, and accumulates the per-layer byte total.
#[verifier::loop_isolation(false)]
#[verifier::rlimit(100)]
fn plan_levels(info: &ImageInitInfo, tiling: Tiling) -> (r: ([ImageLevel; MAX_LEVELS], u64, u32))
    requires
        info.wf(),
        tiling == info.base_tiling_spec(),
        tiling.wf(),
    ensures
        ({
            let sl = SampleLayout::choose_sample_layout_spec(info.samples);
            let e = info.extent_px;
            let f = info.format;
            let n = info.levels as int;
            &&& (forall|l: int|
                0 <= l < n ==> (#[trigger] r.0[l]).offset_B == level_offset_spec(
                    tiling, e, f, sl, l))
            &&& (forall|l: int|
                0 <= l < n ==> (#[trigger] r.0[l]).tiling == level_tiling_spec(
                    tiling, e, f, sl, l))
            &&& (forall|l: int|
                0 <= l < n ==> (#[trigger] r.0[l]).row_stride_B == level_row_stride_spec(
                    tiling, e, f, sl, l))
            &&& (forall|l: int| n <= l < 16 ==> #[trigger] r.0[l] == empty_level())
            &&& r.1 == level_offset_spec(tiling, e, f, sl, n)
            &&& r.2 == info.mip_tail_spec()
        }),
{
    let sample_layout = SampleLayout::choose_sample_layout(info.samples);
    let ghost sl = sample_layout;
    let ghost e = info.extent_px;
    let ghost f = info.format;
    let ghost base = tiling;

    let mut levels: [ImageLevel; MAX_LEVELS] = [ImageLevel {
        offset_B: 0,
        tiling: Tiling { is_tiled: false, gob_height_8: false, x_log2: 0, y_log2: 0, z_log2: 0 },
        row_stride_B: 0,
    }; MAX_LEVELS];
    let mut mip_tail_first_lod: u32 = if info.usage & IMAGE_USAGE_SPARSE_RESIDENCY_BIT != 0 {
        info.levels
    } else {
        0
    };
    let mut layer_size_B: u64 = 0;
    let mut level: u32 = 0;

    while level < info.levels
        invariant
            level <= info.levels,
            layer_size_B == level_offset_spec(base, e, f, sl, level as int),
            forall|l: int|
                0 <= l < level ==> (#[trigger] levels[l]).offset_B == level_offset_spec(
                    base, e, f, sl, l),
            forall|l: int|
                0 <= l < level ==> (#[trigger] levels[l]).tiling == level_tiling_spec(
                    base, e, f, sl, l),
            forall|l: int|
                0 <= l < level ==> (#[trigger] levels[l]).row_stride_B == level_row_stride_spec(
                    base, e, f, sl, l),
            forall|l: int| level <= l < 16 ==> #[trigger] levels[l] == empty_level(),
            mip_tail_first_lod == (if info.usage & IMAGE_USAGE_SPARSE_RESIDENCY_BIT != 0 {
                mip_tail_upto(base, e, f, sl, info.levels as int, level as int)
            } else {
                0
            }),
        decreases info.levels - level,
    {
        proof {
            lemma_level_arith(e, f, sl, base, level as int);
            lemma_offset_bounds(base, e, f, sl, level as int);
            lemma_offset_bounds(base, e, f, sl, level as int + 1);
            lemma_mip_tail_upto_range(base, e, f, sl, info.levels as int, level as int);
        }
        let lvl_ext_px = info.extent_px.minify(level);
        let lvl_ext_B = lvl_ext_px.to_B(info.format, sample_layout);
        let sz: u64;
        if tiling.is_tiled {
            let lvl_tiling = tiling.clamp(lvl_ext_B);

            if tiling != lvl_tiling && level < mip_tail_first_lod {
                mip_tail_first_lod = level;
            }

            // Align the level's byte extent to whole tile blocks.
            let lvl_tiling_ext_B = lvl_tiling.extent_B();
            proof {
                lvl_tiling.lemma_bounds();
            }
            let aligned = lvl_ext_B.align(&lvl_tiling_ext_B);

            levels[level as usize] = ImageLevel {
                offset_B: layer_size_B,
                tiling: lvl_tiling,
                row_stride_B: aligned.width,
            };
            sz = aligned.size_B();
        } else {
            // Linear images are 2-D, single-level, single-sample, and rows
            // must be 128-byte aligned for rendering.
            let row_stride_B = crate::rounding::round_up_u32(lvl_ext_B.width, 128);
            levels[level as usize] = ImageLevel { offset_B: layer_size_B, tiling, row_stride_B };
            sz = (row_stride_B as u64) * (lvl_ext_B.height as u64);
        }
        layer_size_B = layer_size_B + sz;
        level = level + 1;
    }
    (levels, layer_size_B, mip_tail_first_lod)
}

impl Image {
    /// Lays out an image: validates the request, resolves the sample layout,
    /// selects the base tiling (the fixed sparse tiling when sparse
    /// residency is requested), walks the mip levels accumulating offsets
    /// while clamping the tiling and tracking the sparse mip-tail boundary,
    /// and derives the array stride, total size, alignment, tile mode and
    /// PTE kind.
    #[verifier::loop_isolation(false)]
    #[verifier::rlimit(100)]
    pub fn new(dev: &DeviceInfo, info: &ImageInitInfo) -> (r: Image)
        requires
            info.wf(),
            dev.cls_eng3d >= CLS_FERMI_A,
        ensures
            r.constructed_from(*dev, *info),
            r.wf(),
    {
        let ghost e = info.extent_px;
        let ghost f = info.format;
        let sample_layout = SampleLayout::choose_sample_layout(info.samples);
        let ghost sl = sample_layout;

        let tiling = if info.usage & IMAGE_USAGE_SPARSE_RESIDENCY_BIT != 0 {
            crate::tiling::sparse(info.format, info.dim)
        } else {
            proof {
                vstd::arithmetic::power2::lemma2_to64();
                assert(level_px_w(e, 0) == e.width);
                assert(level_px_h(e, 0) == e.height);
                lemma_level_arith(e, f, sl, crate::tiling::full_tiling(), 0);
                assert(crate::extent::bytes_w(e, f, sl) == level_B_w(e, f, sl, 0));
            }
            crate::tiling::choose_tiling(info.extent_px, info.format, sample_layout, info.usage)
        };
        let ghost base = info.base_tiling_spec();

        let planned = plan_levels(info, tiling);
        let levels = planned.0;
        let layer_size_B = planned.1;
        let mip_tail_first_lod = planned.2;

        proof {
            lemma_total_bounds(*info, base);
            lemma_levels_wf(*info, base);
        }
        // Level 0's tiling (possibly clamped below the base) is what the
        // hardware is programmed with: array stride, alignment and tile mode
        // all follow it.
        let lvl0_tiling = levels[0].tiling;
        proof {
            assert(lvl0_tiling == level_tiling_spec(base, e, f, sl, 0));
            lvl0_tiling.lemma_bounds();
        }
        let lvl0_tiling_size_B = lvl0_tiling.size_B();

        let array_stride_B = crate::rounding::round_up_u64(
            layer_size_B,
            lvl0_tiling_size_B as u64,
        );

        let mut size_B: u64 = array_stride_B * (info.extent_px.array_len as u64);
        let mut align_B: u32 = lvl0_tiling_size_B;
        let mut tile_mode: u16 = 0;
        let mut pte_kind: u8 = 0;

        // Sparse binding requires 64 KiB alignment regardless of the tile
        // format actually selected.
        if info.usage & IMAGE_USAGE_SPARSE_RESIDENCY_BIT != 0 {
            if align_B < 0x10000 {
                align_B = 0x10000;
            }
        }

        if lvl0_tiling.is_tiled {
            tile_mode = (lvl0_tiling.y_log2 as u16) * 16 + (lvl0_tiling.z_log2 as u16) * 256;
            pte_kind = crate::pte::choose_pte_kind(dev, info.format, info.samples, false);
            if align_B < 4096 {
                align_B = 4096;
            }
            if pte_kind >= 0xb && pte_kind <= 0xe {
                if align_B < 0x10000 {
                    align_B = 0x10000;
                }
            }
        } else {
            // Linear images need 128-byte alignment for rendering.
            if align_B < 128 {
                align_B = 128;
            }
        }

        proof {
            lemma_round_up_props(size_B as int, align_B as int);
            if !base.is_tiled {
                // Only a linear-usage request yields a linear base tiling:
                // the sparse tiling is always a real tile shape.
                if info.usage & IMAGE_USAGE_SPARSE_RESIDENCY_BIT != 0 {
                    assert(sparse_spec(f, info.dim).is_tiled);
                }
                assert(info.usage & IMAGE_USAGE_LINEAR_BIT != 0);
            }
        }
        size_B = crate::rounding::round_up_u64(size_B, align_B as u64);

        Image {
            dim: info.dim,
            format: info.format,
            extent_px: info.extent_px,
            sample_layout,
            num_levels: info.levels,
            mip_tail_first_lod,
            levels,
            array_stride_B,
            align_B,
            size_B,
            tile_mode,
            pte_kind,
        }
    }

    /// The byte size of mip level `level` as the stored layout gives it:
    /// the level's byte extent rounded up to its tile blocks and flattened,
    /// or stored row stride times rows for a linear level.
    pub open spec fn level_size_B_spec(self, l: int) -> int {
        let lt = self.levels[l].tiling;
        if lt.is_tiled {
            level_size_with_tiling(self.extent_px, self.format, self.sample_layout, l, lt)
        } else {
            self.levels[l].row_stride_B * level_B_h(self.extent_px, self.format, self.sample_layout, l)
        }
    }

    /// Pixel extent of a mip level: the base extent minified along each
    /// spatial axis. Levels past 0 exist only on single-sample images.
    pub fn level_extent_px(&self, level: u32) -> (r: Extent4D)
        requires
            level == 0 || self.sample_layout == SampleLayout::_1x1,
            level < 32,
        ensures
            r.width == level_px_w(self.extent_px, level as int),
            r.height == level_px_h(self.extent_px, level as int),
            r.depth == level_px_d(self.extent_px, level as int),
            r.array_len == self.extent_px.array_len,
    {
        self.extent_px.minify(level)
    }

    /// The byte extent of a mip level.
    fn level_extent_B(&self, level: u32) -> (r: Extent4D)
        requires
            self.wf(),
            level == 0 || self.sample_layout == SampleLayout::_1x1,
            level < 16,
        ensures
            r.width == level_B_w(self.extent_px, self.format, self.sample_layout, level as int),
            r.height == level_B_h(self.extent_px, self.format, self.sample_layout, level as int),
            r.depth == level_B_d(self.extent_px, level as int),
            r.array_len == self.extent_px.array_len,
    {
        proof {
            lemma_level_arith(
                self.extent_px,
                self.format,
                self.sample_layout,
                linear_tiling(),
                level as int,
            );
        }
        let px = self.level_extent_px(level);
        px.to_B(self.format, self.sample_layout)
    }

    /// Sample extent of a mip level: its pixel extent expanded by the
    /// supersample grid.
    pub fn level_extent_sa(&self, level: u32) -> (r: Extent4D)
        requires
            self.wf(),
            level == 0 || self.sample_layout == SampleLayout::_1x1,
            level < 16,
        ensures
            r.width == level_px_w(self.extent_px, level as int) * self.sample_layout.grid_w(),
            r.height == level_px_h(self.extent_px, level as int) * self.sample_layout.grid_h(),
            r.depth == level_px_d(self.extent_px, level as int),
            r.array_len == self.extent_px.array_len,
    {
        proof {
            lemma_level_arith(
                self.extent_px,
                self.format,
                self.sample_layout,
                linear_tiling(),
                level as int,
            );
        }
        let px = self.level_extent_px(level);
        px.to_sa(self.sample_layout)
    }

    /// The byte size of one mip level within a layer.
    pub fn level_size_B(&self, level: u32) -> (r: u64)
        requires
            self.wf(),
            level < self.num_levels,
        ensures
            r == self.level_size_B_spec(level as int),
    {
        proof {
            lemma_size_with_tiling_bounds(
                self.extent_px,
                self.format,
                self.sample_layout,
                level as int,
                self.levels[level as int].tiling,
            );
        }
        let lvl_ext_B = self.level_extent_B(level);
        let lvl = self.levels[level as usize];

        if lvl.tiling.is_tiled {
            proof {
                lvl.tiling.lemma_bounds();
            }
            let lvl_tiling_ext_B = lvl.tiling.extent_B();
            let aligned = lvl_ext_B.align(&lvl_tiling_ext_B);
            aligned.size_B()
        } else {
            // A linear level is one slice deep (linear images are 2-D).
            proof {
                assert(lvl.row_stride_B * lvl_ext_B.height < 0x1_0000_0000_0000_0000)
                    by (nonlinear_arith)
                    requires
                        0 <= lvl.row_stride_B < 0x1_0000_0000,
                        0 <= lvl_ext_B.height < 0x1_0000_0000,
                ;
            }
            (lvl.row_stride_B as u64) * (lvl_ext_B.height as u64)
        }
    }

    /// Byte distance between consecutive Z slices of a 3-D tiled level: the
    /// area of one slice at tile granularity.
    pub fn level_depth_stride_B(&self, level: u32) -> (r: u64)
        requires
            self.wf(),
            level < self.num_levels,
            ({
                let lt = self.levels[level as int].tiling;
                round_up(
                    level_B_w(self.extent_px, self.format, self.sample_layout, level as int),
                    lt.extent_w_B(),
                ) * round_up(
                    level_B_h(self.extent_px, self.format, self.sample_layout, level as int),
                    lt.extent_h(),
                ) <= u32::MAX
            }),
        ensures
            r == ({
                let lt = self.levels[level as int].tiling;
                round_up(
                    level_B_w(self.extent_px, self.format, self.sample_layout, level as int),
                    lt.extent_w_B(),
                ) * round_up(
                    level_B_h(self.extent_px, self.format, self.sample_layout, level as int),
                    lt.extent_h(),
                )
            }),
    {
        proof {
            lemma_level_arith(
                self.extent_px,
                self.format,
                self.sample_layout,
                self.levels[level as int].tiling,
                level as int,
            );
            self.levels[level as int].tiling.lemma_bounds();
        }
        let lvl_ext_B = self.level_extent_B(level);
        let lvl = self.levels[level as usize];
        let lvl_tiling_ext_B = lvl.tiling.extent_B();
        let aligned = lvl_ext_B.align(&lvl_tiling_ext_B);
        proof {
            lemma_round_up_props(
                level_B_w(self.extent_px, self.format, self.sample_layout, level as int),
                lvl.tiling.extent_w_B(),
            );
            lemma_round_up_props(
                level_B_h(self.extent_px, self.format, self.sample_layout, level as int),
                lvl.tiling.extent_h(),
            );
        }
        ((aligned.width * aligned.height) as u64)
    }

    /// Byte offset of (level, layer): the level's offset within a layer plus
    /// the layer's stride.
    pub fn level_layer_offset_B(&self, level: u32, layer: u32) -> (r: u64)
        requires
            self.wf(),
            level < self.num_levels,
            layer < self.extent_px.array_len,
        ensures
            r == self.levels[level as int].offset_B + layer * self.array_stride_B,
    {
        proof {
            assert(layer * self.array_stride_B <= self.array_stride_B
                * self.extent_px.array_len) by (nonlinear_arith)
                requires
                    0 <= layer < self.extent_px.array_len,
                    0 <= self.array_stride_B,
            ;
        }
        self.levels[level as usize].offset_B + (layer as u64) * self.array_stride_B
    }

    /// Byte offset of the sparse mip tail within a layer: the stored offset
    /// of its first level. Fatal to query when no mip tail exists.
    pub fn mip_tail_offset_B(&self) -> (r: u64)
        requires
            self.mip_tail_first_lod > 0,
            self.mip_tail_first_lod < 16,
        ensures
            r == self.levels[self.mip_tail_first_lod as int].offset_B,
    {
        self.levels[self.mip_tail_first_lod as usize].offset_B
    }

    /// Byte size of the sparse mip tail: the rest of the layer from the
    /// tail's first level.
    pub fn mip_tail_size_B(&self) -> (r: u32)
        requires
            self.mip_tail_first_lod > 0,
            self.mip_tail_first_lod < 16,
            self.levels[self.mip_tail_first_lod as int].offset_B <= self.array_stride_B,
            self.array_stride_B - self.levels[self.mip_tail_first_lod as int].offset_B
                <= u32::MAX,
        ensures
            r == self.array_stride_B - self.levels[self.mip_tail_first_lod as int].offset_B,
    {
        let off = self.mip_tail_offset_B();
        (self.array_stride_B - off) as u32
    }

    /// Isolates one mip level as a single-level image: the level's offset is
    /// rebased to 0 (its absolute byte offset comes back through
    /// `offset_in_bytes_out`), its tiling becomes the alignment, and the new
    /// size is the distance to the next level's offset (to the image's end
    /// for the last level).
    pub fn image_for_level(&self, level: u32, offset_in_bytes_out: &mut u64) -> (r: Image)
        requires
            self.wf(),
            level < self.num_levels,
            level == 0 || self.sample_layout == SampleLayout::_1x1,
            level + 1 < self.num_levels ==> self.levels[level as int].offset_B
                < self.levels[level as int + 1].offset_B,
            self.levels[level as int].offset_B <= self.size_B,
            level + 1 < self.num_levels ==> self.levels[level as int + 1].offset_B <= self.size_B,
        ensures
            *final(offset_in_bytes_out) == self.levels[level as int].offset_B,
            r.dim == self.dim,
            r.format == self.format,
            r.extent_px.width == level_px_w(self.extent_px, level as int),
            r.extent_px.height == level_px_h(self.extent_px, level as int),
            r.extent_px.depth == level_px_d(self.extent_px, level as int),
            r.extent_px.array_len == self.extent_px.array_len,
            r.sample_layout == self.sample_layout,
            r.num_levels == 1,
            r.levels[0] == (ImageLevel {
                offset_B: 0,
                tiling: self.levels[level as int].tiling,
                row_stride_B: self.levels[level as int].row_stride_B,
            }),
            forall|l: int| 1 <= l < 16 ==> #[trigger] r.levels[l] == empty_level(),
            r.array_stride_B == self.array_stride_B,
            r.align_B == self.levels[level as int].tiling.size_B_spec(),
            r.size_B == (if level + 1 < self.num_levels {
                self.levels[level as int + 1].offset_B - self.levels[level as int].offset_B
            } else {
                self.size_B - self.levels[level as int].offset_B
            }),
            r.mip_tail_first_lod == (if level < self.mip_tail_first_lod {
                1u32
            } else {
                0u32
            }),
            r.tile_mode == self.tile_mode,
            r.pte_kind == self.pte_kind,
            r.wf(),
    {
        proof {
            lemma_level_arith(
                self.extent_px,
                self.format,
                self.sample_layout,
                linear_tiling(),
                level as int,
            );
            self.levels[level as int].tiling.lemma_bounds();
        }
        let lvl_extent_px = self.level_extent_px(level);
        let lvl = self.levels[level as usize];
        let align_B = lvl.tiling.size_B();

        let size_B: u64 = if level + 1 < self.num_levels {
            // Levels are laid out sequentially and tightly packed, so the
            // level's stored bytes end where the next level begins.
            self.levels[level as usize + 1].offset_B - lvl.offset_B
        } else {
            self.size_B - lvl.offset_B
        };

        let mut levels: [ImageLevel; MAX_LEVELS] = [ImageLevel {
            offset_B: 0,
            tiling: Tiling {
                is_tiled: false,
                gob_height_8: false,
                x_log2: 0,
                y_log2: 0,
                z_log2: 0,
            },
            row_stride_B: 0,
        }; MAX_LEVELS];
        levels[0] = ImageLevel { offset_B: 0, tiling: lvl.tiling, row_stride_B: lvl.row_stride_B };

        *offset_in_bytes_out = lvl.offset_B;

        Image {
            dim: self.dim,
            format: self.format,
            extent_px: lvl_extent_px,
            sample_layout: self.sample_layout,
            num_levels: 1,
            mip_tail_first_lod: if level < self.mip_tail_first_lod {
                1
            } else {
                0
            },
            levels,
            array_stride_B: self.array_stride_B,
            align_B,
            size_B,
            tile_mode: self.tile_mode,
            pte_kind: self.pte_kind,
        }
    }

    /// Views one level of a compressed-format image as an uncompressed image
    /// of the same element size: the stand-in format is a 32-bit-channel
    /// uncompressed format matching the block byte size, and the extent is
    /// recounted in elements (blocks) instead of texels. Element sizes other
    /// than 4, 8 and 16 bytes have no uncompressed stand-in.
    pub fn level_as_uncompressed(&self, level: u32, offset_in_bytes_out: &mut u64) -> (r: Image)
        requires
            self.wf(),
            self.sample_layout == SampleLayout::_1x1,
            self.format.el_size_B == 4 || self.format.el_size_B == 8 || self.format.el_size_B
                == 16,
            level < self.num_levels,
            level + 1 < self.num_levels ==> self.levels[level as int].offset_B
                < self.levels[level as int + 1].offset_B,
            self.levels[level as int].offset_B <= self.size_B,
            level + 1 < self.num_levels ==> self.levels[level as int + 1].offset_B <= self.size_B,
        ensures
            *final(offset_in_bytes_out) == self.levels[level as int].offset_B,
            r.format == (Format {
                el_size_B: self.format.el_size_B,
                block_width_px: 1,
                block_height_px: 1,
                depth_stencil: crate::format::DepthStencilFormat::NotDepthStencil,
            }),
            r.extent_px.width == div_ceil(
                level_px_w(self.extent_px, level as int),
                self.format.block_width_px as int,
            ),
            r.extent_px.height == div_ceil(
                level_px_h(self.extent_px, level as int),
                self.format.block_height_px as int,
            ),
            r.extent_px.depth == level_px_d(self.extent_px, level as int),
            r.extent_px.array_len == self.extent_px.array_len,
            r.dim == self.dim,
            r.sample_layout == self.sample_layout,
            r.num_levels == 1,
            r.levels[0] == (ImageLevel {
                offset_B: 0,
                tiling: self.levels[level as int].tiling,
                row_stride_B: self.levels[level as int].row_stride_B,
            }),
            forall|l: int| 1 <= l < 16 ==> #[trigger] r.levels[l] == empty_level(),
            r.array_stride_B == self.array_stride_B,
            r.align_B == self.levels[level as int].tiling.size_B_spec(),
            r.size_B == (if level + 1 < self.num_levels {
                self.levels[level as int + 1].offset_B - self.levels[level as int].offset_B
            } else {
                self.size_B - self.levels[level as int].offset_B
            }),
            r.mip_tail_first_lod == (if level < self.mip_tail_first_lod {
                1u32
            } else {
                0u32
            }),
            r.tile_mode == self.tile_mode,
            r.pte_kind == self.pte_kind,
            r.wf(),
    {
        // The stand-in format is arbitrary; what matters is the element size.
        let uc_format = Format {
            el_size_B: self.format.el_size_B,
            block_width_px: 1,
            block_height_px: 1,
            depth_stencil: crate::format::DepthStencilFormat::NotDepthStencil,
        };

        let lvl_image = self.image_for_level(level, offset_in_bytes_out);
        proof {
            lemma_level_arith(
                self.extent_px,
                self.format,
                self.sample_layout,
                linear_tiling(),
                level as int,
            );
            lemma_div_ceil_props(
                level_px_w(self.extent_px, level as int),
                self.format.block_width_px as int,
            );
            lemma_div_ceil_props(
                level_px_h(self.extent_px, level as int),
                self.format.block_height_px as int,
            );
        }
        let mut image_out = lvl_image;
        image_out.format = uc_format;
        image_out.extent_px = lvl_image.extent_px.to_el(
            lvl_image.format,
            lvl_image.sample_layout,
        );
        image_out
    }

    /// Reinterprets one level of a 3-D image as a 2-D array image: the depth
    /// slices become array layers and the per-layer stride becomes the byte
    /// area of one slice at tile granularity. Requires the level's tiling to
    /// be flat in Z (one slice per block).
    pub fn _3d_level_as_2d_array(&self, level: u32, offset_in_bytes_out: &mut u64) -> (r: Image)
        requires
            self.wf(),
            self.dim == ImageDim::_3D,
            self.extent_px.array_len == 1,
            self.sample_layout == SampleLayout::_1x1,
            level < self.num_levels,
            !self.levels[level as int].tiling.is_tiled || self.levels[level as int].tiling.z_log2
                == 0,
            level + 1 < self.num_levels ==> self.levels[level as int].offset_B
                < self.levels[level as int + 1].offset_B,
            self.levels[level as int].offset_B <= self.size_B,
            level + 1 < self.num_levels ==> self.levels[level as int + 1].offset_B <= self.size_B,
            round_up(
                level_B_w(self.extent_px, self.format, self.sample_layout, level as int),
                self.levels[level as int].tiling.extent_w_B(),
            ) * round_up(
                level_B_h(self.extent_px, self.format, self.sample_layout, level as int),
                self.levels[level as int].tiling.extent_h(),
            ) <= u32::MAX,
        ensures
            *final(offset_in_bytes_out) == self.levels[level as int].offset_B,
            r.dim == ImageDim::_2D,
            r.format == self.format,
            r.extent_px.width == level_px_w(self.extent_px, level as int),
            r.extent_px.height == level_px_h(self.extent_px, level as int),
            r.extent_px.depth == 1,
            r.extent_px.array_len == level_px_d(self.extent_px, level as int),
            r.sample_layout == self.sample_layout,
            r.num_levels == 1,
            r.levels[0] == (ImageLevel {
                offset_B: 0,
                tiling: self.levels[level as int].tiling,
                row_stride_B: self.levels[level as int].row_stride_B,
            }),
            forall|l: int| 1 <= l < 16 ==> #[trigger] r.levels[l] == empty_level(),
            r.array_stride_B == round_up(
                level_B_w(self.extent_px, self.format, self.sample_layout, level as int),
                self.levels[level as int].tiling.extent_w_B(),
            ) * round_up(
                level_B_h(self.extent_px, self.format, self.sample_layout, level as int),
                self.levels[level as int].tiling.extent_h(),
            ),
            r.align_B == self.levels[level as int].tiling.size_B_spec(),
            r.size_B == (if level + 1 < self.num_levels {
                self.levels[level as int + 1].offset_B - self.levels[level as int].offset_B
            } else {
                self.size_B - self.levels[level as int].offset_B
            }),
            r.mip_tail_first_lod == (if level < self.mip_tail_first_lod {
                1u32
            } else {
                0u32
            }),
            r.tile_mode == self.tile_mode,
            r.pte_kind == self.pte_kind,
            r.wf(),
    {
        let mut image_2d_out = self.image_for_level(level, offset_in_bytes_out);
        let lvl0 = image_2d_out.levels[0];

        proof {
            lemma_size_with_tiling_bounds(
                self.extent_px,
                self.format,
                self.sample_layout,
                level as int,
                lvl0.tiling,
            );
            lvl0.tiling.lemma_bounds();
        }
        let lvl_tiling_ext_B = lvl0.tiling.extent_B();
        let lvl_ext_B = self.level_extent_B(level);
        let aligned = lvl_ext_B.align(&lvl_tiling_ext_B);
        let z_stride = (aligned.width * aligned.height) as u64;

        let depth = image_2d_out.extent_px.depth;
        image_2d_out.dim = ImageDim::_2D;
        image_2d_out.extent_px.array_len = depth;
        image_2d_out.extent_px.depth = 1;
        image_2d_out.array_stride_B = z_stride;

        proof {
            assert(image_2d_out.array_stride_B * image_2d_out.extent_px.array_len
                <= 0x2000_0000_0000_0000) by (nonlinear_arith)
                requires
                    0 <= image_2d_out.array_stride_B <= 0x1_0000_0000,
                    0 <= image_2d_out.extent_px.array_len <= 0x4000,
            ;
        }
        image_2d_out
    }

    /// Reinterprets a multisampled image as its expanded supersample grid:
    /// every sample becomes an independent pixel, and the sample layout
    /// resets to single-sample.
    pub fn msaa_as_samples(&self) -> (r: Image)
        requires
            self.wf(),
            self.dim == ImageDim::_2D,
            self.num_levels == 1,
            crate::extent::sa_w(self.extent_px, self.sample_layout) <= 0x20000,
            crate::extent::sa_h(self.extent_px, self.sample_layout) <= 0x20000,
        ensures
            r.extent_px.width == crate::extent::sa_w(self.extent_px, self.sample_layout),
            r.extent_px.height == crate::extent::sa_h(self.extent_px, self.sample_layout),
            r.extent_px.depth == self.extent_px.depth,
            r.extent_px.array_len == self.extent_px.array_len,
            r.sample_layout == SampleLayout::_1x1,
            r.dim == self.dim,
            r.format == self.format,
            r.num_levels == self.num_levels,
            r.mip_tail_first_lod == self.mip_tail_first_lod,
            r.levels == self.levels,
            r.array_stride_B == self.array_stride_B,
            r.align_B == self.align_B,
            r.size_B == self.size_B,
            r.tile_mode == self.tile_mode,
            r.pte_kind == self.pte_kind,
            r.wf(),
    {
        proof {
            assert(1 <= self.extent_px.width * self.sample_layout.grid_w()) by (nonlinear_arith)
                requires
                    1 <= self.extent_px.width,
                    1 <= self.sample_layout.grid_w(),
            ;
            assert(1 <= self.extent_px.height * self.sample_layout.grid_h()) by (nonlinear_arith)
                requires
                    1 <= self.extent_px.height,
                    1 <= self.sample_layout.grid_h(),
            ;
        }
        let extent_sa = self.extent_px.to_sa(self.sample_layout);
        let mut out = *self;
        out.extent_px = extent_sa;
        out.sample_layout = SampleLayout::_1x1;
        out
    }

    /// Whether the 32-bit products `level_z_offset_B` is computed with fit.
    pub open spec fn z_offset_fits(self, level: int, z: int) -> bool {
        let lt = self.levels[level].tiling;
        let w_tl = div_ceil(
            level_B_w(self.extent_px, self.format, self.sample_layout, level),
            lt.extent_w_B(),
        );
        let h_tl = div_ceil(
            level_B_h(self.extent_px, self.format, self.sample_layout, level),
            lt.extent_h(),
        );
        let z_tl = z / lt.extent_d();
        let z_gob = z % lt.extent_d();
        &&& w_tl * h_tl <= u32::MAX
        &&& w_tl * h_tl * z_tl <= u32::MAX
        &&& w_tl * h_tl * z_tl * lt.size_B_spec() <= u32::MAX
        &&& lt.extent_w_B() * lt.extent_h() * z_gob <= u32::MAX
        &&& w_tl * h_tl * z_tl * lt.size_B_spec() + lt.extent_w_B() * lt.extent_h() * z_gob
            <= u32::MAX
    }

    /// The flat byte offset of depth coordinate `z` within a level: whole
    /// tile-planes worth of bytes for the tile-granule index, plus whole GOB
    /// planes for the position inside the granule.
    pub open spec fn level_z_offset_B_spec(self, level: int, z: int) -> int {
        let lt = self.levels[level].tiling;
        let w_tl = div_ceil(
            level_B_w(self.extent_px, self.format, self.sample_layout, level),
            lt.extent_w_B(),
        );
        let h_tl = div_ceil(
            level_B_h(self.extent_px, self.format, self.sample_layout, level),
            lt.extent_h(),
        );
        let z_tl = z / lt.extent_d();
        let z_gob = z % lt.extent_d();
        w_tl * h_tl * z_tl * lt.size_B_spec() + lt.extent_w_B() * lt.extent_h() * z_gob
    }

    /// Byte offset of one depth slice within a mip level.
    pub fn level_z_offset_B(&self, level: u32, z: u32) -> (r: u64)
        requires
            self.wf(),
            level < self.num_levels,
            z < level_px_d(self.extent_px, level as int),
            self.z_offset_fits(level as int, z as int),
        ensures
            r == self.level_z_offset_B_spec(level as int, z as int),
    {
        proof {
            lemma_level_arith(
                self.extent_px,
                self.format,
                self.sample_layout,
                linear_tiling(),
                level as int,
            );
            self.levels[level as int].tiling.lemma_bounds();
        }
        let lvl = self.levels[level as usize];
        let lvl_ext_B = self.level_extent_B(level);
        let tiling_ext = lvl.tiling.extent_B();

        let z_tl = z / tiling_ext.depth;
        let z_gob = z % tiling_ext.depth;

        let w_tl = crate::rounding::div_ceil_u32(lvl_ext_B.width, tiling_ext.width);
        let h_tl = crate::rounding::div_ceil_u32(lvl_ext_B.height, tiling_ext.height);
        let size = lvl.tiling.size_B();
        proof {
            vstd::arithmetic::div_mod::lemma_div_pos_is_pos(z as int, tiling_ext.depth as int);
        }
        let part1 = w_tl * h_tl * z_tl * size;
        let part2 = tiling_ext.width * tiling_ext.height * z_gob;
        (part1 + part2) as u64
    }
}

} // verus!
