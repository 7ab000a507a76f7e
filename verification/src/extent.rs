//! Four-axis extents and the unit conversions between pixel, sample, element
//! and byte measurement spaces.

use vstd::prelude::*;
use vstd::arithmetic::power2::pow2;
use crate::format::Format;
use crate::image::SampleLayout;
use crate::rounding::{div_ceil, round_up, div_ceil_u32, round_up_u32, lemma_div_ceil_props};

verus! {

/// A four-axis extent: width, height, depth and array-layer count. Depending
/// on context the axes count pixels, samples, format elements or bytes.
#[derive(Clone, Copy, Debug, PartialEq, Eq, Structural)]
pub struct Extent4D {
    pub width: u32,
    pub height: u32,
    pub depth: u32,
    pub array_len: u32,
}

/// One axis minified for a mip level: halved `level` times, floored at 1.
pub open spec fn minify_axis(x: int, level: nat) -> int {
    let m = x / pow2(level) as int;
    if m < 1 {
        1
    } else {
        m
    }
}

/// Width of an extent in samples: pixels times the supersample grid width.
pub open spec fn sa_w(e: Extent4D, sl: SampleLayout) -> int {
    e.width * sl.grid_w()
}

/// Height of an extent in samples.
pub open spec fn sa_h(e: Extent4D, sl: SampleLayout) -> int {
    e.height * sl.grid_h()
}

/// Width in format elements: samples divided by the block width, rounded up.
pub open spec fn el_w(e: Extent4D, f: Format, sl: SampleLayout) -> int {
    div_ceil(sa_w(e, sl), f.block_width_px as int)
}

/// Height in format elements.
pub open spec fn el_h(e: Extent4D, f: Format, sl: SampleLayout) -> int {
    div_ceil(sa_h(e, sl), f.block_height_px as int)
}

/// Width of an extent in bytes: elements times the element byte size.
pub open spec fn bytes_w(e: Extent4D, f: Format, sl: SampleLayout) -> int {
    el_w(e, f, sl) * f.el_size_B
}

/// Height of an extent in bytes (rows), equal to its height in elements.
pub open spec fn bytes_h(e: Extent4D, f: Format, sl: SampleLayout) -> int {
    el_h(e, f, sl)
}

impl Extent4D {
    pub fn new(width: u32, height: u32, depth: u32, array_len: u32) -> (r: Extent4D)
        ensures
            r == (Extent4D { width, height, depth, array_len }),
    {
        Extent4D { width, height, depth, array_len }
    }

    /// The extent `level` mip levels down: each spatial axis halved `level`
    /// times and floored at 1; the array-layer count is unaffected.
    pub fn minify(&self, level: u32) -> (r: Extent4D)
        requires
            level < 32,
        ensures
            r.width == minify_axis(self.width as int, level as nat),
            r.height == minify_axis(self.height as int, level as nat),
            r.depth == minify_axis(self.depth as int, level as nat),
            r.array_len == self.array_len,
    {
        Extent4D {
            width: minify_u32(self.width, level),
            height: minify_u32(self.height, level),
            depth: minify_u32(self.depth, level),
            array_len: self.array_len,
        }
    }

    /// Pixel extent converted to samples under the given sample layout.
    pub fn to_sa(&self, sample_layout: SampleLayout) -> (r: Extent4D)
        requires
            sample_layout != SampleLayout::Invalid,
            sa_w(*self, sample_layout) <= u32::MAX,
            sa_h(*self, sample_layout) <= u32::MAX,
        ensures
            r.width == sa_w(*self, sample_layout),
            r.height == sa_h(*self, sample_layout),
            r.depth == self.depth,
            r.array_len == self.array_len,
    {
        let g = sample_layout.px_extent_sa();
        Extent4D {
            width: self.width * g.width,
            height: self.height * g.height,
            depth: self.depth,
            array_len: self.array_len,
        }
    }

    /// Pixel extent converted to format elements: to samples, then divided by
    /// the block shape, rounding partial blocks up.
    pub fn to_el(&self, format: Format, sample_layout: SampleLayout) -> (r: Extent4D)
        requires
            format.wf(),
            sample_layout != SampleLayout::Invalid,
            sa_w(*self, sample_layout) <= u32::MAX,
            sa_h(*self, sample_layout) <= u32::MAX,
        ensures
            r.width == el_w(*self, format, sample_layout),
            r.height == el_h(*self, format, sample_layout),
            r.depth == self.depth,
            r.array_len == self.array_len,
    {
        let sa = self.to_sa(sample_layout);
        Extent4D {
            width: div_ceil_u32(sa.width, format.block_width_px),
            height: div_ceil_u32(sa.height, format.block_height_px),
            depth: sa.depth,
            array_len: sa.array_len,
        }
    }

    /// Pixel extent converted to bytes: to elements, then the width scaled by
    /// the element byte size.
    pub fn to_B(&self, format: Format, sample_layout: SampleLayout) -> (r: Extent4D)
        requires
            format.wf(),
            sample_layout != SampleLayout::Invalid,
            sa_w(*self, sample_layout) <= u32::MAX,
            sa_h(*self, sample_layout) <= u32::MAX,
            bytes_w(*self, format, sample_layout) <= u32::MAX,
        ensures
            r.width == bytes_w(*self, format, sample_layout),
            r.height == bytes_h(*self, format, sample_layout),
            r.depth == self.depth,
            r.array_len == self.array_len,
    {
        let el = self.to_el(format, sample_layout);
        proof {
            lemma_div_ceil_props(sa_w(*self, sample_layout), format.block_width_px as int);
        }
        Extent4D {
            width: el.width * format.el_size_B,
            height: el.height,
            depth: el.depth,
            array_len: el.array_len,
        }
    }

    /// Each axis rounded up to the next multiple of the corresponding axis of
    /// `alignment`.
    pub fn align(&self, alignment: &Extent4D) -> (r: Extent4D)
        requires
            1 <= alignment.width,
            1 <= alignment.height,
            1 <= alignment.depth,
            1 <= alignment.array_len,
            self.width + alignment.width <= u32::MAX,
            self.height + alignment.height <= u32::MAX,
            self.depth + alignment.depth <= u32::MAX,
            self.array_len + alignment.array_len <= u32::MAX,
        ensures
            r.width == round_up(self.width as int, alignment.width as int),
            r.height == round_up(self.height as int, alignment.height as int),
            r.depth == round_up(self.depth as int, alignment.depth as int),
            r.array_len == round_up(self.array_len as int, alignment.array_len as int),
    {
        Extent4D {
            width: round_up_u32(self.width, alignment.width),
            height: round_up_u32(self.height, alignment.height),
            depth: round_up_u32(self.depth, alignment.depth),
            array_len: round_up_u32(self.array_len, alignment.array_len),
        }
    }

    /// The flat byte volume of one array layer of a byte extent.
    pub fn size_B(&self) -> (r: u64)
        requires
            1 <= self.depth,
            self.width * self.height * self.depth <= u64::MAX,
        ensures
            r == self.width * self.height * self.depth,
    {
        proof {
            assert(self.width * self.height <= self.width * self.height * self.depth)
                by (nonlinear_arith)
                requires
                    1 <= self.depth,
                    0 <= self.width,
                    0 <= self.height,
            ;
        }
        (self.width as u64) * (self.height as u64) * (self.depth as u64)
    }
}

/// One axis of `minify`: `x >> level`, floored at 1.
fn minify_u32(x: u32, level: u32) -> (r: u32)
    requires
        level < 32,
    ensures
        r == minify_axis(x as int, level as nat),
{
    proof {
        vstd::bits::lemma_u32_shr_is_div(x, level);
    }
    let s = x >> level;
    if s == 0 {
        1
    } else {
        s
    }
}

} // verus!
