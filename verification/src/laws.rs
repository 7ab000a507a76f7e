//! Laws the planner's output obeys, stated and proved over the same spec
//! functions its contracts use.

use vstd::prelude::*;
use crate::image::{
    level_offset_spec, level_size_spec, level_tiling_spec, lemma_total_bounds, Image,
    ImageInitInfo, SampleLayout, IMAGE_USAGE_SPARSE_RESIDENCY_BIT,
};
use crate::pte::DeviceInfo;
use crate::rounding::{round_up, lemma_round_up_props};

verus! {

/// Law: in a non-sparse, uniformly tiled image, consecutive level offsets
/// differ by exactly the lower level's stored byte size — the levels are
/// laid out in increasing order and tightly packed.
pub proof fn lemma_levels_tightly_packed(
    img: Image,
    dev: DeviceInfo,
    info: ImageInitInfo,
    k: int,
)
    requires
        info.wf(),
        img.constructed_from(dev, info),
        info.usage & IMAGE_USAGE_SPARSE_RESIDENCY_BIT == 0,
        info.base_tiling_spec().is_tiled,
        0 <= k,
        k + 1 < img.num_levels,
    ensures
        img.levels[k + 1].offset_B == img.levels[k].offset_B + img.level_size_B_spec(k),
        img.levels[k].offset_B < img.levels[k + 1].offset_B,
{
    let base = info.base_tiling_spec();
    let sl = SampleLayout::choose_sample_layout_spec(info.samples);
    let e = info.extent_px;
    let f = info.format;
    crate::image::lemma_base_tiling_wf(info);
    crate::image::lemma_level_arith(e, f, sl, base, k);
    assert(img.levels[k].tiling == level_tiling_spec(base, e, f, sl, k));
    assert(img.level_size_B_spec(k) == level_size_spec(base, e, f, sl, k));
    assert(level_offset_spec(base, e, f, sl, k + 1) == level_offset_spec(base, e, f, sl, k)
        + level_size_spec(base, e, f, sl, k));
}

/// Law: the array stride is a whole number of level-0 tiles, the total size
/// is a whole number of alignment units, and the total size is exactly the
/// array stride times the layer count, rounded up to the alignment.
pub proof fn lemma_totals_aligned(img: Image, dev: DeviceInfo, info: ImageInitInfo)
    requires
        info.wf(),
        img.constructed_from(dev, info),
    ensures
        img.array_stride_B as int % img.levels[0].tiling.size_B_spec() == 0,
        img.size_B as int % img.align_B as int == 0,
        img.size_B == round_up(
            img.array_stride_B * img.extent_px.array_len,
            img.align_B as int,
        ),
{
    let base = info.base_tiling_spec();
    let sl = SampleLayout::choose_sample_layout_spec(info.samples);
    let e = info.extent_px;
    let f = info.format;
    let n = info.levels as int;
    let t0 = level_tiling_spec(base, e, f, sl, 0);
    crate::image::lemma_base_tiling_wf(info);
    lemma_total_bounds(info, base);
    let off = level_offset_spec(base, e, f, sl, n);
    lemma_round_up_props(off, t0.size_B_spec());
    assert(img.levels[0].tiling == t0);
    lemma_round_up_props(img.array_stride_B * e.array_len, img.align_B as int);
}

} // verus!
