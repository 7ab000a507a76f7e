use nil::extent::Extent4D;
use nil::format::{DepthStencilFormat, Format};
use nil::image::{
    Image, ImageDim, ImageInitInfo, SampleLayout, IMAGE_USAGE_LINEAR_BIT,
    IMAGE_USAGE_SPARSE_RESIDENCY_BIT,
};
use nil::pte::{DeviceInfo, CLS_TURING_A};

fn turing() -> DeviceInfo {
    DeviceInfo { cls_eng3d: CLS_TURING_A }
}

fn rgba8() -> Format {
    Format {
        el_size_B: 4,
        block_width_px: 1,
        block_height_px: 1,
        depth_stencil: DepthStencilFormat::NotDepthStencil,
    }
}

fn r8() -> Format {
    Format {
        el_size_B: 1,
        block_width_px: 1,
        block_height_px: 1,
        depth_stencil: DepthStencilFormat::NotDepthStencil,
    }
}

fn ext(w: u32, h: u32, d: u32, a: u32) -> Extent4D {
    Extent4D { width: w, height: h, depth: d, array_len: a }
}

#[test]
fn sample_layout_table() {
    assert_eq!(SampleLayout::choose_sample_layout(1), SampleLayout::_1x1);
    assert_eq!(SampleLayout::choose_sample_layout(2), SampleLayout::_2x1);
    assert_eq!(SampleLayout::choose_sample_layout(4), SampleLayout::_2x2);
    assert_eq!(SampleLayout::choose_sample_layout(8), SampleLayout::_4x2);
    assert_eq!(SampleLayout::choose_sample_layout(16), SampleLayout::_4x4);
    assert_eq!(SampleLayout::choose_sample_layout(0), SampleLayout::Invalid);
    assert_eq!(SampleLayout::choose_sample_layout(3), SampleLayout::Invalid);
    assert_eq!(SampleLayout::choose_sample_layout(32), SampleLayout::Invalid);
}

#[test]
fn eight_samples_grid_and_sample_extent() {
    let sl = SampleLayout::choose_sample_layout(8);
    assert_eq!(sl, SampleLayout::_4x2);
    let grid = sl.px_extent_sa();
    assert_eq!((grid.width, grid.height), (4, 2));
    let sa = ext(16, 16, 1, 1).to_sa(sl);
    assert_eq!((sa.width, sa.height, sa.depth, sa.array_len), (64, 32, 1, 1));
}

#[test]
fn linear_row_stride_rounds_to_128() {
    let info = ImageInitInfo {
        dim: ImageDim::_2D,
        format: r8(),
        extent_px: ext(130, 4, 1, 1),
        levels: 1,
        samples: 1,
        usage: IMAGE_USAGE_LINEAR_BIT,
    };
    let img = Image::new(&turing(), &info);
    assert_eq!(img.levels[0].row_stride_B, 256);
    assert!(!img.levels[0].tiling.is_tiled);
    assert_eq!(img.level_size_B(0), 256 * 4);
    assert_eq!(img.align_B, 128);
    assert_eq!(img.size_B, 1024);
    assert_eq!(img.tile_mode, 0);
    assert_eq!(img.pte_kind, 0);
    assert_eq!(img.mip_tail_first_lod, 0);
}

#[test]
fn tiled_three_level_offsets_pack() {
    let info = ImageInitInfo {
        dim: ImageDim::_2D,
        format: rgba8(),
        extent_px: ext(64, 64, 1, 1),
        levels: 3,
        samples: 1,
        usage: 0,
    };
    let img = Image::new(&turing(), &info);
    assert_eq!(img.levels[0].offset_B, 0);
    assert_eq!(img.levels[1].offset_B, 16384);
    assert_eq!(img.levels[2].offset_B, 20480);
    assert_eq!(img.level_size_B(0), 16384);
    assert_eq!(img.level_size_B(1), 4096);
    assert_eq!(img.level_size_B(2), 1024);
    // consecutive offsets differ by exactly the level size
    assert_eq!(img.levels[1].offset_B - img.levels[0].offset_B, img.level_size_B(0));
    assert_eq!(img.levels[2].offset_B - img.levels[1].offset_B, img.level_size_B(1));
    assert_eq!(img.levels[0].row_stride_B, 256);
    assert_eq!(img.levels[1].row_stride_B, 128);
    assert_eq!(img.levels[2].row_stride_B, 64);
    assert_eq!(img.array_stride_B, 24576);
    assert_eq!(img.size_B, 24576);
    assert_eq!(img.align_B, 4096);
    assert_eq!(img.tile_mode, 0x30);
    assert_eq!(img.pte_kind, 0);
    // totals are aligned
    assert_eq!(img.array_stride_B % 4096, 0);
    assert_eq!(img.size_B % img.align_B as u64, 0);
}

#[test]
fn array_layers_stride() {
    let info = ImageInitInfo {
        dim: ImageDim::_2D,
        format: r8(),
        extent_px: ext(16, 16, 1, 4),
        levels: 2,
        samples: 1,
        usage: 0,
    };
    let img = Image::new(&turing(), &info);
    assert_eq!(img.levels[0].offset_B, 0);
    assert_eq!(img.levels[1].offset_B, 1024);
    assert_eq!(img.array_stride_B, 2048);
    assert_eq!(img.size_B, 8192);
    assert_eq!(img.align_B, 4096);
    // level-layer offset = stored offset + layer * array stride
    assert_eq!(img.level_layer_offset_B(1, 0), 1024);
    assert_eq!(img.level_layer_offset_B(1, 3), 1024 + 3 * 2048);
    assert_eq!(img.level_layer_offset_B(0, 2), 2 * 2048);
    // array stride is a whole number of level-0 tiles (64 x 16 bytes)
    assert_eq!(img.array_stride_B % 1024, 0);
    assert_eq!(img.size_B % img.align_B as u64, 0);
}

#[test]
fn sparse_mip_tail_starts_where_tiling_diverges() {
    let info = ImageInitInfo {
        dim: ImageDim::_2D,
        format: rgba8(),
        extent_px: ext(512, 512, 1, 1),
        levels: 6,
        samples: 1,
        usage: IMAGE_USAGE_SPARSE_RESIDENCY_BIT,
    };
    let img = Image::new(&turing(), &info);
    // the sparse base tiling is one 64 KiB block: 512 B x 128 rows
    let base = img.levels[0].tiling;
    assert!(base.is_tiled);
    assert_eq!((base.x_log2, base.y_log2, base.z_log2), (3, 4, 0));
    // levels 0..=2 keep the base tiling; level 3 is the first clamped one
    assert_eq!(img.levels[1].tiling, base);
    assert_eq!(img.levels[2].tiling, base);
    assert_ne!(img.levels[3].tiling, base);
    assert_eq!((img.levels[3].tiling.x_log2, img.levels[3].tiling.y_log2), (0, 3));
    assert_eq!(img.mip_tail_first_lod, 3);
    assert_eq!(img.levels[3].offset_B, 1376256);
    assert_eq!(img.array_stride_B, 1441792);
    assert_eq!(img.mip_tail_offset_B(), 1376256);
    assert_eq!(img.mip_tail_size_B() as u64, img.array_stride_B - img.levels[3].offset_B);
    assert_eq!(img.mip_tail_size_B(), 65536);
    // sparse binding forces 64 KiB alignment
    assert_eq!(img.align_B, 65536);
    assert_eq!(img.size_B % img.align_B as u64, 0);
}

#[test]
fn image_for_level_isolates_one_level() {
    let info = ImageInitInfo {
        dim: ImageDim::_2D,
        format: rgba8(),
        extent_px: ext(64, 64, 1, 1),
        levels: 3,
        samples: 1,
        usage: 0,
    };
    let img = Image::new(&turing(), &info);
    let mut off: u64 = 0;
    let lvl1 = img.image_for_level(1, &mut off);
    assert_eq!(off, 16384);
    // the isolated level's size is the distance to the next level's offset
    assert_eq!(lvl1.size_B, img.levels[2].offset_B - img.levels[1].offset_B);
    assert_eq!(lvl1.size_B, 4096);
    assert_eq!(lvl1.num_levels, 1);
    assert_eq!(lvl1.levels[0].offset_B, 0);
    assert_eq!(lvl1.levels[0].tiling, img.levels[1].tiling);
    assert_eq!((lvl1.extent_px.width, lvl1.extent_px.height), (32, 32));
    assert_eq!(lvl1.align_B, 2048);
    assert_eq!(lvl1.mip_tail_first_lod, 0);

    let mut off2: u64 = 7;
    let lvl2 = img.image_for_level(2, &mut off2);
    assert_eq!(off2, 20480);
    // the last level runs to the image's end
    assert_eq!(lvl2.size_B, img.size_B - img.levels[2].offset_B);
}

#[test]
fn level_as_uncompressed_counts_blocks() {
    let bc = Format {
        el_size_B: 16,
        block_width_px: 4,
        block_height_px: 4,
        depth_stencil: DepthStencilFormat::NotDepthStencil,
    };
    let info = ImageInitInfo {
        dim: ImageDim::_2D,
        format: bc,
        extent_px: ext(64, 64, 1, 1),
        levels: 1,
        samples: 1,
        usage: 0,
    };
    let img = Image::new(&turing(), &info);
    let mut off: u64 = 1;
    let uc = img.level_as_uncompressed(0, &mut off);
    assert_eq!(off, 0);
    assert_eq!(uc.format.el_size_B, 16);
    assert_eq!(uc.format.block_width_px, 1);
    assert_eq!(uc.format.block_height_px, 1);
    assert_eq!((uc.extent_px.width, uc.extent_px.height), (16, 16));
    assert_eq!(uc.size_B, img.size_B);
    assert_eq!(uc.num_levels, 1);
}

#[test]
fn three_d_level_as_two_d_array() {
    let info = ImageInitInfo {
        dim: ImageDim::_3D,
        format: rgba8(),
        extent_px: ext(32, 32, 1, 1),
        levels: 1,
        samples: 1,
        usage: 0,
    };
    let img = Image::new(&turing(), &info);
    let mut off: u64 = 9;
    let arr = img._3d_level_as_2d_array(0, &mut off);
    assert_eq!(off, 0);
    assert_eq!(arr.dim, ImageDim::_2D);
    assert_eq!(arr.extent_px.depth, 1);
    assert_eq!(arr.extent_px.array_len, 1);
    // the per-slice stride is the tile-aligned byte area of one slice
    assert_eq!(arr.array_stride_B, 128 * 32);
}

#[test]
fn msaa_image_as_samples() {
    let info = ImageInitInfo {
        dim: ImageDim::_2D,
        format: rgba8(),
        extent_px: ext(16, 16, 1, 1),
        levels: 1,
        samples: 4,
        usage: 0,
    };
    let img = Image::new(&turing(), &info);
    assert_eq!(img.sample_layout, SampleLayout::_2x2);
    let sa = img.msaa_as_samples();
    assert_eq!((sa.extent_px.width, sa.extent_px.height), (32, 32));
    assert_eq!(sa.sample_layout, SampleLayout::_1x1);
    assert_eq!(sa.size_B, img.size_B);
    assert_eq!(sa.array_stride_B, img.array_stride_B);
}

#[test]
fn z_offset_decomposes_into_tile_and_gob_planes() {
    let info = ImageInitInfo {
        dim: ImageDim::_3D,
        format: rgba8(),
        extent_px: ext(32, 32, 8, 1),
        levels: 1,
        samples: 1,
        usage: 0,
    };
    let img = Image::new(&turing(), &info);
    let t = img.levels[0].tiling;
    assert_eq!((t.x_log2, t.y_log2, t.z_log2), (0, 2, 3));
    // z = 5 sits inside the first (only) tile granule: 5 whole GOB planes in
    assert_eq!(img.level_z_offset_B(0, 5), 64 * 32 * 5);
    assert_eq!(img.level_z_offset_B(0, 0), 0);
    // depth stride of the level: tile-aligned slice area
    assert_eq!(img.level_depth_stride_B(0), 128 * 32);
}

#[test]
fn level_extents_minify() {
    let info = ImageInitInfo {
        dim: ImageDim::_2D,
        format: rgba8(),
        extent_px: ext(64, 64, 1, 1),
        levels: 3,
        samples: 1,
        usage: 0,
    };
    let img = Image::new(&turing(), &info);
    let l2 = img.level_extent_px(2);
    assert_eq!((l2.width, l2.height, l2.depth), (16, 16, 1));
    let sa = img.level_extent_sa(2);
    assert_eq!((sa.width, sa.height), (16, 16));
}

#[test]
fn one_d_image_levels() {
    let info = ImageInitInfo {
        dim: ImageDim::_1D,
        format: rgba8(),
        extent_px: ext(256, 1, 1, 1),
        levels: 4,
        samples: 1,
        usage: 0,
    };
    let img = Image::new(&turing(), &info);
    // one row of texels still occupies a full 8-row GOB per level
    assert_eq!(img.levels[0].offset_B, 0);
    assert_eq!(img.levels[1].offset_B, 8192);
    assert_eq!(img.levels[2].offset_B, 12288);
    assert_eq!(img.levels[3].offset_B, 14336);
    assert_eq!(img.array_stride_B, 15360);
    assert_eq!(img.align_B, 4096);
    assert_eq!(img.size_B, 16384);
    assert_eq!(img.mip_tail_first_lod, 0);
}

#[test]
fn legacy_device_stamps_depth_pte_kind() {
    let z24s8 = Format {
        el_size_B: 4,
        block_width_px: 1,
        block_height_px: 1,
        depth_stencil: DepthStencilFormat::Z24S8,
    };
    let fermi = DeviceInfo { cls_eng3d: nil::pte::CLS_FERMI_A };
    let info = ImageInitInfo {
        dim: ImageDim::_2D,
        format: z24s8,
        extent_px: ext(64, 64, 1, 1),
        levels: 1,
        samples: 1,
        usage: 0,
    };
    let img = Image::new(&fermi, &info);
    assert_eq!(img.pte_kind, 0x46);
    assert_eq!(img.align_B, 4096);
    let img_turing = Image::new(&turing(), &info);
    assert_eq!(img_turing.pte_kind, 0x05);
}
