use nil::format::{DepthStencilFormat, Format};
use nil::pte::{
    choose_pte_kind, nvc0_choose_pte_kind, tu102_choose_pte_kind, DeviceInfo, CLS_FERMI_A,
    CLS_TURING_A,
};

fn fmt(el: u32, ds: DepthStencilFormat) -> Format {
    Format { el_size_B: el, block_width_px: 1, block_height_px: 1, depth_stencil: ds }
}

#[test]
fn tu102_depth_stencil_codes() {
    assert_eq!(tu102_choose_pte_kind(fmt(2, DepthStencilFormat::Z16), false), 0x01);
    assert_eq!(tu102_choose_pte_kind(fmt(2, DepthStencilFormat::Z16), true), 0x0b);
    assert_eq!(tu102_choose_pte_kind(fmt(4, DepthStencilFormat::Z24S8), false), 0x05);
    assert_eq!(tu102_choose_pte_kind(fmt(4, DepthStencilFormat::Z24S8), true), 0x0e);
    assert_eq!(tu102_choose_pte_kind(fmt(4, DepthStencilFormat::S8Z24), false), 0x03);
    assert_eq!(tu102_choose_pte_kind(fmt(4, DepthStencilFormat::S8Z24), true), 0x0c);
    assert_eq!(tu102_choose_pte_kind(fmt(8, DepthStencilFormat::Zf32S8), false), 0x04);
    assert_eq!(tu102_choose_pte_kind(fmt(8, DepthStencilFormat::Zf32S8), true), 0x0d);
    assert_eq!(tu102_choose_pte_kind(fmt(4, DepthStencilFormat::Zf32), false), 0x06);
    assert_eq!(tu102_choose_pte_kind(fmt(4, DepthStencilFormat::Zf32), true), 0x06);
    assert_eq!(tu102_choose_pte_kind(fmt(4, DepthStencilFormat::NotDepthStencil), false), 0);
    assert_eq!(tu102_choose_pte_kind(fmt(4, DepthStencilFormat::NotDepthStencil), true), 0);
}

#[test]
fn nvc0_depth_codes_scale_with_samples() {
    assert_eq!(nvc0_choose_pte_kind(fmt(2, DepthStencilFormat::Z16), 1, false), 0x01);
    assert_eq!(nvc0_choose_pte_kind(fmt(2, DepthStencilFormat::Z16), 4, true), 0x04);
    assert_eq!(nvc0_choose_pte_kind(fmt(4, DepthStencilFormat::Z24S8), 1, false), 0x46);
    assert_eq!(nvc0_choose_pte_kind(fmt(4, DepthStencilFormat::Z24S8), 8, true), 0x54);
    assert_eq!(nvc0_choose_pte_kind(fmt(4, DepthStencilFormat::S8Z24), 2, true), 0x18);
    assert_eq!(nvc0_choose_pte_kind(fmt(8, DepthStencilFormat::Zf32S8), 1, false), 0xc3);
    assert_eq!(nvc0_choose_pte_kind(fmt(8, DepthStencilFormat::Zf32S8), 16, true), 0xd2);
}

#[test]
fn nvc0_color_codes_by_bit_width() {
    let color = DepthStencilFormat::NotDepthStencil;
    assert_eq!(nvc0_choose_pte_kind(fmt(16, color), 1, false), 0xfe);
    assert_eq!(nvc0_choose_pte_kind(fmt(16, color), 4, true), 0xf8);
    assert_eq!(nvc0_choose_pte_kind(fmt(8, color), 1, true), 0xe6);
    assert_eq!(nvc0_choose_pte_kind(fmt(8, color), 2, true), 0xeb);
    assert_eq!(nvc0_choose_pte_kind(fmt(8, color), 4, true), 0xed);
    assert_eq!(nvc0_choose_pte_kind(fmt(8, color), 8, true), 0xf2);
    assert_eq!(nvc0_choose_pte_kind(fmt(8, color), 8, false), 0xfe);
    assert_eq!(nvc0_choose_pte_kind(fmt(4, color), 2, true), 0xdd);
    assert_eq!(nvc0_choose_pte_kind(fmt(4, color), 4, true), 0xdf);
    assert_eq!(nvc0_choose_pte_kind(fmt(4, color), 8, true), 0xe4);
    assert_eq!(nvc0_choose_pte_kind(fmt(4, color), 16, true), 0);
    // the documented carve-out: 32-bit elements at one sample never get a
    // compressed code
    assert_eq!(nvc0_choose_pte_kind(fmt(4, color), 1, true), 0xfe);
    assert_eq!(nvc0_choose_pte_kind(fmt(2, color), 1, false), 0xfe);
    assert_eq!(nvc0_choose_pte_kind(fmt(1, color), 4, true), 0xfe);
}

#[test]
fn generation_dispatch() {
    let z16 = fmt(2, DepthStencilFormat::Z16);
    assert_eq!(choose_pte_kind(&DeviceInfo { cls_eng3d: CLS_TURING_A }, z16, 1, false), 0x01);
    assert_eq!(choose_pte_kind(&DeviceInfo { cls_eng3d: 0xD097 }, z16, 1, false), 0x01);
    // a pre-Turing class uses the legacy table
    assert_eq!(choose_pte_kind(&DeviceInfo { cls_eng3d: CLS_FERMI_A }, z16, 4, true), 0x04);
    let color32 = fmt(4, DepthStencilFormat::NotDepthStencil);
    assert_eq!(choose_pte_kind(&DeviceInfo { cls_eng3d: CLS_FERMI_A }, color32, 1, false), 0xfe);
    assert_eq!(choose_pte_kind(&DeviceInfo { cls_eng3d: CLS_TURING_A }, color32, 1, false), 0);
}
