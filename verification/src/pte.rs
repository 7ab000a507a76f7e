//! Page-table-entry kind selection: per-generation lookup tables mapping a
//! format, sample count and compression flag to the tag the GPU memory
//! controller stores in each page-table entry. The tables encode fixed
//! hardware constants and are reproduced literally.

use vstd::prelude::*;
use crate::format::{DepthStencilFormat, Format};

verus! {

/// The device capability the PTE tables dispatch on: the hardware class of
/// the 3-D engine.
#[derive(Clone, Copy, Debug, PartialEq, Eq, Structural)]
pub struct DeviceInfo {
    pub cls_eng3d: u16,
}

/// Hardware class of the first Turing-generation 3-D engine; this class and
/// later ones use the modern PTE-kind table.
pub const CLS_TURING_A: u16 = 0xC597;

/// Hardware class of the first Fermi-generation 3-D engine; classes from
/// here up to Turing use the legacy PTE-kind table. Earlier classes are
/// unsupported.
pub const CLS_FERMI_A: u16 = 0x9097;

/// The sample counts the hardware supports.
pub open spec fn valid_sample_count(samples: u32) -> bool {
    samples == 1 || samples == 2 || samples == 4 || samples == 8 || samples == 16
}

/// log2 of a supported sample count.
pub open spec fn samples_log2(samples: u32) -> int {
    if samples == 1 {
        0
    } else if samples == 2 {
        1
    } else if samples == 4 {
        2
    } else if samples == 8 {
        3
    } else {
        4
    }
}

/// The modern-generation table: depth/stencil families map to small fixed
/// codes (with a distinct compressible variant each), plain 32-bit float
/// depth to one fixed code, and everything else to the default kind 0.
pub open spec fn tu102_pte_kind_spec(format: Format, compressed: bool) -> u8 {
    match format.depth_stencil {
        DepthStencilFormat::Z16 => if compressed {
            0x0b
        } else {
            0x01
        },
        DepthStencilFormat::Z24S8 => if compressed {
            0x0e
        } else {
            0x05
        },
        DepthStencilFormat::S8Z24 => if compressed {
            0x0c
        } else {
            0x03
        },
        DepthStencilFormat::Zf32S8 => if compressed {
            0x0d
        } else {
            0x04
        },
        DepthStencilFormat::Zf32 => 0x06,
        DepthStencilFormat::NotDepthStencil => 0,
    }
}

/// The legacy-generation table: depth/stencil base codes offset by
/// log2(samples) when compressed; color formats resolved by element
/// bit-width, where 32-bit elements at one sample deliberately never get a
/// compressed code (a documented hardware carve-out, reproduced as-is).
pub open spec fn nvc0_pte_kind_spec(format: Format, samples: u32, compressed: bool) -> u8 {
    let ms = samples_log2(samples);
    match format.depth_stencil {
        DepthStencilFormat::Z16 => if compressed {
            (0x02 + ms) as u8
        } else {
            0x01
        },
        DepthStencilFormat::Z24S8 => if compressed {
            (0x51 + ms) as u8
        } else {
            0x46
        },
        DepthStencilFormat::S8Z24 => if compressed {
            (0x17 + ms) as u8
        } else {
            0x11
        },
        DepthStencilFormat::Zf32S8 => if compressed {
            (0xce + ms) as u8
        } else {
            0xc3
        },
        _ => {
            if format.el_size_B == 16 {
                if compressed {
                    (0xf4 + ms * 2) as u8
                } else {
                    0xfe
                }
            } else if format.el_size_B == 8 {
                if compressed {
                    if samples == 1 {
                        0xe6
                    } else if samples == 2 {
                        0xeb
                    } else if samples == 4 {
                        0xed
                    } else {
                        0xf2
                    }
                } else {
                    0xfe
                }
            } else if format.el_size_B == 4 {
                if compressed && ms != 0 {
                    if samples == 2 {
                        0xdd
                    } else if samples == 4 {
                        0xdf
                    } else if samples == 8 {
                        0xe4
                    } else {
                        0
                    }
                } else {
                    0xfe
                }
            } else {
                0xfe
            }
        },
    }
}

/// The PTE kind for a format/sample/compression combination on a device:
/// Turing-class and later engines use the modern table, Fermi through
/// pre-Turing the legacy one; earlier classes are unsupported (excluded by
/// `requires`).
pub open spec fn choose_pte_kind_spec(
    dev: DeviceInfo,
    format: Format,
    samples: u32,
    compressed: bool,
) -> u8 {
    if dev.cls_eng3d >= CLS_TURING_A {
        tu102_pte_kind_spec(format, compressed)
    } else {
        nvc0_pte_kind_spec(format, samples, compressed)
    }
}

/// Modern-generation PTE-kind lookup.
pub fn tu102_choose_pte_kind(format: Format, compressed: bool) -> (r: u8)
    ensures
        r == tu102_pte_kind_spec(format, compressed),
{
    match format.depth_stencil {
        DepthStencilFormat::Z16 => if compressed {
            0x0b
        } else {
            0x01
        },
        DepthStencilFormat::Z24S8 => if compressed {
            0x0e
        } else {
            0x05
        },
        DepthStencilFormat::S8Z24 => if compressed {
            0x0c
        } else {
            0x03
        },
        DepthStencilFormat::Zf32S8 => if compressed {
            0x0d
        } else {
            0x04
        },
        DepthStencilFormat::Zf32 => 0x06,
        DepthStencilFormat::NotDepthStencil => 0,
    }
}

/// Legacy-generation PTE-kind lookup. 64-bit elements have no compressed
/// code at 16 samples (the hardware does not support that combination), so
/// that input is excluded.
pub fn nvc0_choose_pte_kind(format: Format, samples: u32, compressed: bool) -> (r: u8)
    requires
        format.wf(),
        valid_sample_count(samples),
        !(compressed && format.depth_stencil == DepthStencilFormat::NotDepthStencil
            && format.el_size_B == 8 && samples == 16),
    ensures
        r == nvc0_pte_kind_spec(format, samples, compressed),
{
    let ms: u8 = if samples == 1 {
        0
    } else if samples == 2 {
        1
    } else if samples == 4 {
        2
    } else if samples == 8 {
        3
    } else {
        4
    };
    match format.depth_stencil {
        DepthStencilFormat::Z16 => if compressed {
            0x02 + ms
        } else {
            0x01
        },
        DepthStencilFormat::Z24S8 => if compressed {
            0x51 + ms
        } else {
            0x46
        },
        DepthStencilFormat::S8Z24 => if compressed {
            0x17 + ms
        } else {
            0x11
        },
        DepthStencilFormat::Zf32S8 => if compressed {
            0xce + ms
        } else {
            0xc3
        },
        _ => {
            if format.el_size_B == 16 {
                if compressed {
                    0xf4 + ms * 2
                } else {
                    0xfe
                }
            } else if format.el_size_B == 8 {
                if compressed {
                    if samples == 1 {
                        0xe6
                    } else if samples == 2 {
                        0xeb
                    } else if samples == 4 {
                        0xed
                    } else {
                        0xf2
                    }
                } else {
                    0xfe
                }
            } else if format.el_size_B == 4 {
                if compressed && ms != 0 {
                    if samples == 2 {
                        0xdd
                    } else if samples == 4 {
                        0xdf
                    } else if samples == 8 {
                        0xe4
                    } else {
                        0
                    }
                } else {
                    0xfe
                }
            } else {
                0xfe
            }
        },
    }
}

/// Per-generation PTE-kind dispatch. A 3-D engine class below Fermi is a
/// fatal configuration error, excluded by `requires`.
pub fn choose_pte_kind(dev: &DeviceInfo, format: Format, samples: u32, compressed: bool) -> (r:
    u8)
    requires
        dev.cls_eng3d >= CLS_FERMI_A,
        format.wf(),
        valid_sample_count(samples),
        dev.cls_eng3d < CLS_TURING_A ==> !(compressed && format.depth_stencil
            == DepthStencilFormat::NotDepthStencil && format.el_size_B == 8 && samples == 16),
    ensures
        r == choose_pte_kind_spec(*dev, format, samples, compressed),
{
    if dev.cls_eng3d >= CLS_TURING_A {
        tu102_choose_pte_kind(format, compressed)
    } else {
        nvc0_choose_pte_kind(format, samples, compressed)
    }
}

} // verus!
