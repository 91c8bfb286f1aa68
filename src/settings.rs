//! What a rendered page is valid for: the document it came from and the
//! configuration it was rendered with.

use vstd::prelude::*;

verus! {

/// Scale and viewport with which a page is rasterized.
///
/// A scale is held as the bit pattern of its `f32` value (`f32::to_bits`), so
/// that two configurations are equal exactly when they were built from the
/// same numbers.
#[derive(Clone, Copy, Debug, PartialEq, Eq, Structural)]
pub struct RenderSettings2 {
    /// Bit pattern of the horizontal scale factor.
    pub x_scale_bits: u32,
    /// Bit pattern of the vertical scale factor.
    pub y_scale_bits: u32,
    /// Width of the viewport; `None` lets the rasterizer derive it from the scale.
    pub width: Option<u16>,
    /// Height of the viewport; `None` lets the rasterizer derive it from the scale.
    pub height: Option<u16>,
}

/// Bit pattern of the `f32` value `1.0`.
pub const UNIT_SCALE_BITS: u32 = 0x3f80_0000;

impl RenderSettings2 {
    /// Unit scale in both directions, with the viewport chosen by the rasterizer.
    pub open spec fn spec_default() -> Self {
        RenderSettings2 {
            x_scale_bits: UNIT_SCALE_BITS,
            y_scale_bits: UNIT_SCALE_BITS,
            width: None,
            height: None,
        }
    }
}

impl Default for RenderSettings2 {
    fn default() -> (r: Self)
        ensures
            r == Self::spec_default(),
    {
        RenderSettings2 {
            x_scale_bits: UNIT_SCALE_BITS,
            y_scale_bits: UNIT_SCALE_BITS,
            width: None,
            height: None,
        }
    }
}

/// The identity of a loaded document and the number of pages it has.
///
/// `identity` tells two documents apart while both are alive (the address of a
/// shared handle, say); it says nothing of their content.
#[derive(Clone, Copy, Debug, PartialEq, Eq, Structural)]
pub struct DocumentKey {
    pub identity: usize,
    pub page_count: usize,
}

/// Number of page slots that a cache holds for `pdf`.
pub open spec fn slot_count(pdf: Option<DocumentKey>) -> nat {
    match pdf {
        Some(d) => d.page_count as nat,
        None => 0,
    }
}

} // verus!
