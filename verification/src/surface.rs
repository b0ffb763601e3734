//! Sizing and format of the drawing surface.
//!
//! A surface cannot be configured with an empty extent, and a window may well
//! report one (while minimised, for instance), so every size on its way to the
//! surface passes through [`Extent::fit`].

use vstd::prelude::*;

verus! {

/// Width and height of the drawing surface, in physical pixels.
#[derive(Clone, Copy, Debug, PartialEq, Eq, Structural)]
pub struct Extent {
    pub width: u32,
    pub height: u32,
}

/// One side of a surface for a reported side: the same length, or one pixel
/// where none was reported.
pub open spec fn fit_side(side: u32) -> u32 {
    if side == 0 {
        1
    } else {
        side
    }
}

impl Extent {
    /// Neither side is empty, so a surface of this extent can be configured.
    pub open spec fn drawable(&self) -> bool {
        self.width >= 1 && self.height >= 1
    }

    /// The drawable extent for a reported size: see [`fit_side`].
    pub open spec fn fitted(width: u32, height: u32) -> Extent {
        Extent { width: fit_side(width), height: fit_side(height) }
    }

    /// Turns the size a window reports into the extent its surface gets.
    pub fn fit(width: u32, height: u32) -> (extent: Extent)
        ensures
            extent == Self::fitted(width, height),
            extent.drawable(),
    {
        Extent { width: width.max(1), height: height.max(1) }
    }
}

/// No format on offer is sRGB.
pub open spec fn none_srgb(srgb: Seq<bool>) -> bool {
    forall|j: int| 0 <= j < srgb.len() ==> !srgb[j]
}

/// `index` is the place of the first sRGB format on offer.
pub open spec fn first_srgb(srgb: Seq<bool>, index: int) -> bool {
    &&& 0 <= index < srgb.len()
    &&& srgb[index]
    &&& forall|j: int| 0 <= j < index ==> !srgb[j]
}

/// Picks the format the surface is configured with, out of the formats it
/// supports, in the order it lists them. `srgb` says of each whether it is an
/// sRGB format. The choice is the first sRGB format, and the first format of
/// all where none is sRGB. A surface that supports no format leaves nothing to
/// choose from and is not accepted.
pub fn preferred_format(srgb: &[bool]) -> (index: usize)
    requires
        srgb@.len() > 0,
    ensures
        index < srgb@.len(),
        none_srgb(srgb@) ==> index == 0,
        !none_srgb(srgb@) ==> first_srgb(srgb@, index as int),
{
    let mut i: usize = 0;
    while i < srgb.len()
        invariant
            i <= srgb@.len(),
            forall|j: int| 0 <= j < i ==> !srgb@[j],
        decreases srgb@.len() - i,
    {
        if srgb[i] {
            return i;
        }
        i += 1;
    }
    0
}

} // verus!
