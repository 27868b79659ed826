//! The value-level half of the GPU palettization path: packing colors into
//! the 32-bit buffer layout the compute kernel reads, sizing the dispatch
//! grid, and translating the palette indices the kernel writes back into
//! colors. The device handling and the dispatch itself live outside the
//! library; everything they hand in or take out is checked here.

use vstd::prelude::*;
use crate::color::Color;

verus! {

/// The edge length of one square compute workgroup, in pixels.
pub const WORKGROUP_COMPONENT_SIZE: u32 = 8;

/// A color packed for the kernel: red in the low byte, then green, then
/// blue.
pub open spec fn packed_color_spec(c: Color) -> int {
    c.r + 256 * c.g + 65536 * c.b
}

/// Packs a list of colors into the flat 32-bit layout the kernel reads.
pub fn colors_as_vec_u32(colors: &Vec<Color>) -> (r: Vec<u32>)
    ensures
        r@.len() == colors@.len(),
        forall|i: int|
            0 <= i < colors@.len() ==> r@[i] == packed_color_spec(#[trigger] colors@[i]),
{
    let mut out: Vec<u32> = Vec::with_capacity(colors.len());
    let mut i: usize = 0;
    while i < colors.len()
        invariant
            0 <= i <= colors@.len(),
            out@.len() == i,
            forall|j: int|
                0 <= j < i ==> out@[j] == packed_color_spec(#[trigger] colors@[j]),
        decreases colors@.len() - i,
    {
        let c = &colors[i];
        out.push((c.r as u32) + 256 * (c.g as u32) + 65536 * (c.b as u32));
        i = i + 1;
    }
    out
}

/// How many workgroups cover an extent of the given length: the length
/// divided by the workgroup edge, rounded up.
pub open spec fn dispatch_extent_spec(length: int) -> int {
    (length + 7) / 8
}

/// Computes the 2-D dispatch grid that covers an image of the given
/// dimensions.
pub fn dispatch_dimensions(width: u32, height: u32) -> (r: (u32, u32))
    requires
        width <= 0xFFFF_FFF8,
        height <= 0xFFFF_FFF8,
    ensures
        r.0 == dispatch_extent_spec(width as int),
        r.1 == dispatch_extent_spec(height as int),
{
    ((width + (WORKGROUP_COMPONENT_SIZE - 1)) / WORKGROUP_COMPONENT_SIZE, (height
        + (WORKGROUP_COMPONENT_SIZE - 1)) / WORKGROUP_COMPONENT_SIZE)
}

/// Translates the palette indices a kernel run wrote back into colors;
/// `None` exactly when some index lies outside the palette, which marks a
/// kernel or buffer-layout fault.
pub fn colors_from_indices(indices: &Vec<u32>, pallet: &Vec<Color>) -> (r: Option<Vec<Color>>)
    ensures
        match r {
            Some(v) => v@.len() == indices@.len() && (forall|i: int|
                0 <= i < indices@.len() ==> (#[trigger] indices@[i]) < pallet@.len() && v@[i]
                    == pallet@[indices@[i] as int]),
            None => exists|i: int|
                0 <= i < indices@.len() && (#[trigger] indices@[i]) >= pallet@.len(),
        },
{
    let mut out: Vec<Color> = Vec::with_capacity(indices.len());
    let mut i: usize = 0;
    while i < indices.len()
        invariant
            0 <= i <= indices@.len(),
            out@.len() == i,
            forall|j: int|
                0 <= j < i ==> (#[trigger] indices@[j]) < pallet@.len() && out@[j]
                    == pallet@[indices@[j] as int],
        decreases indices@.len() - i,
    {
        let idx = indices[i] as usize;
        if idx >= pallet.len() {
            return None;
        }
        out.push(pallet[idx]);
        i = i + 1;
    }
    Some(out)
}

/// Translates indices from the biased index space back into colors: an
/// index below the biased palette's length picks from it, the rest
/// continue into the standard palette. `None` exactly when some index
/// lies outside both palettes.
pub fn colors_from_indices_biased(
    indices: &Vec<u32>,
    biased_pallet: &Vec<Color>,
    standard_pallet: &Vec<Color>,
) -> (r: Option<Vec<Color>>)
    ensures
        match r {
            Some(v) => v@.len() == indices@.len() && (forall|i: int|
                0 <= i < indices@.len() ==> (#[trigger] indices@[i]) < biased_pallet@.len()
                    + standard_pallet@.len() && v@[i] == (if indices@[i] < biased_pallet@.len() {
                    biased_pallet@[indices@[i] as int]
                } else {
                    standard_pallet@[indices@[i] - biased_pallet@.len()]
                })),
            None => exists|i: int|
                0 <= i < indices@.len() && (#[trigger] indices@[i]) >= biased_pallet@.len()
                    + standard_pallet@.len(),
        },
{
    let mut out: Vec<Color> = Vec::with_capacity(indices.len());
    let mut i: usize = 0;
    while i < indices.len()
        invariant
            0 <= i <= indices@.len(),
            out@.len() == i,
            forall|j: int|
                0 <= j < i ==> (#[trigger] indices@[j]) < biased_pallet@.len()
                    + standard_pallet@.len() && out@[j] == (if indices@[j]
                    < biased_pallet@.len() {
                    biased_pallet@[indices@[j] as int]
                } else {
                    standard_pallet@[indices@[j] - biased_pallet@.len()]
                }),
        decreases indices@.len() - i,
    {
        let idx = indices[i] as usize;
        if idx < biased_pallet.len() {
            out.push(biased_pallet[idx]);
        } else if idx - biased_pallet.len() < standard_pallet.len() {
            out.push(standard_pallet[idx - biased_pallet.len()]);
        } else {
            return None;
        }
        i = i + 1;
    }
    Some(out)
}

} // verus!
