pub mod color;
pub mod gr;
pub mod hgr;
pub mod text;

use vstd::prelude::*;

verus! {

/// Width of a rendered frame in dots.
pub const W: usize = 280;

/// Height of a rendered frame in dots.
pub const H: usize = 192;

/// Pack an sRGB triple into the 0x00RRGGBB pixel format framebuffers
/// take.
pub fn pack_rgb(rgb: [u8; 3]) -> (r: u32)
    ensures
        r == rgb@[0] * 0x10000 + rgb@[1] * 0x100 + rgb@[2],
{
    let arr: &[u8] = rgb.as_slice();
    let r0 = *vstd::slice::slice_index_get(arr, 0);
    let g = *vstd::slice::slice_index_get(arr, 1);
    let b = *vstd::slice::slice_index_get(arr, 2);
    r0 as u32 * 0x10000 + g as u32 * 0x100 + b as u32
}

} // verus!
