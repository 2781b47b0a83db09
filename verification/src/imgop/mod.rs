pub mod fuji_rotate;
pub mod xyz;

use vstd::prelude::*;

verus! {

/// Width and height of an image, in pixels.
#[derive(Debug, Clone, Copy, PartialEq, Eq, Structural)]
pub struct Dim2 {
    pub w: usize,
    pub h: usize,
}

impl Dim2 {
    pub fn new(w: usize, h: usize) -> (d: Dim2)
        ensures
            d.w == w,
            d.h == h,
    {
        Dim2 { w, h }
    }
}

} // verus!
