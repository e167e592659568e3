//! Pixels of the tray icon: a solid red square.

use vstd::prelude::*;

verus! {

/// Width and height of the tray icon in pixels.
pub const ICON_SIZE: u32 = 32;

/// RGBA bytes of `n` opaque red pixels.
pub open spec fn red_pixels(n: nat) -> Seq<u8>
    decreases n,
{
    if n == 0 {
        Seq::empty()
    } else {
        red_pixels((n - 1) as nat) + seq![255u8, 0u8, 0u8, 255u8]
    }
}

/// Row-major RGBA bytes of a `width` by `height` opaque red square.
pub fn icon_rgba(width: u32, height: u32) -> (r: Vec<u8>)
    requires
        width * height * 4 <= usize::MAX,
    ensures
        r@ == red_pixels((width * height) as nat),
        r@.len() == width * height * 4,
{
    let n: usize = (width as usize) * (height as usize);
    let mut v: Vec<u8> = Vec::with_capacity(n * 4);
    let mut p: usize = 0;
    while p < n
        invariant
            n == width * height,
            n * 4 <= usize::MAX,
            p <= n,
            v@ == red_pixels(p as nat),
            v@.len() == p * 4,
        decreases n - p,
    {
        v.push(255);
        v.push(0);
        v.push(0);
        v.push(255);
        assert(v@ =~= red_pixels(p as nat + 1));
        p = p + 1;
    }
    v
}

} // verus!
