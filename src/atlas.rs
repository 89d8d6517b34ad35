//! Atlas dimensions and the rule that picks a new atlas size when the glyph
//! cache reports that its texture is too small.
use vstd::prelude::*;

verus! {

/// Width and height of a texture, in pixels.
#[derive(Clone, Copy, Debug, PartialEq, Eq, Structural)]
pub struct Dimensions {
    pub width: u32,
    pub height: u32,
}

impl Dimensions {
    pub fn new(width: u32, height: u32) -> (r: Dimensions)
        ensures
            r.width == width,
            r.height == height,
    {
        Dimensions { width, height }
    }

    /// Width and height as a pair, the form the glyph cache uses.
    pub fn as_pair(&self) -> (r: (u32, u32))
        ensures
            r == (self.width, self.height),
    {
        (self.width, self.height)
    }
}

/// Either side of `d` is larger than `cap`.
pub open spec fn exceeds(d: Dimensions, cap: u32) -> bool {
    d.width > cap || d.height > cap
}

/// Either side of `d` is smaller than `cap`.
pub open spec fn below(d: Dimensions, cap: u32) -> bool {
    d.width < cap || d.height < cap
}

/// Each side of `a` is at most the same side of `b`.
pub open spec fn fits_within(a: Dimensions, b: Dimensions) -> bool {
    a.width <= b.width && a.height <= b.height
}

/// The size an atlas of size `current` is grown to when the cache suggests
/// `suggested` and the device allows textures of at most `cap` per side.
///
/// A suggestion beyond the device limit is clamped to a square of the limit
/// while the atlas can still grow to it; otherwise the suggestion is taken as
/// it is.
pub open spec fn resize_target_spec(suggested: Dimensions, current: Dimensions, cap: u32) -> Dimensions {
    if exceeds(suggested, cap) && below(current, cap) {
        Dimensions { width: cap, height: cap }
    } else {
        suggested
    }
}

/// Picks the size to resize the atlas and its texture to, given the cache's
/// suggestion, the current atlas size and the device's largest 2D texture side.
pub fn resize_target(suggested: Dimensions, current: Dimensions, cap: u32) -> (r: Dimensions)
    ensures
        r == resize_target_spec(suggested, current, cap),
{
    let too_large = suggested.width > cap || suggested.height > cap;
    let can_grow = current.width < cap || current.height < cap;
    if too_large && can_grow {
        Dimensions { width: cap, height: cap }
    } else {
        suggested
    }
}

/// Either both sides of `d` are within `cap`, or both are at least `cap`:
/// the sizes an atlas goes through while it is grown by `resize_target_spec`
/// from a size within the device limit.
pub open spec fn on_one_side_of_cap(d: Dimensions, cap: u32) -> bool {
    (d.width <= cap && d.height <= cap) || (d.width >= cap && d.height >= cap)
}

/// The atlas never shrinks on a retry: when the cache suggests at least the
/// current size, each side of the new size is at least the same side of the
/// current one. The new size again lies within the device limit or at least
/// at it on both sides, so the law holds on every retry of a draw that starts
/// from such a size.
pub proof fn lemma_resize_never_shrinks(suggested: Dimensions, current: Dimensions, cap: u32)
    requires
        fits_within(current, suggested),
        on_one_side_of_cap(current, cap),
    ensures
        fits_within(current, resize_target_spec(suggested, current, cap)),
        on_one_side_of_cap(resize_target_spec(suggested, current, cap), cap),
{
}

} // verus!
