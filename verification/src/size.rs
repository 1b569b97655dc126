//! Viewport sizes, clamped for surface configuration.

use vstd::prelude::*;

verus! {

/// A viewport extent in pixels.
///
/// Surface configuration demands strictly positive dimensions, so both
/// components are clamped to at least 1 when a size is built from the
/// window's reported client area (which can be 0 wide or 0 tall, for a
/// minimized or degenerate window).
#[derive(Clone, Copy, Debug, PartialEq, Eq, Structural)]
pub struct Size {
    pub width: u32,
    pub height: u32,
}

impl Size {
    /// Both components strictly positive, as surface configuration requires.
    pub open spec fn wf(self) -> bool {
        self.width >= 1 && self.height >= 1
    }

    /// The effective size for a reported client-area extent: each zero
    /// component becomes 1, every other value is kept.
    pub open spec fn clamped(width: u32, height: u32) -> Size {
        Size {
            width: if width == 0 { 1 } else { width },
            height: if height == 0 { 1 } else { height },
        }
    }

    /// Clamp a reported client-area extent to a usable viewport size.
    pub fn new(width: u32, height: u32) -> (s: Size)
        ensures
            s == Size::clamped(width, height),
            s.wf(),
    {
        let width = if width == 0 { 1 } else { width };
        let height = if height == 0 { 1 } else { height };
        Size { width, height }
    }
}

/// Law (clamping): for every reported client-area extent, the effective
/// viewport size is exactly (max(width, 1), max(height, 1)), and it is
/// always well formed.
pub proof fn lemma_clamping(width: u32, height: u32)
    ensures
        Size::clamped(width, height).width == vstd::math::max(width as int, 1),
        Size::clamped(width, height).height == vstd::math::max(height as int, 1),
        Size::clamped(width, height).wf(),
{
}

} // verus!
