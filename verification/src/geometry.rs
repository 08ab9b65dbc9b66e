//! Native geometry: the rectangle that a window measurement yields and the
//! signed size that a resize request takes.

use crate::size::{Extent, Size};
use vstd::prelude::*;

verus! {

/// The four edges of a rectangle, as mathematical integers.
pub struct Edges {
    pub left: int,
    pub top: int,
    pub right: int,
    pub bottom: int,
}

impl Edges {
    /// Whether the right edge is not left of the left edge, and the bottom
    /// edge not above the top edge.
    pub open spec fn ordered(self) -> bool {
        self.left <= self.right && self.top <= self.bottom
    }

    /// The extent between the edges; meaningful only when `self.ordered()`.
    pub open spec fn extent(self) -> Extent
        recommends
            self.ordered(),
    {
        Extent {
            width: (self.right - self.left) as nat,
            height: (self.bottom - self.top) as nat,
        }
    }
}

/// A rectangle in device pixels whose edges are ordered.
#[derive(Debug, Copy, Clone, PartialEq, Eq, Structural)]
pub struct Rect {
    left: i32,
    top: i32,
    right: i32,
    bottom: i32,
}

impl View for Rect {
    type V = Edges;

    closed spec fn view(&self) -> Edges {
        Edges {
            left: self.left as int,
            top: self.top as int,
            right: self.right as int,
            bottom: self.bottom as int,
        }
    }
}

impl Rect {
    #[verifier::type_invariant]
    spec fn edges_ordered(self) -> bool {
        self.left <= self.right && self.top <= self.bottom
    }

    /// The rectangle with the given edges, or `None` when they are not
    /// ordered.
    pub fn new(left: i32, top: i32, right: i32, bottom: i32) -> (r: Option<Rect>)
        ensures
            r is Some <==> left <= right && top <= bottom,
            r matches Some(rect) ==> rect@ == (Edges {
                left: left as int,
                top: top as int,
                right: right as int,
                bottom: bottom as int,
            }),
    {
        if left <= right && top <= bottom {
            Some(Rect { left, top, right, bottom })
        } else {
            None
        }
    }
}

impl From<Rect> for Size {
    /// The extent of a rectangle.
    fn from(v: Rect) -> (r: Size)
        ensures
            r@ == v@.extent(),
    {
        proof {
            use_type_invariant(&v);
        }
        Size {
            x: (v.right as i64 - v.left as i64) as usize,
            y: (v.bottom as i64 - v.top as i64) as usize,
        }
    }
}

impl vstd::std_specs::convert::FromSpecImpl<Rect> for Size {
    open spec fn obeys_from_spec() -> bool {
        true
    }

    open spec fn from_spec(v: Rect) -> Size {
        Size { x: (v@.right - v@.left) as usize, y: (v@.bottom - v@.top) as usize }
    }
}

/// A size as a native resize request takes it: two signed 32-bit fields.
#[derive(Debug, Copy, Clone, PartialEq, Eq, Structural)]
pub struct NativeSize {
    pub cx: i32,
    pub cy: i32,
}

impl From<Size> for NativeSize {
    /// Keeps the low 32 bits of each component. Where the size fits the
    /// native fields, they hold exactly its width and height.
    fn from(v: Size) -> (r: NativeSize)
        ensures
            v@.fits_native() ==> r.cx == v.x && r.cy == v.y,
    {
        NativeSize { cx: v.x as i32, cy: v.y as i32 }
    }
}

impl vstd::std_specs::convert::FromSpecImpl<Size> for NativeSize {
    open spec fn obeys_from_spec() -> bool {
        true
    }

    open spec fn from_spec(v: Size) -> NativeSize {
        NativeSize { cx: v.x as i32, cy: v.y as i32 }
    }
}

} // verus!
