//! The `Size` value: a two-dimensional extent in device pixels, with its
//! arithmetic, its text form and its conversions from and to native geometry.

use crate::text::{decimal_digits, format_decimal};
use vstd::prelude::*;
use vstd::string::*;

verus! {

/// The mathematical extent that a [`Size`] stands for.
pub struct Extent {
    pub width: nat,
    pub height: nat,
}

impl Extent {
    /// Component-wise sum.
    pub open spec fn plus(self, other: Extent) -> Extent {
        Extent { width: self.width + other.width, height: self.height + other.height }
    }

    /// Whether each component of `self` is at least that of `other`.
    pub open spec fn covers(self, other: Extent) -> bool {
        self.width >= other.width && self.height >= other.height
    }

    /// Component-wise difference; meaningful only when `self.covers(other)`.
    pub open spec fn minus(self, other: Extent) -> Extent
        recommends
            self.covers(other),
    {
        Extent {
            width: (self.width - other.width) as nat,
            height: (self.height - other.height) as nat,
        }
    }

    /// Whether both components fit a machine word.
    pub open spec fn representable(self) -> bool {
        self.width <= usize::MAX && self.height <= usize::MAX
    }

    /// Whether both components fit the signed 32-bit fields of a native size.
    pub open spec fn fits_native(self) -> bool {
        self.width <= i32::MAX && self.height <= i32::MAX
    }

    /// The size with these components; meaningful only when
    /// `self.representable()`.
    pub open spec fn to_size(self) -> Size
        recommends
            self.representable(),
    {
        Size { x: self.width as usize, y: self.height as usize }
    }

    /// The text form `<width>x<height>`, both numbers in canonical decimal.
    pub open spec fn text(self) -> Seq<char> {
        decimal_digits(self.width) + seq!['x'] + decimal_digits(self.height)
    }
}

/// A width and a height, both non-negative.
#[derive(Debug, Copy, Clone, PartialEq, Eq, Structural)]
pub struct Size {
    pub x: usize,
    pub y: usize,
}

impl View for Size {
    type V = Extent;

    open spec fn view(&self) -> Extent {
        Extent { width: self.x as nat, height: self.y as nat }
    }
}

impl Default for Size {
    /// The empty extent.
    fn default() -> (r: Size)
        ensures
            r@ == (Extent { width: 0, height: 0 }),
    {
        Size { x: 0, y: 0 }
    }
}

impl core::ops::Add for Size {
    type Output = Size;

    /// Component-wise sum. The sum of each component must fit a machine word.
    fn add(self, other: Size) -> (r: Size)
        ensures
            r@ == self@.plus(other@),
    {
        Size { x: self.x + other.x, y: self.y + other.y }
    }
}

impl vstd::std_specs::ops::AddSpecImpl for Size {
    open spec fn obeys_add_spec() -> bool {
        true
    }

    open spec fn add_req(self, other: Size) -> bool {
        self@.plus(other@).representable()
    }

    open spec fn add_spec(self, other: Size) -> Size {
        Size { x: (self.x + other.x) as usize, y: (self.y + other.y) as usize }
    }
}

impl core::ops::Sub for Size {
    type Output = Size;

    /// Component-wise difference. Each component of `self` must be at least
    /// that of `other`.
    fn sub(self, other: Size) -> (r: Size)
        ensures
            r@ == self@.minus(other@),
    {
        Size { x: self.x - other.x, y: self.y - other.y }
    }
}

impl vstd::std_specs::ops::SubSpecImpl for Size {
    open spec fn obeys_sub_spec() -> bool {
        true
    }

    open spec fn sub_req(self, other: Size) -> bool {
        self@.covers(other@)
    }

    open spec fn sub_spec(self, other: Size) -> Size {
        Size { x: (self.x - other.x) as usize, y: (self.y - other.y) as usize }
    }
}

impl Size {
    /// The sum, or `None` when a component of it does not fit a machine word.
    pub fn checked_add(self, other: Size) -> (r: Option<Size>)
        ensures
            r is Some <==> self@.plus(other@).representable(),
            r matches Some(sum) ==> sum@ == self@.plus(other@),
    {
        if other.x > usize::MAX - self.x || other.y > usize::MAX - self.y {
            None
        } else {
            Some(self + other)
        }
    }

    /// The difference, or `None` when a component of `other` exceeds that of
    /// `self`.
    pub fn checked_sub(self, other: Size) -> (r: Option<Size>)
        ensures
            r is Some <==> self@.covers(other@),
            r matches Some(rest) ==> rest@ == self@.minus(other@),
    {
        if other.x > self.x || other.y > self.y {
            None
        } else {
            Some(self - other)
        }
    }

    /// The text form `<width>x<height>`.
    pub fn to_string(&self) -> (s: String)
        ensures
            s@ == self@.text(),
    {
        let width = format_decimal(self.x);
        let height = format_decimal(self.y);
        proof {
            reveal_strlit("x");
        }
        width.concat("x").concat(height.as_str())
    }
}

} // verus!
