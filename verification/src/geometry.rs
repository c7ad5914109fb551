use vstd::prelude::*;

verus! {

/// Saturating `u16` addition, as a mathematical function.
pub open spec fn sat_add(a: int, b: int) -> u16 {
    if a + b > u16::MAX {
        u16::MAX
    } else if a + b < 0 {
        0
    } else {
        (a + b) as u16
    }
}

/// Saturating `u16` subtraction, as a mathematical function.
pub open spec fn sat_sub(a: int, b: int) -> u16 {
    if a - b < 0 {
        0
    } else if a - b > u16::MAX {
        u16::MAX
    } else {
        (a - b) as u16
    }
}

/// A rectangle of terminal cells: `x`, `y` of its top-left cell, and its size.
#[derive(Clone, Copy, Debug, PartialEq, Eq, Structural)]
pub struct Rect {
    pub x: u16,
    pub y: u16,
    pub width: u16,
    pub height: u16,
}

/// The rectangle that `Rect::new` builds: the size is clipped so that the far
/// edges stay within `u16`.
pub open spec fn rect_new(x: u16, y: u16, width: u16, height: u16) -> Rect {
    Rect {
        x,
        y,
        width: (sat_add(x as int, width as int) - x) as u16,
        height: (sat_add(y as int, height as int) - y) as u16,
    }
}

impl Rect {
    pub open spec fn right_spec(self) -> u16 {
        sat_add(self.x as int, self.width as int)
    }

    pub open spec fn bottom_spec(self) -> u16 {
        sat_add(self.y as int, self.height as int)
    }

    pub open spec fn is_empty_spec(self) -> bool {
        self.width == 0 || self.height == 0
    }

    pub open spec fn contains_spec(self, px: u16, py: u16) -> bool {
        &&& px >= self.x
        &&& px < self.right_spec()
        &&& py >= self.y
        &&& py < self.bottom_spec()
    }

    /// The rectangle one cell inside each edge, or the zero rectangle when this
    /// one is too small for that.
    pub open spec fn inner_one_spec(self) -> Rect {
        if self.width < 2 || self.height < 2 {
            Rect { x: 0, y: 0, width: 0, height: 0 }
        } else {
            Rect {
                x: sat_add(self.x as int, 1),
                y: sat_add(self.y as int, 1),
                width: (self.width - 2) as u16,
                height: (self.height - 2) as u16,
            }
        }
    }

    pub fn new(x: u16, y: u16, width: u16, height: u16) -> (r: Rect)
        ensures
            r == rect_new(x, y, width, height),
    {
        Rect {
            x,
            y,
            width: x.saturating_add(width) - x,
            height: y.saturating_add(height) - y,
        }
    }

    pub fn zero() -> (r: Rect)
        ensures
            r == (Rect { x: 0, y: 0, width: 0, height: 0 }),
    {
        Rect { x: 0, y: 0, width: 0, height: 0 }
    }

    /// The first column to the right of the rectangle, clipped to `u16::MAX`.
    #[verifier::when_used_as_spec(right_spec)]
    pub fn right(self) -> (r: u16)
        ensures
            r == self.right_spec(),
    {
        self.x.saturating_add(self.width)
    }

    /// The first row below the rectangle, clipped to `u16::MAX`.
    #[verifier::when_used_as_spec(bottom_spec)]
    pub fn bottom(self) -> (r: u16)
        ensures
            r == self.bottom_spec(),
    {
        self.y.saturating_add(self.height)
    }

    #[verifier::when_used_as_spec(is_empty_spec)]
    pub fn is_empty(self) -> (r: bool)
        ensures
            r == self.is_empty_spec(),
    {
        self.width == 0 || self.height == 0
    }

    #[verifier::when_used_as_spec(contains_spec)]
    pub fn contains(self, px: u16, py: u16) -> (r: bool)
        ensures
            r == self.contains_spec(px, py),
    {
        px >= self.x && px < self.right() && py >= self.y && py < self.bottom()
    }

    /// The rectangle inside a one-cell border.
    #[verifier::when_used_as_spec(inner_one_spec)]
    pub fn inner_one(self) -> (r: Rect)
        ensures
            r == self.inner_one_spec(),
    {
        if self.width < 2 || self.height < 2 {
            Rect { x: 0, y: 0, width: 0, height: 0 }
        } else {
            Rect {
                x: self.x.saturating_add(1),
                y: self.y.saturating_add(1),
                width: self.width - 2,
                height: self.height - 2,
            }
        }
    }
}

} // verus!
