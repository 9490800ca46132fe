//! Points, extents and axis-aligned rectangles on an integer grid.

use vstd::prelude::*;

verus! {

/// Largest magnitude of a coordinate, and largest extent, that a rectangle
/// holds. Values beyond it are pulled back to it, so the far edges of a
/// rectangle are always representable.
pub const COORD_LIMIT: i64 = 0x1000_0000_0000_0000;

/// The coordinate nearest to `x` that a rectangle can hold.
pub open spec fn clamp_coord(x: int) -> int {
    if x < -COORD_LIMIT {
        -COORD_LIMIT as int
    } else if x > COORD_LIMIT {
        COORD_LIMIT as int
    } else {
        x
    }
}

/// The extent nearest to `x` that a rectangle can hold.
pub open spec fn clamp_extent(x: int) -> int {
    if x < 0 {
        0
    } else if x > COORD_LIMIT {
        COORD_LIMIT as int
    } else {
        x
    }
}

/// Pulls a wide integer back into the coordinate range.
pub fn clamp_to_coord(x: i128) -> (r: i64)
    ensures
        r == clamp_coord(x as int),
        -COORD_LIMIT <= r <= COORD_LIMIT,
{
    if x < -(COORD_LIMIT as i128) {
        -COORD_LIMIT
    } else if x > COORD_LIMIT as i128 {
        COORD_LIMIT
    } else {
        x as i64
    }
}

/// Pulls a wide integer back into the extent range.
pub fn clamp_to_extent(x: i128) -> (r: i64)
    ensures
        r == clamp_extent(x as int),
        0 <= r <= COORD_LIMIT,
{
    if x < 0 {
        0
    } else if x > COORD_LIMIT as i128 {
        COORD_LIMIT
    } else {
        x as i64
    }
}

/// A point: horizontal coordinate first, vertical second.
#[derive(Debug, Copy, Clone, PartialEq, Eq, Structural)]
pub struct Position(pub i64, pub i64);

/// An extent: width first, height second.
#[derive(Debug, Copy, Clone, PartialEq, Eq, Structural)]
pub struct RectSize(pub i64, pub i64);

impl From<(u32, u32)> for Position {
    fn from(pair: (u32, u32)) -> (p: Position) {
        Position(pair.0 as i64, pair.1 as i64)
    }
}

impl vstd::std_specs::convert::FromSpecImpl<(u32, u32)> for Position {
    open spec fn obeys_from_spec() -> bool {
        true
    }

    open spec fn from_spec(pair: (u32, u32)) -> Position {
        Position(pair.0 as i64, pair.1 as i64)
    }
}

impl From<(i64, i64)> for Position {
    fn from(pair: (i64, i64)) -> (p: Position) {
        Position(pair.0, pair.1)
    }
}

impl vstd::std_specs::convert::FromSpecImpl<(i64, i64)> for Position {
    open spec fn obeys_from_spec() -> bool {
        true
    }

    open spec fn from_spec(pair: (i64, i64)) -> Position {
        Position(pair.0, pair.1)
    }
}

impl RectSize {
    /// The extent, in micro-pixels, of a picture whose width and height are
    /// given in whole pixels.
    pub open spec fn spec_from_pixels(pair: (u32, u32)) -> RectSize {
        RectSize((pair.0 * 1_000_000) as i64, (pair.1 * 1_000_000) as i64)
    }

    pub fn from_pixels(pair: (u32, u32)) -> (s: RectSize)
        ensures
            s == RectSize::spec_from_pixels(pair),
            0 <= s.0 <= COORD_LIMIT,
            0 <= s.1 <= COORD_LIMIT,
    {
        RectSize((pair.0 as i64) * 1_000_000, (pair.1 as i64) * 1_000_000)
    }

}

impl From<(u32, u32)> for RectSize {
    fn from(pair: (u32, u32)) -> (s: RectSize) {
        RectSize(pair.0 as i64, pair.1 as i64)
    }
}

impl vstd::std_specs::convert::FromSpecImpl<(u32, u32)> for RectSize {
    open spec fn obeys_from_spec() -> bool {
        true
    }

    open spec fn from_spec(pair: (u32, u32)) -> RectSize {
        RectSize(pair.0 as i64, pair.1 as i64)
    }
}

/// An axis-aligned rectangle, held as its top-left corner and its size.
#[derive(Debug, Copy, Clone, PartialEq, Eq, Structural)]
pub struct Rect {
    pub topleft: Position,
    pub size: RectSize,
}

impl Rect {
    /// Corner within the coordinate range, size within the extent range.
    pub open spec fn wf(&self) -> bool {
        &&& -COORD_LIMIT <= self.topleft.0 <= COORD_LIMIT
        &&& -COORD_LIMIT <= self.topleft.1 <= COORD_LIMIT
        &&& 0 <= self.size.0 <= COORD_LIMIT
        &&& 0 <= self.size.1 <= COORD_LIMIT
    }

    pub open spec fn spec_left(&self) -> int {
        self.topleft.0 as int
    }

    pub open spec fn spec_top(&self) -> int {
        self.topleft.1 as int
    }

    pub open spec fn spec_width(&self) -> int {
        self.size.0 as int
    }

    pub open spec fn spec_height(&self) -> int {
        self.size.1 as int
    }

    pub open spec fn spec_right(&self) -> int {
        self.topleft.0 + self.size.0
    }

    pub open spec fn spec_bottom(&self) -> int {
        self.topleft.1 + self.size.1
    }

    /// The rectangle with the given corner and size, each pulled into range.
    pub open spec fn spec_new(left: int, top: int, width: int, height: int) -> Rect {
        Rect {
            topleft: Position(clamp_coord(left) as i64, clamp_coord(top) as i64),
            size: RectSize(clamp_extent(width) as i64, clamp_extent(height) as i64),
        }
    }

    /// The middle of the rectangle, each coordinate rounded down.
    pub open spec fn spec_center(&self) -> Position {
        Position(
            (self.topleft.0 + self.size.0 / 2) as i64,
            (self.topleft.1 + self.size.1 / 2) as i64,
        )
    }

    /// The middle of the right edge, rounded down.
    pub open spec fn spec_midright(&self) -> Position {
        Position((self.topleft.0 + self.size.0) as i64, (self.topleft.1 + self.size.1 / 2) as i64)
    }

    /// Inclusive overlap: rectangles that merely touch do overlap.
    pub open spec fn spec_overlaps(&self, other: &Rect) -> bool {
        &&& self.spec_left() <= other.spec_right()
        &&& other.spec_left() <= self.spec_right()
        &&& self.spec_top() <= other.spec_bottom()
        &&& other.spec_top() <= self.spec_bottom()
    }

    /// Every point of `self` lies within `outer`.
    pub open spec fn spec_inside(&self, outer: &Rect) -> bool {
        &&& outer.spec_left() <= self.spec_left()
        &&& self.spec_right() <= outer.spec_right()
        &&& outer.spec_top() <= self.spec_top()
        &&& self.spec_bottom() <= outer.spec_bottom()
    }

    /// Whether the rectangle is well formed. One that `new` made and the
    /// methods changed always is.
    pub fn is_wf(&self) -> (r: bool)
        ensures
            r == self.wf(),
    {
        -COORD_LIMIT <= self.topleft.0 && self.topleft.0 <= COORD_LIMIT && -COORD_LIMIT
            <= self.topleft.1 && self.topleft.1 <= COORD_LIMIT && 0 <= self.size.0 && self.size.0
            <= COORD_LIMIT && 0 <= self.size.1 && self.size.1 <= COORD_LIMIT
    }

    /// The rectangle with the given corner and size, each pulled into
    /// range.
    pub fn new(topleft: Position, size: RectSize) -> (r: Rect)
        ensures
            r.wf(),
            r == Rect::spec_new(topleft.0 as int, topleft.1 as int, size.0 as int, size.1 as int),
    {
        Rect {
            topleft: Position(clamp_to_coord(topleft.0 as i128), clamp_to_coord(topleft.1 as i128)),
            size: RectSize(clamp_to_extent(size.0 as i128), clamp_to_extent(size.1 as i128)),
        }
    }

    pub fn set_left(&mut self, new_left: i64)
        requires
            old(self).wf(),
        ensures
            final(self).wf(),
            final(self).size == old(self).size,
            final(self).spec_top() == old(self).spec_top(),
            final(self).spec_left() == clamp_coord(new_left as int),
    {
        self.topleft.0 = clamp_to_coord(new_left as i128);
    }

    pub fn set_top(&mut self, new_top: i64)
        requires
            old(self).wf(),
        ensures
            final(self).wf(),
            final(self).size == old(self).size,
            final(self).spec_left() == old(self).spec_left(),
            final(self).spec_top() == clamp_coord(new_top as int),
    {
        self.topleft.1 = clamp_to_coord(new_top as i128);
    }

    /// Moves the rectangle so that its right edge is at `new_right`.
    pub fn set_right(&mut self, new_right: i64)
        requires
            old(self).wf(),
        ensures
            final(self).wf(),
            final(self).size == old(self).size,
            final(self).spec_top() == old(self).spec_top(),
            final(self).spec_left() == clamp_coord(new_right - old(self).spec_width()),
    {
        self.topleft.0 = clamp_to_coord(new_right as i128 - self.size.0 as i128);
    }

    /// Moves the rectangle so that its bottom edge is at `new_bottom`.
    pub fn set_bottom(&mut self, new_bottom: i64)
        requires
            old(self).wf(),
        ensures
            final(self).wf(),
            final(self).size == old(self).size,
            final(self).spec_left() == old(self).spec_left(),
            final(self).spec_top() == clamp_coord(new_bottom - old(self).spec_height()),
    {
        self.topleft.1 = clamp_to_coord(new_bottom as i128 - self.size.1 as i128);
    }

    pub fn left(&self) -> (r: i64)
        ensures
            r == self.spec_left(),
    {
        self.topleft.0
    }

    pub fn top(&self) -> (r: i64)
        ensures
            r == self.spec_top(),
    {
        self.topleft.1
    }

    pub fn width(&self) -> (r: i64)
        ensures
            r == self.spec_width(),
    {
        self.size.0
    }

    pub fn height(&self) -> (r: i64)
        ensures
            r == self.spec_height(),
    {
        self.size.1
    }

    pub fn bottom(&self) -> (r: i64)
        requires
            self.wf(),
        ensures
            r == self.spec_bottom(),
    {
        self.topleft.1 + self.size.1
    }

    pub fn right(&self) -> (r: i64)
        requires
            self.wf(),
        ensures
            r == self.spec_right(),
    {
        self.topleft.0 + self.size.0
    }

    pub fn midtop(&self) -> (p: Position)
        requires
            self.wf(),
        ensures
            p.0 == self.spec_left() + self.spec_width() / 2,
            p.1 == self.spec_top(),
    {
        Position(self.topleft.0 + self.size.0 / 2, self.topleft.1)
    }

    pub fn midbottom(&self) -> (p: Position)
        requires
            self.wf(),
        ensures
            p.0 == self.spec_left() + self.spec_width() / 2,
            p.1 == self.spec_bottom(),
    {
        Position(self.topleft.0 + self.size.0 / 2, self.topleft.1 + self.size.1)
    }

    pub fn midright(&self) -> (p: Position)
        requires
            self.wf(),
        ensures
            p == self.spec_midright(),
            p.0 == self.spec_right(),
            p.1 == self.spec_top() + self.spec_height() / 2,
    {
        Position(self.topleft.0 + self.size.0, self.topleft.1 + self.size.1 / 2)
    }

    pub fn midleft(&self) -> (p: Position)
        requires
            self.wf(),
        ensures
            p.0 == self.spec_left(),
            p.1 == self.spec_top() + self.spec_height() / 2,
    {
        Position(self.topleft.0, self.topleft.1 + self.size.1 / 2)
    }

    pub fn center(&self) -> (p: Position)
        requires
            self.wf(),
        ensures
            p == self.spec_center(),
            p.0 == self.spec_left() + self.spec_width() / 2,
            p.1 == self.spec_top() + self.spec_height() / 2,
    {
        Position(self.topleft.0 + self.size.0 / 2, self.topleft.1 + self.size.1 / 2)
    }

    /// Shifts the rectangle by `(dx, dy)`, stopping at the coordinate limit.
    pub fn move_by(&mut self, dx: i64, dy: i64)
        requires
            old(self).wf(),
        ensures
            final(self).wf(),
            final(self).size == old(self).size,
            final(self).spec_left() == clamp_coord(old(self).spec_left() + dx),
            final(self).spec_top() == clamp_coord(old(self).spec_top() + dy),
    {
        self.topleft.0 = clamp_to_coord(self.topleft.0 as i128 + dx as i128);
        self.topleft.1 = clamp_to_coord(self.topleft.1 as i128 + dy as i128);
    }

    pub fn overlaps(&self, other: &Rect) -> (r: bool)
        requires
            self.wf(),
            other.wf(),
        ensures
            r == self.spec_overlaps(other),
    {
        !(self.left() > other.right() || other.left() > self.right() || self.top() > other.bottom()
            || other.top() > self.bottom())
    }
}

/// Overlap does not depend on the order of the two rectangles.
pub proof fn overlap_is_symmetric(a: Rect, b: Rect)
    ensures
        a.spec_overlaps(&b) == b.spec_overlaps(&a),
{
}

/// A rectangle that lies within another one overlaps it.
pub proof fn inside_implies_overlap(inner: Rect, outer: Rect)
    requires
        inner.wf(),
        outer.wf(),
        inner.spec_inside(&outer),
    ensures
        inner.spec_overlaps(&outer),
{
}

} // verus!
