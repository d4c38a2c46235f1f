//! Points and rectangles in whole canvas units.

use vstd::prelude::*;

verus! {

/// Largest magnitude of a coordinate. Every point of a well-formed editor
/// state lies within `-COORD_MAX ..= COORD_MAX` on both axes.
pub const COORD_MAX: i64 = 1_000_000_000_000;

/// Whether `v` is a coordinate of the canvas space.
pub open spec fn in_range(v: int) -> bool {
    -COORD_MAX <= v <= COORD_MAX
}

/// A position on the canvas.
#[derive(Clone, Copy, Debug, PartialEq, Eq, Structural)]
pub struct Point {
    pub x: i64,
    pub y: i64,
}

impl Point {
    /// Both coordinates lie in the canvas space.
    pub open spec fn wf(self) -> bool {
        in_range(self.x as int) && in_range(self.y as int)
    }

    /// Decides `wf`.
    pub fn is_wf(&self) -> (ok: bool)
        ensures
            ok == self.wf(),
    {
        -COORD_MAX <= self.x && self.x <= COORD_MAX && -COORD_MAX <= self.y && self.y
            <= COORD_MAX
    }
}

/// An axis-aligned rectangle: top-left corner, extent, and the stacking
/// order `z` it was given when it was created.
#[derive(Clone, Copy, Debug, PartialEq, Eq, Structural)]
pub struct Rect {
    pub x: i64,
    pub y: i64,
    pub z: u64,
    pub width: i64,
    pub height: i64,
}

impl Rect {
    /// The extent is non-negative and all four corners lie in the canvas
    /// space.
    pub open spec fn wf(self) -> bool {
        &&& self.width >= 0
        &&& self.height >= 0
        &&& -COORD_MAX <= self.x
        &&& self.x + self.width <= COORD_MAX
        &&& -COORD_MAX <= self.y
        &&& self.y + self.height <= COORD_MAX
    }

    /// The point `(px, py)` lies in the closed box of the rectangle: both
    /// edges of each axis count as inside.
    pub open spec fn spec_contains(self, px: int, py: int) -> bool {
        &&& self.x <= px <= self.x + self.width
        &&& self.y <= py <= self.y + self.height
    }

    /// The rectangle moved by `(dx, dy)`, extent and `z` kept.
    pub open spec fn spec_shifted(self, dx: int, dy: int) -> Rect {
        Rect { x: (self.x + dx) as i64, y: (self.y + dy) as i64, ..self }
    }

    /// The rectangle spanned by two corner points, in either order.
    pub open spec fn spec_spanning(a: Point, b: Point, z: u64) -> Rect {
        Rect {
            x: if a.x <= b.x { a.x } else { b.x },
            y: if a.y <= b.y { a.y } else { b.y },
            z,
            width: (if a.x <= b.x { b.x - a.x } else { a.x - b.x }) as i64,
            height: (if a.y <= b.y { b.y - a.y } else { a.y - b.y }) as i64,
        }
    }

    /// Decides `wf`, without overflow whatever the fields hold.
    pub fn is_wf(&self) -> (ok: bool)
        ensures
            ok == self.wf(),
    {
        self.width >= 0 && self.height >= 0 && -COORD_MAX <= self.x && self.x <= COORD_MAX
            && self.width <= COORD_MAX - self.x && -COORD_MAX <= self.y && self.y <= COORD_MAX
            && self.height <= COORD_MAX - self.y
    }

    /// Containment test with inclusive bounds. Total: a rectangle with a
    /// zero or even negative extent is answered without overflow.
    pub fn contains(&self, px: i64, py: i64) -> (inside: bool)
        ensures
            inside == self.spec_contains(px as int, py as int),
    {
        let right: i128 = self.x as i128 + self.width as i128;
        let top: i128 = self.y as i128 + self.height as i128;
        self.x <= px && px as i128 <= right && self.y <= py && py as i128 <= top
    }

    /// Builds the rectangle spanned by `a` and `b`: its corner is the
    /// smaller coordinate on each axis, its extent the distance between them.
    pub fn spanning(a: Point, b: Point, z: u64) -> (r: Rect)
        requires
            a.wf(),
            b.wf(),
        ensures
            r == Rect::spec_spanning(a, b, z),
            r.wf(),
            r.x + r.width == (if a.x <= b.x { b.x } else { a.x }),
            r.y + r.height == (if a.y <= b.y { b.y } else { a.y }),
    {
        let (x, width): (i64, i64) = if a.x <= b.x { (a.x, b.x - a.x) } else { (b.x, a.x - b.x) };
        let (y, height): (i64, i64) = if a.y <= b.y { (a.y, b.y - a.y) } else { (b.y, a.y - b.y) };
        Rect { x, y, z, width, height }
    }
}

/// A rectangle with a non-negative extent contains its own top-left corner.
pub proof fn lemma_corner_contained(r: Rect)
    requires
        r.width >= 0,
        r.height >= 0,
    ensures
        r.spec_contains(r.x as int, r.y as int),
{
}

/// The far corner of a rectangle with a non-negative extent is contained
/// too: the bounds are inclusive on both edges.
pub proof fn lemma_far_corner_contained(r: Rect)
    requires
        r.width >= 0,
        r.height >= 0,
    ensures
        r.spec_contains(r.x + r.width, r.y + r.height),
{
}

/// A spanned rectangle contains both points that span it.
pub proof fn lemma_spanning_contains_ends(a: Point, b: Point, z: u64)
    requires
        a.wf(),
        b.wf(),
    ensures
        Rect::spec_spanning(a, b, z).spec_contains(a.x as int, a.y as int),
        Rect::spec_spanning(a, b, z).spec_contains(b.x as int, b.y as int),
        Rect::spec_spanning(a, b, z).wf(),
{
}

} // verus!
