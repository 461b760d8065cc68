//! The boundary rectangle and its wrap-around topology.

use crate::math::LIMIT;
use crate::vector::{Vec2, Vector};
use vstd::prelude::*;

verus! {

/// An axis-aligned rectangle, given by its four edges.
#[derive(Clone, Copy, PartialEq, Eq, Structural, Debug)]
pub struct Rect {
    pub left: i64,
    pub right: i64,
    pub bottom: i64,
    pub top: i64,
}

/// Where a coordinate `x` moves on an axis from `low` to `high` when a margin
/// of `half` is kept clear at both ends: a coordinate before the near margin
/// moves to the far margin, one past the far margin moves to the near margin.
pub open spec fn wrap_axis(x: int, low: int, high: int, half: int) -> int {
    if x < low + half {
        high - half
    } else if x > high - half {
        low + half
    } else {
        x
    }
}

impl Rect {
    /// The edges are in order and no larger than `LIMIT`.
    pub open spec fn wf(self) -> bool {
        &&& -LIMIT <= self.left <= self.right <= LIMIT
        &&& -LIMIT <= self.bottom <= self.top <= LIMIT
    }

    /// The point lies inside the rectangle or on its edge.
    pub open spec fn contains(self, p: Vector) -> bool {
        self.left <= p.x <= self.right && self.bottom <= p.y <= self.top
    }

    /// The rectangle is at least half of `diameter` wide and high.
    pub open spec fn fits(self, diameter: int) -> bool {
        diameter / 2 <= self.right - self.left && diameter / 2 <= self.top - self.bottom
    }

    /// The point wrapped around on both axes, with half of `diameter` kept
    /// clear at every edge.
    pub open spec fn wrapped(self, p: Vector, diameter: int) -> Vector {
        Vector {
            x: wrap_axis(p.x, self.left as int, self.right as int, diameter / 2),
            y: wrap_axis(p.y, self.bottom as int, self.top as int, diameter / 2),
        }
    }

    /// The rectangle with the given edges, where they are in order and no
    /// larger than `LIMIT`.
    pub fn new(left: i64, right: i64, bottom: i64, top: i64) -> (r: Option<Rect>)
        ensures
            r is Some <==> (Rect { left, right, bottom, top }).wf(),
            r is Some ==> r.unwrap() == (Rect { left, right, bottom, top }),
    {
        if -LIMIT <= left && left <= right && right <= LIMIT && -LIMIT <= bottom && bottom <= top
            && top <= LIMIT {
            Some(Rect { left, right, bottom, top })
        } else {
            None
        }
    }

    /// Whether the edges are in order and no larger than `LIMIT`.
    pub fn is_valid(&self) -> (b: bool)
        ensures
            b == self.wf(),
    {
        -LIMIT <= self.left && self.left <= self.right && self.right <= LIMIT && -LIMIT
            <= self.bottom && self.bottom <= self.top && self.top <= LIMIT
    }

    /// Whether the point lies inside the rectangle or on its edge.
    pub fn holds(&self, p: Vec2) -> (b: bool)
        ensures
            b == self.contains(p@),
    {
        self.left <= p.x && p.x <= self.right && self.bottom <= p.y && p.y <= self.top
    }

    /// Wraps a point around on both axes, with half of `diameter` kept clear
    /// at every edge.
    pub fn wrap(&self, p: Vec2, diameter: i64) -> (r: Vec2)
        requires
            self.wf(),
            0 < diameter <= LIMIT,
        ensures
            r@ == self.wrapped(p@, diameter as int),
            r@.within(2 * LIMIT),
            self.fits(diameter as int) ==> self.contains(r@),
    {
        let half: i64 = diameter / 2;
        let mut x: i64 = p.x;
        let mut y: i64 = p.y;
        if x < self.left + half {
            x = self.right - half;
        } else if x > self.right - half {
            x = self.left + half;
        }
        if y < self.bottom + half {
            y = self.top - half;
        } else if y > self.top - half {
            y = self.bottom + half;
        }
        Vec2 { x, y }
    }
}

/// A wrapped point is never farther out than the margin beyond an edge, and
/// lies inside a rectangle that is at least the margin wide and high.
pub proof fn lemma_wrapped(rect: Rect, p: Vector, diameter: int)
    requires
        rect.wf(),
        0 < diameter <= LIMIT,
    ensures
        rect.wrapped(p, diameter).within(2 * LIMIT),
        rect.fits(diameter) ==> rect.contains(rect.wrapped(p, diameter)),
{
}

} // verus!
