//! Points and axis-aligned rectangles, with the two overlap tests the
//! games use: full interval overlap for body-vs-body checks and point
//! containment for bullet-vs-body checks.

use vstd::prelude::*;

verus! {

/// A point of the play field. Coordinates are exact integers.
#[derive(Clone, Copy, PartialEq, Eq, Structural, Debug)]
pub struct Position {
    pub x: i32,
    pub y: i32,
}

impl Position {
    pub fn new(x: i32, y: i32) -> (p: Position)
        ensures
            p.x == x,
            p.y == y,
    {
        Position { x, y }
    }

    /// Translate the point by `(dx, dy)`, saturating at the
    /// coordinate-space limits.
    pub fn add(&mut self, dx: i32, dy: i32)
        ensures
            final(self).x as int == crate::motion::sat_i32(old(self).x + dx),
            final(self).y as int == crate::motion::sat_i32(old(self).y + dy),
    {
        self.x = crate::motion::step_coord(self.x, 1, dx);
        self.y = crate::motion::step_coord(self.y, 1, dy);
    }
}

/// An axis-aligned rectangle: top-left corner plus extent.
#[derive(Clone, Copy, PartialEq, Eq, Structural, Debug)]
pub struct Rect {
    pub x: i32,
    pub y: i32,
    pub w: i32,
    pub h: i32,
}

/// A rectangle with non-negative extent.
pub open spec fn rect_wf(r: Rect) -> bool {
    r.w >= 0 && r.h >= 0
}

/// True interval-overlap semantics: the rectangles share at least one
/// point (touching edges count as overlap).
pub open spec fn spec_overlaps(a: Rect, b: Rect) -> bool {
    a.x <= b.x + b.w && b.x <= a.x + a.w && a.y <= b.y + b.h && b.y <= a.y + a.h
}

/// The point lies within the rectangle's extent, borders included.
pub open spec fn spec_contains(r: Rect, p: Position) -> bool {
    r.x <= p.x && p.x <= r.x + r.w && r.y <= p.y && p.y <= r.y + r.h
}

impl Rect {
    pub fn new(x: i32, y: i32, w: i32, h: i32) -> (r: Rect)
        ensures
            r == (Rect { x, y, w, h }),
    {
        Rect { x, y, w, h }
    }

    /// Body-vs-body collision test over both axes.
    pub fn overlaps(&self, other: &Rect) -> (r: bool)
        requires
            rect_wf(*self),
            rect_wf(*other),
            self.x + self.w <= i32::MAX,
            other.x + other.w <= i32::MAX,
            self.y + self.h <= i32::MAX,
            other.y + other.h <= i32::MAX,
        ensures
            r == spec_overlaps(*self, *other),
    {
        self.x <= other.x + other.w && other.x <= self.x + self.w && self.y <= other.y + other.h
            && other.y <= self.y + self.h
    }

    /// Point-vs-body hit test (a bullet's reference point against a body).
    pub fn contains(&self, p: &Position) -> (r: bool)
        requires
            rect_wf(*self),
            self.x + self.w <= i32::MAX,
            self.y + self.h <= i32::MAX,
        ensures
            r == spec_contains(*self, *p),
    {
        self.x <= p.x && p.x <= self.x + self.w && self.y <= p.y && p.y <= self.y + self.h
    }

    /// The rectangle's four corners, clockwise from the top-right.
    pub fn vertices(&self) -> (vs: Vec<Position>)
        requires
            rect_wf(*self),
            self.x + self.w <= i32::MAX,
            self.y + self.h <= i32::MAX,
        ensures
            vs@.len() == 4,
            vs@[0].x == self.x + self.w && vs@[0].y == self.y,
            vs@[1].x == self.x && vs@[1].y == self.y,
            vs@[2].x == self.x && vs@[2].y == self.y + self.h,
            vs@[3].x == self.x + self.w && vs@[3].y == self.y + self.h,
            forall|i: int| 0 <= i < 4 ==> spec_contains(*self, #[trigger] vs@[i]),
    {
        let top_left = Position { x: self.x, y: self.y };
        let top_right = Position { x: self.x + self.w, y: self.y };
        let bottom_left = Position { x: self.x, y: self.y + self.h };
        let bottom_right = Position { x: self.x + self.w, y: self.y + self.h };

        let mut vs: Vec<Position> = Vec::new();
        vs.push(top_right);
        vs.push(top_left);
        vs.push(bottom_left);
        vs.push(bottom_right);
        vs
    }
}

/// The first rectangle of the list that contains the point, if any —
/// the stomp test of the platformer variants: which enemy's body holds
/// the player's reference point.
pub fn first_containing(rects: &Vec<Rect>, p: &Position) -> (r: Option<usize>)
    requires
        forall|i: int|
            0 <= i < rects@.len() ==> rect_wf(#[trigger] rects@[i]) && rects@[i].x + rects@[i].w
                <= i32::MAX && rects@[i].y + rects@[i].h <= i32::MAX,
    ensures
        match r {
            Some(i) => i < rects@.len() && spec_contains(rects@[i as int], *p) && forall|j: int|
                0 <= j < i ==> !spec_contains(#[trigger] rects@[j], *p),
            None => forall|j: int| 0 <= j < rects@.len() ==> !spec_contains(#[trigger] rects@[j], *p),
        },
{
    let mut i: usize = 0;
    while i < rects.len()
        invariant
            i <= rects@.len(),
            forall|j: int|
                0 <= j < rects@.len() ==> rect_wf(#[trigger] rects@[j]) && rects@[j].x + rects@[j].w
                    <= i32::MAX && rects@[j].y + rects@[j].h <= i32::MAX,
            forall|j: int| 0 <= j < i ==> !spec_contains(#[trigger] rects@[j], *p),
        decreases rects@.len() - i,
    {
        if rects[i].contains(p) {
            return Some(i);
        }
        i = i + 1;
    }
    None
}

/// Overlap is symmetric: testing A against B and B against A agree.
pub proof fn lemma_overlaps_symmetric(a: Rect, b: Rect)
    ensures
        spec_overlaps(a, b) == spec_overlaps(b, a),
{
}

/// Overlap is reflexive on non-degenerate rectangles: every rectangle
/// with non-negative extent overlaps itself.
pub proof fn lemma_overlaps_reflexive(a: Rect)
    requires
        rect_wf(a),
    ensures
        spec_overlaps(a, a),
{
}

} // verus!
