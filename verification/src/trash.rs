//! The shooting-gallery variant: a cannon lobs heads across the screen
//! towards a trash can that patrols a band of the lower edge. A head
//! whose bottom centre enters the can is caught and scored. All
//! lengths here are in hundredths of a pixel, so drag and gravity are
//! exact integers.

use vstd::prelude::*;
use crate::geometry::Position;
use crate::motion::reflect_step;
use crate::motion::sat_i32;
use crate::motion::step_coord;
use crate::removal::remove_at_indexes;
use crate::removal::spec_keep_unindexed;

verus! {

pub const CANION_WIDTH: i32 = 10000;

pub const CANION_HEIGHT: i32 = 30000;

/// Drag keeps this many hundredths of the force per tick.
pub const RESISTENCE: i32 = 98;

/// How much upward force gravity drains per tick.
pub const GRAVITY: i32 = 50;

pub const HEAD_SIZE: i32 = 8000;

pub const SHOOT_MAGNITUDE: i32 = 2000;

pub const TRASH_HEIGHT: i32 = 18000;

pub const TRASH_WIDTH: i32 = 9000;

pub const TRASH_SPEED: i32 = 500;

/// The can never patrols left of this line.
pub const TRASH_MIN_X: i32 = 20000;

/// Integer division that rounds towards zero, as the machine's signed
/// division does.
pub open spec fn trunc_div(a: int, b: int) -> int {
    if a >= 0 {
        a / b
    } else {
        -((-a) / b)
    }
}

/// A force component after one tick of drag.
pub open spec fn spec_dragged(v: int) -> int {
    trunc_div(v * RESISTENCE, 100)
}

/// Apply one tick of drag to a force component.
fn dragged(v: i32) -> (r: i32)
    ensures
        r as int == sat_i32(spec_dragged(v as int)),
{
    proof {
        assert((v as int) * 98 <= 0x7fff_ffff_ffff && (v as int) * 98 >= -0x7fff_ffff_ffff)
            by (nonlinear_arith)
            requires
                -0x8000_0000 <= v <= 0x7fff_ffff,
        ;
        if v >= 0 {
            assert(0 <= (v as int) * 98 / 100 <= (v as int) * 98) by (nonlinear_arith)
                requires
                    v >= 0,
            ;
        } else {
            assert(0 <= (-(v as int)) * 98 / 100 <= (-(v as int)) * 98) by (nonlinear_arith)
                requires
                    v < 0,
            ;
            assert((v as int) * 98 == -((-(v as int)) * 98)) by (nonlinear_arith);
        }
    }
    let neg = v < 0;
    let mag: u64 = if neg {
        (-(v as i64)) as u64
    } else {
        v as u64
    };
    let dragged_mag: u64 = mag * (RESISTENCE as u64) / 100;
    let t: i64 = if neg {
        -(dragged_mag as i64)
    } else {
        dragged_mag as i64
    };
    if t < i32::MIN as i64 {
        i32::MIN
    } else if t > i32::MAX as i64 {
        i32::MAX
    } else {
        t as i32
    }
}

/// The cannon: only its elevation angle, in whole degrees, lives here.
/// Its trigonometry — where the muzzle sits and the force vector a shot
/// leaves with — is floating-point work done by the surrounding
/// program.
pub struct Canion {
    pub angle: i32,
}

impl Canion {
    /// A fresh cannon at its starting elevation.
    pub fn new() -> (c: Canion)
        ensures
            c.angle == 45,
    {
        Canion { angle: 45 }
    }

    /// Raise the elevation one degree.
    pub fn left(&mut self)
        ensures
            final(self).angle as int == sat_i32(old(self).angle + 1),
    {
        self.angle = step_coord(self.angle, 1, 1);
    }

    /// Lower the elevation one degree.
    pub fn right(&mut self)
        ensures
            final(self).angle as int == sat_i32(old(self).angle - 1),
    {
        self.angle = step_coord(self.angle, -1, 1);
    }
}

/// A lobbed head: a position and the force still carrying it.
#[derive(Clone, Copy, PartialEq, Eq, Structural, Debug)]
pub struct Head {
    pub pos: Position,
    pub force_x: i32,
    pub force_y: i32,
}

/// A head one flight tick later: the force carries it, then drag and
/// gravity wear the force down.
pub open spec fn spec_head_step(h: Head) -> Head {
    Head {
        pos: Position {
            x: sat_i32(h.pos.x + h.force_x) as i32,
            y: sat_i32(h.pos.y - h.force_y) as i32,
        },
        force_x: sat_i32(spec_dragged(h.force_x as int)) as i32,
        force_y: sat_i32(spec_dragged(sat_i32(h.force_y - GRAVITY))) as i32,
    }
}

/// A head's bottom centre, the point the can catches.
pub open spec fn spec_bottom_center(h: Head) -> Position {
    Position {
        x: sat_i32(h.pos.x + HEAD_SIZE / 2) as i32,
        y: sat_i32(h.pos.y + HEAD_SIZE) as i32,
    }
}

impl Head {
    /// A fresh head resting at the cannon's foot.
    pub fn new(height: i32) -> (h: Head)
        ensures
            h.pos.x == 0,
            h.pos.y == height,
            h.force_x == 1000,
            h.force_y == 3000,
    {
        Head { pos: Position { x: 0, y: height }, force_x: 1000, force_y: 3000 }
    }

    /// One flight tick.
    pub fn mov(&mut self)
        ensures
            *final(self) == spec_head_step(*old(self)),
    {
        self.pos = Position {
            x: step_coord(self.pos.x, 1, self.force_x),
            y: step_coord(self.pos.y, -1, self.force_y),
        };

        let fy = step_coord(self.force_y, -1, GRAVITY);
        self.force_x = dragged(self.force_x);
        self.force_y = dragged(fy);
    }

    /// Load the head with the shot's starting position and force.
    pub fn set_shoot(&mut self, pos: &Position, force: &Position)
        ensures
            final(self).pos == *pos,
            final(self).force_x == force.x,
            final(self).force_y == force.y,
    {
        self.pos = Position { x: pos.x, y: pos.y };
        self.force_x = force.x;
        self.force_y = force.y;
    }

    pub fn get_bottom_center(&self) -> (p: Position)
        ensures
            p == spec_bottom_center(*self),
    {
        Position {
            x: step_coord(self.pos.x, 1, HEAD_SIZE / 2),
            y: step_coord(self.pos.y, 1, HEAD_SIZE),
        }
    }
}

/// The patrolling trash can.
pub struct TrashCan {
    pub width: i32,
    pub pos: Position,
    pub dir_x: i32,
}

pub open spec fn trash_wf(t: TrashCan) -> bool {
    (t.dir_x == 1 || t.dir_x == -1) && TRASH_MIN_X < t.width - TRASH_WIDTH && TRASH_MIN_X
        <= t.pos.x
}

/// The point lies within the can, borders included.
pub open spec fn spec_trash_overlaps(t: TrashCan, p: Position) -> bool {
    t.pos.y <= p.y <= t.pos.y + TRASH_HEIGHT && t.pos.x <= p.x <= t.pos.x + TRASH_WIDTH
}

impl TrashCan {
    /// A fresh can at mid-width on the lower edge, patrolling right.
    pub fn new(width: i32, height: i32) -> (t: TrashCan)
        requires
            TRASH_MIN_X * 2 < width - TRASH_WIDTH,
        ensures
            trash_wf(t),
            t.width == width,
            t.pos.x == width / 2,
            t.pos.y as int == sat_i32(height - TRASH_HEIGHT),
            t.dir_x == 1,
    {
        let x = width / 2;
        let y = step_coord(height, -1, TRASH_HEIGHT);
        TrashCan { width, pos: Position { x, y }, dir_x: 1 }
    }

    /// One patrol step: the can moves only while the next position
    /// stays strictly inside its band; at a band edge it stands still
    /// for a tick and turns around.
    pub fn mov(&mut self)
        requires
            trash_wf(*old(self)),
        ensures
            trash_wf(*final(self)),
            final(self).width == old(self).width,
            final(self).pos.y == old(self).pos.y,
            ({
                let next = old(self).pos.x + old(self).dir_x * TRASH_SPEED;
                let hi = old(self).width - TRASH_WIDTH;
                &&& next <= TRASH_MIN_X ==> final(self).pos.x == old(self).pos.x
                    && final(self).dir_x == 1
                &&& next >= hi ==> final(self).pos.x == old(self).pos.x && final(self).dir_x == -1
                &&& TRASH_MIN_X < next < hi ==> final(self).pos.x == next && final(self).dir_x
                    == old(self).dir_x
            }),
    {
        let hi = self.width - TRASH_WIDTH;
        let (x, dir) = reflect_step(self.pos.x, self.dir_x, TRASH_SPEED, TRASH_MIN_X, hi);
        self.pos.x = x;
        self.dir_x = dir;
    }

    /// Point-vs-body hit test against the can.
    pub fn overlaps(&self, pos: &Position) -> (r: bool)
        ensures
            r == spec_trash_overlaps(*self, *pos),
    {
        let left = self.pos.x as i64;
        let top = self.pos.y as i64;
        let v_overlap = top <= pos.y as i64 && pos.y as i64 <= top + TRASH_HEIGHT as i64;
        let h_overlap = left <= pos.x as i64 && pos.x as i64 <= left + TRASH_WIDTH as i64;
        v_overlap && h_overlap
    }
}

/// The positions, in order, of the heads whose bottom centre is inside
/// the can.
pub open spec fn spec_crash_indexes(heads: Seq<Head>, t: TrashCan) -> Seq<usize>
    decreases heads.len(),
{
    if heads.len() == 0 {
        Seq::empty()
    } else {
        let init = spec_crash_indexes(heads.drop_last(), t);
        if spec_trash_overlaps(t, spec_bottom_center(heads.last())) {
            init.push((heads.len() - 1) as usize)
        } else {
            init
        }
    }
}

pub struct Game {
    pub canion: Canion,
    pub heads: Vec<Head>,
    pub trash: TrashCan,
    pub score: usize,
}

pub open spec fn game_wf(g: Game) -> bool {
    trash_wf(g.trash)
}

impl Game {
    /// A fresh gallery on a field of the given size.
    pub fn new(width: i32, height: i32) -> (g: Game)
        requires
            TRASH_MIN_X * 2 < width - TRASH_WIDTH,
        ensures
            game_wf(g),
            g.canion.angle == 45,
            g.heads@.len() == 0,
            g.score == 0,
            g.trash.pos.x == width / 2,
    {
        Game {
            canion: Canion::new(),
            heads: Vec::new(),
            trash: TrashCan::new(width, height),
            score: 0,
        }
    }

    /// Raise the cannon one degree.
    pub fn left(&mut self)
        ensures
            final(self).canion.angle as int == sat_i32(old(self).canion.angle + 1),
            final(self).heads@ == old(self).heads@,
            final(self).trash == old(self).trash,
            final(self).score == old(self).score,
    {
        self.canion.left();
    }

    /// Lower the cannon one degree.
    pub fn right(&mut self)
        ensures
            final(self).canion.angle as int == sat_i32(old(self).canion.angle - 1),
            final(self).heads@ == old(self).heads@,
            final(self).trash == old(self).trash,
            final(self).score == old(self).score,
    {
        self.canion.right();
    }

    /// Launch one head with the given muzzle position and force (the
    /// surrounding program computes both from the cannon's angle and
    /// plays the shot sound).
    pub fn shoot(&mut self, pos: Position, force: Position)
        ensures
            final(self).heads@ == old(self).heads@.push(
                Head { pos, force_x: force.x, force_y: force.y },
            ),
            final(self).canion == old(self).canion,
            final(self).trash == old(self).trash,
            final(self).score == old(self).score,
    {
        let mut head = Head { pos: Position { x: 0, y: 0 }, force_x: 0, force_y: 0 };
        head.set_shoot(&pos, &force);
        self.heads.push(head);
    }

    /// Every head flies one tick.
    pub fn mov_heads(&mut self)
        ensures
            final(self).heads@ == old(self).heads@.map_values(|h: Head| spec_head_step(h)),
            final(self).canion == old(self).canion,
            final(self).trash == old(self).trash,
            final(self).score == old(self).score,
    {
        let ghost g0 = *self;
        let mut i: usize = 0;
        while i < self.heads.len()
            invariant
                i <= self.heads@.len(),
                self.heads@.len() == g0.heads@.len(),
                self.canion == g0.canion,
                self.trash == g0.trash,
                self.score == g0.score,
                forall|j: int| 0 <= j < i ==> self.heads@[j] == spec_head_step(g0.heads@[j]),
                forall|j: int| i <= j < g0.heads@.len() ==> self.heads@[j] == g0.heads@[j],
            decreases g0.heads@.len() - i,
        {
            let mut h = self.heads[i];
            h.mov();
            self.heads[i] = h;
            i = i + 1;
        }
        proof {
            assert(self.heads@ =~= g0.heads@.map_values(|h: Head| spec_head_step(h)));
        }
    }

    /// The positions of the heads the can currently catches.
    pub fn get_crash_indexes(&self) -> (indexes: Vec<usize>)
        ensures
            indexes@ == spec_crash_indexes(self.heads@, self.trash),
    {
        let mut indexes: Vec<usize> = Vec::new();
        let mut i: usize = 0;
        while i < self.heads.len()
            invariant
                i <= self.heads@.len(),
                indexes@ == spec_crash_indexes(self.heads@.take(i as int), self.trash),
            decreases self.heads@.len() - i,
        {
            let head = &self.heads[i];
            let point = head.get_bottom_center();

            if self.trash.overlaps(&point) {
                indexes.push(i);
            }
            i = i + 1;
            proof {
                assert(self.heads@.take(i as int).drop_last() =~= self.heads@.take(i - 1));
            }
        }
        proof {
            assert(self.heads@.take(self.heads@.len() as int) =~= self.heads@);
        }
        indexes
    }

    /// Drop the heads at the named positions.
    pub fn remove_crashes(&mut self, indexes: &Vec<usize>)
        ensures
            final(self).heads@ == spec_keep_unindexed(old(self).heads@, indexes@),
            final(self).canion == old(self).canion,
            final(self).trash == old(self).trash,
            final(self).score == old(self).score,
    {
        self.heads = remove_at_indexes(&self.heads, indexes);
    }

    /// One catch pass: every head the can holds is scored and removed.
    /// The surrounding program plays the explosion sound when the score
    /// moved.
    pub fn handle_crash(&mut self)
        requires
            old(self).score + old(self).heads@.len() <= usize::MAX,
        ensures
            ({
                let crashes = spec_crash_indexes(old(self).heads@, old(self).trash);
                &&& final(self).score == old(self).score + crashes.len()
                &&& final(self).heads@ == spec_keep_unindexed(old(self).heads@, crashes)
            }),
            final(self).canion == old(self).canion,
            final(self).trash == old(self).trash,
    {
        proof {
            lemma_crash_indexes_len(old(self).heads@, old(self).trash);
        }
        let crashes = self.get_crash_indexes();

        if crashes.len() > 0 {
            self.score = self.score + crashes.len();
        }

        self.remove_crashes(&crashes);
    }
}

/// There are never more catches than heads.
proof fn lemma_crash_indexes_len(heads: Seq<Head>, t: TrashCan)
    ensures
        spec_crash_indexes(heads, t).len() <= heads.len(),
    decreases heads.len(),
{
    if heads.len() > 0 {
        lemma_crash_indexes_len(heads.drop_last(), t);
    }
}

} // verus!
