//! The invader-shooter variant: a ship on the lower edge fires bullets
//! upward, square invaders fall from random columns on a fixed cadence,
//! and every bullet/invader pair that meets is removed in the same
//! frame's collision pass.

use vstd::prelude::*;
use crate::geometry::Position;
use crate::motion::sat_i32;
use crate::motion::step_coord;
use crate::random::random_in_range;
use crate::removal::retain_unmarked;
use crate::removal::spec_keep_unmarked;

verus! {

/// Side length of every square body in this variant.
pub const SQUARE_SIZE: i32 = 20;

/// A new invader is created once every this many update ticks.
pub const INVADER_EVERY: u16 = 2;

/// Falling speed of an invader and flying speed of a bullet.
pub const STEP_SPEED: i32 = 6;

#[derive(Clone, Copy, PartialEq, Eq, Structural, Debug)]
pub struct Invader {
    pub position: Position,
    pub speed: i32,
}

#[derive(Clone, Copy, PartialEq, Eq, Structural, Debug)]
pub struct Bullet {
    pub position: Position,
    pub speed: i32,
}

#[derive(Clone, Copy, PartialEq, Eq, Structural, Debug)]
pub struct Ship {
    pub position: Position,
}

/// The two squares share a column band: their x extents, each one
/// square wide, intersect.
pub open spec fn spec_vertical_crash(invader: Invader, bullet: Bullet) -> bool {
    invader.position.x - SQUARE_SIZE <= bullet.position.x <= invader.position.x + SQUARE_SIZE
}

/// The two squares share a row band: their y extents, each one square
/// tall, intersect.
pub open spec fn spec_horizontal_crash(invader: Invader, bullet: Bullet) -> bool {
    invader.position.y - SQUARE_SIZE <= bullet.position.y <= invader.position.y + SQUARE_SIZE
}

/// A bullet consumes an invader when both band tests meet: the two
/// equal squares overlap.
pub open spec fn spec_is_crash(invader: Invader, bullet: Bullet) -> bool {
    spec_vertical_crash(invader, bullet) && spec_horizontal_crash(invader, bullet)
}

/// Overlap symmetry at this collision test: since invader and bullet
/// are equal squares, swapping their positions does not change the
/// answer.
pub proof fn lemma_is_crash_symmetric(invader: Invader, bullet: Bullet)
    ensures
        spec_is_crash(invader, bullet) == spec_is_crash(
            Invader { position: bullet.position, ..invader },
            Bullet { position: invader.position, ..bullet },
        ),
{
}

/// An invader after one falling step.
pub open spec fn spec_invader_step(inv: Invader) -> Invader {
    Invader {
        position: Position { x: inv.position.x, y: sat_i32(inv.position.y + inv.speed) as i32 },
        speed: inv.speed,
    }
}

/// A bullet after one rising step.
pub open spec fn spec_bullet_step(b: Bullet) -> Bullet {
    Bullet {
        position: Position { x: b.position.x, y: sat_i32(b.position.y - b.speed) as i32 },
        speed: b.speed,
    }
}

/// Mark per bullet: hit by some invader.
pub open spec fn spec_bullet_marks(invaders: Seq<Invader>, bullets: Seq<Bullet>) -> Seq<bool> {
    Seq::new(
        bullets.len(),
        |j: int| exists|k: int| 0 <= k < invaders.len() && spec_is_crash(invaders[k], bullets[j]),
    )
}

/// Mark per invader: hit by some bullet.
pub open spec fn spec_invader_marks(invaders: Seq<Invader>, bullets: Seq<Bullet>) -> Seq<bool> {
    Seq::new(
        invaders.len(),
        |k: int| exists|j: int| 0 <= j < bullets.len() && spec_is_crash(invaders[k], bullets[j]),
    )
}

impl Invader {
    /// A fresh invader on the top edge, in a column drawn uniformly
    /// from the playing width.
    pub fn new(width: i32) -> (inv: Invader)
        requires
            1 <= width,
        ensures
            0 <= inv.position.x < width,
            inv.position.y == 0,
            inv.speed == STEP_SPEED,
    {
        let x = random_in_range(0, width as i64) as i32;
        Invader { position: Position { x, y: 0 }, speed: STEP_SPEED }
    }

    /// Fall one step.
    pub fn mov(&mut self)
        ensures
            *final(self) == spec_invader_step(*old(self)),
    {
        self.position.add(0, self.speed);
    }
}

impl Bullet {
    pub fn new(x: i32, y: i32) -> (b: Bullet)
        ensures
            b.position.x == x,
            b.position.y == y,
            b.speed == STEP_SPEED,
    {
        Bullet { position: Position { x, y }, speed: STEP_SPEED }
    }

    /// Rise one step.
    pub fn mov(&mut self)
        ensures
            *final(self) == spec_bullet_step(*old(self)),
    {
        self.position.y = step_coord(self.position.y, -1, self.speed);
    }
}

impl Ship {
    pub fn new(x: i32, y: i32) -> (s: Ship)
        ensures
            s.position.x == x,
            s.position.y == y,
    {
        Ship { position: Position { x, y } }
    }

    /// Slide one square to the right.
    pub fn right(&mut self)
        ensures
            final(self).position.x as int == sat_i32(old(self).position.x + SQUARE_SIZE),
            final(self).position.y == old(self).position.y,
    {
        self.position.add(SQUARE_SIZE, 0);
    }

    /// Slide one square to the left.
    pub fn left(&mut self)
        ensures
            final(self).position.x as int == sat_i32(old(self).position.x - SQUARE_SIZE),
            final(self).position.y == old(self).position.y,
    {
        self.position.add(-SQUARE_SIZE, 0);
    }

    /// Fire a bullet from the ship's corner.
    pub fn shot(&mut self) -> (b: Bullet)
        ensures
            *final(self) == *old(self),
            b.position == old(self).position,
            b.speed == STEP_SPEED,
    {
        Bullet::new(self.position.x, self.position.y)
    }
}

pub struct Game {
    pub width: i32,
    pub ship: Ship,
    pub bullets: Vec<Bullet>,
    pub invaders: Vec<Invader>,
    pub invader_count: u16,
}

/// The spawn counter stays below its period between updates and the
/// playing width is positive.
pub open spec fn game_wf(g: Game) -> bool {
    1 <= g.width && g.invader_count < INVADER_EVERY
}

impl Game {
    /// A fresh game on a field of the given width: the ship starts at
    /// the given spot and no bullet or invader exists yet.
    pub fn new(width: i32, ship_x: i32, ship_y: i32) -> (g: Game)
        requires
            1 <= width,
        ensures
            game_wf(g),
            g.width == width,
            g.ship.position.x == ship_x,
            g.ship.position.y == ship_y,
            g.bullets@.len() == 0,
            g.invaders@.len() == 0,
            g.invader_count == 0,
    {
        Game {
            width,
            ship: Ship::new(ship_x, ship_y),
            bullets: Vec::new(),
            invaders: Vec::new(),
            invader_count: 0,
        }
    }

    pub fn right(&mut self)
        ensures
            final(self).ship.position.x as int == sat_i32(old(self).ship.position.x + SQUARE_SIZE),
            final(self).ship.position.y == old(self).ship.position.y,
            final(self).width == old(self).width,
            final(self).bullets@ == old(self).bullets@,
            final(self).invaders@ == old(self).invaders@,
            final(self).invader_count == old(self).invader_count,
    {
        self.ship.right();
    }

    pub fn left(&mut self)
        ensures
            final(self).ship.position.x as int == sat_i32(old(self).ship.position.x - SQUARE_SIZE),
            final(self).ship.position.y == old(self).ship.position.y,
            final(self).width == old(self).width,
            final(self).bullets@ == old(self).bullets@,
            final(self).invaders@ == old(self).invaders@,
            final(self).invader_count == old(self).invader_count,
    {
        self.ship.left();
    }

    /// Fire: one new bullet appears at the ship's position.
    pub fn shot(&mut self)
        ensures
            final(self).bullets@.len() == old(self).bullets@.len() + 1,
            final(self).bullets@ == old(self).bullets@.push(
                Bullet { position: old(self).ship.position, speed: STEP_SPEED },
            ),
            final(self).ship == old(self).ship,
            final(self).invaders@ == old(self).invaders@,
            final(self).invader_count == old(self).invader_count,
            final(self).width == old(self).width,
    {
        let bullet = self.ship.shot();
        self.bullets.push(bullet);
    }

    /// Every bullet rises one step.
    pub fn mov_bullets(&mut self)
        ensures
            final(self).bullets@ == old(self).bullets@.map_values(|b: Bullet| spec_bullet_step(b)),
            final(self).ship == old(self).ship,
            final(self).invaders@ == old(self).invaders@,
            final(self).invader_count == old(self).invader_count,
            final(self).width == old(self).width,
    {
        let ghost g0 = *self;
        let ghost orig = self.bullets@;
        let mut i: usize = 0;
        while i < self.bullets.len()
            invariant
                i <= self.bullets@.len(),
                self.bullets@.len() == orig.len(),
                self.ship == g0.ship,
                self.invaders@ == g0.invaders@,
                self.invader_count == g0.invader_count,
                self.width == g0.width,
                forall|j: int| 0 <= j < i ==> self.bullets@[j] == spec_bullet_step(orig[j]),
                forall|j: int| i <= j < orig.len() ==> self.bullets@[j] == orig[j],
            decreases orig.len() - i,
        {
            let mut b = self.bullets[i];
            b.mov();
            self.bullets[i] = b;
            i = i + 1;
        }
        proof {
            assert(self.bullets@ =~= orig.map_values(|b: Bullet| spec_bullet_step(b)));
        }
    }

    /// Every invader falls one step.
    pub fn mov_invaders(&mut self)
        ensures
            final(self).invaders@ == old(self).invaders@.map_values(
                |v: Invader| spec_invader_step(v),
            ),
            final(self).ship == old(self).ship,
            final(self).bullets@ == old(self).bullets@,
            final(self).invader_count == old(self).invader_count,
            final(self).width == old(self).width,
    {
        let ghost g0 = *self;
        let ghost orig = self.invaders@;
        let mut i: usize = 0;
        while i < self.invaders.len()
            invariant
                i <= self.invaders@.len(),
                self.invaders@.len() == orig.len(),
                self.ship == g0.ship,
                self.bullets@ == g0.bullets@,
                self.invader_count == g0.invader_count,
                self.width == g0.width,
                forall|j: int| 0 <= j < i ==> self.invaders@[j] == spec_invader_step(orig[j]),
                forall|j: int| i <= j < orig.len() ==> self.invaders@[j] == orig[j],
            decreases orig.len() - i,
        {
            let mut v = self.invaders[i];
            v.mov();
            self.invaders[i] = v;
            i = i + 1;
        }
        proof {
            assert(self.invaders@ =~= orig.map_values(|v: Invader| spec_invader_step(v)));
        }
    }

    /// Advance the spawn counter; on reaching the cadence a new invader
    /// enters at the top, in a random column, and the counter resets.
    pub fn create_invader(&mut self)
        requires
            game_wf(*old(self)),
        ensures
            game_wf(*final(self)),
            final(self).ship == old(self).ship,
            final(self).bullets@ == old(self).bullets@,
            final(self).width == old(self).width,
            old(self).invader_count + 1 < INVADER_EVERY ==> final(self).invaders@ == old(self).invaders@
                && final(self).invader_count == old(self).invader_count + 1,
            old(self).invader_count + 1 >= INVADER_EVERY ==> final(self).invader_count == 0
                && final(self).invaders@.len() == old(self).invaders@.len() + 1
                && final(self).invaders@.subrange(0, old(self).invaders@.len() as int) == old(self).invaders@
                && final(self).invaders@.last().position.y == 0
                && 0 <= final(self).invaders@.last().position.x < old(self).width
                && final(self).invaders@.last().speed == STEP_SPEED,
    {
        self.invader_count = self.invader_count + 1;
        if self.invader_count >= INVADER_EVERY {
            let inv = Invader::new(self.width);
            self.invaders.push(inv);
            self.invader_count = 0;
        }
        proof {
            if old(self).invader_count + 1 >= INVADER_EVERY {
                assert(self.invaders@.subrange(0, old(self).invaders@.len() as int)
                    =~= old(self).invaders@);
            }
        }
    }

    /// Whether this invader/bullet pair meets.
    pub fn is_crash(invader: &Invader, bullet: &Bullet) -> (r: bool)
        ensures
            r == spec_is_crash(*invader, *bullet),
    {
        let vertical = Game::vertical_crash(invader, bullet);
        let horizontal = Game::horizontal_crash(invader, bullet);
        vertical && horizontal
    }

    /// Column-band test between two squares.
    pub fn vertical_crash(invader: &Invader, bullet: &Bullet) -> (r: bool)
        ensures
            r == spec_vertical_crash(*invader, *bullet),
    {
        let i_left = invader.position.x as i64;
        let i_right = i_left + SQUARE_SIZE as i64;

        let b_left = bullet.position.x as i64;
        let b_right = b_left + SQUARE_SIZE as i64;

        if i_left == b_left {
            return true;
        }
        if i_left < b_left {
            return i_right >= b_left;
        }
        b_right >= i_left
    }

    /// Row-band test between two squares.
    pub fn horizontal_crash(invader: &Invader, bullet: &Bullet) -> (r: bool)
        ensures
            r == spec_horizontal_crash(*invader, *bullet),
    {
        let i_top = invader.position.y as i64;
        let i_bottom = i_top + SQUARE_SIZE as i64;

        let b_top = bullet.position.y as i64;

        i_top - SQUARE_SIZE as i64 <= b_top && b_top <= i_bottom
    }

    /// One frame's collision pass: every bullet/invader pair that meets
    /// is marked, and both lists are rebuilt without the marked
    /// entities. All pairs of one frame resolve together, so one bullet
    /// can consume several invaders but is removed only once.
    pub fn handle_crash(&mut self)
        ensures
            final(self).bullets@ == spec_keep_unmarked(
                old(self).bullets@,
                spec_bullet_marks(old(self).invaders@, old(self).bullets@),
            ),
            final(self).invaders@ == spec_keep_unmarked(
                old(self).invaders@,
                spec_invader_marks(old(self).invaders@, old(self).bullets@),
            ),
            final(self).ship == old(self).ship,
            final(self).invader_count == old(self).invader_count,
            final(self).width == old(self).width,
    {
        let mut bullets_remove: Vec<bool> = Vec::new();
        let mut j: usize = 0;
        while j < self.bullets.len()
            invariant
                j <= self.bullets@.len(),
                bullets_remove@.len() == j,
                forall|p: int|
                    0 <= p < j ==> bullets_remove@[p] == exists|k: int|
                        0 <= k < self.invaders@.len() && spec_is_crash(
                            self.invaders@[k],
                            self.bullets@[p],
                        ),
            decreases self.bullets@.len() - j,
        {
            let hit = Game::bullet_hit(&self.invaders, &self.bullets[j]);
            bullets_remove.push(hit);
            j = j + 1;
        }

        let mut invaders_remove: Vec<bool> = Vec::new();
        let mut k: usize = 0;
        while k < self.invaders.len()
            invariant
                k <= self.invaders@.len(),
                invaders_remove@.len() == k,
                forall|p: int|
                    0 <= p < k ==> invaders_remove@[p] == exists|q: int|
                        0 <= q < self.bullets@.len() && spec_is_crash(
                            self.invaders@[p],
                            self.bullets@[q],
                        ),
            decreases self.invaders@.len() - k,
        {
            let hit = Game::invader_hit(&self.bullets, &self.invaders[k]);
            invaders_remove.push(hit);
            k = k + 1;
        }

        proof {
            assert(bullets_remove@ =~= spec_bullet_marks(self.invaders@, self.bullets@));
            assert(invaders_remove@ =~= spec_invader_marks(self.invaders@, self.bullets@));
        }

        self.bullets = retain_unmarked(&self.bullets, &bullets_remove);
        self.invaders = retain_unmarked(&self.invaders, &invaders_remove);
    }

    /// Whether any invader meets this bullet.
    fn bullet_hit(invaders: &Vec<Invader>, bullet: &Bullet) -> (r: bool)
        ensures
            r == exists|k: int|
                0 <= k < invaders@.len() && spec_is_crash(invaders@[k], *bullet),
    {
        let mut k: usize = 0;
        while k < invaders.len()
            invariant
                k <= invaders@.len(),
                forall|p: int| 0 <= p < k ==> !spec_is_crash(invaders@[p], *bullet),
            decreases invaders@.len() - k,
        {
            if Game::is_crash(&invaders[k], bullet) {
                return true;
            }
            k = k + 1;
        }
        false
    }

    /// Whether any bullet meets this invader.
    fn invader_hit(bullets: &Vec<Bullet>, invader: &Invader) -> (r: bool)
        ensures
            r == exists|q: int| 0 <= q < bullets@.len() && spec_is_crash(*invader, bullets@[q]),
    {
        let mut q: usize = 0;
        while q < bullets.len()
            invariant
                q <= bullets@.len(),
                forall|p: int| 0 <= p < q ==> !spec_is_crash(*invader, bullets@[p]),
            decreases bullets@.len() - q,
        {
            if Game::is_crash(invader, &bullets[q]) {
                return true;
            }
            q = q + 1;
        }
        false
    }

    /// One update tick: bullets rise, invaders fall, the spawn cadence
    /// advances (a random column enters when it fires), and the frame's
    /// collisions resolve.
    pub fn mov(&mut self)
        requires
            game_wf(*old(self)),
        ensures
            game_wf(*final(self)),
            final(self).ship == old(self).ship,
            final(self).width == old(self).width,
            ({
                let sb = old(self).bullets@.map_values(|b: Bullet| spec_bullet_step(b));
                let si = old(self).invaders@.map_values(|v: Invader| spec_invader_step(v));
                let fired = old(self).invader_count + 1 >= INVADER_EVERY;
                &&& final(self).invader_count == (if fired {
                    0int
                } else {
                    old(self).invader_count + 1
                })
                &&& if fired {
                    exists|nv: Invader|
                        #![auto]
                        nv.position.y == 0 && 0 <= nv.position.x < old(self).width && nv.speed
                            == STEP_SPEED && final(self).bullets@ == spec_keep_unmarked(
                            sb,
                            spec_bullet_marks(si.push(nv), sb),
                        ) && final(self).invaders@ == spec_keep_unmarked(
                            si.push(nv),
                            spec_invader_marks(si.push(nv), sb),
                        )
                } else {
                    final(self).bullets@ == spec_keep_unmarked(sb, spec_bullet_marks(si, sb))
                        && final(self).invaders@ == spec_keep_unmarked(
                        si,
                        spec_invader_marks(si, sb),
                    )
                }
            }),
    {
        self.mov_bullets();
        self.mov_invaders();
        let ghost si = self.invaders@;
        self.create_invader();
        proof {
            if old(self).invader_count + 1 >= INVADER_EVERY {
                assert(self.invaders@ =~= si.push(self.invaders@.last()));
            }
        }
        self.handle_crash();
    }
}

} // verus!
