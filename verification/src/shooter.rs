//! The side-scrolling shooter variant: the ship duels a patrolling
//! boss. The ship fires single bullets to the right; the boss, on a
//! fixed cadence, fires either an aimed bullet or a five-way fan to the
//! left. Bullets whose centre enters a body are consumed: hits on the
//! boss drain its life, a hit on the ship latches the game over.

use vstd::prelude::*;
use crate::geometry::Position;
use crate::motion::sat_i32;
use crate::motion::spec_scroll_backward;
use crate::motion::scroll_backward;
use crate::motion::step_coord;
use crate::random::random_in_range;
use crate::removal::remove_at_indexes;
use crate::removal::spec_keep_unindexed;

verus! {

pub const BG_SPEED: i32 = 5;

pub const BULLET_SIZE: i32 = 9;

pub const BULLET_SPEED: i32 = 2;

pub const ENEMY_HEIGHT: i32 = 300;

/// Patrol speed of the boss along its vertical band.
pub const ENEMY_SPEED: i32 = 1;

pub const ENEMY_WIDTH: i32 = 120;

/// For how many refreshes the boss keeps its hurt look after a hit.
pub const HURT_DURATION: usize = 3;

pub const SHIP_HEIGHT: i32 = 60;

pub const SHIP_WIDTH: i32 = 100;

pub const SHIP_SPEED: i32 = 3;

/// The boss fires once every this many refreshes.
pub const SHOOT_EVERY: usize = 60;

/// The two copies of the looping backdrop: the left one at `x1`, the
/// right one a whole span after it.
pub struct Background {
    pub width: i32,
    pub x1: i32,
    pub x2: i32,
}

pub open spec fn background_wf(b: Background) -> bool {
    1 <= b.width && b.width + BG_SPEED <= i32::MAX && -(b.width + BG_SPEED) < b.x1 <= 0
}

impl Background {
    pub fn new(width: i32) -> (b: Background)
        requires
            1 <= width,
            width + BG_SPEED <= i32::MAX,
        ensures
            background_wf(b),
            b.width == width,
            b.x1 == 0,
            b.x2 == width,
    {
        Background { width, x1: 0, x2: width }
    }

    /// Slide the backdrop one tick to the left, looping the pair once
    /// the leading copy has fully left the screen.
    pub fn mov(&mut self)
        requires
            background_wf(*old(self)),
        ensures
            background_wf(*final(self)),
            final(self).width == old(self).width,
            final(self).x1 == spec_scroll_backward(
                old(self).x1 as int,
                old(self).width as int,
                BG_SPEED as int,
            ),
            final(self).x2 == old(self).width + final(self).x1,
    {
        self.x1 = scroll_backward(self.x1, self.width, BG_SPEED);
        self.x2 = self.width + self.x1;
    }
}

pub struct Spaceship {
    pub pos: Position,
}

/// The point lies within the ship body, borders included.
pub open spec fn spec_ship_overlaps(s: Spaceship, p: Position) -> bool {
    s.pos.x <= p.x <= s.pos.x + SHIP_WIDTH && s.pos.y <= p.y <= s.pos.y + SHIP_HEIGHT
}

impl Spaceship {
    /// A fresh ship near the left edge at mid-height.
    pub fn new(height: i32) -> (s: Spaceship)
        requires
            0 <= height,
        ensures
            s.pos.x == 50,
            s.pos.y == height / 2,
    {
        Spaceship { pos: Position { x: 50, y: height / 2 } }
    }

    pub fn right(&mut self)
        ensures
            final(self).pos.x as int == sat_i32(old(self).pos.x + SHIP_SPEED),
            final(self).pos.y == old(self).pos.y,
    {
        self.pos.x = step_coord(self.pos.x, 1, SHIP_SPEED);
    }

    pub fn left(&mut self)
        ensures
            final(self).pos.x as int == sat_i32(old(self).pos.x - SHIP_SPEED),
            final(self).pos.y == old(self).pos.y,
    {
        self.pos.x = step_coord(self.pos.x, -1, SHIP_SPEED);
    }

    pub fn up(&mut self)
        ensures
            final(self).pos.y as int == sat_i32(old(self).pos.y - SHIP_SPEED),
            final(self).pos.x == old(self).pos.x,
    {
        self.pos.y = step_coord(self.pos.y, -1, SHIP_SPEED);
    }

    pub fn down(&mut self)
        ensures
            final(self).pos.y as int == sat_i32(old(self).pos.y + SHIP_SPEED),
            final(self).pos.x == old(self).pos.x,
    {
        self.pos.y = step_coord(self.pos.y, 1, SHIP_SPEED);
    }

    /// Point-vs-body hit test against the ship.
    pub fn overlaps(&self, pos: &Position) -> (r: bool)
        ensures
            r == spec_ship_overlaps(*self, *pos),
    {
        let left = self.pos.x as i64;
        let top = self.pos.y as i64;
        let h_overlaps = left <= pos.x as i64 && pos.x as i64 <= left + SHIP_WIDTH as i64;
        let v_overlaps = top <= pos.y as i64 && pos.y as i64 <= top + SHIP_HEIGHT as i64;
        v_overlaps && h_overlaps
    }
}

pub struct Enemy {
    pub height: i32,
    pub pos: Position,
    pub dir_y: i32,
    pub life: usize,
    pub is_hurt: bool,
    pub last_hurt: usize,
}

/// The point lies within the boss body, borders included.
pub open spec fn spec_enemy_overlaps(e: Enemy, p: Position) -> bool {
    e.pos.x <= p.x <= e.pos.x + ENEMY_WIDTH && e.pos.y <= p.y <= e.pos.y + ENEMY_HEIGHT
}

/// The boss's hurt look one refresh later: once the hurt hold has run
/// out it clears, and the hold counter ticks.
pub open spec fn spec_hurt_step(e: Enemy) -> Enemy {
    if e.last_hurt >= HURT_DURATION {
        Enemy { is_hurt: false, last_hurt: 1, ..e }
    } else {
        Enemy { last_hurt: (e.last_hurt + 1) as usize, ..e }
    }
}

/// The boss after taking the given number of hits.
pub open spec fn spec_after_hits(e: Enemy, hits: int) -> Enemy {
    Enemy {
        life: (if hits <= e.life {
            e.life - hits
        } else {
            0int
        }) as usize,
        is_hurt: hits > 0 || e.is_hurt,
        ..e
    }
}

/// The boss one patrol step later: it moves only while the next
/// position stays strictly inside its vertical band; at a band edge it
/// stands still for a tick and its direction turns inward.
pub open spec fn spec_enemy_mov(e: Enemy) -> Enemy {
    let next = e.pos.y + e.dir_y * ENEMY_SPEED;
    let hi = e.height - ENEMY_HEIGHT - 50;
    if next <= 50 {
        Enemy { dir_y: 1, ..e }
    } else if next >= hi {
        Enemy { dir_y: -1i32, ..e }
    } else {
        Enemy { pos: Position { x: e.pos.x, y: next as i32 }, ..e }
    }
}

/// The patrol direction is a unit step, the hurt hold is within its
/// duration, and the patrol band is non-empty.
pub open spec fn enemy_wf(e: Enemy) -> bool {
    (e.dir_y == 1 || e.dir_y == -1) && e.last_hurt <= HURT_DURATION && 50 < e.height - ENEMY_HEIGHT
        - 50
}

impl Enemy {
    /// A fresh boss at mid-height near the right edge, drifting upward
    /// with full life. The field must leave its patrol band some room.
    pub fn new(width: i32, height: i32) -> (e: Enemy)
        requires
            ENEMY_HEIGHT + 100 < height,
        ensures
            enemy_wf(e),
            e.height == height,
            e.pos.x as int == sat_i32(width - ENEMY_WIDTH - 40),
            e.pos.y as int == sat_i32(height / 2 - ENEMY_HEIGHT / 2),
            e.dir_y == -1,
            e.life == 100,
            !e.is_hurt,
            e.last_hurt == 0,
    {
        let x = step_coord(width, -1, ENEMY_WIDTH + 40);
        let y = step_coord(height / 2, -1, ENEMY_HEIGHT / 2);
        Enemy { height, pos: Position { x, y }, dir_y: -1, life: 100, is_hurt: false, last_hurt: 0 }
    }

    /// One patrol step along the vertical band: the boss never passes
    /// a band edge; on contact it holds its position and turns inward.
    pub fn mov(&mut self)
        requires
            enemy_wf(*old(self)),
        ensures
            enemy_wf(*final(self)),
            *final(self) == spec_enemy_mov(*old(self)),
    {
        let hi = self.height - ENEMY_HEIGHT - 50;
        let (y, dir) = crate::motion::reflect_step(self.pos.y, self.dir_y, ENEMY_SPEED, 50, hi);
        self.pos.y = y;
        self.dir_y = dir;
    }

    /// Tick the hurt look back towards normal.
    pub fn change_hurt_state(&mut self)
        requires
            enemy_wf(*old(self)),
        ensures
            enemy_wf(*final(self)),
            old(self).last_hurt >= HURT_DURATION ==> final(self).last_hurt == 1
                && !final(self).is_hurt,
            old(self).last_hurt < HURT_DURATION ==> final(self).last_hurt == old(self).last_hurt
                + 1 && final(self).is_hurt == old(self).is_hurt,
            final(self).pos == old(self).pos,
            final(self).dir_y == old(self).dir_y,
            final(self).life == old(self).life,
            final(self).height == old(self).height,
    {
        if self.last_hurt >= HURT_DURATION {
            self.is_hurt = false;
            self.last_hurt = 0;
        }
        self.last_hurt = self.last_hurt + 1;
    }

    /// Point-vs-body hit test against the boss.
    pub fn overlaps(&self, pos: &Position) -> (r: bool)
        ensures
            r == spec_enemy_overlaps(*self, *pos),
    {
        let left = self.pos.x as i64;
        let top = self.pos.y as i64;
        let h_overlaps = left <= pos.x as i64 && pos.x as i64 <= left + ENEMY_WIDTH as i64;
        let v_overlaps = top <= pos.y as i64 && pos.y as i64 <= top + ENEMY_HEIGHT as i64;
        v_overlaps && h_overlaps
    }

    /// Take the given number of hits: life drains to a floor of zero
    /// and the hurt look turns on.
    pub fn hit(&mut self, times: usize)
        ensures
            final(self).life == (if times <= old(self).life {
                old(self).life - times
            } else {
                0int
            }),
            final(self).is_hurt,
            final(self).pos == old(self).pos,
            final(self).dir_y == old(self).dir_y,
            final(self).last_hurt == old(self).last_hurt,
            final(self).height == old(self).height,
    {
        self.life = if times <= self.life {
            self.life - times
        } else {
            0
        };
        self.is_hurt = true;
    }
}

/// A bullet flies along a fixed direction vector, scaled by the bullet
/// speed each tick.
#[derive(Clone, Copy, PartialEq, Eq, Structural, Debug)]
pub struct Bullet {
    pub pos: Position,
    pub dir_x: i32,
    pub dir_y: i32,
}

/// A bullet one flight tick later.
pub open spec fn spec_bullet_mov(b: Bullet) -> Bullet {
    Bullet {
        pos: Position {
            x: sat_i32(b.pos.x + b.dir_x * BULLET_SPEED) as i32,
            y: sat_i32(b.pos.y + b.dir_y * BULLET_SPEED) as i32,
        },
        ..b
    }
}

/// The bullet's centre point, the reference point for hit tests.
pub open spec fn spec_bullet_center(b: Bullet) -> Position {
    Position {
        x: sat_i32(b.pos.x + BULLET_SIZE / 2) as i32,
        y: sat_i32(b.pos.y + BULLET_SIZE / 2) as i32,
    }
}

impl Bullet {
    pub fn new(pos: Position, dir_x: i32, dir_y: i32) -> (b: Bullet)
        ensures
            b.pos == pos,
            b.dir_x == dir_x,
            b.dir_y == dir_y,
    {
        Bullet { pos, dir_x, dir_y }
    }

    /// One flight tick along the direction vector.
    pub fn mov(&mut self)
        ensures
            *final(self) == spec_bullet_mov(*old(self)),
    {
        self.pos.x = step_coord(self.pos.x, self.dir_x, BULLET_SPEED);
        self.pos.y = step_coord(self.pos.y, self.dir_y, BULLET_SPEED);
    }

    pub fn get_center(&self) -> (p: Position)
        ensures
            p == spec_bullet_center(*self),
    {
        Position {
            x: step_coord(self.pos.x, 1, BULLET_SIZE / 2),
            y: step_coord(self.pos.y, 1, BULLET_SIZE / 2),
        }
    }
}

/// Where the boss's bullets leave: just left of its nose at mid-height.
pub open spec fn spec_muzzle(e: Enemy) -> Position {
    Position {
        x: sat_i32(e.pos.x - 5) as i32,
        y: sat_i32(e.pos.y + ENEMY_HEIGHT / 2) as i32,
    }
}

/// The boss's five-way fan, fired from its muzzle.
pub open spec fn spec_fan(e: Enemy) -> Seq<Bullet> {
    let muzzle = spec_muzzle(e);
    seq![
        Bullet { pos: muzzle, dir_x: -2i32, dir_y: 0i32 },
        Bullet { pos: muzzle, dir_x: -2i32, dir_y: 1i32 },
        Bullet { pos: muzzle, dir_x: -2i32, dir_y: 2i32 },
        Bullet { pos: muzzle, dir_x: -2i32, dir_y: -1i32 },
        Bullet { pos: muzzle, dir_x: -2i32, dir_y: -2i32 },
    ]
}

/// One frame's hit resolution: the bullets inside the boss are consumed
/// and drain its life, then the bullets inside the ship are consumed
/// and report the latch. Returns the surviving bullets, the boss, and
/// whether the ship was hit.
pub open spec fn spec_resolve(bullets: Seq<Bullet>, e: Enemy, ship: Spaceship) -> (
    Seq<Bullet>,
    Enemy,
    bool,
) {
    let enemy_hits = spec_enemy_hit_indexes(bullets, e);
    let after_enemy = spec_keep_unindexed(bullets, enemy_hits);
    let boss = spec_after_hits(e, enemy_hits.len() as int);
    let ship_hits = spec_ship_hit_indexes(after_enemy, ship);
    (spec_keep_unindexed(after_enemy, ship_hits), boss, ship_hits.len() > 0)
}

pub struct Game {
    pub width: i32,
    pub height: i32,
    pub background: Background,
    pub spaceship: Spaceship,
    pub enemy: Enemy,
    pub bullets: Vec<Bullet>,
    pub last_shoot: usize,
    pub game_over: bool,
}

pub open spec fn game_wf(g: Game) -> bool {
    &&& background_wf(g.background)
    &&& enemy_wf(g.enemy)
    &&& g.last_shoot <= SHOOT_EVERY
}

/// The positions, in order, of the bullets whose centre is inside the
/// boss body.
pub open spec fn spec_enemy_hit_indexes(bullets: Seq<Bullet>, e: Enemy) -> Seq<usize>
    decreases bullets.len(),
{
    if bullets.len() == 0 {
        Seq::empty()
    } else {
        let init = spec_enemy_hit_indexes(bullets.drop_last(), e);
        if spec_enemy_overlaps(e, spec_bullet_center(bullets.last())) {
            init.push((bullets.len() - 1) as usize)
        } else {
            init
        }
    }
}

/// The positions, in order, of the bullets whose centre is inside the
/// ship body.
pub open spec fn spec_ship_hit_indexes(bullets: Seq<Bullet>, s: Spaceship) -> Seq<usize>
    decreases bullets.len(),
{
    if bullets.len() == 0 {
        Seq::empty()
    } else {
        let init = spec_ship_hit_indexes(bullets.drop_last(), s);
        if spec_ship_overlaps(s, spec_bullet_center(bullets.last())) {
            init.push((bullets.len() - 1) as usize)
        } else {
            init
        }
    }
}

impl Game {
    /// A fresh duel on a field of the given size.
    pub fn new(width: i32, height: i32) -> (g: Game)
        requires
            1 <= width,
            ENEMY_HEIGHT + 100 < height,
            width + BG_SPEED <= i32::MAX,
        ensures
            game_wf(g),
            g.width == width,
            g.height == height,
            g.spaceship.pos.x == 50 && g.spaceship.pos.y == height / 2,
            g.enemy.life == 100,
            g.bullets@.len() == 0,
            g.last_shoot == 0,
            !g.game_over,
    {
        Game {
            width,
            height,
            background: Background::new(width),
            spaceship: Spaceship::new(height),
            enemy: Enemy::new(width, height),
            bullets: Vec::new(),
            last_shoot: 0,
            game_over: false,
        }
    }

    pub fn left(&mut self)
        ensures
            final(self).spaceship.pos.x as int == sat_i32(old(self).spaceship.pos.x - SHIP_SPEED),
            final(self).spaceship.pos.y == old(self).spaceship.pos.y,
            final(self).enemy == old(self).enemy,
            final(self).bullets@ == old(self).bullets@,
            final(self).game_over == old(self).game_over,
    {
        self.spaceship.left();
    }

    pub fn right(&mut self)
        ensures
            final(self).spaceship.pos.x as int == sat_i32(old(self).spaceship.pos.x + SHIP_SPEED),
            final(self).spaceship.pos.y == old(self).spaceship.pos.y,
            final(self).enemy == old(self).enemy,
            final(self).bullets@ == old(self).bullets@,
            final(self).game_over == old(self).game_over,
    {
        self.spaceship.right();
    }

    pub fn up(&mut self)
        ensures
            final(self).spaceship.pos.y as int == sat_i32(old(self).spaceship.pos.y - SHIP_SPEED),
            final(self).spaceship.pos.x == old(self).spaceship.pos.x,
            final(self).enemy == old(self).enemy,
            final(self).bullets@ == old(self).bullets@,
            final(self).game_over == old(self).game_over,
    {
        self.spaceship.up();
    }

    pub fn down(&mut self)
        ensures
            final(self).spaceship.pos.y as int == sat_i32(old(self).spaceship.pos.y + SHIP_SPEED),
            final(self).spaceship.pos.x == old(self).spaceship.pos.x,
            final(self).enemy == old(self).enemy,
            final(self).bullets@ == old(self).bullets@,
            final(self).game_over == old(self).game_over,
    {
        self.spaceship.down();
    }

    /// The ship fires one bullet to the right from its nose.
    pub fn space_ship_shoot(&mut self)
        ensures
            final(self).bullets@ == old(self).bullets@.push(
                Bullet {
                    pos: Position {
                        x: sat_i32(old(self).spaceship.pos.x + SHIP_WIDTH) as i32,
                        y: sat_i32(old(self).spaceship.pos.y + SHIP_HEIGHT / 2) as i32,
                    },
                    dir_x: BULLET_SPEED,
                    dir_y: 0,
                },
            ),
            final(self).spaceship == old(self).spaceship,
            final(self).enemy == old(self).enemy,
            final(self).game_over == old(self).game_over,
            final(self).last_shoot == old(self).last_shoot,
            final(self).background == old(self).background,
            final(self).width == old(self).width,
            final(self).height == old(self).height,
    {
        let pos = Position {
            x: step_coord(self.spaceship.pos.x, 1, SHIP_WIDTH),
            y: step_coord(self.spaceship.pos.y, 1, SHIP_HEIGHT / 2),
        };
        let bullet = Bullet::new(pos, BULLET_SPEED, 0);
        self.bullets.push(bullet);
    }

    /// Where the boss's bullets leave: just left of its nose at
    /// mid-height.
    fn enemy_muzzle(&self) -> (p: Position)
        ensures
            p.x as int == sat_i32(self.enemy.pos.x - 5),
            p.y as int == sat_i32(self.enemy.pos.y + ENEMY_HEIGHT / 2),
    {
        Position {
            x: step_coord(self.enemy.pos.x, -1, 5),
            y: step_coord(self.enemy.pos.y, 1, ENEMY_HEIGHT / 2),
        }
    }

    /// The boss fires one bullet along the given aim vector (the
    /// surrounding program aims it at the ship).
    pub fn boss_single_shoot(&mut self, aim_x: i32, aim_y: i32)
        ensures
            final(self).bullets@ == old(self).bullets@.push(
                Bullet {
                    pos: Position {
                        x: sat_i32(old(self).enemy.pos.x - 5) as i32,
                        y: sat_i32(old(self).enemy.pos.y + ENEMY_HEIGHT / 2) as i32,
                    },
                    dir_x: aim_x,
                    dir_y: aim_y,
                },
            ),
            final(self).spaceship == old(self).spaceship,
            final(self).enemy == old(self).enemy,
            final(self).game_over == old(self).game_over,
            final(self).last_shoot == old(self).last_shoot,
            final(self).background == old(self).background,
            final(self).width == old(self).width,
            final(self).height == old(self).height,
    {
        let pos = self.enemy_muzzle();
        let bullet = Bullet::new(pos, aim_x, aim_y);
        self.bullets.push(bullet);
    }

    /// The boss fires a five-way fan to the left.
    pub fn enemy_multi_shoot(&mut self)
        ensures
            ({
                let muzzle = Position {
                    x: sat_i32(old(self).enemy.pos.x - 5) as i32,
                    y: sat_i32(old(self).enemy.pos.y + ENEMY_HEIGHT / 2) as i32,
                };
                final(self).bullets@ == old(self).bullets@.push(
                    Bullet { pos: muzzle, dir_x: -2i32, dir_y: 0i32 },
                ).push(Bullet { pos: muzzle, dir_x: -2i32, dir_y: 1i32 }).push(
                    Bullet { pos: muzzle, dir_x: -2i32, dir_y: 2i32 },
                ).push(Bullet { pos: muzzle, dir_x: -2i32, dir_y: -1i32 }).push(
                    Bullet { pos: muzzle, dir_x: -2i32, dir_y: -2i32 },
                )
            }),
            final(self).spaceship == old(self).spaceship,
            final(self).enemy == old(self).enemy,
            final(self).game_over == old(self).game_over,
            final(self).last_shoot == old(self).last_shoot,
            final(self).background == old(self).background,
            final(self).width == old(self).width,
            final(self).height == old(self).height,
    {
        let pos = self.enemy_muzzle();

        let b1 = Bullet::new(pos, -2, 0);
        let b2 = Bullet::new(pos, -2, 1);
        let b3 = Bullet::new(pos, -2, 2);
        let b4 = Bullet::new(pos, -2, -1);
        let b5 = Bullet::new(pos, -2, -2);

        self.bullets.push(b1);
        self.bullets.push(b2);
        self.bullets.push(b3);
        self.bullets.push(b4);
        self.bullets.push(b5);
    }

    /// Advance the boss's firing cadence; when it fires, a coin flip
    /// picks the five-way fan or a single bullet along the given aim
    /// vector.
    pub fn enemy_shoot(&mut self, aim_x: i32, aim_y: i32)
        requires
            old(self).last_shoot <= SHOOT_EVERY,
        ensures
            final(self).last_shoot <= SHOOT_EVERY,
            final(self).spaceship == old(self).spaceship,
            final(self).enemy == old(self).enemy,
            final(self).game_over == old(self).game_over,
            final(self).background == old(self).background,
            final(self).width == old(self).width,
            final(self).height == old(self).height,
            old(self).last_shoot < SHOOT_EVERY ==> final(self).bullets@ == old(self).bullets@
                && final(self).last_shoot == old(self).last_shoot + 1,
            old(self).last_shoot >= SHOOT_EVERY ==> final(self).last_shoot == 0
                && (final(self).bullets@ == old(self).bullets@.push(
                Bullet { pos: spec_muzzle(old(self).enemy), dir_x: aim_x, dir_y: aim_y },
            ) || final(self).bullets@ == old(self).bullets@ + spec_fan(old(self).enemy)),
    {
        if self.last_shoot < SHOOT_EVERY {
            self.last_shoot = self.last_shoot + 1;
            return ;
        }

        self.last_shoot = 0;

        let multishoot = random_in_range(0, 2);

        if multishoot == 1 {
            self.enemy_multi_shoot();
            proof {
                assert(self.bullets@ =~= old(self).bullets@ + spec_fan(old(self).enemy));
            }
        } else {
            self.boss_single_shoot(aim_x, aim_y);
        }
    }

    /// Every bullet flies one tick.
    pub fn mov_bullets(&mut self)
        ensures
            final(self).bullets@ == old(self).bullets@.map_values(|b: Bullet| spec_bullet_mov(b)),
            final(self).spaceship == old(self).spaceship,
            final(self).enemy == old(self).enemy,
            final(self).game_over == old(self).game_over,
            final(self).last_shoot == old(self).last_shoot,
            final(self).background == old(self).background,
            final(self).width == old(self).width,
            final(self).height == old(self).height,
    {
        let ghost g0 = *self;
        let mut i: usize = 0;
        while i < self.bullets.len()
            invariant
                i <= self.bullets@.len(),
                self.bullets@.len() == g0.bullets@.len(),
                self.spaceship == g0.spaceship,
                self.enemy == g0.enemy,
                self.game_over == g0.game_over,
                self.last_shoot == g0.last_shoot,
                self.background == g0.background,
                self.width == g0.width,
                self.height == g0.height,
                forall|j: int| 0 <= j < i ==> self.bullets@[j] == spec_bullet_mov(g0.bullets@[j]),
                forall|j: int| i <= j < g0.bullets@.len() ==> self.bullets@[j] == g0.bullets@[j],
            decreases g0.bullets@.len() - i,
        {
            let mut b = self.bullets[i];
            b.mov();
            self.bullets[i] = b;
            i = i + 1;
        }
        proof {
            assert(self.bullets@ =~= g0.bullets@.map_values(|b: Bullet| spec_bullet_mov(b)));
        }
    }

    /// One display refresh. The backdrop scrolls even after the latch;
    /// while the game runs, the boss's hurt look and patrol advance,
    /// the bullets fly, the boss's firing cadence advances (a coin flip
    /// picks its shape, aimed along the given vector), and the frame's
    /// hits resolve.
    pub fn mov(&mut self, aim_x: i32, aim_y: i32)
        requires
            game_wf(*old(self)),
        ensures
            game_wf(*final(self)),
            final(self).width == old(self).width,
            final(self).height == old(self).height,
            final(self).spaceship == old(self).spaceship,
            final(self).background.x1 == crate::motion::spec_scroll_backward(
                old(self).background.x1 as int,
                old(self).background.width as int,
                BG_SPEED as int,
            ),
            old(self).game_over ==> final(self).game_over && final(self).enemy == old(self).enemy
                && final(self).bullets@ == old(self).bullets@
                && final(self).last_shoot == old(self).last_shoot,
            !old(self).game_over ==> ({
                let boss = spec_enemy_mov(spec_hurt_step(old(self).enemy));
                let flown = old(self).bullets@.map_values(|b: Bullet| spec_bullet_mov(b));
                let fired = old(self).last_shoot >= SHOOT_EVERY;
                let aimed = Bullet { pos: spec_muzzle(boss), dir_x: aim_x, dir_y: aim_y };
                let single = spec_resolve(flown.push(aimed), boss, old(self).spaceship);
                let fanned = spec_resolve(flown + spec_fan(boss), boss, old(self).spaceship);
                let quiet = spec_resolve(flown, boss, old(self).spaceship);
                &&& final(self).last_shoot == (if fired {
                    0int
                } else {
                    old(self).last_shoot + 1
                })
                &&& if fired {
                    (final(self).bullets@ == single.0 && final(self).enemy == single.1
                        && final(self).game_over == single.2) || (final(self).bullets@ == fanned.0
                        && final(self).enemy == fanned.1 && final(self).game_over == fanned.2)
                } else {
                    final(self).bullets@ == quiet.0 && final(self).enemy == quiet.1
                        && final(self).game_over == quiet.2
                }
            }),
    {
        self.background.mov();
        if self.game_over {
            return ;
        }
        self.enemy.change_hurt_state();
        self.enemy.mov();
        self.mov_bullets();
        self.enemy_shoot(aim_x, aim_y);
        self.handle_enemy_hit();
        self.handle_spaceship_hit();
    }

    /// The positions of the bullets whose centre is inside the boss.
    pub fn get_bullets_enemy_hit(&self) -> (indexes: Vec<usize>)
        ensures
            indexes@ == spec_enemy_hit_indexes(self.bullets@, self.enemy),
    {
        let mut indexes: Vec<usize> = Vec::new();
        let mut i: usize = 0;
        while i < self.bullets.len()
            invariant
                i <= self.bullets@.len(),
                indexes@ == spec_enemy_hit_indexes(self.bullets@.take(i as int), self.enemy),
            decreases self.bullets@.len() - i,
        {
            let b = &self.bullets[i];
            let p = b.get_center();
            if self.enemy.overlaps(&p) {
                indexes.push(i);
            }
            i = i + 1;
            proof {
                assert(self.bullets@.take(i as int).drop_last() =~= self.bullets@.take(i - 1));
            }
        }
        proof {
            assert(self.bullets@.take(self.bullets@.len() as int) =~= self.bullets@);
        }
        indexes
    }

    /// The positions of the bullets whose centre is inside the ship.
    pub fn get_bullets_spaceship_hit(&self) -> (indexes: Vec<usize>)
        ensures
            indexes@ == spec_ship_hit_indexes(self.bullets@, self.spaceship),
    {
        let mut indexes: Vec<usize> = Vec::new();
        let mut i: usize = 0;
        while i < self.bullets.len()
            invariant
                i <= self.bullets@.len(),
                indexes@ == spec_ship_hit_indexes(self.bullets@.take(i as int), self.spaceship),
            decreases self.bullets@.len() - i,
        {
            let b = &self.bullets[i];
            let p = b.get_center();
            if self.spaceship.overlaps(&p) {
                indexes.push(i);
            }
            i = i + 1;
            proof {
                assert(self.bullets@.take(i as int).drop_last() =~= self.bullets@.take(i - 1));
            }
        }
        proof {
            assert(self.bullets@.take(self.bullets@.len() as int) =~= self.bullets@);
        }
        indexes
    }

    /// Drop the bullets at the named positions.
    pub fn remove_bullets(&mut self, indexes: &Vec<usize>)
        ensures
            final(self).bullets@ == spec_keep_unindexed(old(self).bullets@, indexes@),
            final(self).spaceship == old(self).spaceship,
            final(self).enemy == old(self).enemy,
            final(self).game_over == old(self).game_over,
            final(self).last_shoot == old(self).last_shoot,
            final(self).background == old(self).background,
            final(self).width == old(self).width,
            final(self).height == old(self).height,
    {
        self.bullets = remove_at_indexes(&self.bullets, indexes);
    }

    /// Consume the bullets inside the boss and drain its life by their
    /// number, to a floor of zero. The surrounding program plays the
    /// explosion sound when any hit.
    pub fn handle_enemy_hit(&mut self)
        ensures
            ({
                let hits = spec_enemy_hit_indexes(old(self).bullets@, old(self).enemy);
                &&& final(self).bullets@ == spec_keep_unindexed(old(self).bullets@, hits)
                &&& final(self).enemy.life == (if hits.len() <= old(self).enemy.life {
                    old(self).enemy.life - hits.len()
                } else {
                    0int
                })
                &&& final(self).enemy.is_hurt == (hits.len() > 0 || old(self).enemy.is_hurt)
                &&& final(self).enemy.pos == old(self).enemy.pos
                &&& final(self).enemy.dir_y == old(self).enemy.dir_y
                &&& final(self).enemy.last_hurt == old(self).enemy.last_hurt
                &&& final(self).enemy.height == old(self).enemy.height
            }),
            final(self).spaceship == old(self).spaceship,
            final(self).game_over == old(self).game_over,
            final(self).last_shoot == old(self).last_shoot,
            final(self).background == old(self).background,
            final(self).width == old(self).width,
            final(self).height == old(self).height,
    {
        let bullets = self.get_bullets_enemy_hit();
        self.remove_bullets(&bullets);

        if bullets.len() > 0 {
            self.enemy.hit(bullets.len());
        }
    }

    /// Consume the bullets inside the ship; any hit latches the game
    /// over.
    pub fn handle_spaceship_hit(&mut self)
        ensures
            ({
                let hits = spec_ship_hit_indexes(old(self).bullets@, old(self).spaceship);
                &&& final(self).bullets@ == spec_keep_unindexed(old(self).bullets@, hits)
                &&& final(self).game_over == (old(self).game_over || hits.len() > 0)
            }),
            final(self).spaceship == old(self).spaceship,
            final(self).enemy == old(self).enemy,
            final(self).last_shoot == old(self).last_shoot,
            final(self).background == old(self).background,
            final(self).width == old(self).width,
            final(self).height == old(self).height,
    {
        let bullets = self.get_bullets_spaceship_hit();
        self.remove_bullets(&bullets);

        if bullets.len() > 0 {
            self.game_over = true;
        }
    }
}

} // verus!
