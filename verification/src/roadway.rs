//! The road-racer variant: the player's car slides sideways across a
//! scrolling road while enemy cars fall towards it on a fixed cadence.
//! Leaving the asphalt or touching an enemy car latches the game over.

use vstd::prelude::*;
use crate::geometry::Position;
use crate::motion::sat_i32;
use crate::motion::spec_scroll_forward;
use crate::motion::scroll_forward;
use crate::motion::step_coord;
use crate::random::random_in_range;

verus! {

pub const CAR_SIZE: i32 = 100;

/// Width of the off-road strip on each side.
pub const ROAD_BORDE: i32 = 100;

pub const PLAYER_SPEED: i32 = 5;

pub const ENEMY_SPEED: i32 = 5;

pub const ROAD_SPEED: i32 = 5;

pub const ROAD_SIZE: i32 = 600;

/// A new enemy car is created once every this many update ticks.
pub const ADD_ENEMY_EVERY: usize = 100;

/// The two copies of the looping road texture: the upper one at `y1`,
/// the lower one a whole screen after it.
pub struct Road {
    pub height: i32,
    pub y1: i32,
    pub y2: i32,
}

pub open spec fn road_wf(r: Road) -> bool {
    1 <= r.height && r.height + ROAD_SPEED <= i32::MAX && 0 <= r.y2 < r.height + ROAD_SPEED
}

impl Road {
    pub fn new(height: i32) -> (r: Road)
        requires
            1 <= height,
            height + ROAD_SPEED <= i32::MAX,
        ensures
            road_wf(r),
            r.height == height,
            r.y2 == 0,
            r.y1 == -height,
    {
        Road { height, y2: 0, y1: -height }
    }

    /// Slide the road one tick downward, looping the pair once the
    /// leading copy has fully left the screen.
    pub fn mov(&mut self)
        requires
            road_wf(*old(self)),
        ensures
            road_wf(*final(self)),
            final(self).height == old(self).height,
            final(self).y2 == spec_scroll_forward(
                old(self).y2 as int,
                old(self).height as int,
                ROAD_SPEED as int,
            ),
            final(self).y1 == -(old(self).height - final(self).y2),
    {
        self.y2 = scroll_forward(self.y2, self.height, ROAD_SPEED);
        self.y1 = -(self.height - self.y2);
    }
}

pub struct Player {
    pub pos: Position,
}

impl Player {
    /// A fresh car at mid-width near the lower edge.
    pub fn new(width: i32, height: i32) -> (p: Player)
        requires
            0 <= width,
        ensures
            p.pos.x == width / 2,
            p.pos.y as int == sat_i32(height - 150),
    {
        Player {
            pos: Position { x: width / 2, y: step_coord(height, -1, 150) },
        }
    }

    pub fn left(&mut self)
        ensures
            final(self).pos.x as int == sat_i32(old(self).pos.x - PLAYER_SPEED),
            final(self).pos.y == old(self).pos.y,
    {
        self.pos.x = step_coord(self.pos.x, -1, PLAYER_SPEED);
    }

    pub fn right(&mut self)
        ensures
            final(self).pos.x as int == sat_i32(old(self).pos.x + PLAYER_SPEED),
            final(self).pos.y == old(self).pos.y,
    {
        self.pos.x = step_coord(self.pos.x, 1, PLAYER_SPEED);
    }

    /// The car's top-left corner, one of the two points tested against
    /// enemy cars.
    pub fn top_left(&self) -> (p: Position)
        ensures
            p == self.pos,
    {
        Position { x: self.pos.x, y: self.pos.y }
    }

    /// The car's top-right corner.
    pub fn top_right(&self) -> (p: Position)
        ensures
            p.x as int == sat_i32(self.pos.x + CAR_SIZE),
            p.y == self.pos.y,
    {
        Position { x: step_coord(self.pos.x, 1, CAR_SIZE), y: self.pos.y }
    }
}

#[derive(Clone, Copy, PartialEq, Eq, Structural, Debug)]
pub struct Enemy {
    pub pos: Position,
}

/// The point lies within the enemy car, borders included.
pub open spec fn spec_enemy_overlaps(e: Enemy, p: Position) -> bool {
    e.pos.x <= p.x <= e.pos.x + CAR_SIZE && e.pos.y <= p.y <= e.pos.y + CAR_SIZE
}

impl Enemy {
    /// A fresh enemy car on the top edge, in a random on-road column.
    pub fn new(width: i32) -> (e: Enemy)
        requires
            ROAD_BORDE < width - ROAD_BORDE - CAR_SIZE,
        ensures
            ROAD_BORDE <= e.pos.x < width - ROAD_BORDE - CAR_SIZE,
            e.pos.y == 10,
    {
        let hi = (width - ROAD_BORDE - CAR_SIZE) as i64;
        let x = random_in_range(ROAD_BORDE as i64, hi) as i32;
        Enemy { pos: Position { x, y: 10 } }
    }

    /// Fall one tick towards the player.
    pub fn mov(&mut self)
        ensures
            final(self).pos.y as int == sat_i32(old(self).pos.y + ENEMY_SPEED),
            final(self).pos.x == old(self).pos.x,
    {
        self.pos.y = step_coord(self.pos.y, 1, ENEMY_SPEED);
    }

    /// Point-vs-body hit test against the enemy car.
    pub fn overlaps(&self, pos: &Position) -> (r: bool)
        ensures
            r == spec_enemy_overlaps(*self, *pos),
    {
        let left = self.pos.x as i64;
        let top = self.pos.y as i64;
        let horizontal_overlap = left <= pos.x as i64 && pos.x as i64 <= left + CAR_SIZE as i64;
        let vertical_overlap = top <= pos.y as i64 && pos.y as i64 <= top + CAR_SIZE as i64;
        vertical_overlap && horizontal_overlap
    }
}

/// The player has drifted onto either off-road strip.
pub open spec fn spec_is_road_crash(width: int, player: Player) -> bool {
    player.pos.x <= ROAD_BORDE || player.pos.x + CAR_SIZE >= width - ROAD_BORDE
}

/// Some enemy car touches the player's top-left or top-right corner.
pub open spec fn spec_is_car_crash(enemies: Seq<Enemy>, player: Player) -> bool {
    exists|k: int|
        0 <= k < enemies.len() && (spec_enemy_overlaps(enemies[k], player.pos)
            || spec_enemy_overlaps(
            enemies[k],
            Position { x: sat_i32(player.pos.x + CAR_SIZE) as i32, y: player.pos.y },
        ))
}

pub struct Game {
    pub width: i32,
    pub height: i32,
    pub road: Road,
    pub player: Player,
    pub enemies: Vec<Enemy>,
    pub last_enemy: usize,
    pub is_game_over: bool,
}

pub open spec fn game_wf(g: Game) -> bool {
    &&& road_wf(g.road)
    &&& g.last_enemy < ADD_ENEMY_EVERY
    &&& ROAD_BORDE < g.width - ROAD_BORDE - CAR_SIZE
}

impl Game {
    /// A fresh race on a field of the given size, with one enemy car
    /// already on the road.
    pub fn new(width: i32, height: i32) -> (g: Game)
        requires
            ROAD_BORDE < width - ROAD_BORDE - CAR_SIZE,
            1 <= height,
            height + ROAD_SPEED <= i32::MAX,
        ensures
            game_wf(g),
            g.width == width,
            g.height == height,
            g.player.pos.x == width / 2,
            g.enemies@.len() == 1,
            g.last_enemy == 0,
            !g.is_game_over,
    {
        let mut game = Game {
            width,
            height,
            road: Road::new(height),
            player: Player::new(width, height),
            enemies: Vec::new(),
            last_enemy: 0,
            is_game_over: false,
        };
        game.add_enemy();
        game
    }

    /// One more enemy car enters at the top, in a random on-road
    /// column.
    pub fn add_enemy(&mut self)
        requires
            ROAD_BORDE < old(self).width - ROAD_BORDE - CAR_SIZE,
        ensures
            final(self).enemies@.len() == old(self).enemies@.len() + 1,
            final(self).enemies@.subrange(0, old(self).enemies@.len() as int) == old(self).enemies@,
            final(self).enemies@.last().pos.y == 10,
            ROAD_BORDE <= final(self).enemies@.last().pos.x < old(self).width - ROAD_BORDE
                - CAR_SIZE,
            final(self).player == old(self).player,
            final(self).road == old(self).road,
            final(self).last_enemy == old(self).last_enemy,
            final(self).is_game_over == old(self).is_game_over,
            final(self).width == old(self).width,
            final(self).height == old(self).height,
    {
        let enemy = Enemy::new(self.width);
        self.enemies.push(enemy);
        proof {
            assert(self.enemies@.subrange(0, old(self).enemies@.len() as int)
                =~= old(self).enemies@);
        }
    }

    /// Advance the spawn cadence; when it fires, one enemy car enters
    /// and the counter resets.
    pub fn add_enemy_conditional(&mut self)
        requires
            game_wf(*old(self)),
        ensures
            game_wf(*final(self)),
            final(self).player == old(self).player,
            final(self).road == old(self).road,
            final(self).is_game_over == old(self).is_game_over,
            final(self).width == old(self).width,
            final(self).height == old(self).height,
            old(self).last_enemy + 1 < ADD_ENEMY_EVERY ==> final(self).enemies@ == old(self).enemies@
                && final(self).last_enemy == old(self).last_enemy + 1,
            old(self).last_enemy + 1 >= ADD_ENEMY_EVERY ==> final(self).last_enemy == 0
                && final(self).enemies@.len() == old(self).enemies@.len() + 1
                && final(self).enemies@.subrange(0, old(self).enemies@.len() as int)
                    == old(self).enemies@
                && final(self).enemies@.last().pos.y == 10
                && ROAD_BORDE <= final(self).enemies@.last().pos.x < old(self).width - ROAD_BORDE
                    - CAR_SIZE,
    {
        self.last_enemy = self.last_enemy + 1;
        if self.last_enemy >= ADD_ENEMY_EVERY {
            self.last_enemy = 0;
            self.add_enemy();
        }
    }

    pub fn left(&mut self)
        ensures
            final(self).player.pos.x as int == sat_i32(old(self).player.pos.x - PLAYER_SPEED),
            final(self).player.pos.y == old(self).player.pos.y,
            final(self).enemies@ == old(self).enemies@,
            final(self).is_game_over == old(self).is_game_over,
    {
        self.player.left();
    }

    pub fn right(&mut self)
        ensures
            final(self).player.pos.x as int == sat_i32(old(self).player.pos.x + PLAYER_SPEED),
            final(self).player.pos.y == old(self).player.pos.y,
            final(self).enemies@ == old(self).enemies@,
            final(self).is_game_over == old(self).is_game_over,
    {
        self.player.right();
    }

    /// Whether the player has left the asphalt.
    pub fn is_road_crash(&self) -> (r: bool)
        ensures
            r == spec_is_road_crash(self.width as int, self.player),
    {
        if self.player.pos.x as i64 <= ROAD_BORDE as i64 {
            return true;
        }

        if self.player.pos.x as i64 + CAR_SIZE as i64 >= self.width as i64 - ROAD_BORDE as i64 {
            return true;
        }

        false
    }

    /// Whether any enemy car touches the player's leading corners.
    pub fn is_car_crash(&self) -> (r: bool)
        ensures
            r == spec_is_car_crash(self.enemies@, self.player),
    {
        let p1 = self.player.top_left();
        let p2 = self.player.top_right();

        let mut k: usize = 0;
        while k < self.enemies.len()
            invariant
                k <= self.enemies@.len(),
                p1 == self.player.pos,
                p2 == (Position {
                    x: sat_i32(self.player.pos.x + CAR_SIZE) as i32,
                    y: self.player.pos.y,
                }),
                forall|k2: int|
                    0 <= k2 < k ==> !spec_enemy_overlaps(self.enemies@[k2], p1)
                        && !spec_enemy_overlaps(self.enemies@[k2], p2),
            decreases self.enemies@.len() - k,
        {
            if self.enemies[k].overlaps(&p1) {
                return true;
            }

            if self.enemies[k].overlaps(&p2) {
                return true;
            }
            k = k + 1;
        }

        false
    }

    /// Latch the game over on contact with an enemy car. The
    /// surrounding program plays the explosion sound on the latch.
    pub fn handle_car_crash(&mut self)
        ensures
            final(self).is_game_over == (old(self).is_game_over || spec_is_car_crash(
                old(self).enemies@,
                old(self).player,
            )),
            final(self).player == old(self).player,
            final(self).enemies@ == old(self).enemies@,
            final(self).road == old(self).road,
            final(self).last_enemy == old(self).last_enemy,
            final(self).width == old(self).width,
            final(self).height == old(self).height,
    {
        if self.is_car_crash() {
            self.is_game_over = true;
        }
    }

    /// Latch the game over once the player leaves the asphalt.
    pub fn handle_road_crash(&mut self)
        ensures
            final(self).is_game_over == (old(self).is_game_over || spec_is_road_crash(
                old(self).width as int,
                old(self).player,
            )),
            final(self).player == old(self).player,
            final(self).enemies@ == old(self).enemies@,
            final(self).road == old(self).road,
            final(self).last_enemy == old(self).last_enemy,
            final(self).width == old(self).width,
            final(self).height == old(self).height,
    {
        if self.is_road_crash() {
            self.is_game_over = true;
        }
    }

    /// Every enemy car falls one tick.
    pub fn mov_enemies(&mut self)
        ensures
            final(self).enemies@.len() == old(self).enemies@.len(),
            forall|k: int|
                0 <= k < old(self).enemies@.len() ==> final(self).enemies@[k].pos.x == old(
                    self,
                ).enemies@[k].pos.x && final(self).enemies@[k].pos.y as int == sat_i32(
                    old(self).enemies@[k].pos.y + ENEMY_SPEED,
                ),
            final(self).player == old(self).player,
            final(self).road == old(self).road,
            final(self).last_enemy == old(self).last_enemy,
            final(self).is_game_over == old(self).is_game_over,
            final(self).width == old(self).width,
            final(self).height == old(self).height,
    {
        let ghost g0 = *self;
        let mut k: usize = 0;
        while k < self.enemies.len()
            invariant
                k <= self.enemies@.len(),
                self.enemies@.len() == g0.enemies@.len(),
                self.player == g0.player,
                self.road == g0.road,
                self.last_enemy == g0.last_enemy,
                self.is_game_over == g0.is_game_over,
                self.width == g0.width,
                self.height == g0.height,
                forall|k2: int|
                    0 <= k2 < k ==> self.enemies@[k2].pos.x == g0.enemies@[k2].pos.x
                        && self.enemies@[k2].pos.y as int == sat_i32(
                        g0.enemies@[k2].pos.y + ENEMY_SPEED,
                    ),
                forall|k2: int| k <= k2 < g0.enemies@.len() ==> self.enemies@[k2] == g0.enemies@[k2],
            decreases g0.enemies@.len() - k,
        {
            let mut e = self.enemies[k];
            e.mov();
            self.enemies[k] = e;
            k = k + 1;
        }
    }

    /// One update tick: while the game runs, boundary and car contacts
    /// latch the game over, the spawn cadence advances, the road
    /// scrolls, and every enemy car (a fresh one included) falls one
    /// tick. After the latch nothing changes.
    pub fn mov(&mut self)
        requires
            game_wf(*old(self)),
        ensures
            game_wf(*final(self)),
            old(self).is_game_over ==> *final(self) == *old(self),
            !old(self).is_game_over ==> ({
                let fired = old(self).last_enemy + 1 >= ADD_ENEMY_EVERY;
                &&& final(self).is_game_over == (spec_is_road_crash(
                    old(self).width as int,
                    old(self).player,
                ) || spec_is_car_crash(old(self).enemies@, old(self).player))
                &&& final(self).player == old(self).player
                &&& final(self).width == old(self).width
                &&& final(self).height == old(self).height
                &&& final(self).road.y2 == spec_scroll_forward(
                    old(self).road.y2 as int,
                    old(self).road.height as int,
                    ROAD_SPEED as int,
                )
                &&& final(self).last_enemy == (if fired {
                    0int
                } else {
                    old(self).last_enemy + 1
                })
                &&& final(self).enemies@.len() == old(self).enemies@.len() + (if fired {
                    1int
                } else {
                    0int
                })
                &&& forall|k: int|
                    0 <= k < old(self).enemies@.len() ==> final(self).enemies@[k].pos.x == old(
                        self,
                    ).enemies@[k].pos.x && final(self).enemies@[k].pos.y as int == sat_i32(
                        old(self).enemies@[k].pos.y + ENEMY_SPEED,
                    )
                &&& fired ==> ROAD_BORDE <= final(self).enemies@.last().pos.x < old(self).width
                    - ROAD_BORDE - CAR_SIZE && final(self).enemies@.last().pos.y == 10
                    + ENEMY_SPEED
            }),
    {
        if self.is_game_over {
            return ;
        }
        self.handle_road_crash();
        self.handle_car_crash();
        self.add_enemy_conditional();
        self.road.mov();
        self.mov_enemies();
    }
}

} // verus!
