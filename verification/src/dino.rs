//! The runner variant: a dinosaur on a fixed ground line jumps over
//! cactuses that drift in from the right on a randomized cadence.
//! Touching any cactus latches the game over, which permanently stops
//! the updates.

use vstd::prelude::*;
use crate::geometry::Position;
use crate::motion::sat_i32;
use crate::motion::step_coord;
use crate::random::random_in_range;

verus! {

pub const DINOSAUR_HEIGHT: i32 = 100;

pub const DINOSAUR_WIDTH: i32 = 50;

/// How far the desert, and every cactus with it, drifts left per tick.
pub const DESERT_SPEED: i32 = 10;

pub const INIT_JUMP_FORCE: i32 = 30;

pub const GRAVITY: i32 = 2;

pub const CACTUS_HEIGHT: i32 = 100;

pub const CACTUS_WIDTH: i32 = 50;

/// The two cadences a new cactus may be scheduled with.
pub const CACTUS_EVERY_SHORT: usize = 50;

pub const CACTUS_EVERY_LONG: usize = 100;

/// How many sprite frames the dinosaur animation cycles through.
pub const FRAME_COUNT: usize = 2;

/// The two copies of the looping desert backdrop: the trailing one at
/// `x1`, the leading one at `x2`. The leading offset advances until it
/// has crossed the screen height — the band the art is sized to — and
/// then starts over.
pub struct Desert {
    pub width: i32,
    pub height: i32,
    pub x1: i32,
    pub x2: i32,
}

pub open spec fn desert_wf(d: Desert) -> bool {
    0 <= d.height && d.height + DESERT_SPEED <= i32::MAX && 0 <= d.x2 < d.height + DESERT_SPEED
        && 0 <= d.width
}

impl Desert {
    pub fn new(width: i32, height: i32) -> (d: Desert)
        requires
            0 <= width,
            0 <= height,
            height + DESERT_SPEED <= i32::MAX,
        ensures
            desert_wf(d),
            d.width == width,
            d.height == height,
            d.x1 == -width,
            d.x2 == 0,
    {
        Desert { width, height, x1: -width, x2: 0 }
    }

    /// Slide the backdrop one tick, looping once the leading offset has
    /// crossed the band.
    pub fn mov(&mut self)
        requires
            desert_wf(*old(self)),
        ensures
            desert_wf(*final(self)),
            final(self).width == old(self).width,
            final(self).height == old(self).height,
            final(self).x2 == crate::motion::spec_scroll_forward(
                old(self).x2 as int,
                old(self).height as int,
                DESERT_SPEED as int,
            ),
            final(self).x1 as int == sat_i32(-(old(self).width - final(self).x2)),
    {
        self.x2 = crate::motion::scroll_forward(self.x2, self.height, DESERT_SPEED);
        let gap = step_coord(self.width, -1, self.x2);
        self.x1 = step_coord(0, -1, gap);
    }
}

pub struct Dinosaur {
    pub pos: Position,
    pub ground_y: i32,
    pub jump_force: i32,
    pub current_img_index: usize,
    pub every_image: usize,
    pub img_count: usize,
}

/// The animation counter stays within its hold period and the frame
/// index within the frame count.
pub open spec fn dinosaur_wf(d: Dinosaur) -> bool {
    d.current_img_index < FRAME_COUNT && d.img_count <= d.every_image && d.every_image
        < usize::MAX
}

/// The dinosaur one gravity tick later: a falling dinosaur that has
/// reached the ground line settles there; otherwise the jump force
/// lifts it and gravity drains the force.
pub open spec fn spec_jump_step(d: Dinosaur) -> Dinosaur {
    if d.jump_force < 0 && d.pos.y >= d.ground_y {
        Dinosaur { pos: Position { x: d.pos.x, y: d.ground_y }, jump_force: 0, ..d }
    } else {
        Dinosaur {
            pos: Position { x: d.pos.x, y: sat_i32(d.pos.y - d.jump_force) as i32 },
            jump_force: sat_i32(d.jump_force - GRAVITY) as i32,
            ..d
        }
    }
}

/// The animation state one display refresh later.
pub open spec fn spec_frame_step(d: Dinosaur) -> Dinosaur {
    if d.img_count + 1 > d.every_image {
        Dinosaur { img_count: 0, current_img_index: if d.current_img_index == 0 {
            1
        } else {
            0
        }, ..d }
    } else {
        Dinosaur { img_count: (d.img_count + 1) as usize, ..d }
    }
}

impl Dinosaur {
    /// A fresh dinosaur standing on the ground line.
    pub fn new(ground_y: i32) -> (d: Dinosaur)
        ensures
            dinosaur_wf(d),
            d.pos.x == 100,
            d.pos.y == ground_y,
            d.ground_y == ground_y,
            d.jump_force == 0,
            d.current_img_index == 0,
            d.img_count == 0,
            d.every_image == 10,
    {
        Dinosaur {
            pos: Position { x: 100, y: ground_y },
            ground_y,
            jump_force: 0,
            current_img_index: 0,
            every_image: 10,
            img_count: 0,
        }
    }

    /// Start a jump: load the full jump force.
    pub fn jump(&mut self)
        ensures
            *final(self) == (Dinosaur { jump_force: INIT_JUMP_FORCE, ..*old(self) }),
    {
        self.jump_force = INIT_JUMP_FORCE;
    }

    /// One gravity tick.
    pub fn mov_jump(&mut self)
        ensures
            *final(self) == spec_jump_step(*old(self)),
    {
        let y_ground = self.ground_y;

        let goes_down = self.jump_force < 0;
        let is_in_ground = self.pos.y >= y_ground;

        if goes_down && is_in_ground {
            self.jump_force = 0;
            self.pos.y = y_ground;
            return ;
        }

        self.pos.y = step_coord(self.pos.y, -1, self.jump_force);
        self.jump_force = step_coord(self.jump_force, -1, GRAVITY);
    }

    /// Advance the sprite animation one display refresh.
    pub fn change_frame(&mut self)
        requires
            dinosaur_wf(*old(self)),
        ensures
            dinosaur_wf(*final(self)),
            *final(self) == spec_frame_step(*old(self)),
    {
        self.img_count = self.img_count + 1;
        if self.img_count > self.every_image {
            self.img_count = 0;
            self.current_img_index = if self.current_img_index == 0 {
                1
            } else {
                0
            };
        }
    }

    /// The dinosaur body's four corners, clockwise from the top-right,
    /// saturated at the coordinate limits.
    pub fn get_vertices(&self) -> (vertices: Vec<Position>)
        ensures
            vertices@ == spec_vertices(*self),
    {
        let mut vertices: Vec<Position> = Vec::new();

        let right_x = step_coord(self.pos.x, 1, DINOSAUR_WIDTH);
        let bottom_y = step_coord(self.pos.y, 1, DINOSAUR_HEIGHT);

        let top_left = Position { x: self.pos.x, y: self.pos.y };
        let top_right = Position { x: right_x, y: self.pos.y };
        let botom_left = Position { x: self.pos.x, y: bottom_y };
        let botom_right = Position { x: right_x, y: bottom_y };

        vertices.push(top_right);
        vertices.push(top_left);
        vertices.push(botom_left);
        vertices.push(botom_right);
        proof {
            assert(vertices@ =~= spec_vertices(*self));
        }
        vertices
    }
}

/// The dinosaur body's corners, clockwise from the top-right.
pub open spec fn spec_vertices(d: Dinosaur) -> Seq<Position> {
    let right_x = sat_i32(d.pos.x + DINOSAUR_WIDTH) as i32;
    let bottom_y = sat_i32(d.pos.y + DINOSAUR_HEIGHT) as i32;
    seq![
        Position { x: right_x, y: d.pos.y },
        Position { x: d.pos.x, y: d.pos.y },
        Position { x: d.pos.x, y: bottom_y },
        Position { x: right_x, y: bottom_y },
    ]
}

#[derive(Clone, Copy, PartialEq, Eq, Structural, Debug)]
pub struct Cactus {
    pub pos: Position,
}

/// The point lies within the cactus body, borders included.
pub open spec fn spec_cactus_overlaps(c: Cactus, p: Position) -> bool {
    c.pos.x <= p.x <= c.pos.x + CACTUS_WIDTH && c.pos.y <= p.y <= c.pos.y + CACTUS_HEIGHT
}

impl Cactus {
    pub fn new(x: i32, y: i32) -> (c: Cactus)
        ensures
            c.pos.x == x,
            c.pos.y == y,
    {
        Cactus { pos: Position { x, y } }
    }

    /// Drift one tick to the left with the desert.
    pub fn mov(&mut self)
        ensures
            final(self).pos.x as int == sat_i32(old(self).pos.x - DESERT_SPEED),
            final(self).pos.y == old(self).pos.y,
    {
        self.pos.x = step_coord(self.pos.x, -1, DESERT_SPEED);
    }

    /// Point-vs-body hit test against the cactus.
    pub fn overlaps(&self, pos: &Position) -> (r: bool)
        ensures
            r == spec_cactus_overlaps(*self, *pos),
    {
        let left = self.pos.x as i64;
        let right = left + CACTUS_WIDTH as i64;
        let top = self.pos.y as i64;
        let bottom = top + CACTUS_HEIGHT as i64;

        let h_overlap = left <= pos.x as i64 && (pos.x as i64) <= right;
        let v_overlap = top <= pos.y as i64 && (pos.y as i64) <= bottom;

        h_overlap && v_overlap
    }
}

/// Whether any cactus touches any corner of the dinosaur body.
pub open spec fn spec_is_crash(cactus: Seq<Cactus>, d: Dinosaur) -> bool {
    exists|c: int, v: int|
        0 <= c < cactus.len() && 0 <= v < 4 && spec_cactus_overlaps(cactus[c], spec_vertices(d)[v])
}

pub struct Game {
    pub width: i32,
    pub height: i32,
    pub dinosaur: Dinosaur,
    pub cactus: Vec<Cactus>,
    pub last_cactus: usize,
    pub cactus_every: usize,
    pub game_over: bool,
}

/// The spawn counter stays below its cadence, which is one of the two
/// configured periods.
pub open spec fn game_wf(g: Game) -> bool {
    &&& 0 <= g.height
    &&& dinosaur_wf(g.dinosaur)
    &&& g.last_cactus < g.cactus_every
    &&& (g.cactus_every == CACTUS_EVERY_SHORT || g.cactus_every == CACTUS_EVERY_LONG)
}

/// Where a fresh cactus enters: near the right edge, on the ground
/// band.
pub open spec fn spec_new_cactus(width: int, height: int) -> Cactus {
    Cactus {
        pos: Position {
            x: sat_i32(width - 100) as i32,
            y: sat_i32(height / 2 - CACTUS_HEIGHT) as i32,
        },
    }
}

impl Game {
    /// A fresh game on a field of the given size: the dinosaur stands
    /// on the ground line and one cactus is already approaching.
    pub fn new(width: i32, height: i32) -> (g: Game)
        requires
            0 <= height,
        ensures
            game_wf(g),
            g.width == width,
            g.height == height,
            g.dinosaur.pos.x == 100,
            g.dinosaur.pos.y == height / 2 - DINOSAUR_HEIGHT,
            g.cactus@.len() == 1,
            g.cactus@[0] == spec_new_cactus(width as int, height as int),
            g.last_cactus == 0,
            g.cactus_every == CACTUS_EVERY_SHORT,
            !g.game_over,
    {
        let ground_y = height / 2 - DINOSAUR_HEIGHT;
        let mut game = Game {
            width,
            height,
            dinosaur: Dinosaur::new(ground_y),
            cactus: Vec::new(),
            last_cactus: 0,
            cactus_every: CACTUS_EVERY_SHORT,
            game_over: false,
        };
        game.add_cactus();
        game
    }

    /// One more cactus enters at the right edge.
    pub fn add_cactus(&mut self)
        requires
            0 <= old(self).height,
        ensures
            final(self).cactus@ == old(self).cactus@.push(
                spec_new_cactus(old(self).width as int, old(self).height as int),
            ),
            final(self).dinosaur == old(self).dinosaur,
            final(self).last_cactus == old(self).last_cactus,
            final(self).cactus_every == old(self).cactus_every,
            final(self).game_over == old(self).game_over,
            final(self).width == old(self).width,
            final(self).height == old(self).height,
    {
        let x = step_coord(self.width, -1, 100);
        let half = self.height / 2;
        let y = step_coord(half, -1, CACTUS_HEIGHT);
        let cactus = Cactus::new(x, y);
        self.cactus.push(cactus);
    }

    pub fn jump(&mut self)
        ensures
            *final(self) == (Game {
                dinosaur: Dinosaur { jump_force: INIT_JUMP_FORCE, ..old(self).dinosaur },
                ..*old(self)
            }),
    {
        self.dinosaur.jump();
    }

    /// Advance the spawn cadence; when it fires, one cactus enters and
    /// the next cadence is drawn at random from the two configured
    /// periods.
    pub fn add_cactus_conditional(&mut self)
        requires
            game_wf(*old(self)),
        ensures
            game_wf(*final(self)),
            final(self).dinosaur == old(self).dinosaur,
            final(self).game_over == old(self).game_over,
            final(self).width == old(self).width,
            final(self).height == old(self).height,
            old(self).last_cactus + 1 < old(self).cactus_every ==> final(self).cactus@ == old(self).cactus@
                && final(self).last_cactus == old(self).last_cactus + 1
                && final(self).cactus_every == old(self).cactus_every,
            old(self).last_cactus + 1 >= old(self).cactus_every ==> final(self).last_cactus == 0
                && final(self).cactus@ == old(self).cactus@.push(
                spec_new_cactus(old(self).width as int, old(self).height as int),
            ),
    {
        self.last_cactus = self.last_cactus + 1;
        if self.last_cactus >= self.cactus_every {
            self.add_cactus();
            self.last_cactus = 0;
            let draw = random_in_range(0, 2);
            self.cactus_every = if draw == 0 {
                CACTUS_EVERY_SHORT
            } else {
                CACTUS_EVERY_LONG
            };
        }
    }

    /// Whether the dinosaur currently touches any cactus.
    pub fn is_crash(&self) -> (r: bool)
        ensures
            r == spec_is_crash(self.cactus@, self.dinosaur),
    {
        let vertices = self.dinosaur.get_vertices();

        let mut c: usize = 0;
        while c < self.cactus.len()
            invariant
                c <= self.cactus@.len(),
                vertices@ == spec_vertices(self.dinosaur),
                forall|c2: int, v2: int|
                    0 <= c2 < c && 0 <= v2 < 4 ==> !spec_cactus_overlaps(
                        self.cactus@[c2],
                        spec_vertices(self.dinosaur)[v2],
                    ),
            decreases self.cactus@.len() - c,
        {
            let mut v: usize = 0;
            while v < 4
                invariant
                    c < self.cactus@.len(),
                    v <= 4,
                    vertices@ == spec_vertices(self.dinosaur),
                    forall|v2: int|
                        0 <= v2 < v ==> !spec_cactus_overlaps(
                            self.cactus@[c as int],
                            spec_vertices(self.dinosaur)[v2],
                        ),
                decreases 4 - v,
            {
                if self.cactus[c].overlaps(&vertices[v]) {
                    return true;
                }
                v = v + 1;
            }
            c = c + 1;
        }
        false
    }

    /// Latch the game over on contact. Once latched it never clears.
    pub fn handle_crash(&mut self)
        ensures
            final(self).game_over == (old(self).game_over || spec_is_crash(
                old(self).cactus@,
                old(self).dinosaur,
            )),
            final(self).dinosaur == old(self).dinosaur,
            final(self).cactus@ == old(self).cactus@,
            final(self).last_cactus == old(self).last_cactus,
            final(self).cactus_every == old(self).cactus_every,
            final(self).width == old(self).width,
            final(self).height == old(self).height,
    {
        if self.is_crash() {
            self.game_over = true;
        }
    }

    /// One update tick: while the game runs, gravity and animation
    /// advance, every cactus drifts, the spawn cadence advances, and
    /// contact latches the game over. After the latch nothing changes.
    pub fn mov(&mut self)
        requires
            game_wf(*old(self)),
        ensures
            game_wf(*final(self)),
            old(self).game_over ==> *final(self) == *old(self),
            !old(self).game_over ==> ({
                let md = spec_frame_step(spec_jump_step(old(self).dinosaur));
                let mc = Seq::new(
                    old(self).cactus@.len(),
                    |i: int| Cactus {
                        pos: Position {
                            x: sat_i32(old(self).cactus@[i].pos.x - DESERT_SPEED) as i32,
                            y: old(self).cactus@[i].pos.y,
                        },
                    },
                );
                let fired = old(self).last_cactus + 1 >= old(self).cactus_every;
                let cs = if fired {
                    mc.push(spec_new_cactus(old(self).width as int, old(self).height as int))
                } else {
                    mc
                };
                &&& final(self).dinosaur == md
                &&& final(self).cactus@ == cs
                &&& final(self).last_cactus == (if fired {
                    0int
                } else {
                    old(self).last_cactus + 1
                })
                &&& final(self).game_over == spec_is_crash(cs, md)
                &&& final(self).width == old(self).width
                &&& final(self).height == old(self).height
            }),
    {
        if self.game_over {
            return ;
        }

        self.dinosaur.mov_jump();
        self.dinosaur.change_frame();

        let ghost g1 = *self;
        let mut i: usize = 0;
        while i < self.cactus.len()
            invariant
                i <= self.cactus@.len(),
                self.cactus@.len() == g1.cactus@.len(),
                self.dinosaur == g1.dinosaur,
                self.last_cactus == g1.last_cactus,
                self.cactus_every == g1.cactus_every,
                self.game_over == g1.game_over,
                self.width == g1.width,
                self.height == g1.height,
                forall|j: int|
                    0 <= j < i ==> self.cactus@[j] == (Cactus {
                        pos: Position {
                            x: sat_i32(g1.cactus@[j].pos.x - DESERT_SPEED) as i32,
                            y: g1.cactus@[j].pos.y,
                        },
                    }),
                forall|j: int| i <= j < g1.cactus@.len() ==> self.cactus@[j] == g1.cactus@[j],
            decreases g1.cactus@.len() - i,
        {
            let mut cactus = self.cactus[i];
            cactus.mov();
            self.cactus[i] = cactus;
            i = i + 1;
        }
        proof {
            assert(self.cactus@ =~= Seq::new(
                old(self).cactus@.len(),
                |i: int| Cactus {
                    pos: Position {
                        x: sat_i32(old(self).cactus@[i].pos.x - DESERT_SPEED) as i32,
                        y: old(self).cactus@[i].pos.y,
                    },
                },
            ));
        }

        self.add_cactus_conditional();
        self.handle_crash();
    }
}

} // verus!
