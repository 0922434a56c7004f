//! The snake variant: a chain of squares follows its head over a grid.
//! Each update moves the head one cell along the current direction:
//! onto the food cell, the chain grows — the food cell becomes the new
//! head and every old cell is kept — and a new food cell is drawn at
//! random within the board bounds; otherwise every segment shifts into
//! its predecessor's cell.

use vstd::prelude::*;
use crate::motion::sat_i32;
use crate::motion::step_coord;
use crate::random::random_in_range;

verus! {

/// Unit distance of one movement step.
pub const SPEED: i32 = 1;

/// New food is drawn with both coordinates in `[FOOD_MIN, FOOD_MAX)`.
pub const FOOD_MIN: i32 = 1;

pub const FOOD_MAX: i32 = 20;

/// One grid cell.
#[derive(Clone, Copy, PartialEq, Eq, Structural, Debug)]
pub struct Square {
    pub x: i32,
    pub y: i32,
}

impl Square {
    pub fn new(x: i32, y: i32) -> (s: Square)
        ensures
            s.x == x,
            s.y == y,
    {
        Square { x, y }
    }
}

/// The chain after one shift: every segment takes its predecessor's
/// cell and the head advances one step along `(dx, dy)`.
pub open spec fn spec_move_snake(s: Seq<Square>, dx: int, dy: int) -> Seq<Square> {
    Seq::new(
        s.len(),
        |i: int|
            if i == 0 {
                Square { x: sat_i32(s[0].x + dx) as i32, y: sat_i32(s[0].y + dy) as i32 }
            } else {
                s[i - 1]
            },
    )
}

pub struct Game {
    pub dir_x: i32,
    pub dir_y: i32,
    pub food: Square,
    pub snake: Vec<Square>,
}

/// The chain always has a head.
pub open spec fn game_wf(g: Game) -> bool {
    g.snake@.len() >= 1
}

impl Game {
    /// A fresh game: a single segment at the origin heading right, food
    /// at (5, 5).
    pub fn new() -> (g: Game)
        ensures
            game_wf(g),
            g.snake@.len() == 1,
            g.snake@[0] == (Square { x: 0, y: 0 }),
            g.dir_x == SPEED,
            g.dir_y == 0,
            g.food == (Square { x: 5, y: 5 }),
    {
        let first = Square::new(0, 0);
        let mut snake: Vec<Square> = Vec::new();
        snake.push(first);
        Game { snake, dir_x: SPEED, dir_y: 0, food: Square::new(5, 5) }
    }

    pub fn right(&mut self)
        ensures
            final(self).dir_x == SPEED && final(self).dir_y == 0,
            final(self).food == old(self).food,
            final(self).snake@ == old(self).snake@,
    {
        self.dir_x = SPEED;
        self.dir_y = 0;
    }

    pub fn left(&mut self)
        ensures
            final(self).dir_x == -SPEED && final(self).dir_y == 0,
            final(self).food == old(self).food,
            final(self).snake@ == old(self).snake@,
    {
        self.dir_x = -SPEED;
        self.dir_y = 0;
    }

    pub fn up(&mut self)
        ensures
            final(self).dir_x == 0 && final(self).dir_y == -SPEED,
            final(self).food == old(self).food,
            final(self).snake@ == old(self).snake@,
    {
        self.dir_x = 0;
        self.dir_y = -SPEED;
    }

    pub fn down(&mut self)
        ensures
            final(self).dir_x == 0 && final(self).dir_y == SPEED,
            final(self).food == old(self).food,
            final(self).snake@ == old(self).snake@,
    {
        self.dir_x = 0;
        self.dir_y = SPEED;
    }

    /// Shift the chain one step: each segment follows its predecessor
    /// and the head advances along the current direction.
    pub fn move_snake(&mut self)
        requires
            game_wf(*old(self)),
        ensures
            game_wf(*final(self)),
            final(self).snake@ == spec_move_snake(
                old(self).snake@,
                old(self).dir_x as int,
                old(self).dir_y as int,
            ),
            final(self).dir_x == old(self).dir_x,
            final(self).dir_y == old(self).dir_y,
            final(self).food == old(self).food,
    {
        let ghost g0 = *self;
        let ghost orig = self.snake@;
        let mut i: usize = self.snake.len() - 1;
        while i >= 1
            invariant
                i < orig.len(),
                self.snake@.len() == orig.len(),
                self.dir_x == g0.dir_x,
                self.dir_y == g0.dir_y,
                self.food == g0.food,
                forall|j: int| 0 <= j <= i ==> self.snake@[j] == orig[j],
                forall|j: int| i < j < orig.len() ==> self.snake@[j] == orig[j - 1],
            decreases i,
        {
            let prev = self.snake[i - 1];
            self.snake[i] = prev;
            i = i - 1;
        }
        let head = self.snake[0];
        let new_head = Square {
            x: step_coord(head.x, 1, self.dir_x),
            y: step_coord(head.y, 1, self.dir_y),
        };
        self.snake[0] = new_head;
        proof {
            assert(self.snake@ =~= spec_move_snake(orig, g0.dir_x as int, g0.dir_y as int));
        }
    }

    /// If the food cell lies one step ahead of the head, the chain
    /// grows onto it: the food cell is inserted as the new head, every
    /// old cell is kept, and a new food cell is drawn within the board
    /// bounds.
    pub fn eat(&mut self) -> (eated: bool)
        requires
            game_wf(*old(self)),
        ensures
            game_wf(*final(self)),
            final(self).dir_x == old(self).dir_x,
            final(self).dir_y == old(self).dir_y,
            ({
                let head = old(self).snake@[0];
                let nx = sat_i32(head.x + old(self).dir_x);
                let ny = sat_i32(head.y + old(self).dir_y);
                &&& eated == (nx == old(self).food.x && ny == old(self).food.y)
                &&& if eated {
                    final(self).snake@ == old(self).snake@.insert(0, old(self).food)
                        && FOOD_MIN <= final(self).food.x < FOOD_MAX
                        && FOOD_MIN <= final(self).food.y < FOOD_MAX
                } else {
                    final(self).snake@ == old(self).snake@ && final(self).food == old(self).food
                }
            }),
    {
        let head = &self.snake[0];
        let next_head = Square {
            x: step_coord(head.x, 1, self.dir_x),
            y: step_coord(head.y, 1, self.dir_y),
        };

        let food = &self.food;
        let eated = next_head.x == food.x && next_head.y == food.y;

        if !eated {
            return false;
        }

        let grown = Square { x: self.food.x, y: self.food.y };
        self.snake.insert(0, grown);

        let fx = random_in_range(FOOD_MIN as i64, FOOD_MAX as i64) as i32;
        let fy = random_in_range(FOOD_MIN as i64, FOOD_MAX as i64) as i32;

        self.food.x = fx;
        self.food.y = fy;

        true
    }

    /// One movement step. Onto the food cell, growing is the movement:
    /// the food cell becomes the new head and the whole old chain is
    /// kept behind it; otherwise every segment shifts forward.
    pub fn mov(&mut self)
        requires
            game_wf(*old(self)),
        ensures
            game_wf(*final(self)),
            final(self).dir_x == old(self).dir_x,
            final(self).dir_y == old(self).dir_y,
            ({
                let head = old(self).snake@[0];
                let nx = sat_i32(head.x + old(self).dir_x);
                let ny = sat_i32(head.y + old(self).dir_y);
                let eated = nx == old(self).food.x && ny == old(self).food.y;
                if eated {
                    final(self).snake@ == old(self).snake@.insert(0, old(self).food)
                        && FOOD_MIN <= final(self).food.x < FOOD_MAX
                        && FOOD_MIN <= final(self).food.y < FOOD_MAX
                } else {
                    final(self).snake@ == spec_move_snake(
                        old(self).snake@,
                        old(self).dir_x as int,
                        old(self).dir_y as int,
                    ) && final(self).food == old(self).food
                }
            }),
    {
        let eated = self.eat();
        if !eated {
            self.move_snake();
        }
    }
}

} // verus!
