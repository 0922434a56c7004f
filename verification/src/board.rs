//! The bouncing-ball variant: a board file marks obstacle cells with a
//! dot, and a ball wanders the grid, flipping its vertical or
//! horizontal direction when its scaled edges meet an obstacle's.

use vstd::prelude::*;
use crate::geometry::Position;
use crate::motion::sat_i32;
use crate::motion::step_coord;

verus! {

/// Side length of one grid cell, in pixels.
pub const SQUARE_SIZE: i32 = 10;

/// Cells the ball advances per update.
pub const SPEED: i32 = 1;

/// The byte that marks an obstacle cell in a board row.
pub const OBSTACLE_MARK: u8 = 46;

/// The obstacle positions of one board row, in column order.
pub open spec fn spec_row_positions(row: Seq<u8>, y: int) -> Seq<Position>
    decreases row.len(),
{
    if row.len() == 0 {
        Seq::empty()
    } else {
        let init = spec_row_positions(row.drop_last(), y);
        if row.last() == OBSTACLE_MARK {
            init.push(Position { x: (row.len() - 1) as i32, y: y as i32 })
        } else {
            init
        }
    }
}

/// The obstacle positions of a whole board, row by row.
pub open spec fn spec_board_positions(rows: Seq<Seq<u8>>) -> Seq<Position>
    decreases rows.len(),
{
    if rows.len() == 0 {
        Seq::empty()
    } else {
        spec_board_positions(rows.drop_last()) + spec_row_positions(
            rows.last(),
            rows.len() - 1,
        )
    }
}

/// Parse a board: every dot byte becomes an obstacle at its column and
/// row. The surrounding program reads the file and hands its lines
/// over as byte rows.
pub fn init_obstacles(lines: &Vec<Vec<u8>>) -> (positions: Vec<Position>)
    requires
        lines@.len() <= i32::MAX,
        forall|i: int| 0 <= i < lines@.len() ==> (#[trigger] lines@[i])@.len() <= i32::MAX,
    ensures
        positions@ == spec_board_positions(Seq::new(lines@.len(), |i: int| lines@[i]@)),
{
    let ghost rows = Seq::new(lines@.len(), |i: int| lines@[i]@);
    let mut positions: Vec<Position> = Vec::new();
    let mut y: usize = 0;

    while y < lines.len()
        invariant
            y <= lines@.len(),
            lines@.len() <= i32::MAX,
            forall|i: int| 0 <= i < lines@.len() ==> (#[trigger] lines@[i])@.len() <= i32::MAX,
            rows == Seq::new(lines@.len(), |i: int| lines@[i]@),
            positions@ == spec_board_positions(rows.take(y as int)),
        decreases lines@.len() - y,
    {
        let line = &lines[y];
        let mut x: usize = 0;
        while x < line.len()
            invariant
                y < lines@.len(),
                lines@.len() <= i32::MAX,
                x <= line@.len(),
                line@ == rows[y as int],
                line@.len() <= i32::MAX,
                rows == Seq::new(lines@.len(), |i: int| lines@[i]@),
                positions@ == spec_board_positions(rows.take(y as int)) + spec_row_positions(
                    rows[y as int].take(x as int),
                    y as int,
                ),
            decreases line@.len() - x,
        {
            if line[x] == OBSTACLE_MARK {
                positions.push(Position { x: x as i32, y: y as i32 });
            }
            x = x + 1;
            proof {
                assert(rows[y as int].take(x as int).drop_last() =~= rows[y as int].take(x - 1));
                if rows[y as int][x - 1] == OBSTACLE_MARK {
                    assert(positions@ =~= spec_board_positions(rows.take(y as int))
                        + spec_row_positions(rows[y as int].take(x as int), y as int));
                }
            }
        }
        y = y + 1;
        proof {
            assert(rows[y - 1].take(rows[y - 1].len() as int) =~= rows[y - 1]);
            assert(rows.take(y as int).drop_last() =~= rows.take(y - 1));
        }
    }
    proof {
        assert(rows.take(rows.len() as int) =~= rows);
    }
    positions
}

/// The ball's and an obstacle's scaled top centres coincide.
pub open spec fn spec_is_crash_up(obstacles: Seq<Position>, ball: Position) -> bool {
    exists|k: int|
        0 <= k < obstacles.len() && obstacles[k].x + SQUARE_SIZE / 2 == ball.x + SQUARE_SIZE / 2
            && obstacles[k].y * SQUARE_SIZE == ball.y * SQUARE_SIZE
}

/// The ball's scaled right edge meets an obstacle's scaled left edge.
pub open spec fn spec_is_crash_right(obstacles: Seq<Position>, ball: Position) -> bool {
    exists|k: int|
        0 <= k < obstacles.len() && obstacles[k].x * SQUARE_SIZE == ball.x * SQUARE_SIZE
            + SQUARE_SIZE && obstacles[k].y + SQUARE_SIZE / 2 == ball.y + SQUARE_SIZE / 2
}

pub struct Game {
    pub obstacles: Vec<Position>,
    pub ball: Position,
    pub ball_direction: Position,
}

/// The ball's direction components are diagonal unit steps.
pub open spec fn game_wf(g: Game) -> bool {
    (g.ball_direction.x == 1 || g.ball_direction.x == -1) && (g.ball_direction.y == 1
        || g.ball_direction.y == -1)
}

impl Game {
    /// A fresh board with the given obstacles; the ball starts at
    /// (5, 1) moving down-right.
    pub fn new(obstacles: Vec<Position>) -> (g: Game)
        ensures
            game_wf(g),
            g.obstacles@ == obstacles@,
            g.ball == (Position { x: 5, y: 1 }),
            g.ball_direction == (Position { x: 1, y: 1 }),
    {
        Game {
            obstacles,
            ball: Position { x: 5, y: 1 },
            ball_direction: Position { x: 1, y: 1 },
        }
    }

    /// Whether the ball touches an obstacle from above or below.
    pub fn is_crash_up(&self) -> (r: bool)
        ensures
            r == spec_is_crash_up(self.obstacles@, self.ball),
    {
        let bx = self.ball.x as i64 + (SQUARE_SIZE / 2) as i64;
        let by = self.ball.y as i64 * SQUARE_SIZE as i64;

        let mut k: usize = 0;
        while k < self.obstacles.len()
            invariant
                k <= self.obstacles@.len(),
                bx == self.ball.x + SQUARE_SIZE / 2,
                by == self.ball.y * SQUARE_SIZE,
                forall|k2: int|
                    0 <= k2 < k ==> !(self.obstacles@[k2].x + SQUARE_SIZE / 2 == self.ball.x
                        + SQUARE_SIZE / 2 && self.obstacles@[k2].y * SQUARE_SIZE == self.ball.y
                        * SQUARE_SIZE),
            decreases self.obstacles@.len() - k,
        {
            let obs = &self.obstacles[k];
            let dx = obs.x as i64 + (SQUARE_SIZE / 2) as i64;
            let dy = obs.y as i64 * SQUARE_SIZE as i64;

            if dx == bx && dy == by {
                return true;
            }
            k = k + 1;
        }
        false
    }

    /// The same touch test, read from the obstacle's side.
    pub fn is_crash_down(&self) -> (r: bool)
        ensures
            r == spec_is_crash_up(self.obstacles@, self.ball),
    {
        let dx = self.ball.x as i64 + (SQUARE_SIZE / 2) as i64;
        let dy = self.ball.y as i64 * SQUARE_SIZE as i64;

        let mut k: usize = 0;
        while k < self.obstacles.len()
            invariant
                k <= self.obstacles@.len(),
                dx == self.ball.x + SQUARE_SIZE / 2,
                dy == self.ball.y * SQUARE_SIZE,
                forall|k2: int|
                    0 <= k2 < k ==> !(self.obstacles@[k2].x + SQUARE_SIZE / 2 == self.ball.x
                        + SQUARE_SIZE / 2 && self.obstacles@[k2].y * SQUARE_SIZE == self.ball.y
                        * SQUARE_SIZE),
            decreases self.obstacles@.len() - k,
        {
            let obs = &self.obstacles[k];
            let bx = obs.x as i64 + (SQUARE_SIZE / 2) as i64;
            let by = obs.y as i64 * SQUARE_SIZE as i64;

            if dx == bx && dy == by {
                return true;
            }
            k = k + 1;
        }
        false
    }

    /// Whether the ball's right edge touches an obstacle's left edge.
    pub fn is_crash_right(&self) -> (r: bool)
        ensures
            r == spec_is_crash_right(self.obstacles@, self.ball),
    {
        let rbx = self.ball.x as i64 * SQUARE_SIZE as i64 + SQUARE_SIZE as i64;
        let rby = self.ball.y as i64 + (SQUARE_SIZE / 2) as i64;

        let mut k: usize = 0;
        while k < self.obstacles.len()
            invariant
                k <= self.obstacles@.len(),
                rbx == self.ball.x * SQUARE_SIZE + SQUARE_SIZE,
                rby == self.ball.y + SQUARE_SIZE / 2,
                forall|k2: int|
                    0 <= k2 < k ==> !(self.obstacles@[k2].x * SQUARE_SIZE == self.ball.x
                        * SQUARE_SIZE + SQUARE_SIZE && self.obstacles@[k2].y + SQUARE_SIZE / 2
                        == self.ball.y + SQUARE_SIZE / 2),
            decreases self.obstacles@.len() - k,
        {
            let obs = &self.obstacles[k];
            let lox = obs.x as i64 * SQUARE_SIZE as i64;
            let loy = obs.y as i64 + (SQUARE_SIZE / 2) as i64;

            if lox == rbx && loy == rby {
                return true;
            }
            k = k + 1;
        }
        false
    }

    /// The same edge test, read from the obstacle's side.
    pub fn is_crash_left(&self) -> (r: bool)
        ensures
            r == spec_is_crash_right(self.obstacles@, self.ball),
    {
        let lox = self.ball.x as i64 * SQUARE_SIZE as i64 + SQUARE_SIZE as i64;
        let loy = self.ball.y as i64 + (SQUARE_SIZE / 2) as i64;

        let mut k: usize = 0;
        while k < self.obstacles.len()
            invariant
                k <= self.obstacles@.len(),
                lox == self.ball.x * SQUARE_SIZE + SQUARE_SIZE,
                loy == self.ball.y + SQUARE_SIZE / 2,
                forall|k2: int|
                    0 <= k2 < k ==> !(self.obstacles@[k2].x * SQUARE_SIZE == self.ball.x
                        * SQUARE_SIZE + SQUARE_SIZE && self.obstacles@[k2].y + SQUARE_SIZE / 2
                        == self.ball.y + SQUARE_SIZE / 2),
            decreases self.obstacles@.len() - k,
        {
            let obs = &self.obstacles[k];
            let rbx = obs.x as i64 * SQUARE_SIZE as i64;
            let rby = obs.y as i64 + (SQUARE_SIZE / 2) as i64;

            if lox == rbx && loy == rby {
                return true;
            }
            k = k + 1;
        }
        false
    }

    /// Flip the vertical direction.
    pub fn changey_direction(&mut self)
        requires
            game_wf(*old(self)),
        ensures
            game_wf(*final(self)),
            final(self).ball_direction.y == -old(self).ball_direction.y,
            final(self).ball_direction.x == old(self).ball_direction.x,
            final(self).ball == old(self).ball,
            final(self).obstacles@ == old(self).obstacles@,
    {
        self.ball_direction.y = -self.ball_direction.y;
    }

    /// Flip the horizontal direction.
    pub fn changex_direction(&mut self)
        requires
            game_wf(*old(self)),
        ensures
            game_wf(*final(self)),
            final(self).ball_direction.x == -old(self).ball_direction.x,
            final(self).ball_direction.y == old(self).ball_direction.y,
            final(self).ball == old(self).ball,
            final(self).obstacles@ == old(self).obstacles@,
    {
        self.ball_direction.x = -self.ball_direction.x;
    }

    /// Resolve one boundary contact: a vertical touch flips the
    /// vertical direction; failing that, a horizontal touch flips the
    /// horizontal one.
    pub fn handle_crash(&mut self)
        requires
            game_wf(*old(self)),
        ensures
            game_wf(*final(self)),
            final(self).ball == old(self).ball,
            final(self).obstacles@ == old(self).obstacles@,
            ({
                let vertical = spec_is_crash_up(old(self).obstacles@, old(self).ball);
                let horizontal = spec_is_crash_right(old(self).obstacles@, old(self).ball);
                &&& final(self).ball_direction.y == (if vertical {
                    -old(self).ball_direction.y as int
                } else {
                    old(self).ball_direction.y as int
                })
                &&& final(self).ball_direction.x == (if !vertical && horizontal {
                    -old(self).ball_direction.x as int
                } else {
                    old(self).ball_direction.x as int
                })
            }),
    {
        if self.is_crash_up() {
            self.changey_direction();
            return ;
        }

        if self.is_crash_down() {
            self.changey_direction();
            return ;
        }

        if self.is_crash_right() {
            self.changex_direction();
            return ;
        }

        if self.is_crash_left() {
            self.changex_direction();
            return ;
        }
    }

    /// One update tick: resolve contacts, then advance the ball one
    /// step along the (possibly flipped) direction.
    pub fn mov(&mut self)
        requires
            game_wf(*old(self)),
        ensures
            game_wf(*final(self)),
            final(self).obstacles@ == old(self).obstacles@,
            ({
                let vertical = spec_is_crash_up(old(self).obstacles@, old(self).ball);
                let horizontal = spec_is_crash_right(old(self).obstacles@, old(self).ball);
                let dy: int = if vertical {
                    -old(self).ball_direction.y as int
                } else {
                    old(self).ball_direction.y as int
                };
                let dx: int = if !vertical && horizontal {
                    -old(self).ball_direction.x as int
                } else {
                    old(self).ball_direction.x as int
                };
                &&& final(self).ball_direction.x == dx
                &&& final(self).ball_direction.y == dy
                &&& final(self).ball.x as int == sat_i32(old(self).ball.x + dx * SPEED)
                &&& final(self).ball.y as int == sat_i32(old(self).ball.y + dy * SPEED)
            }),
    {
        self.handle_crash();
        self.ball.x = step_coord(self.ball.x, self.ball_direction.x, SPEED);
        self.ball.y = step_coord(self.ball.y, self.ball_direction.y, SPEED);
    }
}

} // verus!
