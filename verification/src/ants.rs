//! The ant simulation: ants walk a toroidal square board of
//! black-and-white cells. Each update, every ant in turn reads its
//! cell, turns right on a white cell and left on a black one, steps one
//! cell with wrap-around, and flips the cell it left.

use vstd::prelude::*;
use crate::geometry::Position;
use crate::motion::spec_wrap;
use crate::motion::wrap_coord;
use crate::random::random_in_range;

verus! {

/// Side length of the square board, in cells.
pub const SIZE: i32 = 100;

/// How many ants a fresh board carries.
pub const ANTS_NUMBER: usize = 200;

#[derive(Clone, Copy, PartialEq, Eq, Structural, Debug)]
pub struct Direction {
    pub x: i32,
    pub y: i32,
}

impl Direction {
    pub fn new(x: i32, y: i32) -> (d: Direction)
        ensures
            d.x == x,
            d.y == y,
    {
        Direction { x, y }
    }
}

#[derive(Clone, Copy, PartialEq, Eq, Structural, Debug)]
pub struct Ant {
    pub pos: Position,
    pub dir: Direction,
}

/// One board cell: white (1) or black (0).
#[derive(Clone, Copy, PartialEq, Eq, Structural, Debug)]
pub struct Square {
    pub pos: Position,
    pub color: usize,
}

/// An ant stands on a cell of the board and its direction components
/// are unit steps.
pub open spec fn ant_wf(a: Ant) -> bool {
    &&& 0 <= a.pos.x < SIZE
    &&& 0 <= a.pos.y < SIZE
    &&& -1 <= a.dir.x <= 1
    &&& -1 <= a.dir.y <= 1
}

/// Row-major index of the cell at `(i, j)`.
pub open spec fn cell_index(i: int, j: int) -> int {
    j * (SIZE as int) + i
}

/// The direction after a right turn (cycling through the four cardinal
/// headings; anything else starts heading up).
pub open spec fn spec_right_of(d: Direction) -> Direction {
    if d.y == -1 {
        Direction { x: 1, y: 0 }
    } else if d.x == 1 {
        Direction { x: 0, y: 1 }
    } else if d.y == 1 {
        Direction { x: -1i32, y: 0 }
    } else {
        Direction { x: 0, y: -1i32 }
    }
}

/// The direction after a left turn.
pub open spec fn spec_left_of(d: Direction) -> Direction {
    if d.y == -1 {
        Direction { x: -1i32, y: 0 }
    } else if d.x == -1 {
        Direction { x: 0, y: 1 }
    } else if d.y == 1 {
        Direction { x: 1, y: 0 }
    } else {
        Direction { x: 0, y: -1i32 }
    }
}

/// An ant's position after one wrapped step along its direction.
pub open spec fn spec_moved(a: Ant) -> Ant {
    Ant {
        pos: Position {
            x: spec_wrap(a.pos.x as int, a.dir.x as int, SIZE as int) as i32,
            y: spec_wrap(a.pos.y as int, a.dir.y as int, SIZE as int) as i32,
        },
        dir: a.dir,
    }
}

/// One ant's whole turn: turn right on a white cell, left on a black
/// one, then step.
pub open spec fn spec_ant_turn(a: Ant, white: bool) -> Ant {
    let turned = Ant { pos: a.pos, dir: if white {
        spec_right_of(a.dir)
    } else {
        spec_left_of(a.dir)
    } };
    spec_moved(turned)
}

/// A cell with its color flipped.
pub open spec fn spec_toggled(s: Square) -> Square {
    Square { pos: s.pos, color: if s.color == 1 {
        0
    } else {
        1
    } }
}

/// The board and ants after the first `n` ants of the update have
/// taken their turn, in order.
pub open spec fn spec_mov_ants(squares: Seq<Square>, ants: Seq<Ant>, n: nat) -> (Seq<Square>, Seq<
    Ant,
>)
    decreases n,
{
    if n == 0 {
        (squares, ants)
    } else {
        let prev = spec_mov_ants(squares, ants, (n - 1) as nat);
        let a = prev.1[n - 1];
        let idx = cell_index(a.pos.x as int, a.pos.y as int);
        let white = prev.0[idx].color == 1;
        (prev.0.update(idx, spec_toggled(prev.0[idx])), prev.1.update(n - 1, spec_ant_turn(a, white)))
    }
}

impl Ant {
    /// A fresh ant on a random cell with a random downward-or-right
    /// heading.
    pub fn new() -> (a: Ant)
        ensures
            ant_wf(a),
            0 <= a.dir.x <= 1 && 0 <= a.dir.y <= 1,
    {
        let pos = Ant::random_position();
        let dir = Ant::random_direction();
        Ant { pos, dir }
    }

    /// A random cell of the board.
    pub fn random_position() -> (p: Position)
        ensures
            0 <= p.x < SIZE,
            0 <= p.y < SIZE,
    {
        let x = random_in_range(0, (SIZE - 1) as i64) as i32;
        let y = random_in_range(0, (SIZE - 1) as i64) as i32;
        Position { x, y }
    }

    /// A random heading with each unit component drawn independently.
    pub fn random_direction() -> (d: Direction)
        ensures
            0 <= d.x <= 1,
            0 <= d.y <= 1,
    {
        let x = random_in_range(0, 2) as i32;
        let y = random_in_range(0, 2) as i32;
        Direction { x, y }
    }

    /// Step one cell along the current direction; a step off the board
    /// re-enters at the opposite edge, so the ant always stands on a
    /// cell.
    pub fn mov(&mut self)
        requires
            ant_wf(*old(self)),
        ensures
            ant_wf(*final(self)),
            *final(self) == spec_moved(*old(self)),
            0 <= final(self).pos.x < SIZE && 0 <= final(self).pos.y < SIZE,
    {
        let nx = wrap_coord(self.pos.x, self.dir.x, SIZE);
        let ny = wrap_coord(self.pos.y, self.dir.y, SIZE);
        self.pos = Position { x: nx, y: ny };
    }

    /// Turn right, then step.
    pub fn turn_right(&mut self)
        requires
            ant_wf(*old(self)),
        ensures
            ant_wf(*final(self)),
            *final(self) == spec_ant_turn(*old(self), true),
    {
        self.dir = self.right_direction();
        self.mov();
    }

    /// Turn left, then step.
    pub fn turn_left(&mut self)
        requires
            ant_wf(*old(self)),
        ensures
            ant_wf(*final(self)),
            *final(self) == spec_ant_turn(*old(self), false),
    {
        self.dir = self.left_direction();
        self.mov();
    }

    /// The heading after a right turn.
    pub fn right_direction(&mut self) -> (d: Direction)
        ensures
            *final(self) == *old(self),
            d == spec_right_of(old(self).dir),
    {
        if self.dir.y == -1 {
            return Direction::new(1, 0);
        }
        if self.dir.x == 1 {
            return Direction::new(0, 1);
        }
        if self.dir.y == 1 {
            return Direction::new(-1, 0);
        }
        Direction::new(0, -1)
    }

    /// The heading after a left turn.
    pub fn left_direction(&mut self) -> (d: Direction)
        ensures
            *final(self) == *old(self),
            d == spec_left_of(old(self).dir),
    {
        if self.dir.y == -1 {
            return Direction::new(-1, 0);
        }
        if self.dir.x == -1 {
            return Direction::new(0, 1);
        }
        if self.dir.y == 1 {
            return Direction::new(1, 0);
        }
        Direction::new(0, -1)
    }
}

impl Square {
    pub fn new(x: i32, y: i32) -> (s: Square)
        ensures
            s.pos.x == x,
            s.pos.y == y,
            s.color == 1,
    {
        Square { pos: Position { x, y }, color: 1 }
    }

    /// Flip the cell between white and black.
    pub fn change_color(&mut self)
        ensures
            *final(self) == spec_toggled(*old(self)),
    {
        let new_color: usize = if self.color == 1 {
            0
        } else {
            1
        };
        self.color = new_color;
    }
}

pub struct Game {
    pub squares: Vec<Square>,
    pub ants: Vec<Ant>,
}

/// The board holds one cell per grid position and every ant stands on
/// the board.
pub open spec fn game_wf(g: Game) -> bool {
    &&& g.squares@.len() == (SIZE as int) * (SIZE as int)
    &&& forall|k: int| 0 <= k < g.ants@.len() ==> ant_wf(#[trigger] g.ants@[k])
}

impl Game {
    /// A fresh board, all cells white, carrying the fixed number of
    /// randomly placed ants.
    pub fn new() -> (g: Game)
        ensures
            game_wf(g),
            g.ants@.len() == ANTS_NUMBER,
    {
        Game { squares: Game::create_squares(), ants: Game::create_ants() }
    }

    /// The full board of white cells, row-major.
    pub fn create_squares() -> (squares: Vec<Square>)
        ensures
            squares@.len() == (SIZE as int) * (SIZE as int),
            forall|i: int, j: int|
                0 <= i < SIZE && 0 <= j < SIZE ==> #[trigger] squares@[cell_index(i, j)] == (Square {
                    pos: Position { x: i as i32, y: j as i32 },
                    color: 1,
                }),
    {
        let mut squares: Vec<Square> = Vec::new();
        let mut j: i32 = 0;
        while j < SIZE
            invariant
                0 <= j <= SIZE,
                squares@.len() == j * (SIZE as int),
                forall|i2: int, j2: int|
                    0 <= i2 < SIZE && 0 <= j2 < j ==> #[trigger] squares@[cell_index(i2, j2)] == (
                    Square { pos: Position { x: i2 as i32, y: j2 as i32 }, color: 1 }),
            decreases SIZE - j,
        {
            let mut i: i32 = 0;
            while i < SIZE
                invariant
                    0 <= j < SIZE,
                    0 <= i <= SIZE,
                    squares@.len() == j * (SIZE as int) + i,
                    forall|i2: int, j2: int|
                        0 <= i2 < SIZE && 0 <= j2 < j ==> #[trigger] squares@[cell_index(i2, j2)]
                            == (Square { pos: Position { x: i2 as i32, y: j2 as i32 }, color: 1 }),
                    forall|i2: int|
                        0 <= i2 < i ==> #[trigger] squares@[cell_index(i2, j as int)] == (Square {
                            pos: Position { x: i2 as i32, y: j },
                            color: 1,
                        }),
                decreases SIZE - i,
            {
                let s = Square::new(i, j);
                squares.push(s);
                i = i + 1;
            }
            j = j + 1;
        }
        squares
    }

    /// The fixed number of fresh random ants.
    pub fn create_ants() -> (ants: Vec<Ant>)
        ensures
            ants@.len() == ANTS_NUMBER,
            forall|k: int| 0 <= k < ants@.len() ==> ant_wf(#[trigger] ants@[k]),
    {
        let mut ants: Vec<Ant> = Vec::new();
        let mut i: usize = 0;
        while i < ANTS_NUMBER
            invariant
                i <= ANTS_NUMBER,
                ants@.len() == i,
                forall|k: int| 0 <= k < i ==> ant_wf(#[trigger] ants@[k]),
            decreases ANTS_NUMBER - i,
        {
            ants.push(Ant::new());
            i = i + 1;
        }
        ants
    }

    /// Every ant takes its turn, in list order: it reads its cell,
    /// turns right on white and left on black, steps with wrap-around,
    /// and flips the cell it read.
    pub fn mov_ants(&mut self)
        requires
            game_wf(*old(self)),
        ensures
            game_wf(*final(self)),
            (final(self).squares@, final(self).ants@) == spec_mov_ants(
                old(self).squares@,
                old(self).ants@,
                old(self).ants@.len(),
            ),
    {
        let ghost sq0 = self.squares@;
        let ghost an0 = self.ants@;
        let mut k: usize = 0;
        while k < self.ants.len()
            invariant
                k <= an0.len(),
                (self.squares@, self.ants@) == spec_mov_ants(sq0, an0, k as nat),
                self.squares@.len() == sq0.len(),
                self.ants@.len() == an0.len(),
                sq0.len() == (SIZE as int) * (SIZE as int),
                forall|p: int| k <= p < an0.len() ==> self.ants@[p] == an0[p],
                forall|p: int| 0 <= p < an0.len() ==> ant_wf(#[trigger] an0[p]),
                forall|p: int| 0 <= p < self.ants@.len() ==> ant_wf(#[trigger] self.ants@[p]),
            decreases an0.len() - k,
        {
            let a = self.ants[k];
            let i = a.pos.x as usize;
            let j = a.pos.y as usize;
            let size = SIZE as usize;
            let idx = j * size + i;

            let white = self.squares[idx].color == 1;
            let mut ant = a;
            if white {
                ant.turn_right();
            } else {
                ant.turn_left();
            }
            self.ants[k] = ant;

            let mut cell = self.squares[idx];
            cell.change_color();
            self.squares[idx] = cell;

            k = k + 1;
        }
    }

    /// One update tick.
    pub fn mov(&mut self)
        requires
            game_wf(*old(self)),
        ensures
            game_wf(*final(self)),
            (final(self).squares@, final(self).ants@) == spec_mov_ants(
                old(self).squares@,
                old(self).ants@,
                old(self).ants@.len(),
            ),
    {
        self.mov_ants();
    }
}

} // verus!
