//! The particle-burst variant: particles leave the screen centre along
//! random directions and re-randomize their heading and speed every
//! frame. Lengths are in thousandths of a pixel, so a heading is an
//! exact integer pair.

use vstd::prelude::*;
use crate::geometry::Position;
use crate::motion::sat_i32;
use crate::motion::step_coord;
use crate::random::random_in_range;

verus! {

/// A direction component is at most one pixel per tick, in thousandths.
pub const DIRECTION_UNIT: i32 = 1000;

/// The slowest speed a particle may draw.
pub const SPEED_MIN: i32 = 2;

/// The bound above the fastest speed a particle may draw.
pub const SPEED_MAX: i32 = 6;

/// How many entries the renderer's palette holds; a particle carries an
/// index into it.
pub const COLOR_COUNT: usize = 4;

#[derive(Clone, Copy, PartialEq, Eq, Structural, Debug)]
pub struct Particle {
    pub position: Position,
    pub dir_x: i32,
    pub dir_y: i32,
    pub speed: i32,
    pub color: usize,
}

impl Particle {
    /// A fresh particle at the given centre with a random heading and
    /// speed.
    pub fn new(cx: i32, cy: i32) -> (p: Particle)
        ensures
            p.position.x == cx,
            p.position.y == cy,
            -DIRECTION_UNIT < p.dir_x < DIRECTION_UNIT,
            -DIRECTION_UNIT < p.dir_y < DIRECTION_UNIT,
            SPEED_MIN <= p.speed < SPEED_MAX,
            p.color < COLOR_COUNT,
    {
        let (dir_x, dir_y) = Particle::get_random_direction();
        Particle {
            position: Position { x: cx, y: cy },
            dir_x,
            dir_y,
            speed: Particle::random_speed(),
            color: Particle::get_color(),
        }
    }

    /// A random palette index.
    pub fn get_color() -> (c: usize)
        ensures
            c < COLOR_COUNT,
    {
        random_in_range(0, COLOR_COUNT as i64) as usize
    }

    /// A random speed in the configured band.
    fn random_speed() -> (s: i32)
        ensures
            SPEED_MIN <= s < SPEED_MAX,
    {
        random_in_range(SPEED_MIN as i64, SPEED_MAX as i64) as i32
    }

    /// A random heading: each component a random magnitude under one
    /// unit, with a random sign.
    pub fn get_random_direction() -> (d: (i32, i32))
        ensures
            -DIRECTION_UNIT < d.0 < DIRECTION_UNIT,
            -DIRECTION_UNIT < d.1 < DIRECTION_UNIT,
    {
        let mx = random_in_range(0, DIRECTION_UNIT as i64) as i32;
        let my = random_in_range(0, DIRECTION_UNIT as i64) as i32;
        let sx = Particle::get_random_sign();
        let sy = Particle::get_random_sign();
        let x = if sx == 1 {
            mx
        } else {
            -mx
        };
        let y = if sy == 1 {
            my
        } else {
            -my
        };
        (x, y)
    }

    /// A fair random sign.
    pub fn get_random_sign() -> (s: i32)
        ensures
            s == 1 || s == -1,
    {
        let v = random_in_range(0, 2);
        if v == 0 {
            return -1;
        }
        1
    }

    /// One Euler step along the heading.
    pub fn mov(&mut self)
        ensures
            final(self).position.x as int == sat_i32(
                old(self).position.x + old(self).dir_x * old(self).speed,
            ),
            final(self).position.y as int == sat_i32(
                old(self).position.y + old(self).dir_y * old(self).speed,
            ),
            final(self).dir_x == old(self).dir_x,
            final(self).dir_y == old(self).dir_y,
            final(self).speed == old(self).speed,
            final(self).color == old(self).color,
    {
        let nx = step_coord(self.position.x, self.dir_x, self.speed);
        let ny = step_coord(self.position.y, self.dir_y, self.speed);
        self.position = Position { x: nx, y: ny };
    }

    /// Draw a fresh random heading.
    pub fn change_direction(&mut self)
        ensures
            -DIRECTION_UNIT < final(self).dir_x < DIRECTION_UNIT,
            -DIRECTION_UNIT < final(self).dir_y < DIRECTION_UNIT,
            final(self).position == old(self).position,
            final(self).speed == old(self).speed,
            final(self).color == old(self).color,
    {
        let (dir_x, dir_y) = Particle::get_random_direction();
        self.dir_x = dir_x;
        self.dir_y = dir_y;
    }

    /// Draw a fresh random speed.
    pub fn change_speed(&mut self)
        ensures
            SPEED_MIN <= final(self).speed < SPEED_MAX,
            final(self).position == old(self).position,
            final(self).dir_x == old(self).dir_x,
            final(self).dir_y == old(self).dir_y,
            final(self).color == old(self).color,
    {
        self.speed = Particle::random_speed();
    }
}

} // verus!
