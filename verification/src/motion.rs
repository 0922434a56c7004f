//! Movement steps and the three edge policies the games use: wrap
//! (toroidal boards), clamp (capped positions), and reflect (bounce at a
//! boundary). A free step saturates at the machine coordinate limits,
//! which bound the play space.

use vstd::prelude::*;

verus! {

/// An integer held inside the i32 coordinate space.
pub open spec fn sat_i32(v: int) -> int {
    if v < i32::MIN as int {
        i32::MIN as int
    } else if v > i32::MAX as int {
        i32::MAX as int
    } else {
        v
    }
}

/// One first-order Euler step on one axis: `pos + dir * speed`,
/// saturated at the coordinate-space limits.
pub fn step_coord(pos: i32, dir: i32, speed: i32) -> (r: i32)
    ensures
        r as int == sat_i32(pos + dir * speed),
{
    proof {
        assert((dir as int) * (speed as int) <= 0x4000_0000_0000_0000
            && (dir as int) * (speed as int) >= -0x4000_0000_0000_0000) by (nonlinear_arith)
            requires
                -0x8000_0000 <= dir <= 0x7fff_ffff,
                -0x8000_0000 <= speed <= 0x7fff_ffff,
        ;
    }
    let t: i64 = pos as i64 + (dir as i64) * (speed as i64);
    if t < i32::MIN as i64 {
        i32::MIN
    } else if t > i32::MAX as i64 {
        i32::MAX
    } else {
        t as i32
    }
}

/// The wrap policy on one axis: a unit step that leaves `[0, bound)`
/// re-enters at the opposite edge.
pub open spec fn spec_wrap(pos: int, dir: int, bound: int) -> int {
    if pos + dir > bound - 1 {
        0
    } else if pos + dir < 0 {
        bound - 1
    } else {
        pos + dir
    }
}

/// One unit step on one axis of a toroidal board: a coordinate that
/// leaves `[0, bound)` re-enters at the opposite edge.
pub fn wrap_coord(pos: i32, dir: i32, bound: i32) -> (r: i32)
    requires
        1 <= bound,
        0 <= pos < bound,
        -1 <= dir <= 1,
    ensures
        0 <= r < bound,
        r == spec_wrap(pos as int, dir as int, bound as int),
{
    let n = pos + dir;
    if n > bound - 1 {
        0
    } else if n < 0 {
        bound - 1
    } else {
        n
    }
}

/// A coordinate capped to `[lo, hi]`.
pub fn clamp_coord(pos: i32, lo: i32, hi: i32) -> (r: i32)
    requires
        lo <= hi,
    ensures
        lo <= r <= hi,
        pos < lo ==> r == lo,
        pos > hi ==> r == hi,
        lo <= pos <= hi ==> r == pos,
{
    if pos < lo {
        lo
    } else if pos > hi {
        hi
    } else {
        pos
    }
}

/// One reflecting step on one axis. The object moves only while the
/// next position stays strictly inside `(lo, hi)`; on boundary contact
/// it keeps its position and its direction sign flips away from the
/// boundary. Returns the new position and the new direction.
pub fn reflect_step(pos: i32, dir: i32, speed: i32, lo: i32, hi: i32) -> (r: (i32, i32))
    requires
        dir == 1 || dir == -1,
        speed >= 0,
        lo < hi,
    ensures
        pos + dir * speed <= lo ==> r == (pos, 1i32),
        pos + dir * speed >= hi ==> r == (pos, -1i32),
        lo < pos + dir * speed < hi ==> r.0 == pos + dir * speed && r.1 == dir,
        lo <= pos ==> lo <= r.0,
        pos <= hi ==> r.0 <= hi,
{
    proof {
        assert(dir == 1 ==> dir * speed == speed) by (nonlinear_arith);
        assert(dir == -1 ==> dir * speed == -speed) by (nonlinear_arith);
    }
    let stride: i64 = if dir == 1 {
        speed as i64
    } else {
        -(speed as i64)
    };
    let next: i64 = pos as i64 + stride;
    if next <= lo as i64 {
        (pos, 1)
    } else if next >= hi as i64 {
        (pos, -1)
    } else {
        (next as i32, dir)
    }
}

/// The backward scroll policy: the offset falls by `speed` and resets
/// to zero once it has moved a whole span off screen.
pub open spec fn spec_scroll_backward(offset: int, span: int, speed: int) -> int {
    if offset <= -span {
        0
    } else {
        offset - speed
    }
}

/// One step of a looping background that drifts towards negative
/// coordinates.
pub fn scroll_backward(offset: i32, span: i32, speed: i32) -> (r: i32)
    requires
        0 <= speed,
        0 <= span,
        span + speed <= i32::MAX,
        -(span + speed) < offset <= 0,
    ensures
        r == spec_scroll_backward(offset as int, span as int, speed as int),
        -(span + speed) < r <= 0,
{
    if offset <= -span {
        0
    } else {
        offset - speed
    }
}

/// The forward scroll policy: the offset grows by `speed` and resets
/// to zero once it has crossed the span.
pub open spec fn spec_scroll_forward(offset: int, span: int, speed: int) -> int {
    if offset >= span {
        0
    } else {
        offset + speed
    }
}

/// One step of a looping background that drifts towards positive
/// coordinates.
pub fn scroll_forward(offset: i32, span: i32, speed: i32) -> (r: i32)
    requires
        0 <= speed,
        0 <= span,
        span + speed <= i32::MAX,
        0 <= offset < span + speed,
    ensures
        r == spec_scroll_forward(offset as int, span as int, speed as int),
        0 <= r < span + speed,
{
    if offset >= span {
        0
    } else {
        offset + speed
    }
}

} // verus!
