//! The bounded motion model: a positioned, sized shape bounces inside a
//! fixed rectangular field, reflecting off the four axis-aligned walls.

use vstd::prelude::*;

verus! {

/// A shape sample: the value a publisher animates and republishes whole each
/// tick. `color` is the instance key and never changes after creation.
#[derive(Clone, Debug)]
pub struct Shape {
    pub color: String,
    pub x: i32,
    pub y: i32,
    pub shapesize: i32,
}

impl Shape {
    /// The key that partitions per-instance history: the color.
    pub fn get_key(&self) -> (k: String)
        ensures
            k@ == self.color@,
    {
        self.color.clone()
    }
}

/// Width of the fixed field the shapes bounce in.
pub const DA_WIDTH: i32 = 240;

/// Height of the fixed field the shapes bounce in.
pub const DA_HEIGHT: i32 = 270;

/// The margin a shape keeps from each wall: half its size plus one.
pub open spec fn half_size(size: int) -> int {
    size / 2 + 1
}

/// One axis of a motion step: move `pos` by `vel`, clamp the result first to
/// the low wall `lo`, then to the high wall `hi`, and negate the velocity if
/// either clamp fired. Both checks run unconditionally, in this order, as the
/// step function applies them. Returns the new position and velocity.
pub open spec fn reflect_axis(pos: int, vel: int, lo: int, hi: int) -> (int, int) {
    let moved = pos + vel;
    let low_clamped = if moved < lo {
        lo
    } else {
        moved
    };
    let clamped = if low_clamped > hi {
        hi
    } else {
        low_clamped
    };
    let new_vel = if moved < lo || low_clamped > hi {
        -vel
    } else {
        vel
    };
    (clamped, new_vel)
}

/// Advance a shape one tick: tentatively move by the velocity, then reflect
/// off the four walls of the fixed field, each axis independently. Pure and
/// deterministic; the color and size are kept.
pub fn move_shape(shape: Shape, xv: i32, yv: i32) -> (r: (Shape, i32, i32))
    requires
        0 <= shape.shapesize,
        i32::MIN < xv,
        i32::MIN < yv,
        i32::MIN <= shape.x + xv <= i32::MAX,
        i32::MIN <= shape.y + yv <= i32::MAX,
    ensures
        r.0.color@ == shape.color@,
        r.0.shapesize == shape.shapesize,
        (r.0.x as int, r.1 as int) == reflect_axis(
            shape.x as int,
            xv as int,
            half_size(shape.shapesize as int),
            DA_WIDTH - half_size(shape.shapesize as int),
        ),
        (r.0.y as int, r.2 as int) == reflect_axis(
            shape.y as int,
            yv as int,
            half_size(shape.shapesize as int),
            DA_HEIGHT - half_size(shape.shapesize as int),
        ),
{
    let half: i32 = shape.shapesize / 2 + 1;
    let mut x: i32 = shape.x + xv;
    let mut y: i32 = shape.y + yv;

    let mut xv_new: i32 = xv;
    let mut yv_new: i32 = yv;

    if x < half {
        x = half;
        xv_new = -xv;
    }
    if x > DA_WIDTH - half {
        x = DA_WIDTH - half;
        xv_new = -xv;
    }
    if y < half {
        y = half;
        yv_new = -yv;
    }
    if y > DA_HEIGHT - half {
        y = DA_HEIGHT - half;
        yv_new = -yv;
    }
    (Shape { color: shape.color, x, y, shapesize: shape.shapesize }, xv_new, yv_new)
}

/// Closed-field invariant: a position standing inside `[lo, hi]` stays inside
/// after one reflected step, whatever the velocity.
pub proof fn lemma_reflect_axis_stays_in_range(pos: int, vel: int, lo: int, hi: int)
    requires
        lo <= pos <= hi,
    ensures
        lo <= reflect_axis(pos, vel, lo, hi).0 <= hi,
{
}

/// Closed-field invariant for a whole shape: one step from anywhere inside
/// the field lands inside the field on both axes.
pub proof fn lemma_step_stays_in_field(shape: Shape, xv: int, yv: int)
    requires
        half_size(shape.shapesize as int) <= shape.x
            <= DA_WIDTH - half_size(shape.shapesize as int),
        half_size(shape.shapesize as int) <= shape.y
            <= DA_HEIGHT - half_size(shape.shapesize as int),
    ensures
        ({
            let half = half_size(shape.shapesize as int);
            let (nx, nxv) = reflect_axis(shape.x as int, xv, half, DA_WIDTH - half);
            let (ny, nyv) = reflect_axis(shape.y as int, yv, half, DA_HEIGHT - half);
            half <= nx <= DA_WIDTH - half && half <= ny <= DA_HEIGHT - half
        }),
{
}

/// Reflection at the low wall: a step that would land below `lo` lands on
/// `lo` exactly, with the velocity negated. With the symmetric
/// `lemma_reflect_high` this covers all four walls, one axis at a time.
pub proof fn lemma_reflect_low(pos: int, vel: int, lo: int, hi: int)
    requires
        lo <= hi,
        pos + vel < lo,
    ensures
        reflect_axis(pos, vel, lo, hi) == (lo, -vel),
{
}

/// Reflection at the high wall: a step that would land above `hi` lands on
/// `hi` exactly, with the velocity negated.
pub proof fn lemma_reflect_high(pos: int, vel: int, lo: int, hi: int)
    requires
        lo <= hi,
        pos + vel > hi,
    ensures
        reflect_axis(pos, vel, lo, hi) == (hi, -vel),
{
}

/// Corner case: a velocity that drives both axes out of bounds in one tick
/// clamps both coordinates to the wall each axis ran into and flips both
/// velocity signs in the same step.
pub proof fn lemma_corner_flips_both(shape: Shape, xv: int, yv: int)
    requires
        2 * half_size(shape.shapesize as int) <= DA_WIDTH,
        2 * half_size(shape.shapesize as int) <= DA_HEIGHT,
        shape.x + xv < half_size(shape.shapesize as int)
            || shape.x + xv > DA_WIDTH - half_size(shape.shapesize as int),
        shape.y + yv < half_size(shape.shapesize as int)
            || shape.y + yv > DA_HEIGHT - half_size(shape.shapesize as int),
    ensures
        ({
            let half = half_size(shape.shapesize as int);
            let (nx, nxv) = reflect_axis(shape.x as int, xv, half, DA_WIDTH - half);
            let (ny, nyv) = reflect_axis(shape.y as int, yv, half, DA_HEIGHT - half);
            nxv == -xv && nyv == -yv
            && nx == (if shape.x + xv < half { half } else { DA_WIDTH - half })
            && ny == (if shape.y + yv < half { half } else { DA_HEIGHT - half })
        }),
{
}

/// Relies on `rand::random` with the `Standard` distribution on `bool`:
/// returns one of the two truth values; nothing further is promised of a
/// random draw.
#[verifier::external_body]
fn random_bool() -> bool {
    rand::random::<bool>()
}

/// Relies on `rand::Rng::gen_range` (through `rand::thread_rng`): returns a
/// value drawn from the half-open range `lo..hi`. It panics only on an empty
/// range, which the precondition rules out.
#[verifier::external_body]
fn gen_range_i32(lo: i32, hi: i32) -> (r: i32)
    requires
        lo < hi,
    ensures
        lo <= r < hi,
{
    rand::Rng::gen_range(&mut rand::thread_rng(), lo..hi)
}

/// Draw one initial velocity component: a sign chosen by a coin toss, then a
/// magnitude from the side of the lottery that sign selects. The draw never
/// yields zero, so a freshly started shape moves on both axes.
pub fn pick_velocity_component() -> (v: i32)
    ensures
        v != 0,
        (1 <= v <= 4) || (-5 <= v <= -2),
{
    if random_bool() {
        gen_range_i32(1, 5)
    } else {
        gen_range_i32(-5, -1)
    }
}

} // verus!

