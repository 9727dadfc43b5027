//! The escape-time evaluator: which escape counts are drawn, and how.
//!
//! A point `c` is iterated as `z -> z*z + c`.  The iteration starts from
//! `z = c`, not from zero as the textbook iteration does, so its first
//! step already yields `c*c + c`; the picture depends on it.  The
//! iteration stops as soon as the modulus of the new `z` exceeds the
//! escape threshold, and after [`FRACTAL_ITERATIONS`] steps at the latest.
//! The escape count of `c` is the number of the step it stopped in,
//! counted from zero.
//!
//! The steps themselves are double-precision arithmetic and are taken by
//! the caller, who reports the outcome of each to an [`EscapeLoop`].

use vstd::prelude::*;
use vstd::math::min;
use crate::point::{Rgb, VirtualPoint};

verus! {

/// The largest number of steps the iteration of one point takes.
pub const FRACTAL_ITERATIONS: i32 = 255;

/// Whether a point with this escape count is drawn.
///
/// A count of zero means the point was outside the threshold after one
/// step; the last possible count means it never got outside, or only in
/// the final step.  Neither is drawn.
pub open spec fn is_drawn(escape_count: int) -> bool {
    0 < escape_count < FRACTAL_ITERATIONS - 1
}

/// The colour of a drawn point: red is ten times the escape count, capped
/// at 255; green and blue are the escape count.
pub open spec fn escape_color(escape_count: int) -> Rgb {
    (min(255, escape_count * 10) as u8, escape_count as u8, escape_count as u8)
}

/// What the evaluator returns for a point whose iteration stopped at
/// `escape_count`: the point in its colour, or nothing if it is not drawn.
pub open spec fn evaluated(coord: VirtualPoint, escape_count: int) -> Option<VirtualPoint> {
    if is_drawn(escape_count) {
        Some(VirtualPoint { x: coord.x, y: coord.y, color: escape_color(escape_count) })
    } else {
        None
    }
}

/// The colour for an escape count, if a point with that count is drawn.
pub fn color_for(escape_count: i32) -> (color: Option<Rgb>)
    ensures
        color == if is_drawn(escape_count as int) {
            Some(escape_color(escape_count as int))
        } else {
            None
        },
{
    if escape_count > 0 && escape_count < FRACTAL_ITERATIONS - 1 {
        let tenfold: i32 = escape_count * 10;
        let red: i32 = if tenfold < 255 {
            tenfold
        } else {
            255
        };
        Some((red as u8, escape_count as u8, escape_count as u8))
    } else {
        None
    }
}

/// Classifies one point by the count at which its iteration stopped.
///
/// Returns nothing for a count of zero or less and for the last count or
/// more.  For every count in between it returns the point at the same
/// coordinates, coloured by the count.
pub fn calc_mandelbrot_point(coord: &VirtualPoint, escape_count: i32) -> (result: Option<
    VirtualPoint,
>)
    ensures
        result == evaluated(*coord, escape_count as int),
        result is None <==> escape_count <= 0 || escape_count >= FRACTAL_ITERATIONS - 1,
        result matches Some(p) ==> p.x == coord.x && p.y == coord.y && p.color
            == escape_color(escape_count as int),
{
    match color_for(escape_count) {
        Some(color) => Some(VirtualPoint { x: coord.x, y: coord.y, color }),
        None => None,
    }
}

/// Whether the iteration stops in step `count`, given whether the modulus
/// exceeded the threshold after that step.  The last step ends the
/// iteration whatever it finds.
pub open spec fn stops_at(count: int, exceeded: bool) -> bool {
    exceeded || count >= FRACTAL_ITERATIONS - 1
}

/// The number of the step that follows step `count`, or `count` itself if
/// the iteration stops there.
pub open spec fn next_count(count: int, exceeded: bool) -> int {
    if stops_at(count, exceeded) {
        count
    } else {
        count + 1
    }
}

/// The count at which an iteration stops that is about to take step
/// `count`, where `exceeded(n)` tells whether the modulus exceeds the
/// threshold after step `n`.
pub open spec fn escape_count_from(exceeded: spec_fn(int) -> bool, count: int) -> int
    decreases FRACTAL_ITERATIONS - 1 - count,
{
    if stops_at(count, exceeded(count)) {
        count
    } else {
        escape_count_from(exceeded, count + 1)
    }
}

/// The escape count of a point: the count at which its iteration stops
/// when it starts with step zero.
pub open spec fn escape_count(exceeded: spec_fn(int) -> bool) -> int {
    escape_count_from(exceeded, 0)
}

/// The iteration of one point, between two steps.
///
/// The caller does the arithmetic of each step and reports whether the
/// modulus exceeded the threshold; the loop says whether to go on, and at
/// which count the iteration stopped.
pub struct EscapeLoop {
    count: i32,
}

impl EscapeLoop {
    #[verifier::type_invariant]
    spec fn in_range(self) -> bool {
        0 <= self.count < FRACTAL_ITERATIONS
    }

    /// The number of the step that is taken next, counted from zero.
    pub closed spec fn count(self) -> int {
        self.count as int
    }

    /// An iteration that has taken no step yet.
    pub fn start() -> (state: Self)
        ensures
            state.count() == 0,
    {
        EscapeLoop { count: 0 }
    }

    /// Records the outcome of the step just taken: whether the modulus of
    /// the new value exceeded the threshold.
    ///
    /// Returns the escape count if the iteration stops with this step, and
    /// nothing if another step is to be taken.
    pub fn advance(&mut self, exceeded: bool) -> (stopped: Option<i32>)
        ensures
            0 <= old(self).count() < FRACTAL_ITERATIONS,
            final(self).count() == next_count(old(self).count(), exceeded),
            stopped == if stops_at(old(self).count(), exceeded) {
                Some(old(self).count() as i32)
            } else {
                None
            },
    {
        proof {
            use_type_invariant(&*self);
        }
        if exceeded || self.count >= FRACTAL_ITERATIONS - 1 {
            Some(self.count)
        } else {
            self.count = self.count + 1;
            None
        }
    }
}

/// Taking one step does not change the count at which the iteration will
/// stop, and an iteration that stops in a step stops at that step's count.
/// So a caller that reports `exceeded(n)` after each step `n`, starting
/// with [`EscapeLoop::start`], is handed `escape_count(exceeded)`.
pub proof fn lemma_step_keeps_escape_count(exceeded: spec_fn(int) -> bool, count: int)
    ensures
        escape_count_from(exceeded, next_count(count, exceeded(count))) == escape_count_from(
            exceeded,
            count,
        ),
        stops_at(count, exceeded(count)) ==> escape_count_from(exceeded, count) == count,
{
}

/// The count at which an iteration stops is the first step from `count`
/// on after which the modulus exceeds the threshold, and the last step if
/// there is none before it.
pub proof fn lemma_escape_count_is_first_exceedance(exceeded: spec_fn(int) -> bool, count: int)
    requires
        0 <= count < FRACTAL_ITERATIONS,
    ensures
        count <= escape_count_from(exceeded, count) <= FRACTAL_ITERATIONS - 1,
        forall|step: int|
            count <= step < escape_count_from(exceeded, count) ==> !#[trigger] exceeded(step),
        escape_count_from(exceeded, count) < FRACTAL_ITERATIONS - 1 ==> exceeded(
            escape_count_from(exceeded, count),
        ),
    decreases FRACTAL_ITERATIONS - 1 - count,
{
    if !stops_at(count, exceeded(count)) {
        lemma_escape_count_is_first_exceedance(exceeded, count + 1);
    }
}

} // verus!
