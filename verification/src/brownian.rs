//! A recurrence-based geometric Brownian-motion variant.
//!
//! The step rule is the deliberately simplified recurrence `y = prev.y *
//! step * drift + volatility * U`, with `U` drawn uniformly from the
//! integers in `[0, floor(sqrt(step)))` — not the closed-form geometric
//! Brownian motion solution.

use vstd::prelude::*;

use crate::base::{Point, Process, ProcessIntoIterator, ProcessIter, Trajectory, prev_point};
use crate::random::RandomSource;
use crate::scalar::{
    add_bits, add_of, float_of_int, int_to_bits, is_floor_sqrt, isqrt, mul_bits, mul_of,
    sqrt_floor, trunc_bits, trunc_of,
};

verus! {

/// The y value of a step taken from `prev_y` with the uniform draw `u`:
/// `prev_y * step * drift + volatility * u`, evaluated left to right in
/// single precision.
pub open spec fn gbm_y_of(prev_y: u32, step: u32, drift: u32, volatility: u32, u: u32) -> u32 {
    add_of(mul_of(mul_of(prev_y, step), drift), mul_of(volatility, float_of_int(u)))
}

/// The number of integers the uniform draw is taken from:
/// `floor(sqrt(step))`, the integer square root of the integer part of the
/// step.
pub open spec fn gbm_draw_bound(step: u32) -> int {
    sqrt_floor(trunc_of(step) as int)
}

/// The values the uniform draw may take: below the draw bound, saturated at
/// the `u32` range; zero when the bound admits no positive value at all (a
/// step below one), where the stochastic term is dropped rather than drawn
/// from an empty range.
pub open spec fn gbm_u_ok(step: u32, u: u32) -> bool {
    let b = gbm_draw_bound(step);
    if b <= 0 {
        u == 0
    } else if b < u32::MAX as int {
        (u as int) < b
    } else {
        (u as int) < u32::MAX as int
    }
}

/// Entry `i` of `path` follows the recurrence: x advances by `step` from
/// its predecessor, and y is the recurrence value for some admissible
/// uniform draw.
pub open spec fn gbm_path_ok(
    path: Seq<Point>,
    initial: Point,
    step: u32,
    drift: u32,
    volatility: u32,
    i: int,
) -> bool {
    let prev = prev_point(path, initial, i);
    &&& path[i].x == add_of(prev.x, step)
    &&& exists|u: u32| gbm_u_ok(step, u) && path[i].y == gbm_y_of(prev.y, step, drift, volatility, u)
}

/// The recurrence-based geometric Brownian-motion variant.
pub struct GeometricBrownianMotion<R: RandomSource> {
    pub trajectory: Trajectory,
    pub initial: Point,
    /// Stochastic drift, a single-precision bit pattern.
    pub drift: u32,
    /// Stochastic volatility, a single-precision bit pattern.
    pub volatility: u32,
    /// Distance per step, a single-precision bit pattern.
    pub step: u32,
    /// The configured loop count; the distance budget is `loops` times
    /// `step`.
    pub loops: u32,
    /// Steps left in the distance budget.
    pub remaining: u32,
    pub rng: R,
}

impl<R: RandomSource> GeometricBrownianMotion<R> {
    /// A motion starting at `initial` with a full budget of `loops` steps
    /// and an empty trajectory.
    pub fn new(initial: Point, drift: u32, volatility: u32, step: u32, loops: u32, rng: R) -> (m:
        Self)
        ensures
            m.trajectory@ == Seq::<Point>::empty(),
            m.initial == initial,
            m.drift == drift,
            m.volatility == volatility,
            m.step == step,
            m.loops == loops,
            m.remaining == loops,
    {
        GeometricBrownianMotion {
            trajectory: Trajectory::new(),
            initial,
            drift,
            volatility,
            step,
            loops,
            remaining: loops,
            rng,
        }
    }

    /// Updates the drift in place, touching neither the trajectory nor the
    /// budget.
    pub fn set_drift(&mut self, drift: u32)
        ensures
            final(self).drift == drift,
            final(self).trajectory == old(self).trajectory,
            final(self).initial == old(self).initial,
            final(self).volatility == old(self).volatility,
            final(self).step == old(self).step,
            final(self).loops == old(self).loops,
            final(self).remaining == old(self).remaining,
            final(self).rng == old(self).rng,
    {
        self.drift = drift;
    }

    /// Updates the volatility in place, touching neither the trajectory nor
    /// the budget.
    pub fn set_volatility(&mut self, volatility: u32)
        ensures
            final(self).volatility == volatility,
            final(self).trajectory == old(self).trajectory,
            final(self).initial == old(self).initial,
            final(self).drift == old(self).drift,
            final(self).step == old(self).step,
            final(self).loops == old(self).loops,
            final(self).remaining == old(self).remaining,
            final(self).rng == old(self).rng,
    {
        self.volatility = volatility;
    }

    /// Updates the step in place, touching neither the trajectory nor the
    /// budget.
    pub fn set_step(&mut self, step: u32)
        ensures
            final(self).step == step,
            final(self).trajectory == old(self).trajectory,
            final(self).initial == old(self).initial,
            final(self).drift == old(self).drift,
            final(self).volatility == old(self).volatility,
            final(self).loops == old(self).loops,
            final(self).remaining == old(self).remaining,
            final(self).rng == old(self).rng,
    {
        self.step = step;
    }

    /// One uniform draw from the integers in `[0, floor(sqrt(step)))`,
    /// saturated at the `u32` range; zero when that range is empty.
    fn draw(&mut self) -> (u: u32)
        ensures
            gbm_u_ok(old(self).step, u),
            final(self).trajectory == old(self).trajectory,
            final(self).initial == old(self).initial,
            final(self).drift == old(self).drift,
            final(self).volatility == old(self).volatility,
            final(self).step == old(self).step,
            final(self).loops == old(self).loops,
            final(self).remaining == old(self).remaining,
    {
        let t = trunc_bits(self.step);
        let s = isqrt(t);
        proof {
            assert(is_floor_sqrt(t as int, s as int));
            assert(s as int == gbm_draw_bound(self.step));
        }
        if s == 0 {
            0
        } else if s >= u32::MAX as u128 {
            self.rng.below(u32::MAX)
        } else {
            self.rng.below(s as u32)
        }
    }
}

impl<R: RandomSource> Process for GeometricBrownianMotion<R> {
    open spec fn path(&self) -> Seq<Point> {
        self.trajectory@
    }

    open spec fn budget(&self) -> nat {
        self.remaining as nat
    }

    fn push_back(&mut self, point: Point) -> (n: usize)
        ensures
            final(self).initial == old(self).initial,
            final(self).drift == old(self).drift,
            final(self).volatility == old(self).volatility,
            final(self).step == old(self).step,
            final(self).loops == old(self).loops,
            final(self).remaining == old(self).remaining,
            final(self).rng == old(self).rng,
    {
        self.trajectory.push_back(point)
    }

    fn pop_back(&mut self) -> (r: Option<Point>)
        ensures
            final(self).initial == old(self).initial,
            final(self).drift == old(self).drift,
            final(self).volatility == old(self).volatility,
            final(self).step == old(self).step,
            final(self).loops == old(self).loops,
            final(self).remaining == old(self).remaining,
            final(self).rng == old(self).rng,
    {
        self.trajectory.pop_back()
    }

    fn generate_single(&mut self)
        ensures
            gbm_path_ok(
                final(self).path(),
                old(self).initial,
                old(self).step,
                old(self).drift,
                old(self).volatility,
                old(self).path().len() as int,
            ),
            final(self).initial == old(self).initial,
            final(self).drift == old(self).drift,
            final(self).volatility == old(self).volatility,
            final(self).step == old(self).step,
            final(self).loops == old(self).loops,
    {
        let prev: Point = match self.trajectory.back() {
            Some(p) => p,
            None => self.initial,
        };
        let u = self.draw();
        let x = add_bits(prev.x, self.step);
        let y = add_bits(
            mul_bits(mul_bits(prev.y, self.step), self.drift),
            mul_bits(self.volatility, int_to_bits(u)),
        );
        self.push_back(Point { x, y });
        if self.remaining > 0 {
            self.remaining = self.remaining - 1;
        }
        proof {
            assert(self.path().drop_last() =~= old(self).path());
            assert(gbm_u_ok(old(self).step, u) && self.path().last().y == gbm_y_of(
                prev.y,
                old(self).step,
                old(self).drift,
                old(self).volatility,
                u,
            ));
        }
    }

    fn generate(&mut self)
        ensures
            final(self).remaining == 0,
            final(self).path().len() == old(self).path().len() + old(self).remaining,
            forall|i: int|
                old(self).path().len() <= i < final(self).path().len() ==> gbm_path_ok(
                    final(self).path(),
                    old(self).initial,
                    old(self).step,
                    old(self).drift,
                    old(self).volatility,
                    i,
                ),
            old(self).remaining == 0 ==> final(self).path() == old(self).path(),
            final(self).initial == old(self).initial,
            final(self).drift == old(self).drift,
            final(self).volatility == old(self).volatility,
            final(self).step == old(self).step,
            final(self).loops == old(self).loops,
    {
        while self.remaining > 0
            invariant
                self.initial == old(self).initial,
                self.drift == old(self).drift,
                self.volatility == old(self).volatility,
                self.step == old(self).step,
                self.loops == old(self).loops,
                self.remaining <= old(self).remaining,
                self.path().len() == old(self).path().len() + old(self).remaining - self.remaining,
                old(self).path().is_prefix_of(self.path()),
                forall|i: int|
                    old(self).path().len() <= i < self.path().len() ==> gbm_path_ok(
                        self.path(),
                        old(self).initial,
                        old(self).step,
                        old(self).drift,
                        old(self).volatility,
                        i,
                    ),
            decreases self.remaining,
        {
            let ghost pre_path = self.path();
            self.generate_single();
            proof {
                assert forall|i: int|
                    old(self).path().len() <= i < self.path().len() implies gbm_path_ok(
                    self.path(),
                    old(self).initial,
                    old(self).step,
                    old(self).drift,
                    old(self).volatility,
                    i,
                ) by {
                    assert(self.path().drop_last() == pre_path);
                    if i < pre_path.len() {
                        assert(gbm_path_ok(
                            pre_path,
                            old(self).initial,
                            old(self).step,
                            old(self).drift,
                            old(self).volatility,
                            i,
                        ));
                        assert(self.path()[i] == pre_path[i]);
                        if i > 0 {
                            assert(self.path()[i - 1] == pre_path[i - 1]);
                        }
                    }
                }
            }
        }
        proof {
            if old(self).remaining == 0 {
                assert(self.path() =~= old(self).path());
            }
        }
    }

    fn reset(&mut self, rearm: bool)
        ensures
            final(self).remaining == if rearm {
                old(self).loops
            } else {
                old(self).remaining
            },
            final(self).initial == old(self).initial,
            final(self).drift == old(self).drift,
            final(self).volatility == old(self).volatility,
            final(self).step == old(self).step,
            final(self).loops == old(self).loops,
            final(self).rng == old(self).rng,
    {
        self.trajectory.reset();
        if rearm {
            self.remaining = self.loops;
        }
    }
}

impl<R: RandomSource> ProcessIntoIterator for GeometricBrownianMotion<R> {
    type Item = Point;

    type ProcessIntoIter = ProcessIter;

    /// A fresh snapshot iterator over the points generated so far.
    fn into_iter(&mut self) -> (it: ProcessIter)
        ensures
            it@ == old(self).path(),
            it.index == 0,
            *final(self) == *old(self),
    {
        self.trajectory.iterate()
    }
}

} // verus!
