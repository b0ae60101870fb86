//! A simple one-dimensional random walk.

use vstd::prelude::*;

use crate::base::{Point, Process, ProcessIntoIterator, ProcessIter, Trajectory, prev_point};
use crate::random::RandomSource;
use crate::scalar::{add_bits, add_of, sub_bits, sub_of};

verus! {

/// Where one walk step from `prev` may land: x advances by exactly `step`,
/// and y moves up or down by exactly `step`.
pub open spec fn rw_step_ok(prev: Point, next: Point, step: u32) -> bool {
    &&& next.x == add_of(prev.x, step)
    &&& (next.y == add_of(prev.y, step) || next.y == sub_of(prev.y, step))
}

/// Entry `i` of `path` is one walk step away from its predecessor (the
/// predecessor of the first entry being `initial`).
pub open spec fn rw_path_ok(path: Seq<Point>, initial: Point, step: u32, i: int) -> bool {
    rw_step_ok(prev_point(path, initial, i), path[i], step)
}

/// A random walk: each step advances x by `step` and moves y up or down by
/// `step`, with equal probability.
pub struct RandomWalk1D<R: RandomSource> {
    pub trajectory: Trajectory,
    pub initial: Point,
    /// Distance per step (both in x and in y), a single-precision bit
    /// pattern.
    pub step: u32,
    /// The configured step count; the distance budget is `steps` times
    /// `step`.
    pub steps: u32,
    /// Steps left in the distance budget.
    pub remaining: u32,
    pub rng: R,
}

impl<R: RandomSource> RandomWalk1D<R> {
    /// A walk starting at `initial` with a full budget of `steps` steps and
    /// an empty trajectory.
    pub fn new(initial: Point, step: u32, steps: u32, rng: R) -> (m: Self)
        ensures
            m.trajectory@ == Seq::<Point>::empty(),
            m.initial == initial,
            m.step == step,
            m.steps == steps,
            m.remaining == steps,
    {
        RandomWalk1D { trajectory: Trajectory::new(), initial, step, steps, remaining: steps, rng }
    }
}

impl<R: RandomSource> Process for RandomWalk1D<R> {
    open spec fn path(&self) -> Seq<Point> {
        self.trajectory@
    }

    open spec fn budget(&self) -> nat {
        self.remaining as nat
    }

    fn push_back(&mut self, point: Point) -> (n: usize)
        ensures
            final(self).initial == old(self).initial,
            final(self).step == old(self).step,
            final(self).steps == old(self).steps,
            final(self).remaining == old(self).remaining,
            final(self).rng == old(self).rng,
    {
        self.trajectory.push_back(point)
    }

    fn pop_back(&mut self) -> (r: Option<Point>)
        ensures
            final(self).initial == old(self).initial,
            final(self).step == old(self).step,
            final(self).steps == old(self).steps,
            final(self).remaining == old(self).remaining,
            final(self).rng == old(self).rng,
    {
        self.trajectory.pop_back()
    }

    fn generate_single(&mut self)
        ensures
            rw_path_ok(final(self).path(), old(self).initial, old(self).step, old(self).path().len() as int),
            final(self).initial == old(self).initial,
            final(self).step == old(self).step,
            final(self).steps == old(self).steps,
    {
        let prev: Point = match self.trajectory.back() {
            Some(p) => p,
            None => self.initial,
        };
        let x = add_bits(prev.x, self.step);
        let y = if self.rng.coin() {
            add_bits(prev.y, self.step)
        } else {
            sub_bits(prev.y, self.step)
        };
        self.push_back(Point { x, y });
        if self.remaining > 0 {
            self.remaining = self.remaining - 1;
        }
        proof {
            assert(self.path().drop_last() =~= old(self).path());
        }
    }

    fn generate(&mut self)
        ensures
            final(self).remaining == 0,
            final(self).path().len() == old(self).path().len() + old(self).remaining,
            forall|i: int|
                old(self).path().len() <= i < final(self).path().len() ==> rw_path_ok(
                    final(self).path(),
                    old(self).initial,
                    old(self).step,
                    i,
                ),
            old(self).remaining == 0 ==> final(self).path() == old(self).path(),
            final(self).initial == old(self).initial,
            final(self).step == old(self).step,
            final(self).steps == old(self).steps,
    {
        while self.remaining > 0
            invariant
                self.initial == old(self).initial,
                self.step == old(self).step,
                self.steps == old(self).steps,
                self.remaining <= old(self).remaining,
                self.path().len() == old(self).path().len() + old(self).remaining - self.remaining,
                old(self).path().is_prefix_of(self.path()),
                forall|i: int|
                    old(self).path().len() <= i < self.path().len() ==> rw_path_ok(
                        self.path(),
                        old(self).initial,
                        old(self).step,
                        i,
                    ),
            decreases self.remaining,
        {
            let ghost pre_path = self.path();
            self.generate_single();
            proof {
                assert forall|i: int|
                    old(self).path().len() <= i < self.path().len() implies rw_path_ok(
                    self.path(),
                    old(self).initial,
                    old(self).step,
                    i,
                ) by {
                    assert(self.path().drop_last() == pre_path);
                    if i < pre_path.len() {
                        assert(rw_path_ok(pre_path, old(self).initial, old(self).step, i));
                        assert(self.path()[i] == pre_path[i]);
                        if i > 0 {
                            assert(self.path()[i - 1] == pre_path[i - 1]);
                        }
                    }
                }
            }
        }
        proof {
            if old(self).remaining == 0 {
                assert(self.path() =~= old(self).path());
            }
        }
    }

    fn reset(&mut self, rearm: bool)
        ensures
            final(self).remaining == if rearm {
                old(self).steps
            } else {
                old(self).remaining
            },
            final(self).initial == old(self).initial,
            final(self).step == old(self).step,
            final(self).steps == old(self).steps,
            final(self).rng == old(self).rng,
    {
        self.trajectory.reset();
        if rearm {
            self.remaining = self.steps;
        }
    }
}

impl<R: RandomSource> ProcessIntoIterator for RandomWalk1D<R> {
    type Item = Point;

    type ProcessIntoIter = ProcessIter;

    /// A fresh snapshot iterator over the points generated so far.
    fn into_iter(&mut self) -> (it: ProcessIter)
        ensures
            it@ == old(self).path(),
            it.index == 0,
            *final(self) == *old(self),
    {
        self.trajectory.iterate()
    }
}

} // verus!
