//! A Bernoulli-trial path.

use vstd::prelude::*;

use crate::base::{Point, Process, ProcessIntoIterator, ProcessIter, Trajectory, prev_point};
use crate::random::RandomSource;
use crate::scalar::{add_bits, add_of, sub_bits, sub_of};

verus! {

/// Where the first generated point may land: its x is `initial.x` itself,
/// and its y moves up or down from `initial.y` by `step.y`.
pub open spec fn bern_first_ok(initial: Point, step: Point, next: Point) -> bool {
    &&& next.x == initial.x
    &&& (next.y == add_of(initial.y, step.y) || next.y == sub_of(initial.y, step.y))
}

/// Where every later point may land: x advances by `step.x` from its
/// predecessor, and y is either a success, `initial.y + step.y`, or a
/// failure, `initial.y` itself — both anchored to the initial point, never
/// to the predecessor.
pub open spec fn bern_later_ok(prev: Point, initial: Point, step: Point, next: Point) -> bool {
    &&& next.x == add_of(prev.x, step.x)
    &&& (next.y == add_of(initial.y, step.y) || next.y == initial.y)
}

/// Entry `i` of `path` follows the trial rule: the first entry the distinct
/// first-step rule, every later entry the success-or-failure rule.
pub open spec fn bern_path_ok(path: Seq<Point>, initial: Point, step: Point, i: int) -> bool {
    if i == 0 {
        bern_first_ok(initial, step, path[i])
    } else {
        bern_later_ok(prev_point(path, initial, i), initial, step, path[i])
    }
}

/// A Bernoulli-trial path: `step.x` is the spacing between trials and
/// `step.y` the outcome magnitude.
pub struct Bernoulli<R: RandomSource> {
    pub trajectory: Trajectory,
    pub initial: Point,
    /// The x component is the spacing per trial, the y component the
    /// outcome magnitude; both are single-precision bit patterns.
    pub step: Point,
    /// The configured trial count; the distance budget is `steps` times
    /// `step.x`.
    pub steps: u32,
    /// Trials left in the distance budget.
    pub remaining: u32,
    pub rng: R,
}

impl<R: RandomSource> Bernoulli<R> {
    /// A trial path starting at `initial` with a full budget of `steps`
    /// trials and an empty trajectory.
    pub fn new(initial: Point, step: Point, steps: u32, rng: R) -> (m: Self)
        ensures
            m.trajectory@ == Seq::<Point>::empty(),
            m.initial == initial,
            m.step == step,
            m.steps == steps,
            m.remaining == steps,
    {
        Bernoulli { trajectory: Trajectory::new(), initial, step, steps, remaining: steps, rng }
    }
}

impl<R: RandomSource> Process for Bernoulli<R> {
    open spec fn path(&self) -> Seq<Point> {
        self.trajectory@
    }

    open spec fn budget(&self) -> nat {
        self.remaining as nat
    }

    fn push_back(&mut self, point: Point) -> (n: usize)
        ensures
            final(self).initial == old(self).initial,
            final(self).step == old(self).step,
            final(self).steps == old(self).steps,
            final(self).remaining == old(self).remaining,
            final(self).rng == old(self).rng,
    {
        self.trajectory.push_back(point)
    }

    fn pop_back(&mut self) -> (r: Option<Point>)
        ensures
            final(self).initial == old(self).initial,
            final(self).step == old(self).step,
            final(self).steps == old(self).steps,
            final(self).remaining == old(self).remaining,
            final(self).rng == old(self).rng,
    {
        self.trajectory.pop_back()
    }

    fn generate_single(&mut self)
        ensures
            bern_path_ok(final(self).path(), old(self).initial, old(self).step, old(self).path().len() as int),
            final(self).initial == old(self).initial,
            final(self).step == old(self).step,
            final(self).steps == old(self).steps,
    {
        let up = self.rng.coin();
        let point: Point = match self.trajectory.back() {
            Some(prev) => {
                let x = add_bits(prev.x, self.step.x);
                let y = if up {
                    add_bits(self.initial.y, self.step.y)
                } else {
                    self.initial.y
                };
                Point { x, y }
            },
            None => {
                let y = if up {
                    add_bits(self.initial.y, self.step.y)
                } else {
                    sub_bits(self.initial.y, self.step.y)
                };
                Point { x: self.initial.x, y }
            },
        };
        self.push_back(point);
        if self.remaining > 0 {
            self.remaining = self.remaining - 1;
        }
        proof {
            assert(self.path().drop_last() =~= old(self).path());
        }
    }

    fn generate(&mut self)
        ensures
            final(self).remaining == 0,
            final(self).path().len() == old(self).path().len() + old(self).remaining,
            forall|i: int|
                old(self).path().len() <= i < final(self).path().len() ==> bern_path_ok(
                    final(self).path(),
                    old(self).initial,
                    old(self).step,
                    i,
                ),
            old(self).remaining == 0 ==> final(self).path() == old(self).path(),
            final(self).initial == old(self).initial,
            final(self).step == old(self).step,
            final(self).steps == old(self).steps,
    {
        while self.remaining > 0
            invariant
                self.initial == old(self).initial,
                self.step == old(self).step,
                self.steps == old(self).steps,
                self.remaining <= old(self).remaining,
                self.path().len() == old(self).path().len() + old(self).remaining - self.remaining,
                old(self).path().is_prefix_of(self.path()),
                forall|i: int|
                    old(self).path().len() <= i < self.path().len() ==> bern_path_ok(
                        self.path(),
                        old(self).initial,
                        old(self).step,
                        i,
                    ),
            decreases self.remaining,
        {
            let ghost pre_path = self.path();
            self.generate_single();
            proof {
                assert forall|i: int|
                    old(self).path().len() <= i < self.path().len() implies bern_path_ok(
                    self.path(),
                    old(self).initial,
                    old(self).step,
                    i,
                ) by {
                    assert(self.path().drop_last() == pre_path);
                    if i < pre_path.len() {
                        assert(bern_path_ok(pre_path, old(self).initial, old(self).step, i));
                        assert(self.path()[i] == pre_path[i]);
                        if i > 0 {
                            assert(self.path()[i - 1] == pre_path[i - 1]);
                        }
                    }
                }
            }
        }
        proof {
            if old(self).remaining == 0 {
                assert(self.path() =~= old(self).path());
            }
        }
    }

    fn reset(&mut self, rearm: bool)
        ensures
            final(self).remaining == if rearm {
                old(self).steps
            } else {
                old(self).remaining
            },
            final(self).initial == old(self).initial,
            final(self).step == old(self).step,
            final(self).steps == old(self).steps,
            final(self).rng == old(self).rng,
    {
        self.trajectory.reset();
        if rearm {
            self.remaining = self.steps;
        }
    }
}

impl<R: RandomSource> ProcessIntoIterator for Bernoulli<R> {
    type Item = Point;

    type ProcessIntoIter = ProcessIter;

    /// A fresh snapshot iterator over the points generated so far.
    fn into_iter(&mut self) -> (it: ProcessIter)
        ensures
            it@ == old(self).path(),
            it.index == 0,
            *final(self) == *old(self),
    {
        self.trajectory.iterate()
    }
}

} // verus!
