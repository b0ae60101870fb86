//! A Poisson arrival process along the x-axis.
//!
//! Position substitutes for time: the average inter-arrival spacing is the
//! mean of an exponential-like gap distribution, each arrival advances x by
//! one drawn gap at the initial height, and generation stops once the
//! accumulated distance reaches the configured total. A configured cap on
//! the number of events bounds the run even when the drawn gaps make no
//! progress.

use vstd::prelude::*;

use crate::base::{Point, Process, ProcessIntoIterator, ProcessIter, Trajectory, prev_point};
use crate::random::RandomSource;
use crate::scalar::{add_bits, add_of, int_to_bits, lt_bits, lt_of, mul_bits};

verus! {

/// Attempts of the gap sampler before it falls back to a gap of one.
const ATTEMPT_CAP: u32 = 64;

/// Uniform draws one sampler attempt may consume.
const DRAW_CAP: u32 = 64;

/// The bit pattern of two to the minus twenty-fourth.
const UNIT_SCALE: u32 = 0x3380_0000;

/// Entry `i` of `path` is an arrival: at the initial height, with x some
/// gap ahead of its predecessor.
pub open spec fn poisson_path_ok(path: Seq<Point>, initial: Point, i: int) -> bool {
    &&& path[i].y == initial.y
    &&& exists|g: u32| path[i].x == add_of(prev_point(path, initial, i).x, g)
}

/// A uniform dyadic value in `[0, 1)`: twenty-four random bits, exactly
/// representable in single precision, scaled by two to the minus
/// twenty-fourth.
fn unit_bits<R: RandomSource>(rng: &mut R) -> u32 {
    let m = rng.raw32() >> 8;
    mul_bits(int_to_bits(m), UNIT_SCALE)
}

/// One draw from the unit exponential distribution, by von Neumann's
/// comparison method: draw a run of strictly decreasing uniform values; a
/// run of odd length on the n-th attempt yields n plus the run's first
/// value, a run of even length discards the attempt. Both the attempts and
/// the draws within an attempt are capped; an exhausted cap yields one.
fn exp_unit<R: RandomSource>(rng: &mut R) -> u32 {
    let mut n: u32 = 0;
    let mut attempts: u32 = ATTEMPT_CAP;
    while attempts > 0
        decreases attempts,
    {
        attempts = attempts - 1;
        let u1 = unit_bits(rng);
        let mut prev = u1;
        let mut odd = true;
        let mut running = true;
        let mut draws: u32 = DRAW_CAP;
        while running && draws > 0
            decreases draws,
        {
            draws = draws - 1;
            let u = unit_bits(rng);
            if lt_bits(u, prev) {
                prev = u;
                odd = !odd;
            } else {
                running = false;
            }
        }
        if odd {
            return add_bits(int_to_bits(n), u1);
        }
        if n < u32::MAX {
            n = n + 1;
        }
    }
    int_to_bits(1)
}

/// The spacing to the next arrival: an exponential-like draw with mean
/// `avg`, the unit draw scaled by `avg`.
fn exp_gap<R: RandomSource>(rng: &mut R, avg: u32) -> u32 {
    let e = exp_unit(rng);
    mul_bits(avg, e)
}

/// The Poisson arrival process.
pub struct Poisson<R: RandomSource> {
    pub trajectory: Trajectory,
    pub initial: Point,
    /// The distance accumulated by the arrivals so far, a single-precision
    /// bit pattern.
    pub current_dist: u32,
    /// The average inter-arrival spacing, a single-precision bit pattern.
    pub average_dist: u32,
    /// The total distance to cover, a single-precision bit pattern.
    pub total_dist: u32,
    /// The configured cap on the number of events: the safety bound that
    /// keeps a run of unproductive gaps finite.
    pub max_events: u32,
    /// Events left under the cap.
    pub remaining_events: u32,
    pub rng: R,
}

impl<R: RandomSource> Poisson<R> {
    /// A process starting at `initial` with no distance accumulated yet, an
    /// empty trajectory, and a full event budget.
    pub fn new(initial: Point, average_dist: u32, total_dist: u32, max_events: u32, rng: R) -> (m:
        Self)
        ensures
            m.trajectory@ == Seq::<Point>::empty(),
            m.initial == initial,
            m.current_dist == 0,
            m.average_dist == average_dist,
            m.total_dist == total_dist,
            m.max_events == max_events,
            m.remaining_events == max_events,
    {
        Poisson {
            trajectory: Trajectory::new(),
            initial,
            current_dist: 0,
            average_dist,
            total_dist,
            max_events,
            remaining_events: max_events,
            rng,
        }
    }
}

impl<R: RandomSource> Process for Poisson<R> {
    open spec fn path(&self) -> Seq<Point> {
        self.trajectory@
    }

    open spec fn budget(&self) -> nat {
        self.remaining_events as nat
    }

    fn push_back(&mut self, point: Point) -> (n: usize)
        ensures
            final(self).initial == old(self).initial,
            final(self).current_dist == old(self).current_dist,
            final(self).average_dist == old(self).average_dist,
            final(self).total_dist == old(self).total_dist,
            final(self).max_events == old(self).max_events,
            final(self).remaining_events == old(self).remaining_events,
            final(self).rng == old(self).rng,
    {
        self.trajectory.push_back(point)
    }

    fn pop_back(&mut self) -> (r: Option<Point>)
        ensures
            final(self).initial == old(self).initial,
            final(self).current_dist == old(self).current_dist,
            final(self).average_dist == old(self).average_dist,
            final(self).total_dist == old(self).total_dist,
            final(self).max_events == old(self).max_events,
            final(self).remaining_events == old(self).remaining_events,
            final(self).rng == old(self).rng,
    {
        self.trajectory.pop_back()
    }

    fn generate_single(&mut self)
        ensures
            poisson_path_ok(
                final(self).path(),
                old(self).initial,
                old(self).path().len() as int,
            ),
            exists|g: u32|
                final(self).path().last().x == add_of(
                    prev_point(
                        final(self).path(),
                        old(self).initial,
                        old(self).path().len() as int,
                    ).x,
                    g,
                ) && final(self).current_dist == add_of(old(self).current_dist, g),
            final(self).path().last().y == old(self).initial.y,
            final(self).initial == old(self).initial,
            final(self).average_dist == old(self).average_dist,
            final(self).total_dist == old(self).total_dist,
            final(self).max_events == old(self).max_events,
    {
        let prev: Point = match self.trajectory.back() {
            Some(p) => p,
            None => self.initial,
        };
        let g = exp_gap(&mut self.rng, self.average_dist);
        let x = add_bits(prev.x, g);
        self.push_back(Point { x, y: self.initial.y });
        self.current_dist = add_bits(self.current_dist, g);
        if self.remaining_events > 0 {
            self.remaining_events = self.remaining_events - 1;
        }
        proof {
            assert(self.path().drop_last() =~= old(self).path());
            assert(self.path().last().x == add_of(
                prev_point(self.path(), old(self).initial, old(self).path().len() as int).x,
                g,
            ) && self.current_dist == add_of(old(self).current_dist, g));
        }
    }

    fn generate(&mut self)
        ensures
            final(self).remaining_events == 0 || !lt_of(
                final(self).current_dist,
                final(self).total_dist,
            ),
            final(self).path().len() == old(self).path().len() + old(self).remaining_events
                - final(self).remaining_events,
            forall|i: int|
                old(self).path().len() <= i < final(self).path().len() ==> poisson_path_ok(
                    final(self).path(),
                    old(self).initial,
                    i,
                ),
            old(self).remaining_events == 0 || !lt_of(old(self).current_dist, old(self).total_dist)
                ==> final(self).path() == old(self).path() && final(self).current_dist == old(
                self,
            ).current_dist && final(self).remaining_events == old(self).remaining_events,
            final(self).initial == old(self).initial,
            final(self).average_dist == old(self).average_dist,
            final(self).total_dist == old(self).total_dist,
            final(self).max_events == old(self).max_events,
    {
        let mut go = self.remaining_events > 0 && lt_bits(self.current_dist, self.total_dist);
        while go
            invariant
                self.initial == old(self).initial,
                self.average_dist == old(self).average_dist,
                self.total_dist == old(self).total_dist,
                self.max_events == old(self).max_events,
                self.remaining_events <= old(self).remaining_events,
                go ==> self.remaining_events > 0 && lt_of(self.current_dist, self.total_dist),
                !go ==> self.remaining_events == 0 || !lt_of(self.current_dist, self.total_dist),
                self.path().len() == old(self).path().len() + old(self).remaining_events
                    - self.remaining_events,
                old(self).path().is_prefix_of(self.path()),
                (old(self).remaining_events == 0 || !lt_of(
                    old(self).current_dist,
                    old(self).total_dist,
                )) ==> self.path() == old(self).path() && self.current_dist == old(self).current_dist
                    && self.remaining_events == old(self).remaining_events,
                forall|i: int|
                    old(self).path().len() <= i < self.path().len() ==> poisson_path_ok(
                        self.path(),
                        old(self).initial,
                        i,
                    ),
            decreases self.remaining_events,
        {
            let ghost pre_path = self.path();
            self.generate_single();
            proof {
                assert forall|i: int|
                    old(self).path().len() <= i < self.path().len() implies poisson_path_ok(
                    self.path(),
                    old(self).initial,
                    i,
                ) by {
                    assert(self.path().drop_last() == pre_path);
                    if i < pre_path.len() {
                        assert(poisson_path_ok(pre_path, old(self).initial, i));
                        assert(self.path()[i] == pre_path[i]);
                        if i > 0 {
                            assert(self.path()[i - 1] == pre_path[i - 1]);
                        }
                        let g = choose|g: u32| pre_path[i].x == add_of(
                            prev_point(pre_path, old(self).initial, i).x,
                            g,
                        );
                        assert(self.path()[i].x == add_of(
                            prev_point(self.path(), old(self).initial, i).x,
                            g,
                        ));
                    }
                }
            }
            go = self.remaining_events > 0 && lt_bits(self.current_dist, self.total_dist);
        }
    }

    fn reset(&mut self, rearm: bool)
        ensures
            final(self).remaining_events == if rearm {
                old(self).max_events
            } else {
                old(self).remaining_events
            },
            final(self).current_dist == if rearm {
                0u32
            } else {
                old(self).current_dist
            },
            final(self).initial == old(self).initial,
            final(self).average_dist == old(self).average_dist,
            final(self).total_dist == old(self).total_dist,
            final(self).max_events == old(self).max_events,
            final(self).rng == old(self).rng,
    {
        self.trajectory.reset();
        if rearm {
            self.remaining_events = self.max_events;
            self.current_dist = 0;
        }
    }
}

impl<R: RandomSource> ProcessIntoIterator for Poisson<R> {
    type Item = Point;

    type ProcessIntoIter = ProcessIter;

    /// A fresh snapshot iterator over the points generated so far.
    fn into_iter(&mut self) -> (it: ProcessIter)
        ensures
            it@ == old(self).path(),
            it.index == 0,
            *final(self) == *old(self),
    {
        self.trajectory.iterate()
    }
}

} // verus!
