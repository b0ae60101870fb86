//! The basic types and traits shared by all models: points, the trajectory
//! store, its snapshot iterator, and the common operation set.

use vstd::prelude::*;

verus! {

/// An immutable two-dimensional coordinate. Both coordinates are IEEE 754
/// single-precision bit patterns (see the `scalar` module).
#[derive(Clone, Copy, PartialEq, Eq, Structural, Debug)]
pub struct Point {
    pub x: u32,
    pub y: u32,
}

/// One trajectory entry: a generated point. An entry has no identity beyond
/// its position in the trajectory.
#[derive(Clone, Copy, PartialEq, Eq, Structural, Debug)]
pub struct Node {
    pub current: Point,
}

impl Node {
    pub fn new(current: Point) -> (r: Self)
        ensures
            r.current == current,
    {
        Node { current }
    }
}

/// The implicit predecessor of entry `i` of a path that starts at `initial`:
/// the previous entry, or the initial point for the first entry.
pub open spec fn prev_point(path: Seq<Point>, initial: Point, i: int) -> Point {
    if i == 0 {
        initial
    } else {
        path[i - 1]
    }
}

/// An ordered, tail-growable sequence of points: one generated path. The
/// trajectory owns its entries; the only mutation points are append at the
/// tail, removal from the tail, and a full reset.
pub struct Trajectory {
    pub points: Vec<Point>,
}

impl View for Trajectory {
    type V = Seq<Point>;

    open spec fn view(&self) -> Seq<Point> {
        self.points@
    }
}

impl Trajectory {
    /// An empty trajectory.
    pub fn new() -> (t: Trajectory)
        ensures
            t@ == Seq::<Point>::empty(),
    {
        let t = Trajectory { points: Vec::new() };
        proof {
            assert(t@ =~= Seq::<Point>::empty());
        }
        t
    }

    /// The number of entries.
    pub fn len(&self) -> (n: usize)
        ensures
            n == self@.len(),
    {
        self.points.len()
    }

    /// Appends one entry at the tail and returns the new length.
    pub fn push_back(&mut self, point: Point) -> (n: usize)
        ensures
            final(self)@ == old(self)@.push(point),
            n == final(self)@.len(),
    {
        self.points.push(point);
        self.points.len()
    }

    /// Removes and returns the tail entry, or nothing if the trajectory is
    /// empty.
    pub fn pop_back(&mut self) -> (r: Option<Point>)
        ensures
            old(self)@.len() == 0 ==> r is None && final(self)@ == old(self)@,
            old(self)@.len() > 0 ==> r == Some(old(self)@.last()) && final(self)@ == old(self)@.drop_last(),
    {
        if self.points.len() == 0 {
            None
        } else {
            self.points.pop()
        }
    }

    /// The tail entry, or nothing if the trajectory is empty.
    pub fn back(&self) -> (r: Option<Point>)
        ensures
            self@.len() == 0 ==> r is None,
            self@.len() > 0 ==> r == Some(self@.last()),
    {
        if self.points.len() == 0 {
            None
        } else {
            Some(self.points[self.points.len() - 1])
        }
    }

    /// Removes all entries.
    pub fn reset(&mut self)
        ensures
            final(self)@ == Seq::<Point>::empty(),
    {
        self.points.clear();
        proof {
            assert(self@ =~= Seq::<Point>::empty());
        }
    }

    /// A fresh snapshot iterator over the entries, first to last. A fresh
    /// call always restarts from the first entry and does not observe later
    /// mutation of the trajectory.
    pub fn iterate(&self) -> (it: ProcessIter)
        ensures
            it@ == self@,
            it.index == 0,
    {
        let mut pts: Vec<Point> = Vec::new();
        let mut i: usize = 0;
        while i < self.points.len()
            invariant
                i <= self.points.len(),
                pts@ == self@.subrange(0, i as int),
            decreases self.points.len() - i,
        {
            pts.push(self.points[i]);
            proof {
                assert(pts@ =~= self@.subrange(0, i + 1));
            }
            i = i + 1;
        }
        proof {
            assert(pts@ =~= self@);
        }
        ProcessIter { points: pts, index: 0 }
    }
}

/// A snapshot iterator over a trajectory: yields the points from the first
/// generated to the last, then nothing.
pub struct ProcessIter {
    pub points: Vec<Point>,
    pub index: usize,
}

impl View for ProcessIter {
    type V = Seq<Point>;

    open spec fn view(&self) -> Seq<Point> {
        self.points@
    }
}

impl ProcessIter {
    /// The next point, or nothing once all points have been yielded.
    pub fn next(&mut self) -> (r: Option<Point>)
        ensures
            final(self)@ == old(self)@,
            old(self).index < old(self)@.len() ==> r == Some(old(self)@[old(self).index as int])
                && final(self).index == old(self).index + 1,
            old(self).index >= old(self)@.len() ==> r is None && final(self).index == old(self).index,
    {
        if self.index < self.points.len() {
            let p = self.points[self.index];
            self.index = self.index + 1;
            Some(p)
        } else {
            None
        }
    }
}

/// The iteration half of the model interface: a model hands out a fresh
/// iterator over the points generated so far.
pub trait ProcessIntoIterator {
    type Item;

    type ProcessIntoIter;

    fn into_iter(&mut self) -> Self::ProcessIntoIter;
}

/// The shared operation set every model implements: run to completion,
/// advance one step, reset, and the trajectory mutation primitives used
/// internally by `generate_single`.
pub trait Process {
    /// The points generated so far, in generation order.
    spec fn path(&self) -> Seq<Point>;

    /// Steps left in the distance budget.
    spec fn budget(&self) -> nat;

    /// Runs `generate_single` until the distance budget is exhausted.
    fn generate(&mut self)
        ensures
            old(self).path().is_prefix_of(final(self).path()),
            final(self).path().len() <= old(self).path().len() + old(self).budget(),
    ;

    /// Advances by exactly one step: appends one point to the trajectory and
    /// spends one unit of the distance budget (never below zero).
    fn generate_single(&mut self)
        ensures
            final(self).path().len() == old(self).path().len() + 1,
            final(self).path().drop_last() == old(self).path(),
            final(self).budget() == if old(self).budget() > 0 {
                (old(self).budget() - 1) as nat
            } else {
                0nat
            },
    ;

    /// Empties the trajectory. With `rearm` the distance budget is restored
    /// to its originally configured value; without it the budget is left as
    /// it stands.
    fn reset(&mut self, rearm: bool)
        ensures
            final(self).path() == Seq::<Point>::empty(),
            !rearm ==> final(self).budget() == old(self).budget(),
    ;

    /// Appends one point at the tail of the trajectory and returns the new
    /// length.
    fn push_back(&mut self, point: Point) -> (n: usize)
        ensures
            final(self).path() == old(self).path().push(point),
            n == final(self).path().len(),
            final(self).budget() == old(self).budget(),
    ;

    /// Removes and returns the tail entry of the trajectory, or nothing if
    /// it is empty.
    fn pop_back(&mut self) -> (r: Option<Point>)
        ensures
            old(self).path().len() == 0 ==> r is None && final(self).path() == old(self).path(),
            old(self).path().len() > 0 ==> r == Some(old(self).path().last())
                && final(self).path() == old(self).path().drop_last(),
            final(self).budget() == old(self).budget(),
    ;
}

} // verus!
