//! Edge detection on a boolean signal.
use vstd::prelude::*;

verus! {

/// An edge of a boolean signal.
#[derive(Clone, Copy, Debug, PartialEq, Eq, Structural)]
pub enum Edge {
    /// `false -> true`
    Rising,
    /// `true -> false`
    Falling,
}

/// The edge between a previous sample (if any) and the current one.
pub open spec fn edge_between(prev: Option<bool>, cur: bool) -> Option<Edge> {
    match prev {
        None => None,
        Some(p) => if !p && cur {
            Some(Edge::Rising)
        } else if p && !cur {
            Some(Edge::Falling)
        } else {
            None
        },
    }
}

/// Detects the edges of a boolean signal sample by sample.
/// The first sample after creation or reset only initializes the detector.
#[derive(Debug)]
pub struct EdgeDetector {
    prev: Option<bool>,
}

impl EdgeDetector {
    /// The last sample seen, `None` before the first one.
    pub closed spec fn last(&self) -> Option<bool> {
        self.prev
    }

    /// Returns a detector that has seen no sample.
    pub fn new() -> (r: Self)
        ensures
            r.last() is None,
    {
        EdgeDetector { prev: None }
    }

    /// Adds a sample, returns the edge it makes with the previous one.
    pub fn add(&mut self, value: bool) -> (r: Option<Edge>)
        ensures
            r == edge_between(old(self).last(), value),
            final(self).last() == Some(value),
    {
        let r = match self.prev {
            None => None,
            Some(p) => if !p && value {
                Some(Edge::Rising)
            } else if p && !value {
                Some(Edge::Falling)
            } else {
                None
            },
        };
        self.prev = Some(value);
        r
    }

    /// Forgets the previous sample.
    pub fn reset(&mut self)
        ensures
            final(self).last() is None,
    {
        self.prev = None;
    }
}

/// A rising edge needs a `false` sample before a `true` one, so two rising
/// edges never come from two consecutive samples.
pub proof fn lemma_no_consecutive_rising(prev: Option<bool>, a: bool, b: bool)
    requires
        edge_between(prev, a) == Some(Edge::Rising),
    ensures
        edge_between(Some(a), b) != Some(Edge::Rising),
{
}

/// Likewise, two falling edges never come from two consecutive samples.
pub proof fn lemma_no_consecutive_falling(prev: Option<bool>, a: bool, b: bool)
    requires
        edge_between(prev, a) == Some(Edge::Falling),
    ensures
        edge_between(Some(a), b) != Some(Edge::Falling),
{
}

} // verus!
