//! Metadata merged from the inputs of a function: status, cause of transmission, timestamp.
use vstd::prelude::*;
use crate::point::{Point, PointView, Status, Cot, worse, worse_status};

verus! {

/// The metadata a function gives its result.
#[derive(Clone, Copy, Debug, PartialEq, Eq, Structural)]
pub struct PointMeta {
    pub status: Status,
    pub cot: Cot,
    pub ts: i64,
}

/// The metadata before any input: good status, `Inf`, the earliest timestamp.
pub open spec fn meta_default() -> PointMeta {
    PointMeta { status: Status::Good, cot: Cot::Inf, ts: i64::MIN }
}

/// Takes the metadata of `p` when `p` is at least as recent as what `m` holds.
pub open spec fn meta_latest(m: PointMeta, p: PointView) -> PointMeta {
    if p.ts >= m.ts { PointMeta { status: p.status, cot: p.cot, ts: p.ts } } else { m }
}

/// Keeps the worse of the statuses of `m` and `p`.
pub open spec fn meta_status(m: PointMeta, p: PointView) -> PointMeta {
    PointMeta { status: worse_status(m.status, p.status), cot: m.cot, ts: m.ts }
}

impl Default for PointMeta {
    fn default() -> (r: Self)
        ensures
            r == meta_default(),
    {
        PointMeta { status: Status::Good, cot: Cot::Inf, ts: i64::MIN }
    }
}

impl PointMeta {
    /// Takes the metadata of `p` when `p` is at least as recent.
    pub fn update_latest(self, p: &Point) -> (r: Self)
        ensures
            r == meta_latest(self, p@),
    {
        if p.ts >= self.ts { PointMeta { status: p.status, cot: p.cot, ts: p.ts } } else { self }
    }

    /// Keeps the worse of the two statuses.
    pub fn update_status(self, p: &Point) -> (r: Self)
        ensures
            r == meta_status(self, p@),
    {
        PointMeta { status: worse(self.status, p.status), cot: self.cot, ts: self.ts }
    }
}

} // verus!
