//! The flow contract between task functions.
//!
//! Every function hands its result to its consumer as an `FnFlow`: `New` when
//! the point was updated in the current evaluation cycle (an event arrived),
//! `Old` when it comes from a cache.
use vstd::prelude::*;
use crate::point::{Point, PointView, ValueView};

verus! {

/// The result of a task function: `Ok(None)` means that the function has no
/// value in this cycle and stops the branch of computation.
pub type FnResult<T, E> = Result<Option<T>, E>;

/// Kind of a task function node.
#[derive(Clone, Copy, Debug, PartialEq, Eq, Structural)]
pub enum FnKind {
    Input,
    Var,
    Fn,
}

/// A point together with its freshness.
#[derive(Clone, Debug)]
pub enum FnFlow {
    /// The point was updated in the current cycle.
    New(Point),
    /// The point comes from a cache, no event arrived for it in this cycle.
    Old(Point),
}

impl FnFlow {
    /// The point carried by the flow.
    pub open spec fn point(self) -> Point {
        match self {
            FnFlow::New(p) => p,
            FnFlow::Old(p) => p,
        }
    }

    /// `true` for `FnFlow::New`.
    pub open spec fn fresh(self) -> bool {
        self is New
    }

    /// Returns a reference to the point.
    pub fn value(&self) -> (r: &Point)
        ensures
            *r == self.point(),
    {
        match self {
            FnFlow::New(p) => p,
            FnFlow::Old(p) => p,
        }
    }

    /// Returns the point.
    pub fn into_value(self) -> (r: Point)
        ensures
            r == self.point(),
    {
        match self {
            FnFlow::New(p) => p,
            FnFlow::Old(p) => p,
        }
    }

    /// Returns `true` for `FnFlow::New`.
    pub fn is_new(&self) -> (r: bool)
        ensures
            r == self.fresh(),
    {
        match self {
            FnFlow::New(_) => true,
            FnFlow::Old(_) => false,
        }
    }
}

/// What `FlowContext::ignore` and `FlowContext::map` hand back: the point of
/// the flow, or the absence or error unchanged.
pub open spec fn strip_flow(v: FnResult<FnFlow, String>) -> FnResult<Point, String> {
    match v {
        Err(e) => Err(e),
        Ok(None) => Ok(None),
        Ok(Some(f)) => Ok(Some(f.point())),
    }
}

/// `true` when `v` carries a `New` flow.
pub open spec fn carries_new(v: FnResult<FnFlow, String>) -> bool {
    match v {
        Ok(Some(f)) => f.fresh(),
        _ => false,
    }
}

/// Wraps `p` as `New` when `fresh`, as `Old` otherwise.
pub open spec fn flow_of(fresh: bool, p: Point) -> FnFlow {
    if fresh { FnFlow::New(p) } else { FnFlow::Old(p) }
}

/// Whether a context that has registered a `New` input when `start` holds has
/// registered one after `map` took the results `vs`, in order.
pub open spec fn seen_after(start: bool, vs: Seq<FnResult<FnFlow, String>>) -> bool
    decreases vs.len(),
{
    if vs.len() == 0 {
        start
    } else {
        seen_after(start || carries_new(vs[0]), vs.drop_first())
    }
}

/// Over a sequence of `map` calls, a context registers a `New` input exactly
/// when one of the results carried one, and once registered it stays so.
pub proof fn lemma_seen_after(start: bool, vs: Seq<FnResult<FnFlow, String>>)
    ensures
        seen_after(start, vs) == (start || exists|i: int| 0 <= i < vs.len() && carries_new(#[trigger] vs[i])),
        start ==> seen_after(start, vs),
    decreases vs.len(),
{
    if vs.len() > 0 {
        lemma_seen_after(start || carries_new(vs[0]), vs.drop_first());
        if exists|i: int| 0 <= i < vs.drop_first().len() && carries_new(#[trigger] vs.drop_first()[i]) {
            let i = choose|i: int| 0 <= i < vs.drop_first().len() && carries_new(#[trigger] vs.drop_first()[i]);
            assert(carries_new(vs[i + 1]));
        }
        if exists|i: int| 0 <= i < vs.len() && carries_new(#[trigger] vs[i]) {
            let i = choose|i: int| 0 <= i < vs.len() && carries_new(#[trigger] vs[i]);
            if i > 0 {
                assert(carries_new(vs.drop_first()[i - 1]));
            }
        }
    }
}

/// The evaluation context of a function node: it accumulates whether any of
/// the inputs read so far delivered a `New` point.
#[derive(Debug)]
pub struct FlowContext {
    is_new: bool,
}

impl FlowContext {
    /// `true` when a `New` input has been registered.
    pub closed spec fn seen_new(&self) -> bool {
        self.is_new
    }

    /// Returns a context with no `New` input registered.
    pub fn new() -> (r: Self)
        ensures
            !r.seen_new(),
    {
        FlowContext { is_new: false }
    }

    /// Extracts the point from an input result without registering its freshness.
    pub fn ignore(&self, v: FnResult<FnFlow, String>) -> (r: FnResult<Point, String>)
        ensures
            r == strip_flow(v),
    {
        match v {
            Err(e) => Err(e),
            Ok(None) => Ok(None),
            Ok(Some(flow)) => Ok(Some(flow.into_value())),
        }
    }

    /// Extracts the point from an input result and registers a `New` input.
    pub fn map(&mut self, v: FnResult<FnFlow, String>) -> (r: FnResult<Point, String>)
        ensures
            r == strip_flow(v),
            final(self).seen_new() == (old(self).seen_new() || carries_new(v)),
    {
        match v {
            Err(e) => Err(e),
            Ok(None) => Ok(None),
            Ok(Some(flow)) => {
                self.is_new = self.is_new || flow.is_new();
                Ok(Some(flow.into_value()))
            }
        }
    }

    /// Extracts the points from the input results `vs`, in order, registering
    /// each `New` one, as a sequence of `map` calls does.
    pub fn map_all(&mut self, vs: Vec<FnResult<FnFlow, String>>) -> (r: Vec<FnResult<Point, String>>)
        ensures
            r.len() == vs.len(),
            forall|i: int| 0 <= i < vs.len() ==> r@[i] == strip_flow(#[trigger] vs@[i]),
            final(self).seen_new() == seen_after(old(self).seen_new(), vs@),
    {
        let ghost all = vs@;
        let ghost start = self.seen_new();
        let mut r: Vec<FnResult<Point, String>> = Vec::new();
        let mut rest = vs;
        assert(all.subrange(0, all.len() as int) =~= all);
        while rest.len() > 0
            invariant
                r.len() + rest.len() == all.len(),
                forall|i: int| 0 <= i < r.len() ==> r@[i] == strip_flow(#[trigger] all[i]),
                rest@ == all.subrange(r.len() as int, all.len() as int),
                seen_after(start, all) == seen_after(self.seen_new(), all.subrange(r.len() as int, all.len() as int)),
            decreases rest.len(),
        {
            let k = r.len();
            let v = rest.remove(0);
            assert(v == all[k as int]);
            let ghost tail = all.subrange(k as int, all.len() as int);
            assert(tail[0] == v);
            assert(tail.drop_first() =~= all.subrange(k as int + 1, all.len() as int));
            let p = self.map(v);
            r.push(p);
            assert(rest@ =~= all.subrange(r.len() as int, all.len() as int));
        }
        assert(all.subrange(all.len() as int, all.len() as int) =~= Seq::<FnResult<FnFlow, String>>::empty());
        r
    }

    /// Wraps the final point as `New` if any input was `New`, as `Old` otherwise.
    pub fn wrap(&self, p: Point) -> (r: FnResult<FnFlow, String>)
        ensures
            r == Ok::<Option<FnFlow>, String>(Some(flow_of(self.seen_new(), p))),
    {
        if self.is_new { Ok(Some(FnFlow::New(p))) } else { Ok(Some(FnFlow::Old(p))) }
    }

    /// Wraps the final point as `New`, whatever the inputs were.
    pub fn wrap_new(&self, p: Point) -> (r: FnResult<FnFlow, String>)
        ensures
            r == Ok::<Option<FnFlow>, String>(Some(FnFlow::New(p))),
    {
        Ok(Some(FnFlow::New(p)))
    }

    /// Wraps the final point as `Old`, whatever the inputs were.
    pub fn wrap_old(&self, p: Point) -> (r: FnResult<FnFlow, String>)
        ensures
            r == Ok::<Option<FnFlow>, String>(Some(FnFlow::Old(p))),
    {
        Ok(Some(FnFlow::Old(p)))
    }

    /// Returns `true` if a `New` input has been registered.
    pub fn is_new(&self) -> (r: bool)
        ensures
            r == self.seen_new(),
    {
        self.is_new
    }

    /// Returns `true` if every input registered so far was `Old`.
    pub fn is_old(&self) -> (r: bool)
        ensures
            r == !self.seen_new(),
    {
        !self.is_new
    }
}

/// The mathematical content of a flow.
pub struct FlowView {
    pub fresh: bool,
    pub point: PointView,
}

impl View for FnFlow {
    type V = FlowView;

    open spec fn view(&self) -> FlowView {
        FlowView { fresh: self.fresh(), point: self.point()@ }
    }
}

/// The mathematical content of a function result.
pub open spec fn result_view(r: FnResult<FnFlow, String>) -> Result<Option<FlowView>, Seq<char>> {
    match r {
        Err(e) => Err(e@),
        Ok(None) => Ok(None),
        Ok(Some(f)) => Ok(Some(f@)),
    }
}

impl FnFlow {
    /// Returns an exact copy of the flow.
    pub fn copy(&self) -> (r: FnFlow)
        ensures
            r@ == self@,
    {
        match self {
            FnFlow::New(p) => FnFlow::New(p.copy()),
            FnFlow::Old(p) => FnFlow::Old(p.copy()),
        }
    }
}

/// Returns an exact copy of a function result.
pub fn copy_result(r: &FnResult<FnFlow, String>) -> (c: FnResult<FnFlow, String>)
    ensures
        result_view(c) == result_view(*r),
{
    match r {
        Err(e) => Err(e.clone()),
        Ok(None) => Ok(None),
        Ok(Some(f)) => Ok(Some(f.copy())),
    }
}

/// What a function produced in one evaluation.
pub enum Outcome {
    /// The function failed with an error.
    Fail,
    /// The function has no value: the branch stops.
    Silent,
    /// The function produced a point, `New` when the flag is set.
    Emit(bool, PointView),
}

/// The outcome a function result stands for.
pub open spec fn outcome_of(r: FnResult<FnFlow, String>) -> Outcome {
    match r {
        Err(_) => Outcome::Fail,
        Ok(None) => Outcome::Silent,
        Ok(Some(f)) => Outcome::Emit(f.fresh(), f.point()@),
    }
}

/// A point with the metadata of `p`, the transaction id `txid`, the name `name` and the value `v`.
pub open spec fn point_like(p: PointView, txid: usize, name: Seq<char>, v: ValueView) -> PointView {
    PointView { txid, name, value: v, status: p.status, cot: p.cot, ts: p.ts }
}

} // verus!
