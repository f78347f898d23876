//! `FnCount`: counts the rising edges of its input.
use vstd::prelude::*;
use crate::point::{PointValue, ValueView, truth_of, int_of};
use crate::fn_flow::{FnFlow, FnResult, FnKind, FlowContext, Outcome, outcome_of, point_like};
use crate::edge::{Edge, EdgeDetector, edge_between};
use crate::text::{node_id, node_id_text};

verus! {

/// The count a counter starts from: its current count, or the value of its
/// `initial` input (0 without one). `Err` when the initial value fails or is not
/// a number, `Ok(None)` when it has no value yet.
pub open spec fn count_base(
    count: Option<i64>,
    has_initial: bool,
    initial: Option<FnResult<FnFlow, String>>,
) -> Result<Option<i64>, ()> {
    match count {
        Some(c) => Ok(Some(c)),
        None => if !has_initial {
            Ok(Some(0))
        } else {
            match initial {
                Some(Ok(Some(g))) => match int_of(g.point()@.value) {
                    Some(v) => Ok(Some(v)),
                    None => Err(()),
                },
                Some(Ok(None)) => Ok(None),
                _ => Err(()),
            }
        },
    }
}

/// One evaluation of a counter with name `id`, count `count` and previous
/// input sample `prev`: the outcome, the new count and the new previous sample.
pub open spec fn count_step(
    id: Seq<char>,
    count: Option<i64>,
    prev: Option<bool>,
    has_initial: bool,
    input: FnResult<FnFlow, String>,
    initial: Option<FnResult<FnFlow, String>>,
) -> (Outcome, Option<i64>, Option<bool>) {
    match input {
        Err(_) => (Outcome::Fail, count, prev),
        Ok(None) => (Outcome::Silent, count, prev),
        Ok(Some(f)) => {
            let p = f.point()@;
            match count_base(count, has_initial, initial) {
                Err(_) => (Outcome::Fail, count, prev),
                Ok(None) => (Outcome::Silent, count, prev),
                Ok(Some(c)) => if !f.fresh() {
                    (Outcome::Emit(false, point_like(p, p.txid, id, ValueView::Int(c))), Some(c), prev)
                } else {
                    match truth_of(p.value) {
                        None => (Outcome::Fail, Some(c), prev),
                        Some(v) => if edge_between(prev, v) == Some(Edge::Rising) {
                            if c == i64::MAX {
                                (Outcome::Fail, Some(c), Some(v))
                            } else {
                                (Outcome::Emit(true, point_like(p, p.txid, id, ValueView::Int((c + 1) as i64))), Some((c + 1) as i64), Some(v))
                            }
                        } else {
                            (Outcome::Emit(false, point_like(p, p.txid, id, ValueView::Int(c))), Some(c), Some(v))
                        },
                    }
                },
            }
        },
    }
}

/// ### Function | `FnCount`
///
/// Counts the rising edges (`false -> true`) of its input that arrive as `New`.
/// - `initial`: optional count to start from, read once.
/// - Returns `New` when the count was incremented, `Old` otherwise.
#[derive(Debug)]
pub struct FnCount<I> {
    id: String,
    input: I,
    edge: EdgeDetector,
    count: Option<i64>,
    initial: Option<I>,
}

impl<I> FnCount<I> {
    /// The node's identifier.
    pub closed spec fn id_spec(&self) -> Seq<char> {
        self.id@
    }

    /// The current count, `None` until it was first established.
    pub closed spec fn count_spec(&self) -> Option<i64> {
        self.count
    }

    /// The previous input sample.
    pub closed spec fn prev_spec(&self) -> Option<bool> {
        self.edge.last()
    }

    /// `true` when the node has an `initial` input.
    pub closed spec fn has_initial(&self) -> bool {
        self.initial is Some
    }

    /// Returns a new `FnCount`.
    /// - `seq`: number of this instance, part of its identifier
    /// - `initial`: optional input giving the count to start from
    /// - `input`: the counted signal
    pub fn new(parent: &str, seq: usize, initial: Option<I>, input: I) -> (r: Self)
        ensures
            r.id_spec() == node_id_text(parent@, "FnCount"@, seq),
            r.count_spec() is None,
            r.prev_spec() is None,
            r.has_initial() == initial is Some,
    {
        let id = node_id(parent, "FnCount", seq);
        FnCount { id, input, edge: EdgeDetector::new(), count: None, initial }
    }

    /// Returns the node's identifier.
    pub fn id(&self) -> (r: String)
        ensures
            r@ == self.id_spec(),
    {
        self.id.clone()
    }

    /// Returns the kind of the node.
    pub fn kind(&self) -> (r: FnKind)
        ensures
            r == FnKind::Fn,
    {
        FnKind::Fn
    }

    /// The counted input: the node's `input`.
    pub closed spec fn input_spec(&self) -> I {
        self.input
    }

    /// The node with `v` in place of its `input`.
    pub closed spec fn with_input(&self, v: I) -> Self {
        FnCount { input: v, ..*self }
    }

    /// The counted input. Returns a reference to it; the node is otherwise unchanged.
    pub fn input(&mut self) -> (r: &mut I)
        ensures
            *r == old(self).input_spec(),
            *final(self) == old(self).with_input(*final(r)),
    {
        &mut self.input
    }

    /// The `initial` input: the node's `initial`.
    pub closed spec fn initial_spec(&self) -> Option<I> {
        self.initial
    }

    /// The node with `v` in place of its `initial`.
    pub closed spec fn with_initial(&self, v: Option<I>) -> Self {
        FnCount { initial: v, ..*self }
    }

    /// The `initial` input. Returns a reference to it; the node is otherwise unchanged.
    pub fn initial(&mut self) -> (r: &mut Option<I>)
        ensures
            *r == old(self).initial_spec(),
            *final(self) == old(self).with_initial(*final(r)),
    {
        &mut self.initial
    }

    /// Returns `true` when the `initial` input must be read in this evaluation,
    /// provided that the counted input has a value.
    pub fn needs_initial(&self) -> (r: bool)
        ensures
            r == (self.count_spec() is None && self.has_initial()),
    {
        self.count.is_none() && self.initial.is_some()
    }

    /// Evaluates the counter on the result of its input and, when it had to be
    /// read (`needs_initial` and the input has a value), the result of `initial`.
    pub fn out(&mut self, input: FnResult<FnFlow, String>, initial: Option<FnResult<FnFlow, String>>) -> (r: FnResult<FnFlow, String>)
        requires
            initial is Some == (old(self).count_spec() is None && old(self).has_initial() && input matches Ok(Some(_))),
        ensures
            ({
                let (o, c, p) = count_step(old(self).id_spec(), old(self).count_spec(), old(self).prev_spec(),
                    old(self).has_initial(), input, initial);
                &&& outcome_of(r) == o
                &&& final(self).count_spec() == c
                &&& final(self).prev_spec() == p
            }),
            input matches Err(e) ==> r == Err::<Option<FnFlow>, String>(e),
            initial matches Some(Err(e)) ==> r == Err::<Option<FnFlow>, String>(e),
            final(self).id_spec() == old(self).id_spec(),
            final(self).has_initial() == old(self).has_initial(),
    {
        let mut flow = FlowContext::new();
        let input = match flow.map(input) {
            Err(e) => return Err(e),
            Ok(None) => return Ok(None),
            Ok(Some(p)) => p,
        };
        let count = match self.count {
            Some(count) => count,
            None => {
                let val = if self.initial.is_some() {
                    match initial {
                        Some(Err(e)) => return Err(e),
                        Some(Ok(Some(g))) => match g.value().value.to_int() {
                            Some(v) => v,
                            None => return Err(self.id.clone().concat(".out | Invalid initial type, expected bool or number")),
                        },
                        _ => return Ok(None),
                    }
                } else {
                    0
                };
                self.count = Some(val);
                val
            }
        };
        if !flow.is_new() {
            let name = self.id.clone();
            return flow.wrap(input.derive_with(input.txid, name, PointValue::Int(count)));
        }
        let val = match input.value.to_bool() {
            Some(v) => v,
            None => return Err(self.id.clone().concat(".out | Invalid input type, expected bool or number")),
        };
        match self.edge.add(val) {
            Some(Edge::Rising) => {
                if count == i64::MAX {
                    return Err(self.id.clone().concat(".out | Count overflow"));
                }
                let count = count + 1;
                self.count = Some(count);
                let name = self.id.clone();
                flow.wrap(input.derive_with(input.txid, name, PointValue::Int(count)))
            }
            _ => {
                let name = self.id.clone();
                flow.wrap_old(input.derive_with(input.txid, name, PointValue::Int(count)))
            }
        }
    }

    /// Forgets the count and the previous sample.
    pub fn reset(&mut self)
        ensures
            final(self).count_spec() is None,
            final(self).prev_spec() is None,
            final(self).id_spec() == old(self).id_spec(),
            final(self).has_initial() == old(self).has_initial(),
    {
        self.count = None;
        self.edge.reset();
    }
}

/// The count never decreases, and grows by one at most per evaluation.
pub proof fn lemma_count_steps_by_at_most_one(
    id: Seq<char>,
    c: i64,
    prev: Option<bool>,
    has_initial: bool,
    input: FnResult<FnFlow, String>,
    initial: Option<FnResult<FnFlow, String>>,
)
    ensures
        ({
            let next = count_step(id, Some(c), prev, has_initial, input, initial).1;
            next matches Some(n) && c <= n <= c + 1
        }),
{
}

/// A counter grows only on a `New` input that makes a rising edge.
pub proof fn lemma_count_grows_only_on_rising_edge(
    id: Seq<char>,
    c: i64,
    prev: Option<bool>,
    has_initial: bool,
    f: FnFlow,
    initial: Option<FnResult<FnFlow, String>>,
)
    requires
        count_step(id, Some(c), prev, has_initial, Ok(Some(f)), initial).1 != Some(c),
    ensures
        f.fresh(),
        truth_of(f.point()@.value) matches Some(v) && edge_between(prev, v) == Some(Edge::Rising),
{
}

/// A `New` true input after a false one counts one more, reported as `New`
/// with the input's metadata; the count then stands at one above what it was.
pub proof fn lemma_rising_edge_counts(
    id: Seq<char>,
    c: i64,
    has_initial: bool,
    f: FnFlow,
    initial: Option<FnResult<FnFlow, String>>,
)
    requires
        f.fresh(),
        truth_of(f.point()@.value) == Some(true),
        c < i64::MAX,
    ensures
        ({
            let (o, n, last) = count_step(id, Some(c), Some(false), has_initial, Ok(Some(f)), initial);
            let p = f.point()@;
            &&& n == Some((c + 1) as i64)
            &&& last == Some(true)
            &&& o matches Outcome::Emit(fresh, q) && fresh && q.value == ValueView::Int((c + 1) as i64)
                && q.name == id && q.status == p.status && q.ts == p.ts
        }),
{
}

} // verus!
