//! `FnRisingEdge` and `FnFallingEdge`: one-cycle pulses on the edges of a signal.
use vstd::prelude::*;
use crate::point::{PointValue, PointView, ValueView, Status, truth_of};
use crate::fn_flow::{FnFlow, FnResult, FnKind, FlowContext, Outcome, outcome_of, point_like};
use crate::edge::{Edge, EdgeDetector, edge_between};
use crate::functions::fn_change::{FnChange, change_flow, change_last};
use crate::text::{node_id, node_id_text};

verus! {

/// One evaluation of an edge detector node looking for `want`, with name `id`,
/// previous input sample `sample` and previous output `prev`, on the
/// change-marked input result `ch`: the outcome, the new sample, the new previous output.
pub open spec fn pulse_step(
    want: Edge,
    id: Seq<char>,
    sample: Option<bool>,
    prev: Option<(bool, Status)>,
    ch: FnResult<FnFlow, String>,
) -> (Outcome, Option<bool>, Option<(bool, Status)>) {
    match ch {
        Err(_) => (Outcome::Fail, sample, prev),
        Ok(None) => (Outcome::Silent, None, None),
        Ok(Some(f)) => {
            let p = f.point()@;
            match truth_of(p.value) {
                None => (Outcome::Fail, sample, prev),
                Some(v) => {
                    let value = edge_between(sample, v) == Some(want);
                    let changed = match prev {
                        None => true,
                        Some((pv, ps)) => pv != value || ps != p.status,
                    };
                    (
                        Outcome::Emit(changed, point_like(p, p.txid, id, ValueView::Bool(value))),
                        Some(v),
                        Some((value, p.status)),
                    )
                },
            }
        },
    }
}

/// The shared state of the edge detector nodes.
#[derive(Debug)]
struct Pulse<I> {
    id: String,
    input: FnChange<I>,
    edge: EdgeDetector,
    prev: Option<(bool, Status)>,
}

impl<I> Pulse<I> {
    fn out(&mut self, want: Edge, input: FnResult<FnFlow, String>) -> (r: FnResult<FnFlow, String>)
        ensures
            ({
                let ch = change_flow(old(self).input.last(), input);
                let (o, s, p) = pulse_step(want, old(self).id@, old(self).edge.last(), old(self).prev, ch);
                &&& outcome_of(r) == o
                &&& final(self).edge.last() == s
                &&& final(self).prev == p
                &&& final(self).input.last() == change_last(old(self).input.last(), input)
            }),
            input matches Err(e) ==> r == Err::<Option<FnFlow>, String>(e),
            final(self).id == old(self).id,
    {
        let ch = self.input.out(input);
        let flow = FlowContext::new();
        let input = match flow.ignore(ch) {
            Err(e) => return Err(e),
            Ok(None) => {
                self.edge.reset();
                self.prev = None;
                return Ok(None);
            }
            Ok(Some(p)) => p,
        };
        let status = input.status;
        let val = match input.value.to_bool() {
            Some(v) => v,
            None => return Err(self.id.clone().concat(".out | Invalid input, expected bool or number")),
        };
        let value = match self.edge.add(val) {
            Some(e) => e == want,
            None => false,
        };
        let is_changed = match self.prev {
            None => true,
            Some((pv, ps)) => pv != value || ps != status,
        };
        self.prev = Some((value, status));
        let point = input.derive_with(input.txid, self.id.clone(), PointValue::Bool(value));
        if is_changed {
            flow.wrap_new(point)
        } else {
            flow.wrap_old(point)
        }
    }
}

/// ### Function | `FnRisingEdge`
///
/// Detector of the rising edge: the input sequence `false -> true` makes the
/// output `true` for one evaluation. The output is `New` whenever its value or
/// status changes.
#[derive(Debug)]
pub struct FnRisingEdge<I> {
    pulse: Pulse<I>,
}

/// ### Function | `FnFallingEdge`
///
/// Detector of the falling edge: the input sequence `true -> false` makes the
/// output `true` for one evaluation. The output is `New` whenever its value or
/// status changes.
#[derive(Debug)]
pub struct FnFallingEdge<I> {
    pulse: Pulse<I>,
}

impl<I> FnRisingEdge<I> {
    /// The node's identifier.
    pub closed spec fn id_spec(&self) -> Seq<char> {
        self.pulse.id@
    }

    /// The previous input sample.
    pub closed spec fn sample(&self) -> Option<bool> {
        self.pulse.edge.last()
    }

    /// The previous output value and status.
    pub closed spec fn prev(&self) -> Option<(bool, Status)> {
        self.pulse.prev
    }

    /// The change state of the input.
    pub closed spec fn change_state(&self) -> Option<PointView> {
        self.pulse.input.last()
    }

    /// Returns a new `FnRisingEdge` on `input`.
    pub fn new(parent: &str, seq: usize, input: I) -> (r: Self)
        ensures
            r.id_spec() == node_id_text(parent@, "FnRisingEdge"@, seq),
            r.sample() is None,
            r.prev() is None,
            r.change_state() is None,
    {
        FnRisingEdge {
            pulse: Pulse {
                id: node_id(parent, "FnRisingEdge", seq),
                input: FnChange::new(input),
                edge: EdgeDetector::new(),
                prev: None,
            },
        }
    }

    /// Returns the node's identifier.
    pub fn id(&self) -> (r: String)
        ensures
            r@ == self.id_spec(),
    {
        self.pulse.id.clone()
    }

    /// Returns the kind of the node.
    pub fn kind(&self) -> (r: FnKind)
        ensures
            r == FnKind::Fn,
    {
        FnKind::Fn
    }

    /// The input: the input of the node's change marker.
    pub closed spec fn input_spec(&self) -> I {
        self.pulse.input.input_spec()
    }

    /// The node with `v` in place of its input.
    pub closed spec fn with_input(&self, v: I) -> Self {
        FnRisingEdge { pulse: Pulse { input: self.pulse.input.with_input(v), ..self.pulse } }
    }

    /// The input. Returns a reference to it; the node is otherwise unchanged.
    pub fn input(&mut self) -> (r: &mut I)
        ensures
            *r == old(self).input_spec(),
            *final(self) == old(self).with_input(*final(r)),
    {
        self.pulse.input.input()
    }

    /// Evaluates the node on the result of its input.
    pub fn out(&mut self, input: FnResult<FnFlow, String>) -> (r: FnResult<FnFlow, String>)
        ensures
            ({
                let ch = change_flow(old(self).change_state(), input);
                let (o, s, p) = pulse_step(Edge::Rising, old(self).id_spec(), old(self).sample(), old(self).prev(), ch);
                &&& outcome_of(r) == o
                &&& final(self).sample() == s
                &&& final(self).prev() == p
                &&& final(self).change_state() == change_last(old(self).change_state(), input)
            }),
            input matches Err(e) ==> r == Err::<Option<FnFlow>, String>(e),
            final(self).id_spec() == old(self).id_spec(),
    {
        self.pulse.out(Edge::Rising, input)
    }

    /// Forgets the previous sample and output.
    pub fn reset(&mut self)
        ensures
            final(self).sample() is None,
            final(self).prev() is None,
            final(self).change_state() == old(self).change_state(),
            final(self).id_spec() == old(self).id_spec(),
    {
        self.pulse.edge.reset();
        self.pulse.prev = None;
    }
}

impl<I> FnFallingEdge<I> {
    /// The node's identifier.
    pub closed spec fn id_spec(&self) -> Seq<char> {
        self.pulse.id@
    }

    /// The previous input sample.
    pub closed spec fn sample(&self) -> Option<bool> {
        self.pulse.edge.last()
    }

    /// The previous output value and status.
    pub closed spec fn prev(&self) -> Option<(bool, Status)> {
        self.pulse.prev
    }

    /// The change state of the input.
    pub closed spec fn change_state(&self) -> Option<PointView> {
        self.pulse.input.last()
    }

    /// Returns a new `FnFallingEdge` on `input`.
    pub fn new(parent: &str, seq: usize, input: I) -> (r: Self)
        ensures
            r.id_spec() == node_id_text(parent@, "FnFallingEdge"@, seq),
            r.sample() is None,
            r.prev() is None,
            r.change_state() is None,
    {
        FnFallingEdge {
            pulse: Pulse {
                id: node_id(parent, "FnFallingEdge", seq),
                input: FnChange::new(input),
                edge: EdgeDetector::new(),
                prev: None,
            },
        }
    }

    /// Returns the node's identifier.
    pub fn id(&self) -> (r: String)
        ensures
            r@ == self.id_spec(),
    {
        self.pulse.id.clone()
    }

    /// Returns the kind of the node.
    pub fn kind(&self) -> (r: FnKind)
        ensures
            r == FnKind::Fn,
    {
        FnKind::Fn
    }

    /// The input: the input of the node's change marker.
    pub closed spec fn input_spec(&self) -> I {
        self.pulse.input.input_spec()
    }

    /// The node with `v` in place of its input.
    pub closed spec fn with_input(&self, v: I) -> Self {
        FnFallingEdge { pulse: Pulse { input: self.pulse.input.with_input(v), ..self.pulse } }
    }

    /// The input. Returns a reference to it; the node is otherwise unchanged.
    pub fn input(&mut self) -> (r: &mut I)
        ensures
            *r == old(self).input_spec(),
            *final(self) == old(self).with_input(*final(r)),
    {
        self.pulse.input.input()
    }

    /// Evaluates the node on the result of its input.
    pub fn out(&mut self, input: FnResult<FnFlow, String>) -> (r: FnResult<FnFlow, String>)
        ensures
            ({
                let ch = change_flow(old(self).change_state(), input);
                let (o, s, p) = pulse_step(Edge::Falling, old(self).id_spec(), old(self).sample(), old(self).prev(), ch);
                &&& outcome_of(r) == o
                &&& final(self).sample() == s
                &&& final(self).prev() == p
                &&& final(self).change_state() == change_last(old(self).change_state(), input)
            }),
            input matches Err(e) ==> r == Err::<Option<FnFlow>, String>(e),
            final(self).id_spec() == old(self).id_spec(),
    {
        self.pulse.out(Edge::Falling, input)
    }

    /// Forgets the previous sample and output.
    pub fn reset(&mut self)
        ensures
            final(self).sample() is None,
            final(self).prev() is None,
            final(self).change_state() == old(self).change_state(),
            final(self).id_spec() == old(self).id_spec(),
    {
        self.pulse.edge.reset();
        self.pulse.prev = None;
    }
}

/// An edge pulse lasts one evaluation: after an output `true`, the next
/// evaluation that produces a point produces `false`.
pub proof fn lemma_pulse_lasts_one_evaluation(
    want: Edge,
    id: Seq<char>,
    sample: Option<bool>,
    prev: Option<(bool, Status)>,
    ch1: FnResult<FnFlow, String>,
    ch2: FnResult<FnFlow, String>,
)
    requires
        pulse_step(want, id, sample, prev, ch1).0 matches Outcome::Emit(_, p) && p.value == ValueView::Bool(true),
    ensures
        ({
            let (_, s1, p1) = pulse_step(want, id, sample, prev, ch1);
            pulse_step(want, id, s1, p1, ch2).0 matches Outcome::Emit(_, q) ==> q.value == ValueView::Bool(false)
        }),
{
}

} // verus!
