//! `FnNot`: logical negation.
use vstd::prelude::*;
use crate::point::{PointValue, ValueView, truth_of};
use crate::fn_flow::{FnFlow, FnResult, FnKind, FlowContext, Outcome, outcome_of, point_like};
use crate::text::{node_id, node_id_text};

verus! {

/// The outcome of `FnNot` named `id` on the input result `input`.
pub open spec fn not_outcome(id: Seq<char>, input: FnResult<FnFlow, String>) -> Outcome {
    match input {
        Err(_) => Outcome::Fail,
        Ok(None) => Outcome::Silent,
        Ok(Some(f)) => {
            let p = f.point()@;
            match truth_of(p.value) {
                Some(b) => Outcome::Emit(f.fresh(), point_like(p, p.txid, id, ValueView::Bool(!b))),
                None => Outcome::Fail,
            }
        },
    }
}

/// ### Function | `FnNot`
///
/// Returns the logical negation of its input; a number is `true` when it is
/// greater than zero. Keeps the freshness, status, cause and timestamp of the input.
#[derive(Debug)]
pub struct FnNot<I> {
    id: String,
    input: I,
}

impl<I> FnNot<I> {
    /// The node's identifier.
    pub closed spec fn id_spec(&self) -> Seq<char> {
        self.id@
    }

    /// Returns a new `FnNot` on `input`.
    pub fn new(parent: &str, seq: usize, input: I) -> (r: Self)
        ensures
            r.id_spec() == node_id_text(parent@, "FnNot"@, seq),
    {
        FnNot { id: node_id(parent, "FnNot", seq), input }
    }

    /// Returns the node's identifier.
    pub fn id(&self) -> (r: String)
        ensures
            r@ == self.id_spec(),
    {
        self.id.clone()
    }

    /// Returns the kind of the node.
    pub fn kind(&self) -> (r: FnKind)
        ensures
            r == FnKind::Fn,
    {
        FnKind::Fn
    }

    /// The node's input.
    pub closed spec fn input_spec(&self) -> I {
        self.input
    }

    /// The node with `input` in place of its input.
    pub closed spec fn with_input(&self, input: I) -> Self {
        FnNot { input, ..*self }
    }

    /// The input, to be polled by the caller; the node is otherwise unchanged.
    pub fn input(&mut self) -> (r: &mut I)
        ensures
            *r == old(self).input_spec(),
            *final(self) == old(self).with_input(*final(r)),
    {
        &mut self.input
    }

    /// Evaluates the node on the result of its input.
    pub fn out(&self, input: FnResult<FnFlow, String>) -> (r: FnResult<FnFlow, String>)
        ensures
            outcome_of(r) == not_outcome(self.id_spec(), input),
            input matches Err(e) ==> r == Err::<Option<FnFlow>, String>(e),
    {
        let mut flow = FlowContext::new();
        let input = match flow.map(input) {
            Err(e) => return Err(e),
            Ok(None) => return Ok(None),
            Ok(Some(p)) => p,
        };
        let value = match input.value.to_bool() {
            Some(b) => b,
            None => return Err(self.id.clone().concat(".out | Invalid input type, expected bool or number")),
        };
        flow.wrap(input.derive_with(input.txid, self.id.clone(), PointValue::Bool(!value)))
    }
}

/// Negating twice gives back the logical value of the input.
pub proof fn lemma_not_not(id1: Seq<char>, id2: Seq<char>, f: FnFlow, g: FnFlow)
    requires
        not_outcome(id1, Ok(Some(f))) matches Outcome::Emit(fresh, p) && g.fresh() == fresh && g.point()@ == p,
    ensures
        not_outcome(id2, Ok(Some(g))) matches Outcome::Emit(_, q) && q.value == ValueView::Bool(truth_of(f.point()@.value).unwrap()),
{
}

} // verus!
