//! `FnOr`: logical disjunction of its inputs.
use vstd::prelude::*;
use crate::point::{PointValue, ValueView, truth_of};
use crate::fn_flow::{FnFlow, FnResult, FnKind, FlowContext};
use crate::functions::gather::{InputsError, gather, numbers, values_of, read_numbers, make_point, answers};
use crate::text::{node_id, node_id_text};

verus! {

/// `true` when one of the values is `true` (a number is `true` when greater than zero).
pub open spec fn any_true(vals: Seq<ValueView>) -> bool {
    exists|i: int| 0 <= i < vals.len() && truth_of(#[trigger] vals[i]) == Some(true)
}

/// The value of `FnOr` for the values read.
pub open spec fn or_value() -> spec_fn(Seq<ValueView>) -> Option<ValueView> {
    |vals: Seq<ValueView>| Some(ValueView::Bool(any_true(vals)))
}

/// One `true` value makes the disjunction `true`, whatever the others are; when
/// every value is `false` (a number not greater than zero), it is `false`.
pub proof fn lemma_or_of_values(vals: Seq<ValueView>, i: int)
    ensures
        0 <= i < vals.len() && truth_of(vals[i]) == Some(true) ==> or_value()(vals) == Some(ValueView::Bool(true)),
        (forall|j: int| 0 <= j < vals.len() ==> truth_of(#[trigger] vals[j]) == Some(false))
            ==> or_value()(vals) == Some(ValueView::Bool(false)),
{
}

/// ### Function | `FnOr`
///
/// Returns `true` when at least one of its inputs is `true`; every input is
/// read, a number is `true` when it is greater than zero. The result is `New`
/// when any input is `New`, and carries the latest metadata with the worst status.
#[derive(Debug)]
pub struct FnOr<I> {
    txid: usize,
    id: String,
    inputs: Vec<I>,
}

impl<I> FnOr<I> {
    /// The node's identifier.
    pub closed spec fn id_spec(&self) -> Seq<char> {
        self.id@
    }

    /// The node's transaction id.
    pub closed spec fn txid_spec(&self) -> usize {
        self.txid
    }

    /// The number of inputs.
    pub closed spec fn arity(&self) -> nat {
        self.inputs.len() as nat
    }

    /// Returns a new `FnOr` on `inputs`, which must hold at least one input.
    pub fn new(parent: &str, seq: usize, txid: usize, inputs: Vec<I>) -> (r: Result<Self, InputsError>)
        ensures
            inputs.len() == 0 <==> r == Err::<Self, InputsError>(InputsError::NoInputs),
            r matches Ok(n) ==> n.id_spec() == node_id_text(parent@, "FnOr"@, seq) && n.txid_spec() == txid
                && n.arity() == inputs.len(),
    {
        if inputs.len() < 1 {
            return Err(InputsError::NoInputs);
        }
        Ok(FnOr { txid, id: node_id(parent, "FnOr", seq), inputs })
    }

    /// Returns the node's identifier.
    pub fn id(&self) -> (r: String)
        ensures
            r@ == self.id_spec(),
    {
        self.id.clone()
    }

    /// Returns the kind of the node.
    pub fn kind(&self) -> (r: FnKind)
        ensures
            r == FnKind::Fn,
    {
        FnKind::Fn
    }

    /// The inputs: the node's `inputs`.
    pub closed spec fn inputs_spec(&self) -> Vec<I> {
        self.inputs
    }

    /// The node with `v` in place of its `inputs`.
    pub closed spec fn with_inputs(&self, v: Vec<I>) -> Self {
        FnOr { inputs: v, ..*self }
    }

    /// The inputs. Returns a reference to it; the node is otherwise unchanged.
    pub fn inputs(&mut self) -> (r: &mut Vec<I>)
        ensures
            *r == old(self).inputs_spec(),
            *final(self) == old(self).with_inputs(*final(r)),
    {
        &mut self.inputs
    }

    /// Evaluates the node on the results of its inputs, in order.
    pub fn out(&self, inputs: Vec<FnResult<FnFlow, String>>) -> (r: FnResult<FnFlow, String>)
        ensures
            answers(r, gather(inputs@, Seq::<ValueView>::empty(), numbers()), self.txid_spec(), self.id_spec(), or_value()),
    {
        let operands = match read_numbers(&self.id, inputs) {
            Err(e) => return Err(e),
            Ok(None) => return Ok(None),
            Ok(Some(o)) => o,
        };
        let ghost vals = values_of(operands.values@);
        let mut value = false;
        let mut i: usize = 0;
        while i < operands.values.len()
            invariant
                i <= operands.values.len(),
                vals == values_of(operands.values@),
                value == exists|j: int| 0 <= j < i && truth_of(#[trigger] vals[j]) == Some(true),
            decreases operands.values.len() - i,
        {
            let b = operands.values[i].to_bool();
            assert(vals[i as int] == operands.values@[i as int]@);
            value = value || b == Some(true);
            i = i + 1;
        }
        let mut flow = FlowContext::new();
        let point = make_point(self.txid, &self.id, operands.meta, PointValue::Bool(value));
        if operands.fresh {
            flow.wrap_new(point)
        } else {
            flow.wrap_old(point)
        }
    }
}

} // verus!
