//! `FnEq`: equality of two inputs.
use vstd::prelude::*;
use crate::point::{PointValue, ValueView, same_value};
use crate::fn_flow::{FnFlow, FnResult, FnKind, FlowContext};
use crate::functions::gather::{TwoInputsError, Gathered, gather, numbers, read_numbers, make_point, answers};
use crate::text::{node_id, node_id_text};

verus! {

/// The value of `FnEq` for the values read: equal types and equal values.
pub open spec fn eq_value() -> spec_fn(Seq<ValueView>) -> Option<ValueView> {
    |vals: Seq<ValueView>| Some(ValueView::Bool(same_value(vals[0], vals[1])))
}

/// ### Function | `FnEq`
///
/// Returns `true` when its two inputs hold equal numbers of the same type.
/// Both inputs are read; the result is `New` when either is `New`, and carries
/// the latest metadata with the worst status.
#[derive(Debug)]
pub struct FnEq<I> {
    txid: usize,
    id: String,
    inputs: Vec<I>,
}

impl<I> FnEq<I> {
    /// The node's identifier.
    pub closed spec fn id_spec(&self) -> Seq<char> {
        self.id@
    }

    /// The node's transaction id.
    pub closed spec fn txid_spec(&self) -> usize {
        self.txid
    }

    /// Returns a new `FnEq` on `inputs`, which must hold exactly two inputs.
    pub fn new(parent: &str, seq: usize, txid: usize, inputs: Vec<I>) -> (r: Result<Self, TwoInputsError>)
        ensures
            inputs.len() != 2 <==> r == Err::<Self, TwoInputsError>(TwoInputsError::NotTwoInputs),
            r matches Ok(n) ==> n.id_spec() == node_id_text(parent@, "FnEq"@, seq) && n.txid_spec() == txid,
    {
        if inputs.len() != 2 {
            return Err(TwoInputsError::NotTwoInputs);
        }
        Ok(FnEq { txid, id: node_id(parent, "FnEq", seq), inputs })
    }

    /// Returns the node's identifier.
    pub fn id(&self) -> (r: String)
        ensures
            r@ == self.id_spec(),
    {
        self.id.clone()
    }

    /// Returns the kind of the node.
    pub fn kind(&self) -> (r: FnKind)
        ensures
            r == FnKind::Fn,
    {
        FnKind::Fn
    }

    /// The two inputs: the node's `inputs`.
    pub closed spec fn inputs_spec(&self) -> Vec<I> {
        self.inputs
    }

    /// The node with `v` in place of its `inputs`.
    pub closed spec fn with_inputs(&self, v: Vec<I>) -> Self {
        FnEq { inputs: v, ..*self }
    }

    /// The two inputs. Returns a reference to it; the node is otherwise unchanged.
    pub fn inputs(&mut self) -> (r: &mut Vec<I>)
        ensures
            *r == old(self).inputs_spec(),
            *final(self) == old(self).with_inputs(*final(r)),
    {
        &mut self.inputs
    }

    /// Evaluates the node on the results of its first and second input.
    pub fn out(&self, input1: FnResult<FnFlow, String>, input2: FnResult<FnFlow, String>) -> (r: FnResult<FnFlow, String>)
        ensures
            answers(r, gather(seq![input1, input2], Seq::<ValueView>::empty(), numbers()), self.txid_spec(), self.id_spec(), eq_value()),
    {
        let inputs = vec![input1, input2];
        assert(inputs@ =~= seq![input1, input2]);
        let operands = match read_numbers(&self.id, inputs) {
            Err(e) => return Err(e),
            Ok(None) => return Ok(None),
            Ok(Some(o)) => o,
        };
        proof {
            lemma_two_read(input1, input2);
        }
        let value = operands.values[0].same_as(&operands.values[1]);
        let mut flow = FlowContext::new();
        let point = make_point(self.txid, &self.id, operands.meta, PointValue::Bool(value));
        if operands.fresh {
            flow.wrap_new(point)
        } else {
            flow.wrap_old(point)
        }
    }
}

/// Reading two inputs that both have a value reads two values.
pub proof fn lemma_two_read(input1: FnResult<FnFlow, String>, input2: FnResult<FnFlow, String>)
    ensures
        gather(seq![input1, input2], Seq::<ValueView>::empty(), numbers()) matches Gathered::Go(_, _, vals)
            ==> vals.len() == 2,
{
    reveal_with_fuel(gather, 3);
    let rs = seq![input1, input2];
    assert(rs.drop_last() =~= seq![input1]);
    assert(seq![input1].drop_last() =~= Seq::<FnResult<FnFlow, String>>::empty());
}

/// Equality does not depend on the order of the inputs.
pub proof fn lemma_eq_symmetric(input1: FnResult<FnFlow, String>, input2: FnResult<FnFlow, String>)
    ensures
        gather(seq![input1, input2], Seq::<ValueView>::empty(), numbers()) matches Gathered::Go(_, _, v)
            ==> (gather(seq![input2, input1], Seq::<ValueView>::empty(), numbers()) matches Gathered::Go(_, _, w)
                && eq_value()(v) == eq_value()(w)),
{
    reveal_with_fuel(gather, 3);
    let rs = seq![input1, input2];
    assert(rs.drop_last() =~= seq![input1]);
    assert(seq![input1].drop_last() =~= Seq::<FnResult<FnFlow, String>>::empty());
    let ts = seq![input2, input1];
    assert(ts.drop_last() =~= seq![input2]);
    assert(seq![input2].drop_last() =~= Seq::<FnResult<FnFlow, String>>::empty());
}

/// Two integers, two logical values or two texts compare equal exactly when
/// they are the same; values of different types never compare equal.
pub proof fn lemma_eq_compares_values(a: ValueView, b: ValueView)
    ensures
        match (a, b) {
            (ValueView::Int(x), ValueView::Int(y)) => eq_value()(seq![a, b]) == Some(ValueView::Bool(x == y)),
            (ValueView::Bool(x), ValueView::Bool(y)) => eq_value()(seq![a, b]) == Some(ValueView::Bool(x == y)),
            (ValueView::Str(x), ValueView::Str(y)) => eq_value()(seq![a, b]) == Some(ValueView::Bool(x == y)),
            _ => true,
        },
        (a is Int && !(b is Int)) || (a is Bool && !(b is Bool)) ==> eq_value()(seq![a, b]) == Some(ValueView::Bool(false)),
{
}

} // verus!
