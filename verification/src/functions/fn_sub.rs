//! `FnSub`: difference of two inputs.
use vstd::prelude::*;
use crate::point::{PointValue, ValueView, is_number};
use crate::fn_flow::{FnFlow, FnResult, FnKind};
use crate::functions::gather::{TwoInputsError, Gathered, Operands, int_operand, int_operand_of, make_point, gather, numbers, values_of, read_numbers, wrap_numeric, numeric_result, result_point};
use crate::text::{node_id, node_id_text};

verus! {

/// The difference of two integers, `None` when it leaves `i64`.
pub open spec fn sub_int(a: i64, b: i64) -> Option<i64> {
    a.checked_sub(b)
}

/// The difference undoes an addition: `a - b` plus `b` is `a`, and the
/// difference is given whenever it is within `i64`.
pub proof fn lemma_difference_undoes_sum(a: i64, b: i64)
    ensures
        sub_int(a, b) matches Some(c) ==> c + b == a,
        i64::MIN <= a - b <= i64::MAX ==> sub_int(a, b) is Some,
{
}

/// ### Function | `FnSub`
///
/// Returns its first input minus its second. Both inputs are read; the result
/// is `New` when either is `New`, and carries the latest metadata with the
/// worst status. The difference of the two numbers is the caller's
/// (`finish` takes it), a logical difference is given as an integer.
#[derive(Debug)]
pub struct FnSub<I> {
    txid: usize,
    id: String,
    inputs: Vec<I>,
}

impl<I> FnSub<I> {
    /// The node's identifier.
    pub closed spec fn id_spec(&self) -> Seq<char> {
        self.id@
    }

    /// The node's transaction id.
    pub closed spec fn txid_spec(&self) -> usize {
        self.txid
    }

    /// Returns a new `FnSub` on `inputs`, which must hold exactly two inputs.
    pub fn new(parent: &str, seq: usize, txid: usize, inputs: Vec<I>) -> (r: Result<Self, TwoInputsError>)
        ensures
            inputs.len() != 2 <==> r == Err::<Self, TwoInputsError>(TwoInputsError::NotTwoInputs),
            r matches Ok(n) ==> n.id_spec() == node_id_text(parent@, "FnSub"@, seq) && n.txid_spec() == txid,
    {
        if inputs.len() != 2 {
            return Err(TwoInputsError::NotTwoInputs);
        }
        Ok(FnSub { txid, id: node_id(parent, "FnSub", seq), inputs })
    }

    /// Returns the node's identifier.
    pub fn id(&self) -> (r: String)
        ensures
            r@ == self.id_spec(),
    {
        self.id.clone()
    }

    /// Returns the kind of the node.
    pub fn kind(&self) -> (r: FnKind)
        ensures
            r == FnKind::Fn,
    {
        FnKind::Fn
    }

    /// The two inputs: the node's `inputs`.
    pub closed spec fn inputs_spec(&self) -> Vec<I> {
        self.inputs
    }

    /// The node with `v` in place of its `inputs`.
    pub closed spec fn with_inputs(&self, v: Vec<I>) -> Self {
        FnSub { inputs: v, ..*self }
    }

    /// The two inputs. Returns a reference to it; the node is otherwise unchanged.
    pub fn inputs(&mut self) -> (r: &mut Vec<I>)
        ensures
            *r == old(self).inputs_spec(),
            *final(self) == old(self).with_inputs(*final(r)),
    {
        &mut self.inputs
    }

    /// Reads the results of the first and second input: their values, freshness and metadata.
    pub fn operands(&self, input1: FnResult<FnFlow, String>, input2: FnResult<FnFlow, String>) -> (r: Result<Option<Operands>, String>)
        ensures
            match gather(seq![input1, input2], Seq::<ValueView>::empty(), numbers()) {
                Gathered::Fail(Some(e)) => r matches Err(x) && x@ == e,
                Gathered::Fail(None) => r is Err,
                Gathered::Silent => r == Ok::<Option<Operands>, String>(None),
                Gathered::Go(fresh, meta, vals) => r matches Ok(Some(o)) && o.fresh == fresh && o.meta == meta
                    && values_of(o.values@) == vals && vals.len() == 2,
            },
    {
        let inputs = vec![input1, input2];
        assert(inputs@ =~= seq![input1, input2]);
        proof { crate::functions::fn_eq::lemma_two_read(input1, input2); }
        read_numbers(&self.id, inputs)
    }

    /// The result for the operands `o` when both are integers or logical values;
    /// `None` when one is a float, whose arithmetic is the caller's (see `finish`).
    pub fn int_result(&self, o: &Operands) -> (r: Option<FnResult<FnFlow, String>>)
        requires
            o.values.len() == 2,
        ensures
            match (int_operand(o.values@[0]@), int_operand(o.values@[1]@)) {
                (Some(a), Some(b)) => r matches Some(res) && match sub_int(a, b) {
                    Some(c) => res matches Ok(Some(f)) && f.fresh() == o.fresh
                        && f.point()@ == result_point(self.txid_spec(), self.id_spec(), o.meta, ValueView::Int(c)),
                    None => res is Err,
                },
                _ => r is None,
            },
    {
        let a = match int_operand_of(&o.values[0]) { Some(a) => a, None => return None };
        let b = match int_operand_of(&o.values[1]) { Some(b) => b, None => return None };
        match a.checked_sub(b) {
            Some(c) => {
                let p = make_point(self.txid, &self.id, o.meta, PointValue::Int(c));
                Some(if o.fresh { Ok(Some(FnFlow::New(p))) } else { Ok(Some(FnFlow::Old(p))) })
            }
            None => Some(Err(self.id.clone().concat(".out | Can't sub: integer overflow"))),
        }
    }

    /// The result for the operands `o` and their difference `value`
    /// (`None`: the two values cannot be subtracted).
    pub fn finish(&self, o: &Operands, value: Option<PointValue>) -> (r: FnResult<FnFlow, String>)
        requires
            value matches Some(v) ==> is_number(v@),
        ensures
            match value {
                None => r is Err,
                Some(v) => r matches Ok(Some(f)) && f.fresh() == o.fresh
                    && f.point()@ == result_point(self.txid_spec(), self.id_spec(), o.meta, numeric_result(v@)),
            },
    {
        match value {
            None => Err(self.id.clone().concat(".out | Can't sub")),
            Some(v) => wrap_numeric(self.txid, &self.id, o.fresh, o.meta, v),
        }
    }
}

} // verus!
