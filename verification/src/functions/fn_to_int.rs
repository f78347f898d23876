//! `FnToInt`: conversion of the input into an integer.
use vstd::prelude::*;
use crate::point::{PointValue, ValueView, int_of};
use crate::fn_flow::{FnFlow, FnResult, FnKind, FlowContext, Outcome, outcome_of, point_like};
use crate::text::{node_id, node_id_text, parse_i64, parsed_i64, signed_decimal, lemma_parse_undoes_text};

verus! {

/// The integer value of an input of `FnToInt`: a number converted (`true` is
/// 1, a float rounded), a string parsed as a decimal `i64`.
pub open spec fn to_int_value(v: ValueView) -> Option<i64> {
    match v {
        ValueView::Str(s) => parsed_i64(s),
        _ => int_of(v),
    }
}

/// An integer converts to itself, a logical value to 1 or 0, and the decimal
/// notation of an integer to that integer.
pub proof fn lemma_to_int_of_integers(i: i64, b: bool)
    ensures
        to_int_value(ValueView::Int(i)) == Some(i),
        to_int_value(ValueView::Bool(b)) == Some(if b { 1i64 } else { 0i64 }),
        to_int_value(ValueView::Str(signed_decimal(i as int))) == Some(i),
{
    lemma_parse_undoes_text(i);
}

/// The outcome of `FnToInt` named `id` on the input result `input`.
pub open spec fn to_int_outcome(id: Seq<char>, input: FnResult<FnFlow, String>) -> Outcome {
    match input {
        Err(_) => Outcome::Fail,
        Ok(None) => Outcome::Silent,
        Ok(Some(f)) => {
            let p = f.point()@;
            match to_int_value(p.value) {
                Some(i) => Outcome::Emit(f.fresh(), point_like(p, p.txid, id, ValueView::Int(i))),
                None => Outcome::Fail,
            }
        },
    }
}

/// ### Function | `FnToInt`
///
/// Converts the input into an integer:
/// - bool: `true` -> 1, `false` -> 0
/// - real, double: rounded to the nearest integer, halves away from zero
/// - string: parsed as a decimal integer
#[derive(Debug)]
pub struct FnToInt<I> {
    id: String,
    input: I,
}

impl<I> FnToInt<I> {
    /// The node's identifier.
    pub closed spec fn id_spec(&self) -> Seq<char> {
        self.id@
    }

    /// Returns a new `FnToInt` on `input`.
    pub fn new(parent: &str, seq: usize, input: I) -> (r: Self)
        ensures
            r.id_spec() == node_id_text(parent@, "FnToInt"@, seq),
    {
        FnToInt { id: node_id(parent, "FnToInt", seq), input }
    }

    /// Returns the node's identifier.
    pub fn id(&self) -> (r: String)
        ensures
            r@ == self.id_spec(),
    {
        self.id.clone()
    }

    /// Returns the kind of the node.
    pub fn kind(&self) -> (r: FnKind)
        ensures
            r == FnKind::Fn,
    {
        FnKind::Fn
    }

    /// The input: the node's `input`.
    pub closed spec fn input_spec(&self) -> I {
        self.input
    }

    /// The node with `v` in place of its `input`.
    pub closed spec fn with_input(&self, v: I) -> Self {
        FnToInt { input: v, ..*self }
    }

    /// The input. Returns a reference to it; the node is otherwise unchanged.
    pub fn input(&mut self) -> (r: &mut I)
        ensures
            *r == old(self).input_spec(),
            *final(self) == old(self).with_input(*final(r)),
    {
        &mut self.input
    }

    /// Evaluates the node on the result of its input.
    pub fn out(&self, input: FnResult<FnFlow, String>) -> (r: FnResult<FnFlow, String>)
        ensures
            outcome_of(r) == to_int_outcome(self.id_spec(), input),
            input matches Err(e) ==> r == Err::<Option<FnFlow>, String>(e),
    {
        let mut flow = FlowContext::new();
        let input = match flow.map(input) {
            Err(e) => return Err(e),
            Ok(None) => return Ok(None),
            Ok(Some(p)) => p,
        };
        let value = match &input.value {
            PointValue::String(s) => match parse_i64(s.as_str()) {
                Some(v) => v,
                None => return Err(self.id.clone().concat(".out | Invalid input '").concat(s.as_str()).concat("'")),
            },
            other => match other.to_int() {
                Some(v) => v,
                None => return Err(self.id.clone().concat(".out | Invalid input type 'Bytes'")),
            },
        };
        flow.wrap(input.derive_with(input.txid, self.id.clone(), PointValue::Int(value)))
    }
}

} // verus!
