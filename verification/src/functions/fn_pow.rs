//! `FnPow`: power of two inputs.
use vstd::prelude::*;
use crate::point::{PointValue, ValueView, is_number};
use crate::fn_flow::{FnFlow, FnResult, FnKind};
use crate::functions::gather::{TwoInputsError, Gathered, Operands, int_operand, int_operand_of, make_point, gather, numbers, values_of, read_numbers, wrap_numeric, numeric_result, result_point};
use crate::float_bits::{f32_finite, f64_finite, f32_is_finite, f64_is_finite};
use crate::text::{node_id, node_id_text};

verus! {

/// `false` for a floating-point value that is infinite or NaN.
pub open spec fn finite_result(v: ValueView) -> bool {
    match v {
        ValueView::Real(b) => f32_finite(b),
        ValueView::Double(b) => f64_finite(b),
        _ => true,
    }
}

/// `a` to the power `n`, multiplying step by step; `None` as soon as a step leaves `i64`.
pub open spec fn power_checked(a: i64, n: nat) -> Option<i64>
    decreases n,
{
    if n == 0 {
        Some(1i64)
    } else {
        match power_checked(a, (n - 1) as nat) {
            Some(p) => p.checked_mul(a),
            None => None,
        }
    }
}

/// Returns `a` to the power `n`, `None` when a step leaves `i64`.
fn checked_power(a: i64, n: u32) -> (r: Option<i64>)
    ensures
        r == power_checked(a, n as nat),
{
    let mut p: i64 = 1;
    let mut k: u32 = 0;
    while k < n
        invariant
            k <= n,
            power_checked(a, k as nat) == Some(p),
        decreases n - k,
    {
        match p.checked_mul(a) {
            Some(q) => {
                p = q;
                k = k + 1;
            }
            None => {
                proof { lemma_power_stops(a, (k + 1) as nat, n as nat); }
                return None;
            }
        }
    }
    Some(p)
}

/// Once a step leaves `i64`, every further power does too.
proof fn lemma_power_stops(a: i64, k: nat, n: nat)
    requires
        k <= n,
        power_checked(a, k) is None,
    ensures
        power_checked(a, n) is None,
    decreases n - k,
{
    if k < n {
        lemma_power_stops(a, k + 1, n);
    }
}

/// The power of two integers; `None` for a negative or too large exponent,
/// or a power that leaves `i64`.
pub open spec fn pow_int(a: i64, b: i64) -> Option<i64> {
    if b < 0 || b > u32::MAX {
        None
    } else {
        power_checked(a, b as nat)
    }
}

/// Any integer to the power 0 is 1, and raising the exponent by one multiplies
/// the power by the base.
pub proof fn lemma_power_steps(a: i64, b: i64)
    requires
        0 <= b < u32::MAX,
    ensures
        pow_int(a, 0) == Some(1i64),
        pow_int(a, (b + 1) as i64) matches Some(p) ==> pow_int(a, b) matches Some(q) && p == q * a,
        pow_int(a, b) matches Some(q) ==> (i64::MIN <= q * a <= i64::MAX ==> pow_int(a, (b + 1) as i64) == Some((q * a) as i64)),
{
    assert(((b + 1) as nat - 1) as nat == b as nat);
}

/// ### Function | `FnPow`
///
/// Returns its first input raised to the power of its second. Both inputs are read; the result
/// is `New` when either is `New`, and carries the latest metadata with the
/// worst status. The power of the two numbers is the caller's
/// (`finish` takes it), a logical power is given as an integer.
#[derive(Debug)]
pub struct FnPow<I> {
    txid: usize,
    id: String,
    inputs: Vec<I>,
}

impl<I> FnPow<I> {
    /// The node's identifier.
    pub closed spec fn id_spec(&self) -> Seq<char> {
        self.id@
    }

    /// The node's transaction id.
    pub closed spec fn txid_spec(&self) -> usize {
        self.txid
    }

    /// Returns a new `FnPow` on `inputs`, which must hold exactly two inputs.
    pub fn new(parent: &str, seq: usize, txid: usize, inputs: Vec<I>) -> (r: Result<Self, TwoInputsError>)
        ensures
            inputs.len() != 2 <==> r == Err::<Self, TwoInputsError>(TwoInputsError::NotTwoInputs),
            r matches Ok(n) ==> n.id_spec() == node_id_text(parent@, "FnPow"@, seq) && n.txid_spec() == txid,
    {
        if inputs.len() != 2 {
            return Err(TwoInputsError::NotTwoInputs);
        }
        Ok(FnPow { txid, id: node_id(parent, "FnPow", seq), inputs })
    }

    /// Returns the node's identifier.
    pub fn id(&self) -> (r: String)
        ensures
            r@ == self.id_spec(),
    {
        self.id.clone()
    }

    /// Returns the kind of the node.
    pub fn kind(&self) -> (r: FnKind)
        ensures
            r == FnKind::Fn,
    {
        FnKind::Fn
    }

    /// The two inputs: the node's `inputs`.
    pub closed spec fn inputs_spec(&self) -> Vec<I> {
        self.inputs
    }

    /// The node with `v` in place of its `inputs`.
    pub closed spec fn with_inputs(&self, v: Vec<I>) -> Self {
        FnPow { inputs: v, ..*self }
    }

    /// The two inputs. Returns a reference to it; the node is otherwise unchanged.
    pub fn inputs(&mut self) -> (r: &mut Vec<I>)
        ensures
            *r == old(self).inputs_spec(),
            *final(self) == old(self).with_inputs(*final(r)),
    {
        &mut self.inputs
    }

    /// Reads the results of the first and second input: their values, freshness and metadata.
    pub fn operands(&self, input1: FnResult<FnFlow, String>, input2: FnResult<FnFlow, String>) -> (r: Result<Option<Operands>, String>)
        ensures
            match gather(seq![input1, input2], Seq::<ValueView>::empty(), numbers()) {
                Gathered::Fail(Some(e)) => r matches Err(x) && x@ == e,
                Gathered::Fail(None) => r is Err,
                Gathered::Silent => r == Ok::<Option<Operands>, String>(None),
                Gathered::Go(fresh, meta, vals) => r matches Ok(Some(o)) && o.fresh == fresh && o.meta == meta
                    && values_of(o.values@) == vals && vals.len() == 2,
            },
    {
        let inputs = vec![input1, input2];
        assert(inputs@ =~= seq![input1, input2]);
        proof { crate::functions::fn_eq::lemma_two_read(input1, input2); }
        read_numbers(&self.id, inputs)
    }

    /// The result for the operands `o` when both are integers or logical values;
    /// `None` when one is a float, whose arithmetic is the caller's (see `finish`).
    pub fn int_result(&self, o: &Operands) -> (r: Option<FnResult<FnFlow, String>>)
        requires
            o.values.len() == 2,
        ensures
            match (int_operand(o.values@[0]@), int_operand(o.values@[1]@)) {
                (Some(a), Some(b)) => r matches Some(res) && match pow_int(a, b) {
                    Some(c) => res matches Ok(Some(f)) && f.fresh() == o.fresh
                        && f.point()@ == result_point(self.txid_spec(), self.id_spec(), o.meta, ValueView::Int(c)),
                    None => res is Err,
                },
                _ => r is None,
            },
    {
        let a = match int_operand_of(&o.values[0]) { Some(a) => a, None => return None };
        let b = match int_operand_of(&o.values[1]) { Some(b) => b, None => return None };
        if b < 0 || b > u32::MAX as i64 {
            return Some(Err(self.id.clone().concat(".out | Can't pow: negative or too large exponent")));
        }
        match checked_power(a, b as u32) {
            Some(c) => {
                let p = make_point(self.txid, &self.id, o.meta, PointValue::Int(c));
                Some(if o.fresh { Ok(Some(FnFlow::New(p))) } else { Ok(Some(FnFlow::Old(p))) })
            }
            None => Some(Err(self.id.clone().concat(".out | Can't pow: integer overflow"))),
        }
    }

    /// The result for the operands `o` and their power `value`
    /// (`None`: the two values cannot be raised).
    pub fn finish(&self, o: &Operands, value: Option<PointValue>) -> (r: FnResult<FnFlow, String>)
        requires
            value matches Some(v) ==> is_number(v@),
        ensures
            match value {
                None => r is Err,
                Some(v) => if !finite_result(v@) { r is Err } else { r matches Ok(Some(f)) && f.fresh() == o.fresh
                    && f.point()@ == result_point(self.txid_spec(), self.id_spec(), o.meta, numeric_result(v@)) },
            },
    {
        match value {
            None => Err(self.id.clone().concat(".out | Can't pow")),
            Some(PointValue::Real(b)) if !f32_is_finite(b) => Err(self.id.clone().concat(".out | Math error: NaN or Infinite result")),
            Some(PointValue::Double(b)) if !f64_is_finite(b) => Err(self.id.clone().concat(".out | Math error: NaN or Infinite result")),
            Some(v) => wrap_numeric(self.txid, &self.id, o.fresh, o.meta, v),
        }
    }
}

} // verus!
