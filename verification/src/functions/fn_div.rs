//! `FnDiv`: quotient of two inputs.
use vstd::prelude::*;
use crate::point::{PointValue, ValueView, is_number};
use crate::fn_flow::{FnFlow, FnResult, FnKind};
use crate::functions::gather::{TwoInputsError, Gathered, Operands, int_operand, int_operand_of, make_point, gather, numbers, values_of, read_numbers, wrap_numeric, numeric_result, result_point};
use crate::text::{node_id, node_id_text};

use vstd::arithmetic::div_mod::lemma_fundamental_div_mod;

verus! {

/// The quotient of two integers, truncated toward zero; `None` for a division
/// by zero or a quotient that leaves `i64`.
pub open spec fn div_int(a: i64, b: i64) -> Option<i64> {
    a.checked_div(b)
}

/// The quotient is truncated toward zero: what remains of `a` after taking
/// `q` times `b` is smaller than `b` in size and has the sign of `a`. The
/// quotient is given for every nonzero divisor but the one overflow of `i64`.
pub proof fn lemma_quotient_truncates(a: i64, b: i64)
    ensures
        div_int(a, b) matches Some(q) ==> b != 0 && ({
            let r = a - q * b;
            &&& (if r < 0 { -r } else { r }) < (if b < 0 { -(b as int) } else { b as int })
            &&& (r == 0 || (r > 0) == (a > 0))
        }),
        b != 0 && !(a == i64::MIN && b == -1) ==> div_int(a, b) is Some,
{
    if b != 0 {
        let x = a as int;
        let d = b as int;
        if x > 0 && d > 0 {
            let (n, m) = (x, d);
            lemma_fundamental_div_mod(n, m);
            let k = n / m;
            assert(0 <= k <= n && 0 <= n - k * m < m) by (nonlinear_arith)
                requires n > 0, m > 0, n == m * k + n % m, 0 <= n % m < m;
            let q = k as i64;
            assert(div_int(a, b) == Some(q));
            assert(a - q * b == n - k * m);
        } else if x < 0 && d < 0 {
            let (n, m) = (-x, -d);
            lemma_fundamental_div_mod(n, m);
            let k = n / m;
            assert(0 <= k <= n && 0 <= n - k * m < m && (m >= 2 ==> 2 * k <= n)) by (nonlinear_arith)
                requires n > 0, m > 0, n == m * k + n % m, 0 <= n % m < m;
            if k <= i64::MAX {
                let q = k as i64;
                assert(div_int(a, b) == Some(q));
                assert(a - q * b == -(n - k * m)) by (nonlinear_arith) requires n == -x, m == -d, q == k, x == a, d == b;
            }
        } else if x < 0 {
            let (n, m) = (-x, d);
            lemma_fundamental_div_mod(n, m);
            let k = n / m;
            assert(0 <= k <= n && 0 <= n - k * m < m) by (nonlinear_arith)
                requires n > 0, m > 0, n == m * k + n % m, 0 <= n % m < m;
            let q = (k * -1) as i64;
            assert(div_int(a, b) == Some(q));
            assert(a - q * b == -(n - k * m)) by (nonlinear_arith) requires n == -x, m == d, q == -k, x == a, d == b;
        } else if x > 0 {
            let (n, m) = (x, -d);
            lemma_fundamental_div_mod(n, m);
            let k = n / m;
            assert(0 <= k <= n && 0 <= n - k * m < m) by (nonlinear_arith)
                requires n > 0, m > 0, n == m * k + n % m, 0 <= n % m < m;
            let q = (k * -1) as i64;
            assert(div_int(a, b) == Some(q));
            assert(a - q * b == n - k * m) by (nonlinear_arith) requires n == x, m == -d, q == -k, x == a, d == b;
        } else {
            assert(div_int(a, b) == Some(0i64));
            assert(a - 0i64 * b == 0);
        }
    }
}

/// ### Function | `FnDiv`
///
/// Returns its first input divided by its second. Both inputs are read; the result
/// is `New` when either is `New`, and carries the latest metadata with the
/// worst status. The quotient of the two numbers is the caller's
/// (`finish` takes it), a logical quotient is given as an integer.
#[derive(Debug)]
pub struct FnDiv<I> {
    txid: usize,
    id: String,
    inputs: Vec<I>,
}

impl<I> FnDiv<I> {
    /// The node's identifier.
    pub closed spec fn id_spec(&self) -> Seq<char> {
        self.id@
    }

    /// The node's transaction id.
    pub closed spec fn txid_spec(&self) -> usize {
        self.txid
    }

    /// Returns a new `FnDiv` on `inputs`, which must hold exactly two inputs.
    pub fn new(parent: &str, seq: usize, txid: usize, inputs: Vec<I>) -> (r: Result<Self, TwoInputsError>)
        ensures
            inputs.len() != 2 <==> r == Err::<Self, TwoInputsError>(TwoInputsError::NotTwoInputs),
            r matches Ok(n) ==> n.id_spec() == node_id_text(parent@, "FnDiv"@, seq) && n.txid_spec() == txid,
    {
        if inputs.len() != 2 {
            return Err(TwoInputsError::NotTwoInputs);
        }
        Ok(FnDiv { txid, id: node_id(parent, "FnDiv", seq), inputs })
    }

    /// Returns the node's identifier.
    pub fn id(&self) -> (r: String)
        ensures
            r@ == self.id_spec(),
    {
        self.id.clone()
    }

    /// Returns the kind of the node.
    pub fn kind(&self) -> (r: FnKind)
        ensures
            r == FnKind::Fn,
    {
        FnKind::Fn
    }

    /// The two inputs: the node's `inputs`.
    pub closed spec fn inputs_spec(&self) -> Vec<I> {
        self.inputs
    }

    /// The node with `v` in place of its `inputs`.
    pub closed spec fn with_inputs(&self, v: Vec<I>) -> Self {
        FnDiv { inputs: v, ..*self }
    }

    /// The two inputs. Returns a reference to it; the node is otherwise unchanged.
    pub fn inputs(&mut self) -> (r: &mut Vec<I>)
        ensures
            *r == old(self).inputs_spec(),
            *final(self) == old(self).with_inputs(*final(r)),
    {
        &mut self.inputs
    }

    /// Reads the results of the first and second input: their values, freshness and metadata.
    pub fn operands(&self, input1: FnResult<FnFlow, String>, input2: FnResult<FnFlow, String>) -> (r: Result<Option<Operands>, String>)
        ensures
            match gather(seq![input1, input2], Seq::<ValueView>::empty(), numbers()) {
                Gathered::Fail(Some(e)) => r matches Err(x) && x@ == e,
                Gathered::Fail(None) => r is Err,
                Gathered::Silent => r == Ok::<Option<Operands>, String>(None),
                Gathered::Go(fresh, meta, vals) => r matches Ok(Some(o)) && o.fresh == fresh && o.meta == meta
                    && values_of(o.values@) == vals && vals.len() == 2,
            },
    {
        let inputs = vec![input1, input2];
        assert(inputs@ =~= seq![input1, input2]);
        proof { crate::functions::fn_eq::lemma_two_read(input1, input2); }
        read_numbers(&self.id, inputs)
    }

    /// The result for the operands `o` when both are integers or logical values;
    /// `None` when one is a float, whose arithmetic is the caller's (see `finish`).
    pub fn int_result(&self, o: &Operands) -> (r: Option<FnResult<FnFlow, String>>)
        requires
            o.values.len() == 2,
        ensures
            match (int_operand(o.values@[0]@), int_operand(o.values@[1]@)) {
                (Some(a), Some(b)) => r matches Some(res) && match div_int(a, b) {
                    Some(c) => res matches Ok(Some(f)) && f.fresh() == o.fresh
                        && f.point()@ == result_point(self.txid_spec(), self.id_spec(), o.meta, ValueView::Int(c)),
                    None => res is Err,
                },
                _ => r is None,
            },
    {
        let a = match int_operand_of(&o.values[0]) { Some(a) => a, None => return None };
        let b = match int_operand_of(&o.values[1]) { Some(b) => b, None => return None };
        match a.checked_div(b) {
            Some(c) => {
                let p = make_point(self.txid, &self.id, o.meta, PointValue::Int(c));
                Some(if o.fresh { Ok(Some(FnFlow::New(p))) } else { Ok(Some(FnFlow::Old(p))) })
            }
            None => Some(Err(self.id.clone().concat(".out | Can't div: division by zero or overflow"))),
        }
    }

    /// The result for the operands `o` and their quotient `value`
    /// (`None`: the two values cannot be divided).
    pub fn finish(&self, o: &Operands, value: Option<PointValue>) -> (r: FnResult<FnFlow, String>)
        requires
            value matches Some(v) ==> is_number(v@),
        ensures
            match value {
                None => r is Err,
                Some(v) => r matches Ok(Some(f)) && f.fresh() == o.fresh
                    && f.point()@ == result_point(self.txid_spec(), self.id_spec(), o.meta, numeric_result(v@)),
            },
    {
        match value {
            None => Err(self.id.clone().concat(".out | Can't div")),
            Some(v) => wrap_numeric(self.txid, &self.id, o.fresh, o.meta, v),
        }
    }
}

} // verus!
