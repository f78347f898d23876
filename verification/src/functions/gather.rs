//! Reading the results of several inputs in order, as the multi-input functions do:
//! the first error or absence of value stops the reading, the freshness and the
//! metadata of the points read are merged.
use vstd::prelude::*;
use crate::point::{Point, PointValue, PointView, ValueView, is_number};
use crate::point_meta::{PointMeta, meta_default, meta_latest, meta_status};
use crate::fn_flow::{FnFlow, FnResult};

verus! {

/// What reading a sequence of input results gives.
pub enum Gathered<T> {
    /// The reading failed: with the error of an input, or (`None`) on a value
    /// the function does not accept.
    Fail(Option<Seq<char>>),
    /// An input has no value: the branch stops.
    Silent,
    /// Every input has a value: whether any was `New`, the merged metadata and
    /// what the function accumulated from the points.
    Go(bool, PointMeta, T),
}

/// The metadata after reading `p`: the latest metadata, with the worse status.
pub open spec fn meta_after(m: PointMeta, p: PointView) -> PointMeta {
    meta_status(meta_latest(m, p), p)
}

/// Reads the input results `rs` in order, accumulating from `init` by `step`;
/// a point that `step` refuses (`None`) fails the reading.
pub open spec fn gather<T>(rs: Seq<FnResult<FnFlow, String>>, init: T, step: spec_fn(T, PointView) -> Option<T>) -> Gathered<T>
    decreases rs.len(),
{
    if rs.len() == 0 {
        Gathered::Go(false, meta_default(), init)
    } else {
        match gather(rs.drop_last(), init, step) {
            Gathered::Go(fresh, meta, acc) => match rs.last() {
                Err(e) => Gathered::Fail(Some(e@)),
                Ok(None) => Gathered::Silent,
                Ok(Some(f)) => match step(acc, f.point()@) {
                    None => Gathered::Fail(None),
                    Some(a) => Gathered::Go(fresh || f.fresh(), meta_after(meta, f.point()@), a),
                },
            },
            other => other,
        }
    }
}

/// Reading one more result after a prefix that is still going.
pub proof fn lemma_gather_next<T>(rs: Seq<FnResult<FnFlow, String>>, k: int, init: T, step: spec_fn(T, PointView) -> Option<T>)
    requires
        0 <= k < rs.len(),
    ensures
        gather(rs.take(k + 1), init, step) == (match gather(rs.take(k), init, step) {
            Gathered::Go(fresh, meta, acc) => match rs[k] {
                Err(e) => Gathered::Fail(Some(e@)),
                Ok(None) => Gathered::Silent,
                Ok(Some(f)) => match step(acc, f.point()@) {
                    None => Gathered::Fail(None),
                    Some(a) => Gathered::Go(fresh || f.fresh(), meta_after(meta, f.point()@), a),
                },
            },
            other => other,
        }),
{
    assert(rs.take(k + 1).drop_last() =~= rs.take(k));
}

/// Once the reading stops, reading more inputs changes nothing.
pub proof fn lemma_gather_stops<T>(rs: Seq<FnResult<FnFlow, String>>, k: int, init: T, step: spec_fn(T, PointView) -> Option<T>)
    requires
        0 <= k <= rs.len(),
        !(gather(rs.take(k), init, step) is Go),
    ensures
        gather(rs, init, step) == gather(rs.take(k), init, step),
    decreases rs.len() - k,
{
    if k < rs.len() {
        lemma_gather_next(rs, k, init, step);
        lemma_gather_stops(rs, k + 1, init, step);
    } else {
        assert(rs.take(k) =~= rs);
    }
}

/// The reason a function of two inputs refuses its inputs.
#[derive(Debug, PartialEq, Eq, Structural)]
pub enum TwoInputsError {
    /// Other than two inputs were given.
    NotTwoInputs,
}

/// The reason a function of one or more inputs refuses its inputs.
#[derive(Debug, PartialEq, Eq, Structural)]
pub enum InputsError {
    /// No input was given.
    NoInputs,
}

/// `true` when one of the results carries a `New` point.
pub open spec fn any_new(rs: Seq<FnResult<FnFlow, String>>) -> bool {
    exists|i: int| 0 <= i < rs.len() && (#[trigger] rs[i] matches Ok(Some(f)) && f.fresh())
}

/// Taint tracking: when every input has a value, the result is `New` exactly
/// when one of the inputs is `New`; when all are `Old`, it is `Old`.
pub proof fn lemma_gather_fresh<T>(rs: Seq<FnResult<FnFlow, String>>, init: T, step: spec_fn(T, PointView) -> Option<T>)
    ensures
        gather(rs, init, step) matches Gathered::Go(fresh, _, _) ==> fresh == any_new(rs),
    decreases rs.len(),
{
    if rs.len() > 0 {
        lemma_gather_fresh(rs.drop_last(), init, step);
        if gather(rs, init, step) is Go {
            assert(gather(rs.drop_last(), init, step) is Go);
            let fresh = gather(rs, init, step)->Go_0;
            let prev = gather(rs.drop_last(), init, step)->Go_0;
            if any_new(rs.drop_last()) {
                let i = choose|i: int| 0 <= i < rs.drop_last().len() && (#[trigger] rs.drop_last()[i] matches Ok(Some(f)) && f.fresh());
                assert(rs[i] == rs.drop_last()[i]);
            }
            if any_new(rs) {
                let i = choose|i: int| 0 <= i < rs.len() && (#[trigger] rs[i] matches Ok(Some(f)) && f.fresh());
                if i < rs.len() - 1 {
                    assert(rs.drop_last()[i] == rs[i]);
                }
            }
            assert(fresh == (prev || (rs.last() matches Ok(Some(f)) && f.fresh())));
        }
    }
}

/// The step of the functions that take numbers as they are.
pub open spec fn number_step(acc: Seq<ValueView>, p: PointView) -> Option<Seq<ValueView>> {
    if is_number(p.value) { Some(acc.push(p.value)) } else { None }
}

/// `number_step` as a function value.
pub open spec fn numbers() -> spec_fn(Seq<ValueView>, PointView) -> Option<Seq<ValueView>> {
    |a: Seq<ValueView>, p: PointView| number_step(a, p)
}

/// The operands of a function of numbers, read from its inputs.
pub struct Operands {
    /// Some input was `New`.
    pub fresh: bool,
    /// The merged metadata.
    pub meta: PointMeta,
    /// The values, in the order of the inputs.
    pub values: Vec<PointValue>,
}

/// The view of a list of values.
pub open spec fn values_of(v: Seq<PointValue>) -> Seq<ValueView> {
    v.map_values(|x: PointValue| x@)
}

/// Reads the results `inputs` of the inputs of the function named `id`, which
/// takes numbers; fails with `<id>.out | Invalid type` on a string or bytes.
pub fn read_numbers(id: &String, inputs: Vec<FnResult<FnFlow, String>>) -> (r: Result<Option<Operands>, String>)
    ensures
        match gather(inputs@, Seq::<ValueView>::empty(), numbers()) {
            Gathered::Fail(Some(e)) => r matches Err(x) && x@ == e,
            Gathered::Fail(None) => r is Err,
            Gathered::Silent => r == Ok::<Option<Operands>, String>(None),
            Gathered::Go(fresh, meta, vals) => r matches Ok(Some(o)) && o.fresh == fresh && o.meta == meta && values_of(o.values@) == vals,
        },
{
    let ghost step = numbers();
    let ghost all = inputs@;
    let mut fresh = false;
    let mut meta = PointMeta::default();
    let mut values: Vec<PointValue> = Vec::new();
    assert(all.take(0) =~= Seq::<FnResult<FnFlow, String>>::empty());
    assert(values_of(values@) =~= Seq::<ValueView>::empty());
    let mut k: usize = 0;
    while k < inputs.len()
        invariant
            k <= inputs.len(),
            all == inputs@,
            step == numbers(),
            gather(all.take(k as int), Seq::<ValueView>::empty(), step) == Gathered::Go(fresh, meta, values_of(values@)),
        decreases inputs.len() - k,
    {
        proof { lemma_gather_next(all, k as int, Seq::<ValueView>::empty(), step); }
        match &inputs[k] {
            Err(e) => {
                proof { lemma_gather_stops(all, k + 1, Seq::<ValueView>::empty(), step); }
                return Err(e.clone());
            }
            Ok(None) => {
                proof { lemma_gather_stops(all, k + 1, Seq::<ValueView>::empty(), step); }
                return Ok(None);
            }
            Ok(Some(f)) => {
                let p = f.value();
                if !p.value.is_number() {
                    proof { lemma_gather_stops(all, k + 1, Seq::<ValueView>::empty(), step); }
                    return Err(id.clone().concat(".out | Invalid type, expected bool or number"));
                }
                let ghost before = values_of(values@);
                assert(step(before, p@) == Some(before.push(p.value@)));
                fresh = fresh || f.is_new();
                meta = meta.update_latest(p).update_status(p);
                values.push(p.value.copy());
                assert(values_of(values@) =~= before.push(p.value@));
            }
        }
        k = k + 1;
    }
    assert(all.take(inputs.len() as int) =~= all);
    Ok(Some(Operands { fresh, meta, values }))
}

/// The point a function named `id`, with transaction id `txid`, gives for the
/// value `v` and the merged metadata `m`.
pub open spec fn result_point(txid: usize, id: Seq<char>, m: PointMeta, v: ValueView) -> PointView {
    PointView { txid, name: id, value: v, status: m.status, cot: m.cot, ts: m.ts }
}

/// Returns the point of a function named `id` for the value `v` and the merged metadata `m`.
pub fn make_point(txid: usize, id: &String, m: PointMeta, v: PointValue) -> (r: Point)
    ensures
        r@ == result_point(txid, id@, m, v@),
{
    Point::new(txid, id.clone(), v, m.status, m.cot, m.ts)
}

/// The integer a logical or integer operand stands for; `None` for a float
/// (or a string or bytes).
pub open spec fn int_operand(v: ValueView) -> Option<i64> {
    match v {
        ValueView::Bool(b) => Some(if b { 1i64 } else { 0i64 }),
        ValueView::Int(i) => Some(i),
        _ => None,
    }
}

/// Returns the integer a logical or integer operand stands for.
pub fn int_operand_of(v: &PointValue) -> (r: Option<i64>)
    ensures
        r == int_operand(v@),
{
    match v {
        PointValue::Bool(b) => Some(if *b { 1i64 } else { 0i64 }),
        PointValue::Int(i) => Some(*i),
        _ => None,
    }
}

/// The value an arithmetic function gives for a numeric result: a logical
/// result becomes the integer 1 or 0.
pub open spec fn numeric_result(v: ValueView) -> ValueView {
    match v {
        ValueView::Bool(b) => ValueView::Int(if b { 1i64 } else { 0i64 }),
        other => other,
    }
}

/// Wraps the numeric result `v` of a function named `id` as its point, `New` when `fresh`.
pub fn wrap_numeric(txid: usize, id: &String, fresh: bool, m: PointMeta, v: PointValue) -> (r: FnResult<FnFlow, String>)
    ensures
        r matches Ok(Some(f)) && f.fresh() == fresh && f.point()@ == result_point(txid, id@, m, numeric_result(v@)),
{
    let v = match v {
        PointValue::Bool(b) => PointValue::Int(if b { 1i64 } else { 0i64 }),
        other => other,
    };
    let p = make_point(txid, id, m, v);
    if fresh { Ok(Some(FnFlow::New(p))) } else { Ok(Some(FnFlow::Old(p))) }
}

/// `r` is the answer of a function named `id`, with transaction id `txid`, that
/// read `g` from its inputs and computes its value from the values read by `value`
/// (`None`: the function refuses them).
pub open spec fn answers(
    r: FnResult<FnFlow, String>,
    g: Gathered<Seq<ValueView>>,
    txid: usize,
    id: Seq<char>,
    value: spec_fn(Seq<ValueView>) -> Option<ValueView>,
) -> bool {
    match g {
        Gathered::Fail(Some(e)) => r matches Err(x) && x@ == e,
        Gathered::Fail(None) => r is Err,
        Gathered::Silent => r == Ok::<Option<FnFlow>, String>(None),
        Gathered::Go(fresh, meta, vals) => match value(vals) {
            None => r is Err,
            Some(v) => r matches Ok(Some(f)) && f.fresh() == fresh && f.point()@ == result_point(txid, id, meta, v),
        },
    }
}

} // verus!
