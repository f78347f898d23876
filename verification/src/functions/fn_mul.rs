//! `FnMul`: product of its inputs.
use vstd::prelude::*;
use crate::point::{point_type_text, PointValue, PointView, ValueView};
use crate::point_meta::PointMeta;
use crate::fn_flow::{FnFlow, FnResult, FnKind};
use crate::float_bits::{f32_nan, f64_nan, f32_is_nan, f64_is_nan};
use crate::functions::gather::{InputsError, Gathered, gather, lemma_gather_next, lemma_gather_stops, make_point, result_point};
use crate::text::{node_id, node_id_text};
use crate::functions::fn_add::{all_ints, int_in};

verus! {

/// The factors of a product read so far: the integer product, and the `f32`
/// and `f64` factors (by their bits) in the order of the inputs.
pub struct ProductView {
    pub whole: int,
    pub reals: Seq<u32>,
    pub doubles: Seq<u64>,
}

/// The product before any input.
pub open spec fn no_factors() -> ProductView {
    ProductView { whole: 1, reals: Seq::empty(), doubles: Seq::empty() }
}

/// Multiplies the terms by the point `p`: integers and logical values (1 or 0)
/// are multiplied, floats are kept unless NaN; strings and bytes fail.
pub open spec fn mul_step(acc: ProductView, p: PointView) -> Option<ProductView> {
    match p.value {
        ValueView::Bool(b) => Some(ProductView { whole: acc.whole * (if b { 1int } else { 0int }), reals: acc.reals, doubles: acc.doubles }),
        ValueView::Int(i) => Some(ProductView { whole: acc.whole * i, reals: acc.reals, doubles: acc.doubles }),
        ValueView::Real(b) => if f32_nan(b) { None } else {
            Some(ProductView { whole: acc.whole, reals: acc.reals.push(b), doubles: acc.doubles })
        },
        ValueView::Double(b) => if f64_nan(b) { None } else {
            Some(ProductView { whole: acc.whole, reals: acc.reals, doubles: acc.doubles.push(b) })
        },
        _ => None,
    }
}

/// `mul_step` as a function value.
pub open spec fn muls() -> spec_fn(ProductView, PointView) -> Option<ProductView> {
    |a: ProductView, p: PointView| mul_step(a, p)
}

/// `true` when the integer product stays within `i64` while the inputs `rs` are read.
pub open spec fn product_fits(rs: Seq<FnResult<FnFlow, String>>) -> bool {
    forall|k: int| 0 <= k <= rs.len() ==> (#[trigger] gather(rs.take(k), no_factors(), muls()) matches Gathered::Go(_, _, t)
        ==> i64::MIN <= t.whole <= i64::MAX)
}

/// The product of the integers carried by the results `rs`.
pub open spec fn int_product(rs: Seq<FnResult<FnFlow, String>>) -> int
    decreases rs.len(),
{
    if rs.len() == 0 { 1 } else { int_product(rs.drop_last()) * int_in(rs.last()) }
}

/// On integer inputs, `FnMul` reads the product of all of them, and no float
/// factor, as long as every partial product stays within `i64`.
pub proof fn lemma_product_of_integers(rs: Seq<FnResult<FnFlow, String>>)
    requires
        all_ints(rs),
        forall|k: int| 0 <= k <= rs.len() ==> i64::MIN <= #[trigger] int_product(rs.take(k)) <= i64::MAX,
    ensures
        gather(rs, no_factors(), muls()) matches Gathered::Go(_, _, t)
            && t.whole == int_product(rs) && t.reals.len() == 0 && t.doubles.len() == 0,
    decreases rs.len(),
{
    if rs.len() > 0 {
        let init = rs.drop_last();
        assert forall|i: int| 0 <= i < init.len() implies (#[trigger] init[i] matches Ok(Some(f)) && f.point()@.value is Int) by {
            assert(init[i] == rs[i]);
        }
        assert forall|k: int| 0 <= k <= init.len() implies i64::MIN <= #[trigger] int_product(init.take(k)) <= i64::MAX by {
            assert(init.take(k) =~= rs.take(k));
        }
        lemma_product_of_integers(init);
        assert(rs.take(rs.len() as int) =~= rs);
        assert(rs[rs.len() - 1] == rs.last());
        let t = gather(init, no_factors(), muls())->Go_2;
        let f = rs.last()->Ok_0->Some_0;
        assert(int_product(rs) == t.whole * int_in(rs.last()));
        assert(muls()(t, f.point()@) == mul_step(t, f.point()@));
    }
}

/// Once the reading of `rs` has stopped after `k` inputs, no longer prefix goes on.
proof fn lemma_stopped_prefixes(rs: Seq<FnResult<FnFlow, String>>, k: int)
    requires
        0 <= k <= rs.len(),
        !(gather(rs.take(k), no_factors(), muls()) is Go),
    ensures
        forall|j: int| k <= j <= rs.len() ==> !(#[trigger] gather(rs.take(j), no_factors(), muls()) is Go),
{
    assert forall|j: int| k <= j <= rs.len() implies !(#[trigger] gather(rs.take(j), no_factors(), muls()) is Go) by {
        assert(rs.take(j).take(k) =~= rs.take(k));
        lemma_gather_stops(rs.take(j), k, no_factors(), muls());
    }
}

/// Tells whether the integer product stays within `i64` while the inputs
/// `inputs` are read: what `FnMul::factors` requires.
pub fn product_fits_in(inputs: &Vec<FnResult<FnFlow, String>>) -> (r: bool)
    ensures
        r == product_fits(inputs@),
{
    let ghost step = muls();
    let ghost all = inputs@;
    let mut whole: i64 = 1;
    assert(all.take(0) =~= Seq::<FnResult<FnFlow, String>>::empty());
    let mut k: usize = 0;
    while k < inputs.len()
        invariant
            k <= inputs.len(),
            all == inputs@,
            step == muls(),
            gather(all.take(k as int), no_factors(), step) matches Gathered::Go(_, _, t) && t.whole == whole as int,
            forall|j: int| 0 <= j <= k ==> (#[trigger] gather(all.take(j), no_factors(), step) matches Gathered::Go(_, _, t)
                ==> i64::MIN <= t.whole <= i64::MAX),
        decreases inputs.len() - k,
    {
        proof { lemma_gather_next(all, k as int, no_factors(), step); }
        match &inputs[k] {
            Ok(Some(f)) => {
                let p = f.value();
                match &p.value {
                    PointValue::Bool(b) => {
                        if !*b {
                            whole = 0;
                        }
                    }
                    PointValue::Int(i) => match whole.checked_mul(*i) {
                        Some(w) => {
                            whole = w;
                        }
                        None => {
                            return false;
                        }
                    },
                    PointValue::Real(b) => {
                        if f32_is_nan(*b) {
                            proof { lemma_stopped_prefixes(all, k + 1); }
                            return true;
                        }
                    }
                    PointValue::Double(b) => {
                        if f64_is_nan(*b) {
                            proof { lemma_stopped_prefixes(all, k + 1); }
                            return true;
                        }
                    }
                    _ => {
                        proof { lemma_stopped_prefixes(all, k + 1); }
                        return true;
                    }
                }
            }
            _ => {
                proof { lemma_stopped_prefixes(all, k + 1); }
                return true;
            }
        }
        k = k + 1;
    }
    assert(all.take(inputs.len() as int) =~= all);
    true
}

/// The factors of a product, read from the inputs.
pub struct MulTerms {
    /// Some input was `New`.
    pub fresh: bool,
    /// The merged metadata.
    pub meta: PointMeta,
    /// The product of the integer and logical inputs.
    pub whole: i64,
    /// The `f32` inputs, by their bits.
    pub reals: Vec<u32>,
    /// The `f64` inputs, by their bits.
    pub doubles: Vec<u64>,
}

impl MulTerms {
    /// The view of the factors.
    pub open spec fn product_view(&self) -> ProductView {
        ProductView { whole: self.whole as int, reals: self.reals@, doubles: self.doubles@ }
    }
}

/// The value of a product whose floating-point part is `float`: the integer
/// product when there is no floating-point factor.
pub open spec fn product_value(t: ProductView, float: Option<PointValue>) -> ValueView {
    if t.reals.len() == 0 && t.doubles.len() == 0 {
        ValueView::Int(t.whole as i64)
    } else {
        float.unwrap()@
    }
}

/// ### Function | `FnMul`
///
/// Returns the product of its inputs, of the most precise type among them:
/// `Int` when all are integers or logical values (1 or 0), else `Real`, or
/// `Double` when one is a `Double`. Every input is read; a string or bytes
/// input or a NaN is an error. The result is `New` when any input is `New`,
/// and carries the latest metadata with the worst status. The floating-point
/// product is the caller's (`finish` takes it).
#[derive(Debug)]
pub struct FnMul<I> {
    txid: usize,
    id: String,
    inputs: Vec<I>,
}

impl<I> FnMul<I> {
    /// The node's identifier.
    pub closed spec fn id_spec(&self) -> Seq<char> {
        self.id@
    }

    /// The node's transaction id.
    pub closed spec fn txid_spec(&self) -> usize {
        self.txid
    }

    /// Returns a new `FnMul` on `inputs`, which must hold at least one input.
    pub fn new(parent: &str, seq: usize, txid: usize, inputs: Vec<I>) -> (r: Result<Self, InputsError>)
        ensures
            inputs.len() == 0 <==> r == Err::<Self, InputsError>(InputsError::NoInputs),
            r matches Ok(n) ==> n.id_spec() == node_id_text(parent@, "FnMul"@, seq) && n.txid_spec() == txid,
    {
        if inputs.len() < 1 {
            return Err(InputsError::NoInputs);
        }
        Ok(FnMul { txid, id: node_id(parent, "FnMul", seq), inputs })
    }

    /// Returns the node's identifier.
    pub fn id(&self) -> (r: String)
        ensures
            r@ == self.id_spec(),
    {
        self.id.clone()
    }

    /// Returns the kind of the node.
    pub fn kind(&self) -> (r: FnKind)
        ensures
            r == FnKind::Fn,
    {
        FnKind::Fn
    }

    /// The inputs: the node's `inputs`.
    pub closed spec fn inputs_spec(&self) -> Vec<I> {
        self.inputs
    }

    /// The node with `v` in place of its `inputs`.
    pub closed spec fn with_inputs(&self, v: Vec<I>) -> Self {
        FnMul { inputs: v, ..*self }
    }

    /// The inputs. Returns a reference to it; the node is otherwise unchanged.
    pub fn inputs(&mut self) -> (r: &mut Vec<I>)
        ensures
            *r == old(self).inputs_spec(),
            *final(self) == old(self).with_inputs(*final(r)),
    {
        &mut self.inputs
    }

    /// Reads the results of the inputs, in order, into the factors of the product.
    pub fn factors(&self, inputs: Vec<FnResult<FnFlow, String>>) -> (r: Result<Option<MulTerms>, String>)
        requires
            product_fits(inputs@),
        ensures
            match gather(inputs@, no_factors(), muls()) {
                Gathered::Fail(Some(e)) => r matches Err(x) && x@ == e,
                Gathered::Fail(None) => r is Err,
                Gathered::Silent => r == Ok::<Option<MulTerms>, String>(None),
                Gathered::Go(fresh, meta, t) => r matches Ok(Some(o)) && o.fresh == fresh && o.meta == meta && o.product_view() == t,
            },
    {
        let ghost step = muls();
        let ghost all = inputs@;
        let mut fresh = false;
        let mut meta = PointMeta::default();
        let mut whole: i64 = 1;
        let mut reals: Vec<u32> = Vec::new();
        let mut doubles: Vec<u64> = Vec::new();
        assert(all.take(0) =~= Seq::<FnResult<FnFlow, String>>::empty());
        assert(reals@ =~= Seq::<u32>::empty());
        assert(doubles@ =~= Seq::<u64>::empty());
        let mut k: usize = 0;
        while k < inputs.len()
            invariant
                k <= inputs.len(),
                all == inputs@,
                step == muls(),
                product_fits(all),
                gather(all.take(k as int), no_factors(), step)
                    == Gathered::Go(fresh, meta, ProductView { whole: whole as int, reals: reals@, doubles: doubles@ }),
            decreases inputs.len() - k,
        {
            proof { lemma_gather_next(all, k as int, no_factors(), step); }
            match &inputs[k] {
                Err(e) => {
                    proof { lemma_gather_stops(all, k + 1, no_factors(), step); }
                    return Err(e.clone());
                }
                Ok(None) => {
                    proof { lemma_gather_stops(all, k + 1, no_factors(), step); }
                    return Ok(None);
                }
                Ok(Some(f)) => {
                    let p = f.value();
                    let ghost acc = ProductView { whole: whole as int, reals: reals@, doubles: doubles@ };
                    match &p.value {
                        PointValue::Bool(b) => {
                            proof { assert(gather(all.take(k + 1), no_factors(), step) is Go); }
                            whole = if *b { whole } else { 0 };
                        }
                        PointValue::Int(i) => {
                            proof { assert(gather(all.take(k + 1), no_factors(), step) is Go); }
                            whole = whole * *i;
                        }
                        PointValue::Real(b) => {
                            if f32_is_nan(*b) {
                                proof { lemma_gather_stops(all, k + 1, no_factors(), step); }
                                return Err(self.id.clone().concat(".out | Invalid input '").concat(p.name.as_str()).concat("': NAN, expected bool or number"));
                            }
                            reals.push(*b);
                        }
                        PointValue::Double(b) => {
                            if f64_is_nan(*b) {
                                proof { lemma_gather_stops(all, k + 1, no_factors(), step); }
                                return Err(self.id.clone().concat(".out | Invalid input '").concat(p.name.as_str()).concat("': NAN, expected bool or number"));
                            }
                            doubles.push(*b);
                        }
                        _ => {
                            proof { lemma_gather_stops(all, k + 1, no_factors(), step); }
                            return Err(self.id.clone().concat(".out | Invalid input type '").concat(point_type_text(p.typ())).concat("', expected bool or number"));
                        }
                    }
                    assert(step(acc, p@) == Some(ProductView { whole: whole as int, reals: reals@, doubles: doubles@ }));
                    fresh = fresh || f.is_new();
                    meta = meta.update_latest(p).update_status(p);
                }
            }
            k = k + 1;
        }
        assert(all.take(inputs.len() as int) =~= all);
        Ok(Some(MulTerms { fresh, meta, whole, reals, doubles }))
    }

    /// The result for the factors `t`: the integer product when every factor is
    /// an integer or logical value, else `float`, the floating-point product of all the factors.
    pub fn finish(&self, t: &MulTerms, float: Option<PointValue>) -> (r: FnResult<FnFlow, String>)
        requires
            t.doubles.len() > 0 ==> float matches Some(PointValue::Double(_)),
            t.doubles.len() == 0 && t.reals.len() > 0 ==> float matches Some(PointValue::Real(_)),
        ensures
            r matches Ok(Some(f)) && f.fresh() == t.fresh
                && f.point()@ == result_point(self.txid_spec(), self.id_spec(), t.meta, product_value(t.product_view(), float)),
    {
        let v = if t.reals.len() == 0 && t.doubles.len() == 0 {
            PointValue::Int(t.whole)
        } else {
            match float {
                Some(v) => v,
                None => PointValue::Int(t.whole),
            }
        };
        let p = make_point(self.txid, &self.id, t.meta, v);
        if t.fresh { Ok(Some(FnFlow::New(p))) } else { Ok(Some(FnFlow::Old(p))) }
    }
}

} // verus!
