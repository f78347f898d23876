//! `FnAdd`: sum of its inputs.
use vstd::prelude::*;
use crate::point::{point_type_text, PointValue, PointView, ValueView};
use crate::point_meta::PointMeta;
use crate::fn_flow::{FnFlow, FnResult, FnKind};
use crate::float_bits::{f32_nan, f64_nan, f32_is_nan, f64_is_nan};
use crate::functions::gather::{InputsError, Gathered, gather, lemma_gather_next, lemma_gather_stops, make_point, result_point};
use crate::text::{node_id, node_id_text};

verus! {

/// The terms of a sum read so far: the integer sum, and the `f32` and `f64`
/// terms (by their bits) in the order of the inputs.
pub struct SumView {
    pub whole: int,
    pub reals: Seq<u32>,
    pub doubles: Seq<u64>,
}

/// The sum before any input.
pub open spec fn no_terms() -> SumView {
    SumView { whole: 0, reals: Seq::empty(), doubles: Seq::empty() }
}

/// Adds the point `p` to the terms: integers are summed (an overflow of `i64`
/// fails), floats are kept unless NaN; other types fail.
pub open spec fn add_step(acc: SumView, p: PointView) -> Option<SumView> {
    match p.value {
        ValueView::Int(i) => if i64::MIN <= acc.whole + i <= i64::MAX {
            Some(SumView { whole: acc.whole + i, reals: acc.reals, doubles: acc.doubles })
        } else {
            None
        },
        ValueView::Real(b) => if f32_nan(b) { None } else {
            Some(SumView { whole: acc.whole, reals: acc.reals.push(b), doubles: acc.doubles })
        },
        ValueView::Double(b) => if f64_nan(b) { None } else {
            Some(SumView { whole: acc.whole, reals: acc.reals, doubles: acc.doubles.push(b) })
        },
        _ => None,
    }
}

/// `add_step` as a function value.
pub open spec fn adds() -> spec_fn(SumView, PointView) -> Option<SumView> {
    |a: SumView, p: PointView| add_step(a, p)
}

/// `true` when every result carries an integer point.
pub open spec fn all_ints(rs: Seq<FnResult<FnFlow, String>>) -> bool {
    forall|i: int| 0 <= i < rs.len() ==> (#[trigger] rs[i] matches Ok(Some(f)) && f.point()@.value is Int)
}

/// The integer carried by the result `r` (0 for any other result).
pub open spec fn int_in(r: FnResult<FnFlow, String>) -> int {
    match r {
        Ok(Some(f)) => match f.point()@.value {
            ValueView::Int(i) => i as int,
            _ => 0,
        },
        _ => 0,
    }
}

/// The sum of the integers carried by the results `rs`.
pub open spec fn int_total(rs: Seq<FnResult<FnFlow, String>>) -> int
    decreases rs.len(),
{
    if rs.len() == 0 { 0 } else { int_total(rs.drop_last()) + int_in(rs.last()) }
}

/// On integer inputs, `FnAdd` reads the sum of all of them, and no float term,
/// as long as every partial sum stays within `i64`.
pub proof fn lemma_sum_of_integers(rs: Seq<FnResult<FnFlow, String>>)
    requires
        all_ints(rs),
        forall|k: int| 0 <= k <= rs.len() ==> i64::MIN <= #[trigger] int_total(rs.take(k)) <= i64::MAX,
    ensures
        gather(rs, no_terms(), adds()) matches Gathered::Go(_, _, t)
            && t.whole == int_total(rs) && t.reals.len() == 0 && t.doubles.len() == 0,
    decreases rs.len(),
{
    if rs.len() > 0 {
        let init = rs.drop_last();
        assert forall|i: int| 0 <= i < init.len() implies (#[trigger] init[i] matches Ok(Some(f)) && f.point()@.value is Int) by {
            assert(init[i] == rs[i]);
        }
        assert forall|k: int| 0 <= k <= init.len() implies i64::MIN <= #[trigger] int_total(init.take(k)) <= i64::MAX by {
            assert(init.take(k) =~= rs.take(k));
        }
        lemma_sum_of_integers(init);
        assert(rs.take(rs.len() as int) =~= rs);
        assert(rs[rs.len() - 1] == rs.last());
        let t = gather(init, no_terms(), adds())->Go_2;
        let f = rs.last()->Ok_0->Some_0;
        assert(int_total(rs) == t.whole + int_in(rs.last()));
        assert(adds()(t, f.point()@) == add_step(t, f.point()@));
    }
}

/// The terms of a sum, read from the inputs.
pub struct AddTerms {
    /// Some input was `New`.
    pub fresh: bool,
    /// The merged metadata.
    pub meta: PointMeta,
    /// The sum of the integer inputs.
    pub whole: i64,
    /// The `f32` inputs, by their bits.
    pub reals: Vec<u32>,
    /// The `f64` inputs, by their bits.
    pub doubles: Vec<u64>,
}

impl AddTerms {
    /// The view of the terms.
    pub open spec fn sum_view(&self) -> SumView {
        SumView { whole: self.whole as int, reals: self.reals@, doubles: self.doubles@ }
    }
}

/// The value of a sum whose floating-point part is `float`: the integer sum
/// when there is no floating-point term.
pub open spec fn sum_value(t: SumView, float: Option<PointValue>) -> ValueView {
    if t.reals.len() == 0 && t.doubles.len() == 0 {
        ValueView::Int(t.whole as i64)
    } else {
        float.unwrap()@
    }
}

/// ### Function | `FnAdd`
///
/// Returns the sum of its inputs, of the most precise type among them: `Int`
/// when all are integers, else `Real`, or `Double` when one is a `Double`.
/// Every input is read; a logical, string or bytes input, a NaN or an integer
/// overflow is an error. The result is `New` when any input is `New`, and
/// carries the latest metadata with the worst status. The floating-point sum
/// is the caller's (`finish` takes it).
#[derive(Debug)]
pub struct FnAdd<I> {
    txid: usize,
    id: String,
    inputs: Vec<I>,
}

impl<I> FnAdd<I> {
    /// The node's identifier.
    pub closed spec fn id_spec(&self) -> Seq<char> {
        self.id@
    }

    /// The node's transaction id.
    pub closed spec fn txid_spec(&self) -> usize {
        self.txid
    }

    /// Returns a new `FnAdd` on `inputs`, which must hold at least one input.
    pub fn new(parent: &str, seq: usize, txid: usize, inputs: Vec<I>) -> (r: Result<Self, InputsError>)
        ensures
            inputs.len() == 0 <==> r == Err::<Self, InputsError>(InputsError::NoInputs),
            r matches Ok(n) ==> n.id_spec() == node_id_text(parent@, "FnAdd"@, seq) && n.txid_spec() == txid,
    {
        if inputs.len() < 1 {
            return Err(InputsError::NoInputs);
        }
        Ok(FnAdd { txid, id: node_id(parent, "FnAdd", seq), inputs })
    }

    /// Returns the node's identifier.
    pub fn id(&self) -> (r: String)
        ensures
            r@ == self.id_spec(),
    {
        self.id.clone()
    }

    /// Returns the kind of the node.
    pub fn kind(&self) -> (r: FnKind)
        ensures
            r == FnKind::Fn,
    {
        FnKind::Fn
    }

    /// The inputs: the node's `inputs`.
    pub closed spec fn inputs_spec(&self) -> Vec<I> {
        self.inputs
    }

    /// The node with `v` in place of its `inputs`.
    pub closed spec fn with_inputs(&self, v: Vec<I>) -> Self {
        FnAdd { inputs: v, ..*self }
    }

    /// The inputs. Returns a reference to it; the node is otherwise unchanged.
    pub fn inputs(&mut self) -> (r: &mut Vec<I>)
        ensures
            *r == old(self).inputs_spec(),
            *final(self) == old(self).with_inputs(*final(r)),
    {
        &mut self.inputs
    }

    /// Reads the results of the inputs, in order, into the terms of the sum.
    pub fn terms(&self, inputs: Vec<FnResult<FnFlow, String>>) -> (r: Result<Option<AddTerms>, String>)
        ensures
            match gather(inputs@, no_terms(), adds()) {
                Gathered::Fail(Some(e)) => r matches Err(x) && x@ == e,
                Gathered::Fail(None) => r is Err,
                Gathered::Silent => r == Ok::<Option<AddTerms>, String>(None),
                Gathered::Go(fresh, meta, t) => r matches Ok(Some(o)) && o.fresh == fresh && o.meta == meta && o.sum_view() == t,
            },
    {
        let ghost step = adds();
        let ghost all = inputs@;
        let mut fresh = false;
        let mut meta = PointMeta::default();
        let mut whole: i64 = 0;
        let mut reals: Vec<u32> = Vec::new();
        let mut doubles: Vec<u64> = Vec::new();
        assert(all.take(0) =~= Seq::<FnResult<FnFlow, String>>::empty());
        assert(reals@ =~= Seq::<u32>::empty());
        assert(doubles@ =~= Seq::<u64>::empty());
        let mut k: usize = 0;
        while k < inputs.len()
            invariant
                k <= inputs.len(),
                all == inputs@,
                step == adds(),
                gather(all.take(k as int), no_terms(), step)
                    == Gathered::Go(fresh, meta, SumView { whole: whole as int, reals: reals@, doubles: doubles@ }),
            decreases inputs.len() - k,
        {
            proof { lemma_gather_next(all, k as int, no_terms(), step); }
            match &inputs[k] {
                Err(e) => {
                    proof { lemma_gather_stops(all, k + 1, no_terms(), step); }
                    return Err(e.clone());
                }
                Ok(None) => {
                    proof { lemma_gather_stops(all, k + 1, no_terms(), step); }
                    return Ok(None);
                }
                Ok(Some(f)) => {
                    let p = f.value();
                    let ghost acc = SumView { whole: whole as int, reals: reals@, doubles: doubles@ };
                    match &p.value {
                        PointValue::Int(i) => {
                            match whole.checked_add(*i) {
                                Some(s) => {
                                    whole = s;
                                }
                                None => {
                                    proof { lemma_gather_stops(all, k + 1, no_terms(), step); }
                                    return Err(self.id.clone().concat(".out | Overflow"));
                                }
                            }
                        }
                        PointValue::Real(b) => {
                            if f32_is_nan(*b) {
                                proof { lemma_gather_stops(all, k + 1, no_terms(), step); }
                                return Err(self.id.clone().concat(".out | Invalid input '").concat(p.name.as_str()).concat("': NAN, expected bool or number"));
                            }
                            reals.push(*b);
                        }
                        PointValue::Double(b) => {
                            if f64_is_nan(*b) {
                                proof { lemma_gather_stops(all, k + 1, no_terms(), step); }
                                return Err(self.id.clone().concat(".out | Invalid input '").concat(p.name.as_str()).concat("': NAN, expected bool or number"));
                            }
                            doubles.push(*b);
                        }
                        _ => {
                            proof { lemma_gather_stops(all, k + 1, no_terms(), step); }
                            return Err(self.id.clone().concat(".out | Invalid input type '").concat(point_type_text(p.typ())).concat("', expected number"));
                        }
                    }
                    assert(step(acc, p@) == Some(SumView { whole: whole as int, reals: reals@, doubles: doubles@ }));
                    fresh = fresh || f.is_new();
                    meta = meta.update_latest(p).update_status(p);
                }
            }
            k = k + 1;
        }
        assert(all.take(inputs.len() as int) =~= all);
        Ok(Some(AddTerms { fresh, meta, whole, reals, doubles }))
    }

    /// The result for the terms `t`: the integer sum when every term is an
    /// integer, else `float`, the floating-point sum of all the terms.
    pub fn finish(&self, t: &AddTerms, float: Option<PointValue>) -> (r: FnResult<FnFlow, String>)
        requires
            t.doubles.len() > 0 ==> float matches Some(PointValue::Double(_)),
            t.doubles.len() == 0 && t.reals.len() > 0 ==> float matches Some(PointValue::Real(_)),
        ensures
            r matches Ok(Some(f)) && f.fresh() == t.fresh
                && f.point()@ == result_point(self.txid_spec(), self.id_spec(), t.meta, sum_value(t.sum_view(), float)),
    {
        let v = if t.reals.len() == 0 && t.doubles.len() == 0 {
            PointValue::Int(t.whole)
        } else {
            match float {
                Some(v) => v,
                None => PointValue::Int(t.whole),
            }
        };
        let p = make_point(self.txid, &self.id, t.meta, v);
        if t.fresh { Ok(Some(FnFlow::New(p))) } else { Ok(Some(FnFlow::Old(p))) }
    }
}

} // verus!
