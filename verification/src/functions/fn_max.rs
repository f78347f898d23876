//! `FnMax`: the maximum of its input since the last reset.
use vstd::prelude::*;
use crate::point::{point_type_text, Point, PointValue, PointView, ValueView, Status, opt_view, truth_of};
use crate::fn_flow::{FnFlow, FnResult, FnKind, FlowView, result_view};
use crate::float_bits::{F64_ONE, f64_zero, f64_finite, f64_greater, f64_is_finite, f64_gt, f64_round, f64_round_to_i64};
use crate::functions::fn_change::{change_flow, change_last, change_apply};
use crate::functions::fn_input::FloatConversion;
use crate::text::{node_id, node_id_text};

verus! {

/// The bits of the `f64` a value stands for: `converted` for an integer or an
/// `f32` (the caller converts them); `None` for a string or bytes.
pub open spec fn max_input(v: ValueView, converted: Option<u64>) -> Option<u64> {
    match v {
        ValueView::Bool(b) => Some(if b { F64_ONE } else { 0u64 }),
        ValueView::Int(_) | ValueView::Real(_) => converted,
        ValueView::Double(b) => Some(b),
        _ => None,
    }
}

/// The value of the maximum point for an input of the value `v` whose `f64` is `x`.
pub open spec fn max_value(v: ValueView, x: u64) -> ValueView {
    match v {
        ValueView::Bool(_) => ValueView::Bool(!f64_zero(x)),
        ValueView::Int(_) => ValueView::Int(f64_round(x)),
        ValueView::Real(b) => ValueView::Real(b),
        _ => ValueView::Double(x),
    }
}

/// One evaluation of `FnMax` named `id` holding `max` (the point and its `f64`),
/// on the change-marked input `ch`, the result of `reset` and the `f64` the
/// caller made of the input: the result and the new maximum.
pub open spec fn max_step(
    id: Seq<char>,
    max: Option<(PointView, u64)>,
    reset: Option<FnResult<FnFlow, String>>,
    ch: FnResult<FnFlow, String>,
    converted: Option<u64>,
) -> (Result<Option<FlowView>, ()>, Option<(PointView, u64)>) {
    let r = match reset {
        Some(Err(_)) => Err(()),
        Some(Ok(Some(f))) => match truth_of(f.point()@.value) {
            None => Err(()),
            Some(b) => Ok(b),
        },
        _ => Ok(false),
    };
    match r {
        Err(_) => (Err(()), max),
        Ok(is_reset) => {
            let m = if is_reset { None } else { max };
            match ch {
                Err(_) => (Err(()), m),
                Ok(None) => (Ok(None), m),
                Ok(Some(f)) => if !f.fresh() && !is_reset {
                    match m {
                        Some((p, _)) => (Ok(Some(FlowView { fresh: false, point: p })), m),
                        None => (Ok(None), m),
                    }
                } else {
                    let p = f.point()@;
                    match max_input(p.value, converted) {
                        None => (Err(()), m),
                        Some(x) => if !f64_finite(x) {
                            (Err(()), m)
                        } else {
                            let q = PointView { name: id, value: max_value(p.value, x), ..p };
                            match m {
                                Some((prev, px)) => if f64_greater(x, px) || prev.status != p.status {
                                    (Ok(Some(FlowView { fresh: true, point: q })), Some((q, x)))
                                } else {
                                    (Ok(Some(FlowView { fresh: false, point: prev })), m)
                                },
                                None => (Ok(Some(FlowView { fresh: true, point: q })), Some((q, x))),
                            }
                        },
                    }
                },
            }
        },
    }
}

/// ### Function | `FnMax`
///
/// Returns the maximum of its input since the last `true` of `reset`, of the
/// type of the input: `New` when the maximum grows or its status changes (and
/// right after a reset), `Old` otherwise. The input is marked by change.
#[derive(Debug)]
pub struct FnMax<I> {
    id: String,
    reset: Option<I>,
    input: I,
    input_last: Option<Point>,
    max: Option<Point>,
    max_value: u64,
}

impl<I> FnMax<I> {
    /// The node's identifier.
    pub closed spec fn id_spec(&self) -> Seq<char> {
        self.id@
    }

    /// The node has a `reset` input.
    pub closed spec fn has_reset(&self) -> bool {
        self.reset is Some
    }

    /// The maximum: its point and its `f64`.
    pub closed spec fn max_spec(&self) -> Option<(PointView, u64)> {
        match self.max {
            Some(p) => Some((p@, self.max_value)),
            None => None,
        }
    }

    /// The change state of the input.
    pub closed spec fn input_last(&self) -> Option<PointView> {
        opt_view(self.input_last)
    }

    /// Returns a new `FnMax`.
    pub fn new(parent: &str, seq: usize, reset: Option<I>, input: I) -> (r: Self)
        ensures
            r.id_spec() == node_id_text(parent@, "FnMax"@, seq),
            r.has_reset() == reset is Some,
            r.max_spec() is None,
            r.input_last() is None,
    {
        FnMax { id: node_id(parent, "FnMax", seq), reset, input, input_last: None, max: None, max_value: 0 }
    }

    /// Returns the node's identifier.
    pub fn id(&self) -> (r: String)
        ensures
            r@ == self.id_spec(),
    {
        self.id.clone()
    }

    /// Returns the kind of the node.
    pub fn kind(&self) -> (r: FnKind)
        ensures
            r == FnKind::Fn,
    {
        FnKind::Fn
    }

    /// The input: the node's `input`.
    pub closed spec fn input_spec(&self) -> I {
        self.input
    }

    /// The node with `v` in place of its `input`.
    pub closed spec fn with_input(&self, v: I) -> Self {
        FnMax { input: v, ..*self }
    }

    /// The input. Returns a reference to it; the node is otherwise unchanged.
    pub fn input(&mut self) -> (r: &mut I)
        ensures
            *r == old(self).input_spec(),
            *final(self) == old(self).with_input(*final(r)),
    {
        &mut self.input
    }

    /// The `reset` input: the node's `reset`.
    pub closed spec fn reset_input_spec(&self) -> Option<I> {
        self.reset
    }

    /// The node with `v` in place of its `reset`.
    pub closed spec fn with_reset_input(&self, v: Option<I>) -> Self {
        FnMax { reset: v, ..*self }
    }

    /// The `reset` input. Returns a reference to it; the node is otherwise unchanged.
    pub fn reset_input(&mut self) -> (r: &mut Option<I>)
        ensures
            *r == old(self).reset_input_spec(),
            *final(self) == old(self).with_reset_input(*final(r)),
    {
        &mut self.reset
    }

    /// The conversion to `f64` the caller must make of the input result, if any.
    pub fn conversion(&self, input: &FnResult<FnFlow, String>) -> (r: Option<FloatConversion>)
        ensures
            r == (match *input {
                Ok(Some(f)) => match f.point()@.value {
                    ValueView::Int(i) => Some(FloatConversion::IntToDouble(i)),
                    ValueView::Real(b) => Some(FloatConversion::RealToDouble(b)),
                    _ => None,
                },
                _ => None,
            }),
    {
        match input {
            Ok(Some(f)) => match &f.value().value {
                PointValue::Int(i) => Some(FloatConversion::IntToDouble(*i)),
                PointValue::Real(b) => Some(FloatConversion::RealToDouble(*b)),
                _ => None,
            },
            _ => None,
        }
    }

    /// Evaluates the node on the results of `input` and `reset` (when the node
    /// has one); `converted` is the bits of the `f64` the caller made for the
    /// conversion `conversion` asked for.
    pub fn out(&mut self, input: FnResult<FnFlow, String>, reset: Option<FnResult<FnFlow, String>>, converted: Option<u64>)
        -> (r: FnResult<FnFlow, String>)
        requires
            reset is Some == old(self).has_reset(),
        ensures
            ({
                let ch = change_flow(old(self).input_last(), input);
                let (res, m) = max_step(old(self).id_spec(), old(self).max_spec(), reset, ch, converted);
                &&& match res {
                    Err(_) => r is Err,
                    Ok(x) => result_view(r) == Ok::<Option<FlowView>, Seq<char>>(x),
                }
                &&& final(self).max_spec() == m
            }),
            final(self).input_last() == change_last(old(self).input_last(), input),
            final(self).id_spec() == old(self).id_spec(),
            final(self).has_reset() == old(self).has_reset(),
    {
        let (input, l) = change_apply(&self.input_last, input);
        self.input_last = l;
        let mut is_reset = false;
        match reset {
            Some(Err(e)) => return Err(e),
            Some(Ok(Some(f))) => match f.value().to_bool() {
                Some(b) => if b {
                    self.max = None;
                    is_reset = true;
                },
                None => return Err(self.id.clone().concat(".out | Invalid reset, expected bool or number")),
            },
            _ => {}
        }
        let f = match input {
            Err(e) => return Err(e),
            Ok(None) => return Ok(None),
            Ok(Some(f)) => f,
        };
        if !f.is_new() && !is_reset {
            return match &self.max {
                Some(m) => Ok(Some(FnFlow::Old(m.copy()))),
                None => Ok(None),
            };
        }
        let p = f.into_value();
        let x: u64 = match &p.value {
            PointValue::Bool(b) => if *b { F64_ONE } else { 0u64 },
            PointValue::Double(b) => *b,
            PointValue::Int(_) | PointValue::Real(_) => match converted {
                Some(x) => x,
                None => return Err(self.id.clone().concat(".out | Invalid input, expected a number")),
            },
            _ => return Err(self.id.clone().concat(".out | Invalid input type '").concat(point_type_text(p.typ())).concat("'")),
        };
        if !f64_is_finite(x) {
            return Err(self.id.clone().concat(".out | Invalid input: not a finite number"));
        }
        let value = match &p.value {
            PointValue::Bool(_) => PointValue::Bool((x & 0x7fff_ffff_ffff_ffffu64) != 0),
            PointValue::Int(_) => PointValue::Int(f64_round_to_i64(x)),
            PointValue::Real(b) => PointValue::Real(*b),
            _ => PointValue::Double(x),
        };
        let grows = match &self.max {
            Some(prev) => f64_gt(x, self.max_value) || prev.status != p.status,
            None => true,
        };
        if grows {
            let q = p.derive_with(p.txid, self.id.clone(), value);
            self.max = Some(q.copy());
            self.max_value = x;
            Ok(Some(FnFlow::New(q)))
        } else {
            match &self.max {
                Some(m) => Ok(Some(FnFlow::Old(m.copy()))),
                None => Ok(None),
            }
        }
    }

    /// Forgets the maximum.
    pub fn reset(&mut self)
        ensures
            final(self).max_spec() is None,
            final(self).input_last() == old(self).input_last(),
            final(self).id_spec() == old(self).id_spec(),
            final(self).has_reset() == old(self).has_reset(),
    {
        self.max = None;
    }
}

/// A reset that reads `true` forgets the maximum held before: when the input
/// then yields the finite number `x`, the maximum restarts from the current
/// input (a point of the node named `id`, with the input's metadata, whose
/// `f64` is `x`), reported as `New`, whatever maximum was held.
pub proof fn lemma_reset_restarts_max(
    id: Seq<char>,
    held: Option<(PointView, u64)>,
    other: Option<(PointView, u64)>,
    r: FnFlow,
    f: FnFlow,
    converted: Option<u64>,
    x: u64,
)
    requires
        truth_of(r.point()@.value) == Some(true),
        max_input(f.point()@.value, converted) == Some(x),
        f64_finite(x),
    ensures
        max_step(id, held, Some(Ok(Some(r))), Ok(Some(f)), converted)
            == max_step(id, other, Some(Ok(Some(r))), Ok(Some(f)), converted),
        max_step(id, held, Some(Ok(Some(r))), Ok(Some(f)), converted).1 matches Some((q, y)) && ({
            let p = f.point()@;
            &&& y == x
            &&& (p.value is Double ==> q.value == ValueView::Double(x))
            &&& q.name == id && q.txid == p.txid && q.status == p.status && q.cot == p.cot && q.ts == p.ts
            &&& max_step(id, held, Some(Ok(Some(r))), Ok(Some(f)), converted).0
                == Ok::<Option<FlowView>, ()>(Some(FlowView { fresh: true, point: q }))
        }),
{
}

/// The maximum never decreases while no reset comes and the status stays:
/// a new maximum is greater than the previous one.
pub proof fn lemma_max_only_grows(
    id: Seq<char>,
    prev: PointView,
    px: u64,
    ch: FnResult<FnFlow, String>,
    converted: Option<u64>,
)
    requires
        ch matches Ok(Some(f)) && f.point()@.status == prev.status,
        max_step(id, Some((prev, px)), None, ch, converted).1 matches Some((_, x)) && x != px,
    ensures
        max_step(id, Some((prev, px)), None, ch, converted).1 matches Some((_, x)) && f64_greater(x, px),
{
}

/// Without a reset, a `New` input whose finite number `x` is greater than the
/// maximum becomes the maximum, reported as `New`; one that is not greater,
/// with the same status, leaves the maximum as it was, reported as `Old`.
pub proof fn lemma_larger_input_becomes_max(
    id: Seq<char>,
    prev: PointView,
    px: u64,
    f: FnFlow,
    converted: Option<u64>,
    x: u64,
)
    requires
        f.fresh(),
        max_input(f.point()@.value, converted) == Some(x),
        f64_finite(x),
    ensures
        f64_greater(x, px) ==> (max_step(id, Some((prev, px)), None, Ok(Some(f)), converted).1 matches Some((q, y))
            && y == x && q.name == id
            && max_step(id, Some((prev, px)), None, Ok(Some(f)), converted).0
                == Ok::<Option<FlowView>, ()>(Some(FlowView { fresh: true, point: q }))),
        !f64_greater(x, px) && prev.status == f.point()@.status ==>
            max_step(id, Some((prev, px)), None, Ok(Some(f)), converted)
                == (Ok::<Option<FlowView>, ()>(Some(FlowView { fresh: false, point: prev })), Some((prev, px))),
{
}

} // verus!
