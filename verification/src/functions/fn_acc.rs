//! `FnAcc`: accumulates the changes of its input.
use vstd::prelude::*;
use crate::point::{Point, PointValue, PointView, ValueView, opt_view, copy_string};
use crate::fn_flow::{FnFlow, FnResult, FnKind};
use crate::functions::fn_change::{change_flow, change_last, change_apply};
use crate::text::{node_id, node_id_text};

verus! {

/// What an evaluation of the accumulator leads to.
pub enum AccOutcome {
    /// An input failed, or the input is not a number.
    Fail,
    /// An input has no value: the branch stops.
    Silent,
    /// The accumulated point, unchanged (`Old`).
    Hold(PointView),
    /// The input changed: the accumulated point and the point to add to it.
    Sum(PointView, PointView),
}

/// The zero an accumulator of the type of `p` starts from, with the metadata of `p`.
pub open spec fn acc_zero(p: PointView) -> Option<PointView> {
    match p.value {
        ValueView::Bool(_) | ValueView::Int(_) => Some(PointView { value: ValueView::Int(0), ..p }),
        ValueView::Real(_) => Some(PointView { value: ValueView::Real(0), ..p }),
        ValueView::Double(_) => Some(PointView { value: ValueView::Double(0), ..p }),
        _ => None,
    }
}

/// The point added for the input point `p`: a logical value counts as 1 or 0.
pub open spec fn acc_term(p: PointView) -> PointView {
    match p.value {
        ValueView::Bool(b) => PointView { value: ValueView::Int(if b { 1 } else { 0 }), ..p },
        _ => p,
    }
}

/// One evaluation of the accumulator holding `acc`, on the change-marked results
/// of `input` and `initial`: the outcome and the accumulated point kept.
pub open spec fn acc_step(
    has_initial: bool,
    acc: Option<PointView>,
    input: FnResult<FnFlow, String>,
    initial: Option<FnResult<FnFlow, String>>,
) -> (AccOutcome, Option<PointView>) {
    match input {
        Err(_) => (AccOutcome::Fail, acc),
        Ok(None) => (AccOutcome::Silent, acc),
        Ok(Some(f)) => {
            let base = match acc {
                Some(a) => Ok(Some(a)),
                None => if has_initial {
                    match initial {
                        Some(Ok(Some(g))) => Ok(Some(g.point()@)),
                        Some(Ok(None)) => Ok(None),
                        _ => Err(()),
                    }
                } else {
                    match acc_zero(f.point()@) {
                        Some(z) => Ok(Some(z)),
                        None => Err(()),
                    }
                },
            };
            match base {
                Err(_) => (AccOutcome::Fail, acc),
                Ok(None) => (AccOutcome::Silent, acc),
                Ok(Some(b)) => if f.fresh() {
                    (AccOutcome::Sum(b, acc_term(f.point()@)), Some(b))
                } else {
                    (AccOutcome::Hold(b), Some(b))
                },
            }
        },
    }
}

/// When the input changed and the accumulated point `a` is there, the
/// evaluation hands `a` and the term of the input over to be added: a logical
/// input counts 1 when `true` and 0 when `false`, with the input's metadata;
/// a number is added as it is.
pub proof fn lemma_acc_term_of_input(has_initial: bool, a: PointView, f: FnFlow, initial: Option<FnResult<FnFlow, String>>)
    requires
        f.fresh(),
    ensures
        acc_step(has_initial, Some(a), Ok(Some(f)), initial).0 matches AccOutcome::Sum(b, t) && b == a && ({
            let p = f.point()@;
            &&& t.name == p.name && t.status == p.status && t.cot == p.cot && t.ts == p.ts && t.txid == p.txid
            &&& match p.value {
                ValueView::Bool(true) => t.value == ValueView::Int(1),
                ValueView::Bool(false) => t.value == ValueView::Int(0),
                _ => t == p,
            }
        }),
{
}

/// The sum of two integer points: the accumulated point `acc` with its value
/// raised by that of `term`. `None` where either is not an integer, or where
/// the sum leaves the range of `i64`.
pub open spec fn int_sum(acc: PointView, term: PointView) -> Option<PointView> {
    match (acc.value, term.value) {
        (ValueView::Int(x), ValueView::Int(y)) => if i64::MIN <= x + y <= i64::MAX {
            Some(PointView { value: ValueView::Int((x + y) as i64), ..acc })
        } else {
            None
        },
        _ => None,
    }
}

/// Adds the integer point `term` to the integer accumulated point `acc`:
/// the result keeps the metadata of `acc`. Returns `None` for points of other
/// types, whose sum is the caller's, and for a sum out of the range of `i64`.
pub fn add_ints(acc: &Point, term: &Point) -> (r: Option<Point>)
    ensures
        match r {
            Some(p) => int_sum(acc@, term@) == Some(p@),
            None => int_sum(acc@, term@) is None,
        },
{
    match (&acc.value, &term.value) {
        (PointValue::Int(x), PointValue::Int(y)) => match x.checked_add(*y) {
            Some(v) => Some(acc.derive_with(acc.txid, copy_string(&acc.name), PointValue::Int(v))),
            None => None,
        },
        _ => None,
    }
}

/// What `FnAcc::out` hands back.
pub enum AccStep {
    /// The result of the node.
    Done(FnResult<FnFlow, String>),
    /// The caller adds the second point to the first and hands the sum to `add_result`.
    Sum(Point, Point),
}

/// ### Function | `FnAcc`
///
/// Accumulates its input: each time the input changes (value or status), the
/// input is added to the accumulated point, which starts from `initial` (or
/// zero of the input's type). A logical input counts as 1 or 0. Returns the
/// accumulated point, `New` when it was just added to. The addition of two
/// points is the caller's (`add_result` takes the sum).
#[derive(Debug)]
pub struct FnAcc<I> {
    id: String,
    initial: Option<I>,
    initial_last: Option<Point>,
    input: I,
    input_last: Option<Point>,
    acc: Option<Point>,
}

impl<I> FnAcc<I> {
    /// The node's identifier.
    pub closed spec fn id_spec(&self) -> Seq<char> {
        self.id@
    }

    /// The node has an `initial` input.
    pub closed spec fn has_initial(&self) -> bool {
        self.initial is Some
    }

    /// The accumulated point.
    pub closed spec fn acc(&self) -> Option<PointView> {
        opt_view(self.acc)
    }

    /// The change state of `input`.
    pub closed spec fn input_last(&self) -> Option<PointView> {
        opt_view(self.input_last)
    }

    /// The change state of `initial`.
    pub closed spec fn initial_last(&self) -> Option<PointView> {
        opt_view(self.initial_last)
    }

    /// Returns a new `FnAcc`.
    pub fn new(parent: &str, seq: usize, initial: Option<I>, input: I) -> (r: Self)
        ensures
            r.id_spec() == node_id_text(parent@, "FnAcc"@, seq),
            r.has_initial() == initial is Some,
            r.acc() is None,
            r.input_last() is None,
            r.initial_last() is None,
    {
        FnAcc {
            id: node_id(parent, "FnAcc", seq),
            initial,
            initial_last: None,
            input,
            input_last: None,
            acc: None,
        }
    }

    /// Returns the node's identifier.
    pub fn id(&self) -> (r: String)
        ensures
            r@ == self.id_spec(),
    {
        self.id.clone()
    }

    /// Returns the kind of the node.
    pub fn kind(&self) -> (r: FnKind)
        ensures
            r == FnKind::Fn,
    {
        FnKind::Fn
    }

    /// The input: the node's `input`.
    pub closed spec fn input_spec(&self) -> I {
        self.input
    }

    /// The node with `v` in place of its `input`.
    pub closed spec fn with_input(&self, v: I) -> Self {
        FnAcc { input: v, ..*self }
    }

    /// The input. Returns a reference to it; the node is otherwise unchanged.
    pub fn input(&mut self) -> (r: &mut I)
        ensures
            *r == old(self).input_spec(),
            *final(self) == old(self).with_input(*final(r)),
    {
        &mut self.input
    }

    /// The `initial` input: the node's `initial`.
    pub closed spec fn initial_spec(&self) -> Option<I> {
        self.initial
    }

    /// The node with `v` in place of its `initial`.
    pub closed spec fn with_initial(&self, v: Option<I>) -> Self {
        FnAcc { initial: v, ..*self }
    }

    /// The `initial` input. Returns a reference to it; the node is otherwise unchanged.
    pub fn initial(&mut self) -> (r: &mut Option<I>)
        ensures
            *r == old(self).initial_spec(),
            *final(self) == old(self).with_initial(*final(r)),
    {
        &mut self.initial
    }

    /// Evaluates the node on the results of `input` and `initial` (when the node has one).
    pub fn out(&mut self, input: FnResult<FnFlow, String>, initial: Option<FnResult<FnFlow, String>>) -> (r: AccStep)
        requires
            initial is Some == old(self).has_initial(),
        ensures
            ({
                let chi = change_flow(old(self).input_last(), input);
                let chini = match initial { Some(x) => Some(change_flow(old(self).initial_last(), x)), None => None };
                let (o, acc) = acc_step(old(self).has_initial(), old(self).acc(), chi, chini);
                &&& final(self).acc() == acc
                &&& match o {
                    AccOutcome::Fail => r matches AccStep::Done(Err(_)),
                    AccOutcome::Silent => r matches AccStep::Done(Ok(None)),
                    AccOutcome::Hold(p) => r matches AccStep::Done(Ok(Some(FnFlow::Old(q)))) && q@ == p,
                    AccOutcome::Sum(a, b) => r matches AccStep::Sum(x, y) && x@ == a && y@ == b,
                }
            }),
            final(self).input_last() == change_last(old(self).input_last(), input),
            final(self).initial_last() == (match initial { Some(x) => change_last(old(self).initial_last(), x), None => old(self).initial_last() }),
            final(self).id_spec() == old(self).id_spec(),
            final(self).has_initial() == old(self).has_initial(),
    {
        let (input, l) = change_apply(&self.input_last, input);
        self.input_last = l;
        let initial = match initial {
            Some(x) => {
                let (c, l) = change_apply(&self.initial_last, x);
                self.initial_last = l;
                Some(c)
            }
            None => None,
        };
        let f = match input {
            Err(e) => return AccStep::Done(Err(e)),
            Ok(None) => return AccStep::Done(Ok(None)),
            Ok(Some(f)) => f,
        };
        let base = match &self.acc {
            Some(a) => a.copy(),
            None => {
                let a = if self.initial.is_some() {
                    match initial {
                        Some(Ok(Some(g))) => g.into_value(),
                        Some(Ok(None)) => return AccStep::Done(Ok(None)),
                        Some(Err(e)) => return AccStep::Done(Err(e)),
                        None => return AccStep::Done(Ok(None)),
                    }
                } else {
                    let p = f.value();
                    let zero = match &p.value {
                        PointValue::Bool(_) | PointValue::Int(_) => PointValue::Int(0),
                        PointValue::Real(_) => PointValue::Real(0),
                        PointValue::Double(_) => PointValue::Double(0),
                        _ => return AccStep::Done(Err(self.id.clone().concat(".out | Invalid input type, expected number"))),
                    };
                    p.derive_with(p.txid, p.name.clone(), zero)
                };
                self.acc = Some(a.copy());
                a
            }
        };
        if !f.is_new() {
            return AccStep::Done(Ok(Some(FnFlow::Old(base))));
        }
        let p = f.into_value();
        let term = match &p.value {
            PointValue::Bool(b) => p.derive_with(p.txid, p.name.clone(), PointValue::Int(if *b { 1 } else { 0 })),
            _ => p,
        };
        AccStep::Sum(base, term)
    }

    /// Keeps `sum`, the sum the caller made of the points `out` handed over, and returns it as `New`.
    pub fn add_result(&mut self, sum: Point) -> (r: FnResult<FnFlow, String>)
        ensures
            final(self).acc() == Some(sum@),
            r matches Ok(Some(FnFlow::New(q))) && q@ == sum@,
            final(self).input_last() == old(self).input_last(),
            final(self).initial_last() == old(self).initial_last(),
            final(self).id_spec() == old(self).id_spec(),
            final(self).has_initial() == old(self).has_initial(),
    {
        self.acc = Some(sum.copy());
        Ok(Some(FnFlow::New(sum)))
    }

    /// Forgets the accumulated point and the change states.
    pub fn reset(&mut self)
        ensures
            final(self).acc() is None,
            final(self).input_last() is None,
            final(self).initial_last() is None,
            final(self).id_spec() == old(self).id_spec(),
            final(self).has_initial() == old(self).has_initial(),
    {
        self.acc = None;
        self.input_last = None;
        self.initial_last = None;
    }
}

} // verus!
