//! `FnHold`: holds the last value of its input.
use vstd::prelude::*;
use crate::point::{Point, PointView, opt_view, copy_opt};
use crate::fn_flow::{FnFlow, FnResult, FnKind, FlowView, FlowContext, result_view};
use crate::functions::fn_change::{FnChange, change_flow, change_last};
use crate::text::{node_id, node_id_text};

verus! {

/// The result of `FnHold` for the held point `held` and the (change-marked) input result `ch`.
pub open spec fn hold_result(held: Option<PointView>, ch: FnResult<FnFlow, String>) -> Result<Option<FlowView>, Seq<char>> {
    match ch {
        Ok(None) => match held {
            Some(p) => Ok(Some(FlowView { fresh: false, point: p })),
            None => Ok(None),
        },
        other => result_view(other),
    }
}

/// The point `FnHold` holds after the (change-marked) input result `ch`.
pub open spec fn hold_next(held: Option<PointView>, ch: FnResult<FnFlow, String>) -> Option<PointView> {
    match ch {
        Ok(Some(f)) => Some(f.point()@),
        _ => held,
    }
}

/// Whatever was held before, an evaluation whose input carries a point holds
/// that point, and an evaluation after it on an input with no value hands it
/// back, as `Old`.
pub proof fn lemma_hold_keeps_the_latest(held: Option<PointView>, last: Option<PointView>, f: FnFlow)
    ensures
        hold_next(held, change_flow(last, Ok(Some(f)))) == Some(f.point()@),
        hold_result(hold_next(held, change_flow(last, Ok(Some(f)))), Ok(None))
            == Ok::<Option<FlowView>, Seq<char>>(Some(FlowView { fresh: false, point: f.point()@ })),
{
}

/// ### Function | `FnHold`
///
/// Passes its input on, marked `New` only when it changed; when the input has
/// no value, returns the last value held, as `Old`.
#[derive(Debug)]
pub struct FnHold<I> {
    id: String,
    input: FnChange<I>,
    state: Option<Point>,
}

impl<I> FnHold<I> {
    /// The node's identifier.
    pub closed spec fn id_spec(&self) -> Seq<char> {
        self.id@
    }

    /// The held point.
    pub closed spec fn held(&self) -> Option<PointView> {
        opt_view(self.state)
    }

    /// The last point passed on as `New` by the change detector of the input.
    pub closed spec fn change_state(&self) -> Option<PointView> {
        self.input.last()
    }

    /// Returns a new `FnHold` on `input`.
    pub fn new(parent: &str, seq: usize, input: I) -> (r: Self)
        ensures
            r.id_spec() == node_id_text(parent@, "FnHold"@, seq),
            r.held() is None,
            r.change_state() is None,
    {
        FnHold { id: node_id(parent, "FnHold", seq), input: FnChange::new(input), state: None }
    }

    /// Returns the node's identifier.
    pub fn id(&self) -> (r: String)
        ensures
            r@ == self.id_spec(),
    {
        self.id.clone()
    }

    /// Returns the kind of the node.
    pub fn kind(&self) -> (r: FnKind)
        ensures
            r == FnKind::Fn,
    {
        FnKind::Fn
    }

    /// The input: the input of the node's change marker.
    pub closed spec fn input_spec(&self) -> I {
        self.input.input_spec()
    }

    /// The node with `v` in place of its input.
    pub closed spec fn with_input(&self, v: I) -> Self {
        FnHold { input: self.input.with_input(v), ..*self }
    }

    /// The input. Returns a reference to it; the node is otherwise unchanged.
    pub fn input(&mut self) -> (r: &mut I)
        ensures
            *r == old(self).input_spec(),
            *final(self) == old(self).with_input(*final(r)),
    {
        self.input.input()
    }

    /// Evaluates the node on the result of its input.
    pub fn out(&mut self, input: FnResult<FnFlow, String>) -> (r: FnResult<FnFlow, String>)
        ensures
            ({
                let ch = change_flow(old(self).change_state(), input);
                &&& result_view(r) == hold_result(old(self).held(), ch)
                &&& final(self).held() == hold_next(old(self).held(), ch)
                &&& (ch matches Ok(Some(_)) ==> r == ch)
                &&& final(self).change_state() == change_last(old(self).change_state(), input)
            }),
            input matches Err(e) ==> r == Err::<Option<FnFlow>, String>(e),
            final(self).id_spec() == old(self).id_spec(),
    {
        let mut flow = FlowContext::new();
        let ch = self.input.out(input);
        match flow.map(ch) {
            Err(e) => Err(e),
            Ok(Some(point)) => {
                self.state = Some(point.copy());
                flow.wrap(point)
            }
            Ok(None) => match copy_opt(&self.state) {
                Some(p) => flow.wrap_old(p),
                None => Ok(None),
            },
        }
    }

    /// Forgets the held point and the change state.
    pub fn reset(&mut self)
        ensures
            final(self).held() is None,
            final(self).change_state() is None,
            final(self).id_spec() == old(self).id_spec(),
    {
        self.state = None;
        self.input.reset();
    }
}

} // verus!
