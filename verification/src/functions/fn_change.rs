//! `FnChange`: marks a point `New` only when it differs from the last one passed on.
use vstd::prelude::*;
use crate::point::{Point, PointView, opt_view, copy_opt, same_value};
use crate::fn_flow::{FnFlow, FnResult};

verus! {

/// `true` when `p` differs from the last remembered point in value or in status.
pub open spec fn differs(last: Option<PointView>, p: PointView) -> bool {
    match last {
        None => true,
        Some(l) => !same_value(l.value, p.value) || l.status != p.status,
    }
}

/// The result of `FnChange` for the remembered point `last` and the input result.
pub open spec fn change_flow(last: Option<PointView>, input: FnResult<FnFlow, String>) -> FnResult<FnFlow, String> {
    match input {
        Ok(Some(f)) => if differs(last, f.point()@) {
            Ok(Some(FnFlow::New(f.point())))
        } else {
            Ok(Some(FnFlow::Old(f.point())))
        },
        other => other,
    }
}

/// The point `FnChange` remembers after the input result.
pub open spec fn change_last(last: Option<PointView>, input: FnResult<FnFlow, String>) -> Option<PointView> {
    match input {
        Ok(Some(f)) => if differs(last, f.point()@) { Some(f.point()@) } else { last },
        _ => last,
    }
}

/// Marks `input` by change against the remembered point `last`; returns the
/// marked result and the point to remember.
pub fn change_apply(last: &Option<Point>, input: FnResult<FnFlow, String>) -> (r: (FnResult<FnFlow, String>, Option<Point>))
    ensures
        r.0 == change_flow(opt_view(*last), input),
        opt_view(r.1) == change_last(opt_view(*last), input),
{
    match input {
        Ok(Some(flow)) => {
            let point = flow.into_value();
            let is_changed = match last {
                Some(l) => !l.value.same_as(&point.value) || l.status != point.status,
                None => true,
            };
            if is_changed {
                let keep = point.copy();
                (Ok(Some(FnFlow::New(point))), Some(keep))
            } else {
                (Ok(Some(FnFlow::Old(point))), copy_opt(last))
            }
        }
        other => (other, copy_opt(last)),
    }
}

/// ### Function | `FnChange`
///
/// Passes its input on, as `New` when the value or the status differs from the
/// last point passed as `New`, as `Old` otherwise.
#[derive(Debug)]
pub struct FnChange<I> {
    input: I,
    last_val: Option<Point>,
}

impl<I> FnChange<I> {
    /// The last point passed on as `New`.
    pub closed spec fn last(&self) -> Option<PointView> {
        opt_view(self.last_val)
    }

    /// Returns a new `FnChange` on `input`.
    pub fn new(input: I) -> (r: Self)
        ensures
            r.last() is None,
    {
        FnChange { input, last_val: None }
    }

    /// The input: the node's `input`.
    pub closed spec fn input_spec(&self) -> I {
        self.input
    }

    /// The node with `v` in place of its `input`.
    pub closed spec fn with_input(&self, v: I) -> Self {
        FnChange { input: v, ..*self }
    }

    /// The input. Returns a reference to it; the node is otherwise unchanged.
    pub fn input(&mut self) -> (r: &mut I)
        ensures
            *r == old(self).input_spec(),
            *final(self) == old(self).with_input(*final(r)),
    {
        &mut self.input
    }

    /// Takes the result of the input and returns it marked by change.
    pub fn out(&mut self, input: FnResult<FnFlow, String>) -> (r: FnResult<FnFlow, String>)
        ensures
            r == change_flow(old(self).last(), input),
            final(self).last() == change_last(old(self).last(), input),
    {
        match input {
            Ok(Some(flow)) => {
                let point = flow.into_value();
                let is_changed = match &self.last_val {
                    Some(last) => !last.value.same_as(&point.value) || last.status != point.status,
                    None => true,
                };
                if is_changed {
                    self.last_val = Some(point.copy());
                    Ok(Some(FnFlow::New(point)))
                } else {
                    Ok(Some(FnFlow::Old(point)))
                }
            }
            other => other,
        }
    }

    /// Forgets the last point.
    pub fn reset(&mut self)
        ensures
            final(self).last() is None,
    {
        self.last_val = None;
    }
}

/// The same point handed to `FnChange` twice in a row is `Old` the second time
/// (unless its value is a NaN, which is never equal to itself).
pub proof fn lemma_change_repeats_old(last: Option<PointView>, f: FnFlow, g: FnFlow)
    requires
        f.point()@ == g.point()@,
        same_value(f.point()@.value, f.point()@.value),
    ensures
        change_flow(change_last(last, Ok(Some(f))), Ok(Some(g))) == Ok::<Option<FnFlow>, String>(Some(FnFlow::Old(g.point()))),
{
}

/// The first point ever seen is `New`, and so is a point that follows another
/// with a different value or a different status.
pub proof fn lemma_change_marks_differences(last: Option<PointView>, f: FnFlow, g: FnFlow)
    ensures
        change_flow(None, Ok(Some(g))) == Ok::<Option<FnFlow>, String>(Some(FnFlow::New(g.point()))),
        !same_value(f.point()@.value, g.point()@.value) || f.point()@.status != g.point()@.status
            ==> change_flow(change_last(last, Ok(Some(f))), Ok(Some(g)))
                == Ok::<Option<FnFlow>, String>(Some(FnFlow::New(g.point()))),
{
}

} // verus!
