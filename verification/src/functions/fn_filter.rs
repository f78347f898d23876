//! `FnFilter` and `FnKeepValid`: pass or hold values.
use vstd::prelude::*;
use crate::point::{Point, PointView, opt_view, truth_of};
use crate::fn_flow::{FnFlow, FnResult, FnKind, FlowView, result_view};
use crate::text::{node_id, node_id_text};

verus! {

/// `true` when the `pass` input lets the value through: its value is logically `true`.
pub open spec fn passes(pass: FnResult<FnFlow, String>) -> bool {
    pass matches Ok(Some(f)) && truth_of(f.point()@.value) == Some(true)
}

/// ### Function | `FnFilter`
///
/// Passes `input` on while `pass` is `true`; otherwise the branch stops. The
/// input is polled only when it passes.
#[derive(Debug)]
pub struct FnFilter<I> {
    id: String,
    default: Option<I>,
    input: I,
    pass: I,
    state: Option<Point>,
}

impl<I> FnFilter<I> {
    /// The node's identifier.
    pub closed spec fn id_spec(&self) -> Seq<char> {
        self.id@
    }

    /// The last point passed.
    pub closed spec fn passed(&self) -> Option<PointView> {
        opt_view(self.state)
    }

    /// Returns a new `FnFilter`.
    pub fn new(parent: &str, seq: usize, default: Option<I>, input: I, pass: I) -> (r: Self)
        ensures
            r.id_spec() == node_id_text(parent@, "FnFilter"@, seq),
            r.passed() is None,
    {
        FnFilter { id: node_id(parent, "FnFilter", seq), default, input, pass, state: None }
    }

    /// Returns the node's identifier.
    pub fn id(&self) -> (r: String)
        ensures
            r@ == self.id_spec(),
    {
        self.id.clone()
    }

    /// Returns the kind of the node.
    pub fn kind(&self) -> (r: FnKind)
        ensures
            r == FnKind::Fn,
    {
        FnKind::Fn
    }

    /// The filtered input: the node's `input`.
    pub closed spec fn input_spec(&self) -> I {
        self.input
    }

    /// The node with `v` in place of its `input`.
    pub closed spec fn with_input(&self, v: I) -> Self {
        FnFilter { input: v, ..*self }
    }

    /// The filtered input. Returns a reference to it; the node is otherwise unchanged.
    pub fn input(&mut self) -> (r: &mut I)
        ensures
            *r == old(self).input_spec(),
            *final(self) == old(self).with_input(*final(r)),
    {
        &mut self.input
    }

    /// The `pass` input: the node's `pass`.
    pub closed spec fn pass_spec(&self) -> I {
        self.pass
    }

    /// The node with `v` in place of its `pass`.
    pub closed spec fn with_pass(&self, v: I) -> Self {
        FnFilter { pass: v, ..*self }
    }

    /// The `pass` input. Returns a reference to it; the node is otherwise unchanged.
    pub fn pass(&mut self) -> (r: &mut I)
        ensures
            *r == old(self).pass_spec(),
            *final(self) == old(self).with_pass(*final(r)),
    {
        &mut self.pass
    }

    /// The `default` input: the node's `default`.
    pub closed spec fn default_spec(&self) -> Option<I> {
        self.default
    }

    /// The node with `v` in place of its `default`.
    pub closed spec fn with_default(&self, v: Option<I>) -> Self {
        FnFilter { default: v, ..*self }
    }

    /// The `default` input. Returns a reference to it; the node is otherwise unchanged.
    pub fn default(&mut self) -> (r: &mut Option<I>)
        ensures
            *r == old(self).default_spec(),
            *final(self) == old(self).with_default(*final(r)),
    {
        &mut self.default
    }

    /// Evaluates the node on the result of `pass` and, when it passes, the result of `input`.
    pub fn out(&mut self, pass: FnResult<FnFlow, String>, input: Option<FnResult<FnFlow, String>>) -> (r: FnResult<FnFlow, String>)
        requires
            input is Some == passes(pass),
        ensures
            match pass {
                Err(e) => r == Err::<Option<FnFlow>, String>(e),
                Ok(None) => r == Ok::<Option<FnFlow>, String>(None),
                Ok(Some(f)) => match truth_of(f.point()@.value) {
                    None => r is Err,
                    Some(false) => r == Ok::<Option<FnFlow>, String>(None),
                    Some(true) => r == input.unwrap(),
                },
            },
            final(self).passed() == (match input {
                Some(Ok(Some(g))) => Some(g.point()@),
                _ => old(self).passed(),
            }),
            final(self).id_spec() == old(self).id_spec(),
    {
        let pass = match pass {
            Err(e) => return Err(e),
            Ok(None) => return Ok(None),
            Ok(Some(f)) => match f.value().to_bool() {
                Some(b) => b,
                None => return Err(self.id.clone().concat(".out | Invalid pass type, expected bool or number")),
            },
        };
        if pass {
            match input {
                Some(Ok(Some(flow))) => {
                    self.state = Some(flow.value().copy());
                    Ok(Some(flow))
                }
                Some(other) => other,
                None => Ok(None),
            }
        } else {
            Ok(None)
        }
    }
}

/// ### Function | `FnKeepValid`
///
/// Passes the result of its input on; when the input fails, returns the last
/// valid result instead.
#[derive(Debug)]
pub struct FnKeepValid<I> {
    id: String,
    input: I,
    state: Option<FnFlow>,
}

/// The view of an optional flow.
pub open spec fn opt_flow_view(o: Option<FnFlow>) -> Option<FlowView> {
    match o {
        Some(f) => Some(f@),
        None => None,
    }
}

impl<I> FnKeepValid<I> {
    /// The node's identifier.
    pub closed spec fn id_spec(&self) -> Seq<char> {
        self.id@
    }

    /// The last valid result.
    pub closed spec fn kept(&self) -> Option<FlowView> {
        opt_flow_view(self.state)
    }

    /// Returns a new `FnKeepValid` on `input`.
    pub fn new(parent: &str, seq: usize, input: I) -> (r: Self)
        ensures
            r.id_spec() == node_id_text(parent@, "FnKeepValid"@, seq),
            r.kept() is None,
    {
        FnKeepValid { id: node_id(parent, "FnKeepValid", seq), input, state: None }
    }

    /// Returns the node's identifier.
    pub fn id(&self) -> (r: String)
        ensures
            r@ == self.id_spec(),
    {
        self.id.clone()
    }

    /// Returns the kind of the node.
    pub fn kind(&self) -> (r: FnKind)
        ensures
            r == FnKind::Fn,
    {
        FnKind::Fn
    }

    /// The input: the node's `input`.
    pub closed spec fn input_spec(&self) -> I {
        self.input
    }

    /// The node with `v` in place of its `input`.
    pub closed spec fn with_input(&self, v: I) -> Self {
        FnKeepValid { input: v, ..*self }
    }

    /// The input. Returns a reference to it; the node is otherwise unchanged.
    pub fn input(&mut self) -> (r: &mut I)
        ensures
            *r == old(self).input_spec(),
            *final(self) == old(self).with_input(*final(r)),
    {
        &mut self.input
    }

    /// Evaluates the node on the result of its input.
    pub fn out(&mut self, input: FnResult<FnFlow, String>) -> (r: FnResult<FnFlow, String>)
        ensures
            match input {
                Ok(x) => r == Ok::<Option<FnFlow>, String>(x) && final(self).kept() == opt_flow_view(x),
                Err(_) => result_view(r) == Ok::<Option<FlowView>, Seq<char>>(old(self).kept())
                    && final(self).kept() == old(self).kept(),
            },
            final(self).id_spec() == old(self).id_spec(),
    {
        match input {
            Ok(x) => {
                self.state = match &x {
                    Some(f) => Some(f.copy()),
                    None => None,
                };
                Ok(x)
            }
            Err(_) => match &self.state {
                Some(f) => Ok(Some(f.copy())),
                None => Ok(None),
            },
        }
    }
}

} // verus!
