//! `FnSelect`: chooses between two branches.
use vstd::prelude::*;
use crate::point::truth_of;
use crate::fn_flow::{FnFlow, FnResult, FnKind};
use crate::text::{node_id, node_id_text};

verus! {

/// `true` when the result of `select` is valid but not a number.
pub open spec fn select_invalid(select: FnResult<FnFlow, String>) -> bool {
    select matches Ok(Some(f)) && truth_of(f.point()@.value) is None
}

/// ### Function | `FnSelect`
///
/// Returns `input` while `select` is `true`, `default` (or nothing, without a
/// default) while it is `false`. All the inputs are polled every cycle; a
/// `select` without value stops the branch.
#[derive(Debug)]
pub struct FnSelect<I> {
    id: String,
    default: Option<I>,
    input: I,
    select: I,
}

impl<I> FnSelect<I> {
    /// The node's identifier.
    pub closed spec fn id_spec(&self) -> Seq<char> {
        self.id@
    }

    /// `true` when the node has a `default` input.
    pub closed spec fn has_default(&self) -> bool {
        self.default is Some
    }

    /// Returns a new `FnSelect`.
    pub fn new(parent: &str, seq: usize, default: Option<I>, input: I, select: I) -> (r: Self)
        ensures
            r.id_spec() == node_id_text(parent@, "FnSelect"@, seq),
            r.has_default() == default is Some,
    {
        FnSelect { id: node_id(parent, "FnSelect", seq), default, input, select }
    }

    /// Returns the node's identifier.
    pub fn id(&self) -> (r: String)
        ensures
            r@ == self.id_spec(),
    {
        self.id.clone()
    }

    /// Returns the kind of the node.
    pub fn kind(&self) -> (r: FnKind)
        ensures
            r == FnKind::Fn,
    {
        FnKind::Fn
    }

    /// The `input` branch: the node's `input`.
    pub closed spec fn input_spec(&self) -> I {
        self.input
    }

    /// The node with `v` in place of its `input`.
    pub closed spec fn with_input(&self, v: I) -> Self {
        FnSelect { input: v, ..*self }
    }

    /// The `input` branch. Returns a reference to it; the node is otherwise unchanged.
    pub fn input(&mut self) -> (r: &mut I)
        ensures
            *r == old(self).input_spec(),
            *final(self) == old(self).with_input(*final(r)),
    {
        &mut self.input
    }

    /// The `default` branch: the node's `default`.
    pub closed spec fn default_spec(&self) -> Option<I> {
        self.default
    }

    /// The node with `v` in place of its `default`.
    pub closed spec fn with_default(&self, v: Option<I>) -> Self {
        FnSelect { default: v, ..*self }
    }

    /// The `default` branch. Returns a reference to it; the node is otherwise unchanged.
    pub fn default(&mut self) -> (r: &mut Option<I>)
        ensures
            *r == old(self).default_spec(),
            *final(self) == old(self).with_default(*final(r)),
    {
        &mut self.default
    }

    /// The `select` input: the node's `select`.
    pub closed spec fn select_spec(&self) -> I {
        self.select
    }

    /// The node with `v` in place of its `select`.
    pub closed spec fn with_select(&self, v: I) -> Self {
        FnSelect { select: v, ..*self }
    }

    /// The `select` input. Returns a reference to it; the node is otherwise unchanged.
    pub fn select(&mut self) -> (r: &mut I)
        ensures
            *r == old(self).select_spec(),
            *final(self) == old(self).with_select(*final(r)),
    {
        &mut self.select
    }

    /// Evaluates the node on the results of `input`, `default` (when it exists) and `select`.
    pub fn out(
        &self,
        input: FnResult<FnFlow, String>,
        default: Option<FnResult<FnFlow, String>>,
        select: FnResult<FnFlow, String>,
    ) -> (r: FnResult<FnFlow, String>)
        requires
            default is Some == self.has_default(),
        ensures
            match select {
                Err(e) => r == Err::<Option<FnFlow>, String>(e),
                Ok(None) => r == Ok::<Option<FnFlow>, String>(None),
                Ok(Some(f)) => match truth_of(f.point()@.value) {
                    None => r is Err,
                    Some(true) => r == input,
                    Some(false) => match default {
                        Some(d) => r == d,
                        None => r == Ok::<Option<FnFlow>, String>(None),
                    },
                },
            },
    {
        let select = match select {
            Err(e) => return Err(e),
            Ok(None) => return Ok(None),
            Ok(Some(f)) => f.into_value(),
        };
        let is_selected = match select.value.to_bool() {
            Some(b) => b,
            None => return Err(self.id.clone().concat(".out | Invalid select type, expected bool or number")),
        };
        if is_selected {
            input
        } else {
            match default {
                Some(d) => d,
                None => Ok(None),
            }
        }
    }
}

} // verus!
