//! `FnDebug`: a transparent probe on one or more inputs.
use vstd::prelude::*;
use crate::fn_flow::{FnFlow, FnResult, FnKind};
use crate::text::{node_id, node_id_text};

verus! {

/// ### Function | `FnDebug`
///
/// Reports the values of its named inputs (the reporting itself is done by the
/// caller). With one input, it passes that input's result on; with several, it
/// stops the branch.
#[derive(Debug)]
pub struct FnDebug<I> {
    id: String,
    inputs: Vec<(String, I)>,
}

impl<I> FnDebug<I> {
    /// The node's identifier.
    pub closed spec fn id_spec(&self) -> Seq<char> {
        self.id@
    }

    /// The number of inputs.
    pub closed spec fn input_count(&self) -> nat {
        self.inputs.len() as nat
    }

    /// Returns a new `FnDebug` on the named inputs.
    pub fn new(parent: &str, seq: usize, inputs: Vec<(String, I)>) -> (r: Self)
        ensures
            r.id_spec() == node_id_text(parent@, "FnDebug"@, seq),
            r.input_count() == inputs.len(),
    {
        FnDebug { id: node_id(parent, "FnDebug", seq), inputs }
    }

    /// Returns the node's identifier.
    pub fn id(&self) -> (r: String)
        ensures
            r@ == self.id_spec(),
    {
        self.id.clone()
    }

    /// Returns the kind of the node.
    pub fn kind(&self) -> (r: FnKind)
        ensures
            r == FnKind::Fn,
    {
        FnKind::Fn
    }

    /// The named inputs: the node's `inputs`.
    pub closed spec fn inputs_spec(&self) -> Vec<(String, I)> {
        self.inputs
    }

    /// The node with `v` in place of its `inputs`.
    pub closed spec fn with_inputs(&self, v: Vec<(String, I)>) -> Self {
        FnDebug { inputs: v, ..*self }
    }

    /// The named inputs. Returns a reference to it; the node is otherwise unchanged.
    pub fn inputs(&mut self) -> (r: &mut Vec<(String, I)>)
        ensures
            *r == old(self).inputs_spec(),
            *final(self) == old(self).with_inputs(*final(r)),
    {
        &mut self.inputs
    }

    /// Evaluates the node on the results of its inputs, in their order.
    pub fn out(&self, results: Vec<FnResult<FnFlow, String>>) -> (r: FnResult<FnFlow, String>)
        requires
            results.len() == self.input_count(),
        ensures
            r == (if results.len() == 1 { results@[0] } else { Ok::<Option<FnFlow>, String>(None) }),
    {
        if results.len() == 1 {
            let mut results = results;
            results.remove(0)
        } else {
            Ok(None)
        }
    }
}

} // verus!
