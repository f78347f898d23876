//! `FnBitXor`: a bitwise function that is not available yet.
use vstd::prelude::*;
use crate::fn_flow::FnKind;
use crate::text::{node_id, node_id_text};

verus! {

/// ### Function | `FnBitXor`
///
/// Not available yet: `new` always refuses to build the node.
#[derive(Debug)]
pub struct FnBitXor<I> {
    id: String,
    kind: FnKind,
    inputs: Vec<I>,
}

impl<I> FnBitXor<I> {
    /// Refuses to build the node, with the message `<id>.new | Isn't implemented yet`.
    pub fn new(parent: &str, seq: usize, inputs: Vec<I>) -> (r: Result<Self, String>)
        ensures
            r matches Err(e) && e@ == node_id_text(parent@, "FnBitXor"@, seq) + ".new | Isn't implemented yet"@,
    {
        let id = node_id(parent, "FnBitXor", seq);
        let message = id.concat(".new | Isn't implemented yet");
        Err(message)
    }
}

} // verus!
