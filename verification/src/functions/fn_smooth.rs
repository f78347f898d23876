//! `FnSmooth`: exponential smoothing of the input, not available yet.
use vstd::prelude::*;
use crate::fn_flow::FnKind;
use crate::text::{node_id, node_id_text};

verus! {

/// ### Function | `FnSmooth`
///
/// Not available yet: `new` always refuses to build the node.
#[derive(Debug)]
pub struct FnSmooth<I> {
    id: String,
    kind: FnKind,
    factor: I,
    input: I,
}

impl<I> FnSmooth<I> {
    /// Refuses to build the node, with the message `<id>.new | Isn't implemented yet`.
    pub fn new(parent: &str, seq: usize, factor: I, input: I) -> (r: Result<Self, String>)
        ensures
            r matches Err(e) && e@ == node_id_text(parent@, "FnSmooth"@, seq) + ".new | Isn't implemented yet"@,
    {
        let id = node_id(parent, "FnSmooth", seq);
        let message = id.concat(".new | Isn't implemented yet");
        Err(message)
    }
}

} // verus!
