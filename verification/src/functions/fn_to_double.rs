//! `FnToDouble`: conversion of the input into an `f64`, not available yet.
use vstd::prelude::*;
use crate::fn_flow::FnKind;
use crate::text::{node_id, node_id_text};

verus! {

/// ### Function | `FnToDouble`
///
/// Not available yet: `new` always refuses to build the node.
#[derive(Debug)]
pub struct FnToDouble<I> {
    id: String,
    kind: FnKind,
    input: I,
}

impl<I> FnToDouble<I> {
    /// Refuses to build the node, with the message `<id>.new | Isn't implemented yet`.
    pub fn new(parent: &str, seq: usize, input: I) -> (r: Result<Self, String>)
        ensures
            r matches Err(e) && e@ == node_id_text(parent@, "FnToDouble"@, seq) + ".new | Isn't implemented yet"@,
    {
        let id = node_id(parent, "FnToDouble", seq);
        let message = id.concat(".new | Isn't implemented yet");
        Err(message)
    }
}

} // verus!
