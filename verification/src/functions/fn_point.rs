//! `FnPoint`: export of a configured point, not available yet.
use vstd::prelude::*;
use crate::fn_flow::FnKind;
use crate::text::{node_id, node_id_text};

verus! {

/// ### Function | `FnPoint`
///
/// Not available yet: `new` always refuses to build the node.
#[derive(Debug)]
pub struct FnPoint<I> {
    id: String,
    kind: FnKind,
    input: Option<I>,
}

impl<I> FnPoint<I> {
    /// Refuses to build the node, with the message `<id>.new | Isn't implemented yet`.
    pub fn new(parent: &str, seq: usize, enable: Option<I>, changes_only: Option<I>, input: Option<I>) -> (r: Result<Self, String>)
        ensures
            r matches Err(e) && e@ == node_id_text(parent@, "FnPoint"@, seq) + ".new | Isn't implemented yet"@,
    {
        let id = node_id(parent, "FnPoint", seq);
        let message = id.concat(".new | Isn't implemented yet");
        Err(message)
    }
}

} // verus!
