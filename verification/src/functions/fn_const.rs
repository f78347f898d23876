//! `FnConst`: a constant.
use vstd::prelude::*;
use crate::point::{Point, PointView};
use crate::fn_flow::{FnFlow, FnResult, FnKind, FlowView, result_view};
use crate::text::{node_id, node_id_text};

verus! {

/// ### Function | `FnConst`
///
/// Always returns its point, as `Old`.
#[derive(Debug)]
pub struct FnConst {
    id: String,
    point: Point,
}

impl FnConst {
    /// The node's identifier.
    pub closed spec fn id_spec(&self) -> Seq<char> {
        self.id@
    }

    /// The constant point.
    pub closed spec fn point(&self) -> PointView {
        self.point@
    }

    /// Returns a new `FnConst` holding `value`.
    pub fn new(parent: &str, seq: usize, value: Point) -> (r: Self)
        ensures
            r.id_spec() == node_id_text(parent@, "FnConst"@, seq),
            r.point() == value@,
    {
        FnConst { id: node_id(parent, "FnConst", seq), point: value }
    }

    /// Returns the node's identifier.
    pub fn id(&self) -> (r: String)
        ensures
            r@ == self.id_spec(),
    {
        self.id.clone()
    }

    /// Returns the kind of the node: `Input`.
    pub fn kind(&self) -> (r: FnKind)
        ensures
            r == FnKind::Input,
    {
        FnKind::Input
    }

    /// Returns the constant, as `Old`.
    pub fn out(&self) -> (r: FnResult<FnFlow, String>)
        ensures
            result_view(r) == Ok::<Option<FlowView>, Seq<char>>(Some(FlowView { fresh: false, point: self.point() })),
    {
        Ok(Some(FnFlow::Old(self.point.copy())))
    }
}

} // verus!
