//! `FnPointId`: the configured id of the input point.
use vstd::prelude::*;
use crate::point::{PointValue, PointView, ValueView};
use crate::fn_flow::{FnFlow, FnResult, FnKind};
use crate::assoc::{keys_of, last_index_of, lemma_last_index_of, find_last};
use crate::text::{node_id, node_id_text};

verus! {

/// The id configured for the point named `name`: the last entry of that name wins.
pub open spec fn point_id_of(points: Seq<(String, usize)>, name: Seq<char>) -> Option<usize> {
    let i = last_index_of(keys_of(points), name);
    if i >= 0 { Some(points[i].1) } else { None }
}

/// An entry configured after the others decides the id of its name, and the
/// ids of the other names stay as they were; a name never configured has no id.
pub proof fn lemma_last_entry_wins(points: Seq<(String, usize)>, entry: (String, usize), name: Seq<char>)
    ensures
        point_id_of(points.push(entry), entry.0@) == Some(entry.1),
        name != entry.0@ ==> point_id_of(points.push(entry), name) == point_id_of(points, name),
        point_id_of(Seq::<(String, usize)>::empty(), name) is None,
{
    let all = points.push(entry);
    assert(keys_of(all).drop_last() =~= keys_of(points));
    assert(keys_of(all).last() == entry.0@);
    lemma_last_index_of(keys_of(points), name);
    if name != entry.0@ {
        let i = last_index_of(keys_of(points), name);
        if i >= 0 {
            assert(all[i] == points[i]);
        }
    }
}

/// ### Function | `FnPointId`
///
/// Returns the id configured for the point of its input, as an integer point
/// named after the node, with the status, cause and timestamp of the input.
/// A point without a configured id is an error.
#[derive(Debug)]
pub struct FnPointId<I> {
    txid: usize,
    input: I,
    points: Vec<(String, usize)>,
    id: String,
}

impl<I> FnPointId<I> {
    /// The node's identifier.
    pub closed spec fn id_spec(&self) -> Seq<char> {
        self.id@
    }

    /// The node's transaction id.
    pub closed spec fn txid_spec(&self) -> usize {
        self.txid
    }

    /// The configured points: names and ids.
    pub closed spec fn points_spec(&self) -> Seq<(String, usize)> {
        self.points@
    }

    /// Returns a new `FnPointId` with the configured `points` (name, id).
    pub fn new(parent: &str, seq: usize, txid: usize, input: I, points: Vec<(String, usize)>) -> (r: Self)
        ensures
            r.id_spec() == node_id_text(parent@, "FnPointId"@, seq),
            r.txid_spec() == txid,
            r.points_spec() == points@,
    {
        FnPointId { txid, input, points, id: node_id(parent, "FnPointId", seq) }
    }

    /// Returns the node's identifier.
    pub fn id(&self) -> (r: String)
        ensures
            r@ == self.id_spec(),
    {
        self.id.clone()
    }

    /// Returns the kind of the node.
    pub fn kind(&self) -> (r: FnKind)
        ensures
            r == FnKind::Fn,
    {
        FnKind::Fn
    }

    /// The input: the node's `input`.
    pub closed spec fn input_spec(&self) -> I {
        self.input
    }

    /// The node with `v` in place of its `input`.
    pub closed spec fn with_input(&self, v: I) -> Self {
        FnPointId { input: v, ..*self }
    }

    /// The input. Returns a reference to it; the node is otherwise unchanged.
    pub fn input(&mut self) -> (r: &mut I)
        ensures
            *r == old(self).input_spec(),
            *final(self) == old(self).with_input(*final(r)),
    {
        &mut self.input
    }

    /// Evaluates the node on the result of its input.
    pub fn out(&self, input: FnResult<FnFlow, String>) -> (r: FnResult<FnFlow, String>)
        ensures
            match input {
                Err(e) => r == Err::<Option<FnFlow>, String>(e),
                Ok(None) => r == Ok::<Option<FnFlow>, String>(None),
                Ok(Some(f)) => match point_id_of(self.points_spec(), f.point()@.name) {
                    None => r matches Err(m)
                        && m@ == self.id_spec() + ".out | Point '"@ + f.point()@.name + "' - not found in configured points"@,
                    Some(n) => r matches Ok(Some(g)) && g.fresh() == f.fresh() && g.point()@ == PointView {
                        txid: self.txid_spec(),
                        name: self.id_spec(),
                        value: ValueView::Int(n as i64),
                        ..f.point()@
                    },
                },
            },
    {
        let f = match input {
            Err(e) => return Err(e),
            Ok(None) => return Ok(None),
            Ok(Some(f)) => f,
        };
        let fresh = f.is_new();
        let p = f.into_value();
        proof { lemma_last_index_of(keys_of(self.points@), p.name@); }
        let n = match find_last(&self.points, &p.name) {
            Some(i) => self.points[i].1,
            None => return Err(self.id.clone().concat(".out | Point '").concat(p.name.as_str()).concat("' - not found in configured points")),
        };
        let q = p.derive_with(self.txid, self.id.clone(), PointValue::Int(n as i64));
        if fresh { Ok(Some(FnFlow::New(q))) } else { Ok(Some(FnFlow::Old(q))) }
    }
}

} // verus!
