//! `FnRetainWrite`: hands a point over to be retained when it changes.
use vstd::prelude::*;
use crate::point::{Point, PointView, opt_view, same_value, copy_string};
use crate::fn_flow::{FnFlow, FnResult, FnKind, FlowView, result_view};
use crate::text::{node_id, node_id_text};

verus! {

/// A request to retain `value` under `key`.
#[derive(Debug)]
pub struct RetainEvent {
    pub key: String,
    pub value: Point,
}

/// `true` when `p` differs from the cached point in value, status or timestamp.
pub open spec fn retain_changed(cache: Option<PointView>, p: PointView) -> bool {
    match cache {
        None => true,
        Some(c) => !same_value(c.value, p.value) || c.status != p.status || c.ts != p.ts,
    }
}

/// The result, the new cache and the point to retain, for the point `p` passed on.
pub open spec fn retain_pass(cache: Option<PointView>, fresh: bool, p: PointView)
    -> (Result<Option<FlowView>, Seq<char>>, Option<PointView>, Option<PointView>)
{
    if retain_changed(cache, p) {
        (Ok(Some(FlowView { fresh, point: p })), Some(p), Some(p))
    } else {
        (Ok(Some(FlowView { fresh, point: p })), cache, None)
    }
}

/// The result, the new cache and the point to retain for the results of `input`
/// and `default` (when the node has one): the input's point, else the default's (as `Old`).
pub open spec fn retain_write_step(
    cache: Option<PointView>,
    input: FnResult<FnFlow, String>,
    default: Option<FnResult<FnFlow, String>>,
) -> (Result<Option<FlowView>, Seq<char>>, Option<PointView>, Option<PointView>) {
    match input {
        Err(e) => (Err(e@), cache, None),
        Ok(Some(f)) => retain_pass(cache, f.fresh(), f.point()@),
        Ok(None) => match default {
            Some(Err(e)) => (Err(e@), cache, None),
            Some(Ok(Some(g))) => retain_pass(cache, false, g.point()@),
            _ => (Ok(None), cache, None),
        },
    }
}

/// ### Function | `FnRetainWrite`
///
/// Passes its input on unchanged and hands the point over to be retained under
/// `key` whenever its value, status or timestamp changes. When the input has no
/// value, the `default` input is passed on (as `Old`) and retained.
#[derive(Debug)]
pub struct FnRetainWrite<I> {
    key: String,
    default: Option<I>,
    input: I,
    cache: Option<Point>,
    id: String,
}

impl<I> FnRetainWrite<I> {
    /// The node's identifier.
    pub closed spec fn id_spec(&self) -> Seq<char> {
        self.id@
    }

    /// The key the points are retained under.
    pub closed spec fn key_spec(&self) -> Seq<char> {
        self.key@
    }

    /// The node has a `default` input.
    pub closed spec fn has_default(&self) -> bool {
        self.default is Some
    }

    /// The last point handed over.
    pub closed spec fn cache(&self) -> Option<PointView> {
        opt_view(self.cache)
    }

    /// Returns a new `FnRetainWrite` retaining `input` under `key`.
    pub fn new(parent: &str, seq: usize, key: &str, default: Option<I>, input: I) -> (r: Self)
        ensures
            r.id_spec() == node_id_text(parent@, "FnRetainWrite"@, seq),
            r.key_spec() == key@,
            r.has_default() == default is Some,
            r.cache() is None,
    {
        FnRetainWrite {
            key: String::from_str(key),
            default,
            input,
            cache: None,
            id: node_id(parent, "FnRetainWrite", seq),
        }
    }

    /// Returns the node's identifier.
    pub fn id(&self) -> (r: String)
        ensures
            r@ == self.id_spec(),
    {
        self.id.clone()
    }

    /// Returns the kind of the node.
    pub fn kind(&self) -> (r: FnKind)
        ensures
            r == FnKind::Fn,
    {
        FnKind::Fn
    }

    /// The input: the node's `input`.
    pub closed spec fn input_spec(&self) -> I {
        self.input
    }

    /// The node with `v` in place of its `input`.
    pub closed spec fn with_input(&self, v: I) -> Self {
        FnRetainWrite { input: v, ..*self }
    }

    /// The input. Returns a reference to it; the node is otherwise unchanged.
    pub fn input(&mut self) -> (r: &mut I)
        ensures
            *r == old(self).input_spec(),
            *final(self) == old(self).with_input(*final(r)),
    {
        &mut self.input
    }

    /// The `default` input: the node's `default`.
    pub closed spec fn default_input_spec(&self) -> Option<I> {
        self.default
    }

    /// The node with `v` in place of its `default`.
    pub closed spec fn with_default_input(&self, v: Option<I>) -> Self {
        FnRetainWrite { default: v, ..*self }
    }

    /// The `default` input. Returns a reference to it; the node is otherwise unchanged.
    pub fn default_input(&mut self) -> (r: &mut Option<I>)
        ensures
            *r == old(self).default_input_spec(),
            *final(self) == old(self).with_default_input(*final(r)),
    {
        &mut self.default
    }

    /// Evaluates the node on the results of `input` and of `default` (when the
    /// node has one); returns its result and the point to retain, if any.
    pub fn out(&mut self, input: FnResult<FnFlow, String>, default: Option<FnResult<FnFlow, String>>)
        -> (r: (FnResult<FnFlow, String>, Option<RetainEvent>))
        requires
            default is Some == old(self).has_default(),
        ensures
            ({
                let (res, cache, sent) = retain_write_step(old(self).cache(), input, default);
                &&& result_view(r.0) == res
                &&& final(self).cache() == cache
                &&& match sent {
                    None => r.1 is None,
                    Some(p) => r.1 matches Some(ev) && ev.key@ == old(self).key_spec() && ev.value@ == p,
                }
            }),
            final(self).id_spec() == old(self).id_spec(),
            final(self).key_spec() == old(self).key_spec(),
            final(self).has_default() == old(self).has_default(),
    {
        let (fresh, point) = match input {
            Err(e) => return (Err(e), None),
            Ok(Some(f)) => (f.is_new(), f.into_value()),
            Ok(None) => match default {
                Some(Err(e)) => return (Err(e), None),
                Some(Ok(Some(g))) => (false, g.into_value()),
                _ => return (Ok(None), None),
            },
        };
        let is_changed = match &self.cache {
            Some(cache) => !cache.value.same_as(&point.value) || cache.status != point.status || cache.ts != point.ts,
            None => true,
        };
        let event = if is_changed {
            self.cache = Some(point.copy());
            Some(RetainEvent { key: copy_string(&self.key), value: point.copy() })
        } else {
            None
        };
        let result = if fresh { Ok(Some(FnFlow::New(point))) } else { Ok(Some(FnFlow::Old(point))) };
        (result, event)
    }

    /// Forgets the last point handed over, so that the next one is retained.
    pub fn reset(&mut self)
        ensures
            final(self).cache() is None,
            final(self).id_spec() == old(self).id_spec(),
            final(self).key_spec() == old(self).key_spec(),
            final(self).has_default() == old(self).has_default(),
    {
        self.cache = None;
    }
}

/// Transparency: the point passed on is the input's point, with its freshness,
/// whenever the input has a value.
pub proof fn lemma_write_is_transparent(cache: Option<PointView>, f: FnFlow, default: Option<FnResult<FnFlow, String>>)
    ensures
        retain_write_step(cache, Ok(Some(f)), default).0 == Ok::<Option<FlowView>, Seq<char>>(Some(f@)),
{
}

/// A point equal in value, status and timestamp to the last one retained is not retained again.
pub proof fn lemma_unchanged_not_retained(cache: Option<PointView>, f: FnFlow, g: FnFlow)
    requires
        f.point()@.value == g.point()@.value,
        f.point()@.status == g.point()@.status,
        f.point()@.ts == g.point()@.ts,
        same_value(f.point()@.value, f.point()@.value),
    ensures
        retain_write_step(retain_write_step(cache, Ok(Some(f)), None).1, Ok(Some(g)), None).2 is None,
{
}

} // verus!
