//! `FnRetainRead`: reads a retained point, by default only once.
use vstd::prelude::*;
use crate::point::{Point, PointView, opt_view, same_value};
use crate::fn_flow::{FnFlow, FnResult, FnKind, FlowView, result_view};
use crate::text::{node_id, node_id_text};
use crate::point::copy_string;

verus! {

/// The result and the new cache of `FnRetainRead` for the cache `cache`, the
/// retained point `stored` and the result of the `default` input (when the
/// node has one and it was polled).
pub open spec fn retain_read_step(
    every_cycle: bool,
    has_default: bool,
    cache: Option<PointView>,
    stored: Option<PointView>,
    default: Option<FnResult<FnFlow, String>>,
) -> (Result<Option<FlowView>, Seq<char>>, Option<PointView>) {
    if !every_cycle && cache is Some {
        (Ok(Some(FlowView { fresh: false, point: cache.unwrap() })), cache)
    } else {
        match stored {
            Some(v) => if every_cycle && (cache matches Some(c) && same_value(c.value, v.value) && c.status == v.status) {
                (Ok(Some(FlowView { fresh: false, point: v })), cache)
            } else {
                (Ok(Some(FlowView { fresh: true, point: v })), Some(v))
            },
            None => if !has_default {
                (Ok(None), cache)
            } else {
                match default {
                    Some(Err(e)) => (Err(e@), cache),
                    Some(Ok(Some(f))) => if every_cycle {
                        (Ok(Some(f@)), cache)
                    } else {
                        (Ok(Some(FlowView { fresh: true, point: f.point()@ })), Some(f.point()@))
                    },
                    _ => (Ok(None), cache),
                }
            },
        }
    }
}

/// ### Function | `FnRetainRead`
///
/// Reads the point retained under `key`. By default the retained point is read
/// in the first cycle only and the cached point is returned (`Old`) afterwards;
/// with `every_cycle` it is read each cycle and is `New` when its value or status
/// changed. When nothing is retained the `default` input is used.
#[derive(Debug)]
pub struct FnRetainRead<I> {
    txid: usize,
    key: String,
    every_cycle: bool,
    default: Option<I>,
    cache: Option<Point>,
    id: String,
}

impl<I> FnRetainRead<I> {
    /// The node's identifier.
    pub closed spec fn id_spec(&self) -> Seq<char> {
        self.id@
    }

    /// The key of the retained point.
    pub closed spec fn key_spec(&self) -> Seq<char> {
        self.key@
    }

    /// The point is read every cycle.
    pub closed spec fn every_cycle_spec(&self) -> bool {
        self.every_cycle
    }

    /// The node has a `default` input.
    pub closed spec fn has_default(&self) -> bool {
        self.default is Some
    }

    /// The cached point.
    pub closed spec fn cache(&self) -> Option<PointView> {
        opt_view(self.cache)
    }

    /// `true` when the retained point must be read in this cycle.
    pub open spec fn reads(&self) -> bool {
        self.every_cycle_spec() || self.cache() is None
    }

    /// Returns a new `FnRetainRead` of the point retained under `key`.
    pub fn new(parent: &str, seq: usize, txid: usize, key: &str, every_cycle: bool, default: Option<I>) -> (r: Self)
        ensures
            r.id_spec() == node_id_text(parent@, "FnRetainRead"@, seq),
            r.key_spec() == key@,
            r.every_cycle_spec() == every_cycle,
            r.has_default() == default is Some,
            r.cache() is None,
    {
        FnRetainRead {
            txid,
            key: String::from_str(key),
            every_cycle,
            default,
            cache: None,
            id: node_id(parent, "FnRetainRead", seq),
        }
    }

    /// Returns the node's identifier.
    pub fn id(&self) -> (r: String)
        ensures
            r@ == self.id_spec(),
    {
        self.id.clone()
    }

    /// Returns the kind of the node.
    pub fn kind(&self) -> (r: FnKind)
        ensures
            r == FnKind::Fn,
    {
        FnKind::Fn
    }

    /// Returns the key of the retained point.
    pub fn key(&self) -> (r: String)
        ensures
            r@ == self.key_spec(),
    {
        copy_string(&self.key)
    }

    /// The `default` input: the node's `default`.
    pub closed spec fn default_input_spec(&self) -> Option<I> {
        self.default
    }

    /// The node with `v` in place of its `default`.
    pub closed spec fn with_default_input(&self, v: Option<I>) -> Self {
        FnRetainRead { default: v, ..*self }
    }

    /// The `default` input. Returns a reference to it; the node is otherwise unchanged.
    pub fn default_input(&mut self) -> (r: &mut Option<I>)
        ensures
            *r == old(self).default_input_spec(),
            *final(self) == old(self).with_default_input(*final(r)),
    {
        &mut self.default
    }

    /// Returns `true` when the retained point must be read in this cycle.
    pub fn needs_read(&self) -> (r: bool)
        ensures
            r == self.reads(),
    {
        self.every_cycle || self.cache.is_none()
    }

    /// Returns `true` when the `default` input must be polled, `stored` being
    /// what was read of the retained point.
    pub fn needs_default(&self, stored: &Option<Point>) -> (r: bool)
        ensures
            r == (self.reads() && stored is None && self.has_default()),
    {
        (self.every_cycle || self.cache.is_none()) && stored.is_none() && self.default.is_some()
    }

    /// Evaluates the node: `stored` is the retained point read (when
    /// `needs_read`), `default` the result of the `default` input (when `needs_default`).
    pub fn out(&mut self, stored: Option<Point>, default: Option<FnResult<FnFlow, String>>) -> (r: FnResult<FnFlow, String>)
        requires
            old(self).reads() && stored is None && old(self).has_default() ==> default is Some,
        ensures
            ({
                let (res, cache) = retain_read_step(old(self).every_cycle_spec(), old(self).has_default(), old(self).cache(), opt_view(stored), default);
                &&& result_view(r) == res
                &&& final(self).cache() == cache
            }),
            final(self).id_spec() == old(self).id_spec(),
            final(self).key_spec() == old(self).key_spec(),
            final(self).every_cycle_spec() == old(self).every_cycle_spec(),
            final(self).has_default() == old(self).has_default(),
    {
        if !self.every_cycle {
            if let Some(val) = &self.cache {
                return Ok(Some(FnFlow::Old(val.copy())));
            }
        }
        match stored {
            Some(val) => {
                if self.every_cycle {
                    if let Some(cached) = &self.cache {
                        if cached.value.same_as(&val.value) && cached.status == val.status {
                            return Ok(Some(FnFlow::Old(val)));
                        }
                    }
                }
                self.cache = Some(val.copy());
                Ok(Some(FnFlow::New(val)))
            }
            None => {
                if self.default.is_none() {
                    return Ok(None);
                }
                match default {
                    Some(Err(e)) => Err(e),
                    Some(Ok(Some(f))) => {
                        if self.every_cycle {
                            Ok(Some(f))
                        } else {
                            let p = f.into_value();
                            self.cache = Some(p.copy());
                            Ok(Some(FnFlow::New(p)))
                        }
                    }
                    _ => Ok(None),
                }
            }
        }
    }

    /// Forgets the cached point.
    pub fn reset(&mut self)
        ensures
            final(self).cache() is None,
            final(self).id_spec() == old(self).id_spec(),
            final(self).key_spec() == old(self).key_spec(),
            final(self).every_cycle_spec() == old(self).every_cycle_spec(),
            final(self).has_default() == old(self).has_default(),
    {
        self.cache = None;
    }
}

/// Read once: without `every_cycle`, once a point is cached, every later
/// evaluation returns it as `Old`, whatever is retained or given by `default`.
pub proof fn lemma_read_once(
    has_default: bool,
    cache: Option<PointView>,
    stored: Option<PointView>,
    default: Option<FnResult<FnFlow, String>>,
    stored2: Option<PointView>,
    default2: Option<FnResult<FnFlow, String>>,
)
    requires
        retain_read_step(false, has_default, cache, stored, default).1 matches Some(_),
    ensures
        ({
            let c = retain_read_step(false, has_default, cache, stored, default).1;
            retain_read_step(false, has_default, c, stored2, default2)
                == (Ok::<Option<FlowView>, Seq<char>>(Some(FlowView { fresh: false, point: c.unwrap() })), c)
        }),
{
}

} // verus!
