//! `FnIsChangedValue`: detects a change of value on any of its inputs.
use vstd::prelude::*;
use crate::point::{Point, PointValue, PointView, ValueView, same_value, copy_string};
use crate::point_meta::{PointMeta, meta_default, meta_latest};
use crate::fn_flow::{FnFlow, FnResult, FnKind, FlowContext, Outcome, outcome_of};
use crate::assoc::{keys_of, last_index_of, lemma_last_index_of, find_last};
use crate::text::{node_id, node_id_text};

verus! {

/// The view of the remembered values, by input name.
pub open spec fn values_view(state: Seq<(String, PointValue)>) -> Seq<(Seq<char>, ValueView)> {
    state.map_values(|e: (String, PointValue)| (e.0@, e.1@))
}

/// The progress of one evaluation over the inputs.
pub struct Scan {
    /// An input failed; the inputs after it are not looked at.
    pub failed: bool,
    /// Some input has a value.
    pub active: bool,
    /// Some input changed its value.
    pub changed: bool,
    /// Metadata of the changed inputs.
    pub meta: Option<PointMeta>,
    /// Metadata of all the inputs with a value.
    pub fallback: PointMeta,
    /// The remembered values.
    pub values: Seq<(Seq<char>, ValueView)>,
}

/// `Scan` after the input result `r`.
pub open spec fn scan_one(s: Scan, r: FnResult<FnFlow, String>) -> Scan {
    if s.failed {
        s
    } else {
        match r {
            Err(_) => Scan { failed: true, active: s.active, changed: s.changed, meta: s.meta, fallback: s.fallback, values: s.values },
            Ok(None) => s,
            Ok(Some(f)) => {
                let p = f.point()@;
                let fallback = meta_latest(s.fallback, p);
                let i = last_index_of(s.values.map_values(|e: (Seq<char>, ValueView)| e.0), p.name);
                if i >= 0 && same_value(s.values[i].1, p.value) {
                    Scan { failed: false, active: true, changed: s.changed, meta: s.meta, fallback, values: s.values }
                } else {
                    let values = if i >= 0 { s.values.update(i, (p.name, p.value)) } else { s.values.push((p.name, p.value)) };
                    let m = match s.meta { Some(m) => m, None => meta_default() };
                    Scan { failed: false, active: true, changed: true, meta: Some(meta_latest(m, p)), fallback, values }
                }
            },
        }
    }
}

/// `Scan` after the input results `rs`, in order.
pub open spec fn scan(s: Scan, rs: Seq<FnResult<FnFlow, String>>) -> Scan
    decreases rs.len(),
{
    if rs.len() == 0 {
        s
    } else {
        scan_one(scan(s, rs.drop_last()), rs.last())
    }
}

/// The scan an evaluation starts from.
pub open spec fn scan_start(values: Seq<(Seq<char>, ValueView)>) -> Scan {
    Scan { failed: false, active: false, changed: false, meta: None, fallback: meta_default(), values }
}

/// The outcome of `FnIsChangedValue` named `id` after the scan `s`, and the new previous output.
pub open spec fn changed_outcome(id: Seq<char>, txid: usize, prev: Option<bool>, s: Scan) -> (Outcome, Option<bool>) {
    if s.failed {
        (Outcome::Fail, prev)
    } else if !s.active {
        (Outcome::Silent, None)
    } else {
        let m = match s.meta { Some(m) => m, None => s.fallback };
        let p = PointView { txid, name: id, value: ValueView::Bool(s.changed), status: m.status, cot: m.cot, ts: m.ts };
        (Outcome::Emit(s.changed || prev == Some(true), p), Some(s.changed))
    }
}

/// Once an evaluation has seen a change, the inputs read after it do not undo it.
proof fn lemma_change_stays(start: Scan, rs: Seq<FnResult<FnFlow, String>>, k: int, n: int)
    requires
        0 <= k <= n <= rs.len(),
        scan(start, rs.take(k)).changed,
    ensures
        scan(start, rs.take(n)).changed,
    decreases n - k,
{
    if k < n {
        assert(rs.take(k + 1).drop_last() =~= rs.take(k));
        lemma_change_stays(start, rs, k + 1, n);
    }
}

/// An input whose value differs from the value remembered under its name (or
/// whose name is not remembered yet) makes the output `true`, whatever the
/// other inputs read, before or after it: only an input that fails before it
/// stops the evaluation.
pub proof fn lemma_any_change_is_reported(
    id: Seq<char>,
    txid: usize,
    prev: Option<bool>,
    values: Seq<(Seq<char>, ValueView)>,
    rs: Seq<FnResult<FnFlow, String>>,
    i: int,
)
    requires
        0 <= i < rs.len(),
        !scan(scan_start(values), rs.take(i)).failed,
        rs[i] matches Ok(Some(f)) && ({
            let seen = scan(scan_start(values), rs.take(i)).values;
            let j = last_index_of(seen.map_values(|e: (Seq<char>, ValueView)| e.0), f.point()@.name);
            j < 0 || !same_value(seen[j].1, f.point()@.value)
        }),
    ensures
        scan(scan_start(values), rs).changed,
        changed_outcome(id, txid, prev, scan(scan_start(values), rs)).0 matches Outcome::Emit(_, p)
            ==> p.value == ValueView::Bool(true),
{
    let start = scan_start(values);
    assert(rs.take(i + 1).drop_last() =~= rs.take(i));
    assert(rs.take(i + 1).last() == rs[i]);
    assert(scan(start, rs.take(i + 1)).changed);
    lemma_change_stays(start, rs, i + 1, rs.len() as int);
    assert(rs.take(rs.len() as int) =~= rs);
}

/// ### Function | `FnIsChangedValue`
///
/// Returns `true` when the value of any of its inputs (told apart by point
/// name) changed since the last time it was seen, `false` otherwise. The result
/// is `New` on a change and on the cycle after it, so that the pulse is also
/// reset by an event.
#[derive(Debug)]
pub struct FnIsChangedValue<I> {
    id: String,
    txid: usize,
    inputs: Vec<I>,
    state: Vec<(String, PointValue)>,
    prev: Option<bool>,
}

impl<I> FnIsChangedValue<I> {
    /// The node's identifier.
    pub closed spec fn id_spec(&self) -> Seq<char> {
        self.id@
    }

    /// The transaction id of the node's points.
    pub closed spec fn txid_spec(&self) -> usize {
        self.txid
    }

    /// The remembered values, by input name.
    pub closed spec fn values(&self) -> Seq<(Seq<char>, ValueView)> {
        values_view(self.state@)
    }

    /// The previous output value.
    pub closed spec fn prev(&self) -> Option<bool> {
        self.prev
    }

    /// The number of inputs.
    pub closed spec fn input_count(&self) -> nat {
        self.inputs.len() as nat
    }

    /// Returns a new `FnIsChangedValue` on `inputs`, its points carrying `txid`.
    pub fn new(parent: &str, seq: usize, txid: usize, inputs: Vec<I>) -> (r: Self)
        ensures
            r.id_spec() == node_id_text(parent@, "FnIsChangedValue"@, seq),
            r.txid_spec() == txid,
            r.values().len() == 0,
            r.prev() is None,
            r.input_count() == inputs.len(),
    {
        let r = FnIsChangedValue {
            id: node_id(parent, "FnIsChangedValue", seq),
            txid,
            inputs,
            state: Vec::new(),
            prev: None,
        };
        assert(r.values() =~= Seq::<(Seq<char>, ValueView)>::empty());
        r
    }

    /// Returns the node's identifier.
    pub fn id(&self) -> (r: String)
        ensures
            r@ == self.id_spec(),
    {
        self.id.clone()
    }

    /// Returns the kind of the node.
    pub fn kind(&self) -> (r: FnKind)
        ensures
            r == FnKind::Fn,
    {
        FnKind::Fn
    }

    /// The inputs: the node's `inputs`.
    pub closed spec fn inputs_spec(&self) -> Vec<I> {
        self.inputs
    }

    /// The node with `v` in place of its `inputs`.
    pub closed spec fn with_inputs(&self, v: Vec<I>) -> Self {
        FnIsChangedValue { inputs: v, ..*self }
    }

    /// The inputs. Returns a reference to it; the node is otherwise unchanged.
    pub fn inputs(&mut self) -> (r: &mut Vec<I>)
        ensures
            *r == old(self).inputs_spec(),
            *final(self) == old(self).with_inputs(*final(r)),
    {
        &mut self.inputs
    }

    /// Evaluates the node on the results of its inputs, in their order.
    pub fn out(&mut self, results: Vec<FnResult<FnFlow, String>>) -> (r: FnResult<FnFlow, String>)
        requires
            results.len() == old(self).input_count(),
        ensures
            ({
                let s = scan(scan_start(old(self).values()), results@);
                let (o, p) = changed_outcome(old(self).id_spec(), old(self).txid_spec(), old(self).prev(), s);
                &&& outcome_of(r) == o
                &&& final(self).prev() == p
                &&& final(self).values() == s.values
            }),
            final(self).id_spec() == old(self).id_spec(),
            final(self).txid_spec() == old(self).txid_spec(),
            final(self).input_count() == old(self).input_count(),
    {
        let ghost start = scan_start(self.values());
        let mut fallback = PointMeta::default();
        let mut meta: Option<PointMeta> = None;
        let mut val = false;
        let mut has_active = false;
        let mut i: usize = 0;
        while i < results.len()
            invariant
                0 <= i <= results.len(),
                self.id == old(self).id,
                self.txid == old(self).txid,
                self.prev == old(self).prev,
                self.inputs == old(self).inputs,
                start == scan_start(old(self).values()),
                scan(start, results@.take(i as int)) == (Scan {
                    failed: false, active: has_active, changed: val, meta, fallback, values: values_view(self.state@),
                }),
            decreases results.len() - i,
        {
            assert(results@.take(i + 1).drop_last() =~= results@.take(i as int));
            match &results[i] {
                Err(e) => {
                    proof {
                        lemma_failed_scan_stays(start, results@, i as int);
                    }
                    return Err(e.clone());
                }
                Ok(None) => {}
                Ok(Some(flow)) => {
                    let point = flow.value();
                    has_active = true;
                    fallback = fallback.update_latest(point);
                    let ghost vals = values_view(self.state@);
                    proof {
                        assert(keys_of(self.state@) =~= vals.map_values(|e: (Seq<char>, ValueView)| e.0));
                        lemma_last_index_of(keys_of(self.state@), point.name@);
                    }
                    match find_last(&self.state, &point.name) {
                        Some(k) => {
                            if !self.state[k].1.same_as(&point.value) {
                                let m = match meta { Some(m) => m, None => PointMeta::default() };
                                meta = Some(m.update_latest(point));
                                self.state.set(k, (copy_string(&point.name), point.value.copy()));
                                val = true;
                                assert(values_view(self.state@) =~= vals.update(k as int, (point@.name, point@.value)));
                            }
                        }
                        None => {
                            let m = match meta { Some(m) => m, None => PointMeta::default() };
                            meta = Some(m.update_latest(point));
                            self.state.push((copy_string(&point.name), point.value.copy()));
                            val = true;
                            assert(values_view(self.state@) =~= vals.push((point@.name, point@.value)));
                        }
                    }
                }
            }
            i = i + 1;
        }
        assert(results@.take(results.len() as int) =~= results@);
        if !has_active {
            self.prev = None;
            return Ok(None);
        }
        let m = match meta { Some(m) => m, None => fallback };
        let value = Point::new(self.txid, self.id.clone(), PointValue::Bool(val), m.status, m.cot, m.ts);
        let is_changed = val || self.prev == Some(true);
        self.prev = Some(val);
        let flow = FlowContext::new();
        if is_changed {
            flow.wrap_new(value)
        } else {
            flow.wrap_old(value)
        }
    }

    /// Forgets the remembered values and the previous output.
    pub fn reset(&mut self)
        ensures
            final(self).values().len() == 0,
            final(self).prev() is None,
            final(self).id_spec() == old(self).id_spec(),
            final(self).txid_spec() == old(self).txid_spec(),
            final(self).input_count() == old(self).input_count(),
    {
        self.state = Vec::new();
        self.prev = None;
        assert(self.values() =~= Seq::<(Seq<char>, ValueView)>::empty());
    }
}

/// Once an input failed, the scan stays as it was at the failure.
proof fn lemma_failed_scan_stays(start: Scan, rs: Seq<FnResult<FnFlow, String>>, i: int)
    requires
        0 <= i < rs.len(),
        rs[i] is Err,
        !scan(start, rs.take(i)).failed,
    ensures
        ({
            let t = scan(start, rs.take(i));
            scan(start, rs) == Scan { failed: true, active: t.active, changed: t.changed, meta: t.meta, fallback: t.fallback, values: t.values }
        }),
    decreases rs.len(),
{
    if rs.len() == i + 1 {
        assert(rs.drop_last() =~= rs.take(i));
    } else {
        assert(rs.drop_last().take(i) =~= rs.take(i));
        lemma_failed_scan_stays(start, rs.drop_last(), i);
    }
}

/// A change pulse is followed by a `New` result: after a cycle in which a value
/// changed, the next cycle with values reports `New` even when nothing changed.
pub proof fn lemma_change_pulse_is_reset_by_new(id: Seq<char>, txid: usize, prev: Option<bool>, s1: Scan, s2: Scan)
    requires
        changed_outcome(id, txid, prev, s1).0 matches Outcome::Emit(_, p) && p.value == ValueView::Bool(true),
        !s2.failed,
        s2.active,
    ensures
        changed_outcome(id, txid, changed_outcome(id, txid, prev, s1).1, s2).0 matches Outcome::Emit(fresh, _) && fresh,
{
}

} // verus!
