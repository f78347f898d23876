//! `FnRecOpCycleMetric`: records metrics over an operating cycle.
use vstd::prelude::*;
use crate::point::{Point, PointValue, PointView, opt_view, copy_string, truth_of};
use crate::fn_flow::{FnFlow, FnResult, FnKind, FlowContext, Outcome, outcome_of};
use crate::functions::fn_change::{change_flow, change_last, change_apply};
use crate::edge::{Edge, EdgeDetector, edge_between};
use crate::assoc::{keys_of, last_index_of, lemma_last_index_of, find_last};
use crate::text::{node_id, node_id_text};

verus! {

/// Phase of the operating cycle.
#[derive(Clone, Copy, Debug, PartialEq, Eq, Structural)]
pub enum OpCycle {
    /// No operating cycle is running.
    Idle,
    /// The operating cycle is running.
    Started,
    /// The operating cycle ended in this evaluation.
    Finished,
}

/// The phase reported and the phase kept after the signal `op`, from the phase `s`.
pub open spec fn cycle_next(s: OpCycle, op: bool) -> (OpCycle, OpCycle) {
    match s {
        OpCycle::Started => if op { (OpCycle::Started, OpCycle::Started) } else { (OpCycle::Finished, OpCycle::Idle) },
        _ => if op { (OpCycle::Started, OpCycle::Started) } else { (OpCycle::Idle, OpCycle::Idle) },
    }
}

/// Tracks the operating cycle from its signal.
#[derive(Debug)]
pub struct State {
    state: OpCycle,
}

impl State {
    /// The current phase: `Idle` or `Started`.
    pub closed spec fn phase(&self) -> OpCycle {
        self.state
    }

    /// Returns a state outside any operating cycle.
    pub fn new() -> (r: Self)
        ensures
            r.phase() == OpCycle::Idle,
    {
        State { state: OpCycle::Idle }
    }

    /// Takes the operating cycle signal; returns `Started` while the cycle
    /// runs, `Finished` once when it ends, `Idle` outside it.
    pub fn add(&mut self, op_cycle: bool) -> (r: OpCycle)
        requires
            old(self).phase() != OpCycle::Finished,
        ensures
            (r, final(self).phase()) == cycle_next(old(self).phase(), op_cycle),
            final(self).phase() != OpCycle::Finished,
    {
        match self.state {
            OpCycle::Started => if op_cycle {
                OpCycle::Started
            } else {
                self.state = OpCycle::Idle;
                OpCycle::Finished
            },
            _ => if op_cycle {
                self.state = OpCycle::Started;
                OpCycle::Started
            } else {
                OpCycle::Idle
            },
        }
    }

    /// Leaves the operating cycle.
    pub fn reset(&mut self)
        ensures
            final(self).phase() == OpCycle::Idle,
    {
        self.state = OpCycle::Idle;
    }
}

/// The view of the recorded values.
pub open spec fn records_view(v: Seq<(String, Point)>) -> Seq<(Seq<char>, PointView)> {
    v.map_values(|e: (String, Point)| (e.0@, e.1@))
}

/// Records `p` under `k`: replaces the value of an existing name in place, appends a new one.
pub open spec fn record(v: Seq<(Seq<char>, PointView)>, k: Seq<char>, p: PointView) -> Seq<(Seq<char>, PointView)> {
    let i = last_index_of(v.map_values(|e: (Seq<char>, PointView)| e.0), k);
    if i >= 0 { v.update(i, (k, p)) } else { v.push((k, p)) }
}

/// Records the string values among the (change-marked) input results `rs`,
/// named by `names`; stops at the first failure, which the flag reports.
pub open spec fn collect(v: Seq<(Seq<char>, PointView)>, names: Seq<Seq<char>>, rs: Seq<FnResult<FnFlow, String>>) -> (bool, Seq<(Seq<char>, PointView)>)
    decreases rs.len(),
{
    if rs.len() == 0 {
        (false, v)
    } else {
        let (failed, w) = collect(v, names, rs.drop_last());
        if failed {
            (true, w)
        } else {
            match rs.last() {
                Err(_) => (true, w),
                Ok(None) => (false, w),
                Ok(Some(g)) => if g.point()@.value is Str {
                    (false, record(w, names[rs.len() - 1], g.point()@))
                } else {
                    (false, w)
                },
            }
        }
    }
}

/// What an evaluation of the recorder leaves.
pub struct RecView {
    pub outcome: Outcome,
    pub phase: OpCycle,
    pub reset_prev: Option<bool>,
    pub values: Seq<(Seq<char>, PointView)>,
    pub sent: Seq<PointView>,
}

/// The reset phase: the phase and previous reset sample after the (change-marked)
/// `reset` result; `Err` when it fails or is not a number.
pub open spec fn reset_phase(phase: OpCycle, prev: Option<bool>, reset: Option<FnResult<FnFlow, String>>) -> Result<(OpCycle, Option<bool>), ()> {
    match reset {
        None => Ok((phase, prev)),
        Some(Err(_)) => Err(()),
        Some(Ok(None)) => Ok((phase, prev)),
        Some(Ok(Some(f))) => match truth_of(f.point()@.value) {
            None => Err(()),
            Some(v) => Ok((if edge_between(prev, v) == Some(Edge::Rising) { OpCycle::Idle } else { phase }, Some(v))),
        },
    }
}

/// One evaluation of the recorder on the change-marked results of `reset`, `op_cycle` and the inputs.
pub open spec fn rec_step(
    has_send: bool,
    phase: OpCycle,
    reset_prev: Option<bool>,
    values: Seq<(Seq<char>, PointView)>,
    names: Seq<Seq<char>>,
    reset: Option<FnResult<FnFlow, String>>,
    op: FnResult<FnFlow, String>,
    inputs: Seq<FnResult<FnFlow, String>>,
) -> RecView {
    match reset_phase(phase, reset_prev, reset) {
        Err(_) => RecView { outcome: Outcome::Fail, phase, reset_prev, values, sent: seq![] },
        Ok((p1, r1)) => match op {
            Err(_) => RecView { outcome: Outcome::Fail, phase: p1, reset_prev: r1, values, sent: seq![] },
            Ok(None) => RecView { outcome: Outcome::Silent, phase: p1, reset_prev: r1, values, sent: seq![] },
            Ok(Some(f)) => match truth_of(f.point()@.value) {
                None => RecView { outcome: Outcome::Fail, phase: p1, reset_prev: r1, values, sent: seq![] },
                Some(o) => {
                    let (ret, p2) = cycle_next(p1, o);
                    let emit = Outcome::Emit(f.fresh(), f.point()@);
                    if ret == OpCycle::Started {
                        let (failed, vals) = collect(values, names, inputs);
                        RecView { outcome: if failed { Outcome::Fail } else { emit }, phase: p2, reset_prev: r1, values: vals, sent: seq![] }
                    } else if ret == OpCycle::Finished {
                        RecView {
                            outcome: emit,
                            phase: p2,
                            reset_prev: r1,
                            values: seq![],
                            sent: if has_send { values.map_values(|e: (Seq<char>, PointView)| e.1) } else { seq![] },
                        }
                    } else {
                        RecView { outcome: emit, phase: p2, reset_prev: r1, values, sent: seq![] }
                    }
                },
            },
        },
    }
}

/// The change-marked results of the inputs.
pub open spec fn changed_all(lasts: Seq<Option<PointView>>, rs: Seq<FnResult<FnFlow, String>>) -> Seq<FnResult<FnFlow, String>> {
    Seq::new(rs.len(), |k: int| change_flow(lasts[k], rs[k]))
}

/// The remembered points of the inputs' change detectors after the results `rs`.
pub open spec fn lasts_after(lasts: Seq<Option<PointView>>, rs: Seq<FnResult<FnFlow, String>>) -> Seq<Option<PointView>> {
    Seq::new(rs.len(), |k: int| change_last(lasts[k], rs[k]))
}

/// The view of the remembered points of the inputs' change detectors.
pub open spec fn lasts_view(v: Seq<Option<Point>>) -> Seq<Option<PointView>> {
    v.map_values(|o: Option<Point>| opt_view(o))
}

/// ### Function | `FnRecOpCycleMetric`
///
/// Records the metrics of an operating cycle: while the `op-cycle` signal is
/// `true`, the string values (SQL) of its inputs are recorded by input name;
/// when the signal falls, the recorded values are handed over to be sent and
/// forgotten. A rising edge of `reset` leaves the operating cycle. Returns the
/// `op-cycle` signal. All the inputs are marked by change.
#[derive(Debug)]
pub struct FnRecOpCycleMetric<I, S> {
    id: String,
    send_to: Option<S>,
    reset: Option<I>,
    reset_last: Option<Point>,
    op_cycle: I,
    op_last: Option<Point>,
    inputs: Vec<(String, I)>,
    input_lasts: Vec<Option<Point>>,
    values: Vec<(String, Point)>,
    state: State,
    reset_edge: EdgeDetector,
}

impl<I, S> FnRecOpCycleMetric<I, S> {
    /// The node's identifier.
    pub closed spec fn id_spec(&self) -> Seq<char> {
        self.id@
    }

    /// `true` when the node has somewhere to send its records.
    pub closed spec fn has_send(&self) -> bool {
        self.send_to is Some
    }

    /// `true` when the node has a `reset` input.
    pub closed spec fn has_reset(&self) -> bool {
        self.reset is Some
    }

    /// The names of the recorded inputs.
    pub closed spec fn names(&self) -> Seq<Seq<char>> {
        keys_of(self.inputs@)
    }

    /// The phase of the operating cycle.
    pub closed spec fn phase(&self) -> OpCycle {
        self.state.phase()
    }

    /// The previous `reset` sample.
    pub closed spec fn reset_prev(&self) -> Option<bool> {
        self.reset_edge.last()
    }

    /// The recorded values.
    pub closed spec fn values(&self) -> Seq<(Seq<char>, PointView)> {
        records_view(self.values@)
    }

    /// The change state of `reset`.
    pub closed spec fn reset_last(&self) -> Option<PointView> {
        opt_view(self.reset_last)
    }

    /// The change state of `op-cycle`.
    pub closed spec fn op_last(&self) -> Option<PointView> {
        opt_view(self.op_last)
    }

    /// The change states of the inputs.
    pub closed spec fn input_lasts(&self) -> Seq<Option<PointView>> {
        lasts_view(self.input_lasts@)
    }

    /// The well-formedness of the node.
    pub closed spec fn wf(&self) -> bool {
        &&& self.input_lasts.len() == self.inputs.len()
        &&& self.state.phase() != OpCycle::Finished
    }

    /// Returns a new recorder.
    /// - `send_to`: where the records go at the end of an operating cycle
    /// - `reset`: a rising edge leaves the operating cycle
    /// - `op_cycle`: the operating cycle signal
    /// - `inputs`: the recorded inputs, by name
    pub fn new(parent: &str, seq: usize, send_to: Option<S>, reset: Option<I>, op_cycle: I, inputs: Vec<(String, I)>) -> (r: Self)
        ensures
            r.wf(),
            r.id_spec() == node_id_text(parent@, "FnRecOpCycleMetric"@, seq),
            r.has_send() == send_to is Some,
            r.has_reset() == reset is Some,
            r.names() == keys_of(inputs@),
            r.phase() == OpCycle::Idle,
            r.reset_prev() is None,
            r.values().len() == 0,
            r.reset_last() is None,
            r.op_last() is None,
            r.input_lasts() == Seq::new(inputs.len() as nat, |k: int| None::<PointView>),
    {
        let mut input_lasts: Vec<Option<Point>> = Vec::new();
        let mut k: usize = 0;
        while k < inputs.len()
            invariant
                k <= inputs.len(),
                input_lasts.len() == k,
                forall|j: int| 0 <= j < k ==> input_lasts@[j] is None,
            decreases inputs.len() - k,
        {
            input_lasts.push(None);
            k = k + 1;
        }
        let r = FnRecOpCycleMetric {
            id: node_id(parent, "FnRecOpCycleMetric", seq),
            send_to,
            reset,
            reset_last: None,
            op_cycle,
            op_last: None,
            inputs,
            input_lasts,
            values: Vec::new(),
            state: State::new(),
            reset_edge: EdgeDetector::new(),
        };
        assert(r.values() =~= Seq::<(Seq<char>, PointView)>::empty());
        assert(r.input_lasts() =~= Seq::new(r.inputs.len() as nat, |k: int| None::<PointView>));
        r
    }

    /// Returns the node's identifier.
    pub fn id(&self) -> (r: String)
        ensures
            r@ == self.id_spec(),
    {
        self.id.clone()
    }

    /// Returns the kind of the node.
    pub fn kind(&self) -> (r: FnKind)
        ensures
            r == FnKind::Fn,
    {
        FnKind::Fn
    }

    /// Where the records go: the node's `send_to`.
    pub closed spec fn send_to_spec(&self) -> Option<S> {
        self.send_to
    }

    /// Where the records go.
    pub fn send_to(&self) -> (r: &Option<S>)
        ensures
            *r == self.send_to_spec(),
    {
        &self.send_to
    }

    /// The `reset` input: the node's `reset`.
    pub closed spec fn reset_input_spec(&self) -> Option<I> {
        self.reset
    }

    /// The node with `v` in place of its `reset`.
    pub closed spec fn with_reset_input(&self, v: Option<I>) -> Self {
        FnRecOpCycleMetric { reset: v, ..*self }
    }

    /// The `reset` input. Returns a reference to it; the node is otherwise unchanged.
    pub fn reset_input(&mut self) -> (r: &mut Option<I>)
        ensures
            *r == old(self).reset_input_spec(),
            *final(self) == old(self).with_reset_input(*final(r)),
    {
        &mut self.reset
    }

    /// The `op-cycle` input: the node's `op_cycle`.
    pub closed spec fn op_cycle_spec(&self) -> I {
        self.op_cycle
    }

    /// The node with `v` in place of its `op_cycle`.
    pub closed spec fn with_op_cycle(&self, v: I) -> Self {
        FnRecOpCycleMetric { op_cycle: v, ..*self }
    }

    /// The `op-cycle` input. Returns a reference to it; the node is otherwise unchanged.
    pub fn op_cycle(&mut self) -> (r: &mut I)
        ensures
            *r == old(self).op_cycle_spec(),
            *final(self) == old(self).with_op_cycle(*final(r)),
    {
        &mut self.op_cycle
    }

    /// The recorded inputs: the node's `inputs`.
    pub closed spec fn inputs_spec(&self) -> Vec<(String, I)> {
        self.inputs
    }

    /// The recorded inputs.
    pub fn inputs(&self) -> (r: &Vec<(String, I)>)
        ensures
            *r == self.inputs_spec(),
    {
        &self.inputs
    }

    /// Evaluates the recorder on the results of `reset` (when it exists),
    /// `op-cycle` and the recorded inputs; returns its result and the points to send.
    pub fn out(
        &mut self,
        reset: Option<FnResult<FnFlow, String>>,
        op_cycle: FnResult<FnFlow, String>,
        inputs: Vec<FnResult<FnFlow, String>>,
    ) -> (r: (FnResult<FnFlow, String>, Vec<Point>))
        requires
            old(self).wf(),
            reset is Some == old(self).has_reset(),
            inputs.len() == old(self).names().len(),
        ensures
            final(self).wf(),
            ({
                let chr = match reset { Some(x) => Some(change_flow(old(self).reset_last(), x)), None => None };
                let cho = change_flow(old(self).op_last(), op_cycle);
                let chi = changed_all(old(self).input_lasts(), inputs@);
                let v = rec_step(old(self).has_send(), old(self).phase(), old(self).reset_prev(), old(self).values(),
                    old(self).names(), chr, cho, chi);
                &&& outcome_of(r.0) == v.outcome
                &&& (v.outcome matches Outcome::Emit(_, _) ==> r.0 == Ok::<Option<FnFlow>, String>(Some(cho->Ok_0.unwrap())))
                &&& final(self).phase() == v.phase
                &&& final(self).reset_prev() == v.reset_prev
                &&& final(self).values() == v.values
                &&& r.1@.map_values(|p: Point| p@) == v.sent
                &&& final(self).input_lasts() == lasts_after(old(self).input_lasts(), inputs@)
                &&& final(self).op_last() == change_last(old(self).op_last(), op_cycle)
            }),
            reset matches Some(Err(e)) ==> r.0 == Err::<Option<FnFlow>, String>(e),
            op_cycle matches Err(e) ==> (match reset {
                None | Some(Ok(None)) => true,
                Some(Ok(Some(f))) => truth_of(f.point()@.value) is Some,
                Some(Err(_)) => false,
            } ==> r.0 == Err::<Option<FnFlow>, String>(e)),
            final(self).id_spec() == old(self).id_spec(),
            final(self).has_send() == old(self).has_send(),
            final(self).has_reset() == old(self).has_reset(),
            final(self).names() == old(self).names(),
    {
        // every input goes through its change detector
        let reset = match reset {
            Some(x) => {
                let (c, l) = change_apply(&self.reset_last, x);
                self.reset_last = l;
                Some(c)
            }
            None => None,
        };
        let (op, l) = change_apply(&self.op_last, op_cycle);
        self.op_last = l;
        let changed = mark_all(&mut self.input_lasts, inputs);
        let mut sent: Vec<Point> = Vec::new();
        // reset
        match reset {
            Some(Err(e)) => return (Err(e), sent),
            Some(Ok(Some(f))) => {
                match f.value().to_bool() {
                    Some(v) => {
                        if let Some(Edge::Rising) = self.reset_edge.add(v) {
                            self.state.reset();
                        }
                    }
                    None => return (Err(self.id.clone().concat(".out | Invalid reset type, expected bool or number")), sent),
                }
            }
            _ => {}
        }
        let mut flow = FlowContext::new();
        let op_point = match flow.map(op) {
            Err(e) => return (Err(e), sent),
            Ok(None) => return (Ok(None), sent),
            Ok(Some(p)) => p,
        };
        let op_value = match op_point.value.to_bool() {
            Some(v) => v,
            None => return (Err(self.id.clone().concat(".out | Invalid op-cycle type, expected bool or number")), sent),
        };
        match self.state.add(op_value) {
            OpCycle::Started => {
                if let Err(e) = collect_into(&mut self.values, &self.inputs, &changed) {
                    return (Err(e), sent);
                }
            }
            OpCycle::Finished => {
                sent = drain_values(&mut self.values, self.send_to.is_some());
            }
            OpCycle::Idle => {}
        }
        (flow.wrap(op_point), sent)
    }

    /// Leaves the operating cycle and forgets the change states and the reset edge.
    pub fn reset(&mut self)
        requires
            old(self).wf(),
        ensures
            final(self).wf(),
            final(self).phase() == OpCycle::Idle,
            final(self).reset_prev() is None,
            final(self).reset_last() is None,
            final(self).op_last() is None,
            final(self).input_lasts() == Seq::new(old(self).names().len(), |k: int| None::<PointView>),
            final(self).values() == old(self).values(),
            final(self).id_spec() == old(self).id_spec(),
            final(self).has_send() == old(self).has_send(),
            final(self).has_reset() == old(self).has_reset(),
            final(self).names() == old(self).names(),
    {
        self.state.reset();
        self.reset_last = None;
        self.reset_edge.reset();
        self.op_last = None;
        forget_all(&mut self.input_lasts);
    }
}

/// Forgets every remembered point.
fn forget_all(lasts: &mut Vec<Option<Point>>)
    ensures
        final(lasts).len() == old(lasts).len(),
        lasts_view(final(lasts)@) == Seq::new(old(lasts).len() as nat, |k: int| None::<PointView>),
{
    let mut k: usize = 0;
    while k < lasts.len()
        invariant
            k <= lasts.len(),
            lasts.len() == old(lasts).len(),
            forall|j: int| 0 <= j < k ==> lasts@[j] is None,
        decreases lasts.len() - k,
    {
        lasts.set(k, None);
        k = k + 1;
    }
    assert(lasts_view(lasts@) =~= Seq::new(old(lasts).len() as nat, |k: int| None::<PointView>));
}

/// Marks every input result by change against its remembered point.
fn mark_all(lasts: &mut Vec<Option<Point>>, inputs: Vec<FnResult<FnFlow, String>>) -> (r: Vec<FnResult<FnFlow, String>>)
    requires
        old(lasts).len() == inputs.len(),
    ensures
        r@ == changed_all(lasts_view(old(lasts)@), inputs@),
        lasts_view(final(lasts)@) == lasts_after(lasts_view(old(lasts)@), inputs@),
        final(lasts).len() == old(lasts).len(),
{
    let ghost old_lasts = lasts_view(lasts@);
    let ghost all = inputs@;
    let mut changed: Vec<FnResult<FnFlow, String>> = Vec::new();
    let mut rest = inputs;
    let mut k: usize = 0;
    while k < lasts.len()
        invariant
            k <= lasts.len(),
            lasts.len() == all.len(),
            old_lasts.len() == all.len(),
            rest@ == all.skip(k as int),
            changed.len() == k,
            forall|j: int| 0 <= j < k ==> changed@[j] == change_flow(old_lasts[j], all[j]),
            forall|j: int| 0 <= j < k ==> opt_view(#[trigger] lasts@[j]) == change_last(old_lasts[j], all[j]),
            forall|j: int| k <= j < all.len() ==> opt_view(#[trigger] lasts@[j]) == old_lasts[j],
        decreases lasts.len() - k,
    {
        assert(rest@[0] == all[k as int]);
        let x = rest.remove(0);
        let (c, l) = change_apply(&lasts[k], x);
        changed.push(c);
        lasts.set(k, l);
        assert(rest@ =~= all.skip(k + 1));
        k = k + 1;
    }
    assert(changed@ =~= changed_all(old_lasts, all));
    assert(lasts_view(lasts@) =~= lasts_after(old_lasts, all));
    changed
}

/// Records the string values among `changed`, named by the inputs; stops at the first failure.
fn collect_into<I>(values: &mut Vec<(String, Point)>, inputs: &Vec<(String, I)>, changed: &Vec<FnResult<FnFlow, String>>) -> (r: Result<(), String>)
    requires
        changed.len() == inputs.len(),
    ensures
        ({
            let (failed, w) = collect(records_view(old(values)@), keys_of(inputs@), changed@);
            &&& r is Err <==> failed
            &&& records_view(final(values)@) == w
        }),
{
    let ghost names = keys_of(inputs@);
    let ghost v0 = records_view(values@);
    let mut j: usize = 0;
    while j < changed.len()
        invariant
            j <= changed.len(),
            changed.len() == inputs.len(),
            names == keys_of(inputs@),
            v0 == records_view(old(values)@),
            collect(v0, names, changed@.take(j as int)) == (false, records_view(values@)),
        decreases changed.len() - j,
    {
        assert(changed@.take(j + 1).drop_last() =~= changed@.take(j as int));
        match &changed[j] {
            Err(e) => {
                proof { lemma_collect_fails(v0, names, changed@, j as int); }
                return Err(e.clone());
            }
            Ok(None) => {}
            Ok(Some(g)) => {
                let point = g.value();
                if let PointValue::String(_) = &point.value {
                    let name = &inputs[j].0;
                    let ghost vals = records_view(values@);
                    proof {
                        assert(keys_of(values@) =~= vals.map_values(|e: (Seq<char>, PointView)| e.0));
                        lemma_last_index_of(keys_of(values@), name@);
                    }
                    match find_last(values, name) {
                        Some(i) => {
                            values.set(i, (copy_string(name), point.copy()));
                            assert(records_view(values@) =~= record(vals, names[j as int], point@));
                        }
                        None => {
                            values.push((copy_string(name), point.copy()));
                            assert(records_view(values@) =~= record(vals, names[j as int], point@));
                        }
                    }
                }
            }
        }
        j = j + 1;
    }
    assert(changed@.take(changed.len() as int) =~= changed@);
    Ok(())
}

/// Empties the recorded values; returns their points when they are to be sent.
fn drain_values(values: &mut Vec<(String, Point)>, send: bool) -> (r: Vec<Point>)
    ensures
        final(values)@.len() == 0,
        r@.map_values(|p: Point| p@) == (if send {
            records_view(old(values)@).map_values(|e: (Seq<char>, PointView)| e.1)
        } else {
            Seq::<PointView>::empty()
        }),
{
    let mut taken: Vec<(String, Point)> = Vec::new();
    std::mem::swap(&mut taken, values);
    let mut sent: Vec<Point> = Vec::new();
    if send {
        let mut i: usize = 0;
        while i < taken.len()
            invariant
                i <= taken.len(),
                sent.len() == i,
                forall|j: int| 0 <= j < i ==> (#[trigger] sent@[j])@ == taken@[j].1@,
            decreases taken.len() - i,
        {
            sent.push(taken[i].1.copy());
            i = i + 1;
        }
    }
    assert(sent@.map_values(|p: Point| p@) =~= (if send {
        records_view(taken@).map_values(|e: (Seq<char>, PointView)| e.1)
    } else {
        Seq::<PointView>::empty()
    }));
    sent
}

/// Once an input fails, collecting stops.
proof fn lemma_collect_fails(v: Seq<(Seq<char>, PointView)>, names: Seq<Seq<char>>, rs: Seq<FnResult<FnFlow, String>>, j: int)
    requires
        0 <= j < rs.len(),
        rs[j] is Err,
        !collect(v, names, rs.take(j)).0,
    ensures
        collect(v, names, rs) == (true, collect(v, names, rs.take(j)).1),
    decreases rs.len(),
{
    if rs.len() == j + 1 {
        assert(rs.drop_last() =~= rs.take(j));
    } else {
        assert(rs.drop_last().take(j) =~= rs.take(j));
        lemma_collect_fails(v, names, rs.drop_last(), j);
    }
}

/// Records are handed over only when an operating cycle ends: an evaluation
/// that sends anything reports the op-cycle signal falling from a running cycle.
pub proof fn lemma_sends_only_at_cycle_end(
    has_send: bool,
    phase: OpCycle,
    reset_prev: Option<bool>,
    values: Seq<(Seq<char>, PointView)>,
    names: Seq<Seq<char>>,
    reset: Option<FnResult<FnFlow, String>>,
    op: FnResult<FnFlow, String>,
    inputs: Seq<FnResult<FnFlow, String>>,
)
    requires
        rec_step(has_send, phase, reset_prev, values, names, reset, op, inputs).sent.len() > 0,
    ensures
        has_send,
        op matches Ok(Some(f)) && truth_of(f.point()@.value) == Some(false),
        rec_step(has_send, phase, reset_prev, values, names, reset, op, inputs).values.len() == 0,
{
}

/// The names of the recorded values.
pub open spec fn record_names(v: Seq<(Seq<char>, PointView)>) -> Seq<Seq<char>> {
    v.map_values(|e: (Seq<char>, PointView)| e.0)
}

/// A recorded value is found again under its name, and recording it leaves
/// the values recorded under the other names as they were.
pub proof fn lemma_record_then_find(v: Seq<(Seq<char>, PointView)>, k: Seq<char>, p: PointView, other: Seq<char>)
    ensures
        ({
            let w = record(v, k, p);
            let i = last_index_of(record_names(w), k);
            i >= 0 && w[i] == (k, p)
        }),
        other != k ==> ({
            let w = record(v, k, p);
            let i = last_index_of(record_names(v), other);
            &&& last_index_of(record_names(w), other) == i
            &&& i >= 0 ==> w[i] == v[i]
        }),
{
    let w = record(v, k, p);
    let i = last_index_of(record_names(v), k);
    lemma_last_index_of(record_names(v), k);
    lemma_last_index_of(record_names(v), other);
    if i >= 0 {
        assert(record_names(w) =~= record_names(v));
    } else {
        assert(record_names(w) =~= record_names(v).push(k));
        assert(record_names(w).drop_last() =~= record_names(v));
    }
}

/// When a running operating cycle ends (the signal reads `false`, no reset),
/// every recorded value is handed over to be sent, in the order recorded, and
/// the records are emptied.
pub proof fn lemma_cycle_end_sends_all(
    values: Seq<(Seq<char>, PointView)>,
    reset_prev: Option<bool>,
    names: Seq<Seq<char>>,
    f: FnFlow,
    inputs: Seq<FnResult<FnFlow, String>>,
)
    requires
        truth_of(f.point()@.value) == Some(false),
    ensures
        ({
            let r = rec_step(true, OpCycle::Started, reset_prev, values, names, None, Ok(Some(f)), inputs);
            &&& r.sent.len() == values.len()
            &&& forall|j: int| 0 <= j < values.len() ==> r.sent[j] == #[trigger] values[j].1
            &&& r.values.len() == 0
            &&& r.phase == OpCycle::Idle
            &&& r.outcome == Outcome::Emit(f.fresh(), f.point()@)
        }),
{
}

} // verus!
