//! `FnVar` and `FnEvalOnce`: evaluate their input once per evaluation cycle.
use vstd::prelude::*;
use crate::fn_flow::{FnFlow, FnResult, FnKind, result_view, copy_result};
use crate::eval_cycle::CycleIndex;
use crate::text::{node_id, node_id_text};

verus! {

/// The result a cached node stores for the result `input` of its input: the
/// result itself, an error prefixed with `<id>.out | Error: `.
pub open spec fn cached_view(id: Seq<char>, input: FnResult<FnFlow, String>) -> Result<Option<crate::fn_flow::FlowView>, Seq<char>> {
    match input {
        Err(e) => Err(id + ".out | Error: "@ + e@),
        other => result_view(other),
    }
}

/// One evaluation of a cached node in the cycle `cycle`: when the cycle is the
/// one it last evaluated, the stored result, else the stored result for `input`.
pub open spec fn cached_step(
    id: Seq<char>,
    last_cycle: u64,
    state: Result<Option<crate::fn_flow::FlowView>, Seq<char>>,
    cycle: u64,
    input: Option<FnResult<FnFlow, String>>,
) -> Result<Option<crate::fn_flow::FlowView>, Seq<char>> {
    if cycle == last_cycle {
        state
    } else {
        match input {
            Some(i) => cached_view(id, i),
            None => state,
        }
    }
}

/// Wraps an input error with the node's identifier.
fn wrap_error(id: &String, err: String) -> (r: String)
    ensures
        r@ == id@ + ".out | Error: "@ + err@,
{
    let r = id.clone().concat(".out | Error: ").concat(err.as_str());
    r
}

/// ### Function | `FnVar`
///
/// A variable: evaluates its input at most once per evaluation cycle and hands
/// the stored result to every consumer in that cycle.
#[derive(Debug)]
pub struct FnVar<I> {
    id: String,
    input: I,
    cycle: CycleIndex,
    state: FnResult<FnFlow, String>,
}

impl<I> FnVar<I> {
    /// The node's identifier.
    pub closed spec fn id_spec(&self) -> Seq<char> {
        self.id@
    }

    /// The cycle evaluated last.
    pub closed spec fn last_cycle(&self) -> u64 {
        self.cycle.0
    }

    /// The stored result.
    pub closed spec fn state(&self) -> Result<Option<crate::fn_flow::FlowView>, Seq<char>> {
        result_view(self.state)
    }

    /// Returns a new `FnVar` on `input`: it counts the first cycle as evaluated, with no value.
    pub fn new(parent: &str, seq: usize, input: I) -> (r: Self)
        ensures
            r.id_spec() == node_id_text(parent@, "FnVar"@, seq),
            r.last_cycle() == 1,
            r.state() == Ok::<Option<crate::fn_flow::FlowView>, Seq<char>>(None),
    {
        FnVar { id: node_id(parent, "FnVar", seq), input, cycle: CycleIndex::new(), state: Ok(None) }
    }

    /// Returns the node's identifier.
    pub fn id(&self) -> (r: String)
        ensures
            r@ == self.id_spec(),
    {
        self.id.clone()
    }

    /// Returns the kind of the node: `Var`.
    pub fn kind(&self) -> (r: FnKind)
        ensures
            r == FnKind::Var,
    {
        FnKind::Var
    }

    /// The input: the node's `input`.
    pub closed spec fn input_spec(&self) -> I {
        self.input
    }

    /// The node with `v` in place of its `input`.
    pub closed spec fn with_input(&self, v: I) -> Self {
        FnVar { input: v, ..*self }
    }

    /// The input. Returns a reference to it; the node is otherwise unchanged.
    pub fn input(&mut self) -> (r: &mut I)
        ensures
            *r == old(self).input_spec(),
            *final(self) == old(self).with_input(*final(r)),
    {
        &mut self.input
    }

    /// Returns `true` when the input must be evaluated in the cycle `cycle`.
    pub fn needs_eval(&self, cycle: &CycleIndex) -> (r: bool)
        ensures
            r == (cycle.0 != self.last_cycle()),
    {
        self.cycle.0 != cycle.0
    }

    /// Evaluates the node in the cycle `cycle`, given the result of its input
    /// when `needs_eval` asked for it.
    pub fn out(&mut self, cycle: &CycleIndex, input: Option<FnResult<FnFlow, String>>) -> (r: FnResult<FnFlow, String>)
        requires
            input is Some == (cycle.0 != old(self).last_cycle()),
        ensures
            result_view(r) == cached_step(old(self).id_spec(), old(self).last_cycle(), old(self).state(), cycle.0, input),
            final(self).state() == result_view(r),
            final(self).last_cycle() == cycle.0,
            final(self).id_spec() == old(self).id_spec(),
            input matches Some(Ok(x)) ==> r == Ok::<Option<FnFlow>, String>(x),
    {
        if !self.cycle.update(cycle) {
            return copy_result(&self.state);
        }
        match input {
            Some(Ok(v)) => {
                let r: FnResult<FnFlow, String> = Ok(v);
                self.state = copy_result(&r);
                r
            }
            Some(Err(err)) => {
                let e = wrap_error(&self.id, err);
                self.state = Err(e.clone());
                Err(e)
            }
            None => copy_result(&self.state),
        }
    }
}

/// ### Function | `FnEvalOnce`
///
/// Evaluates its input only once per evaluation cycle and is transparent for the
/// computation: a second call in the same cycle returns the stored result.
#[derive(Debug)]
pub struct FnEvalOnce<I> {
    id: String,
    cycle: u64,
    input: I,
    state: FnResult<FnFlow, String>,
}

impl<I> FnEvalOnce<I> {
    /// The node's identifier.
    pub closed spec fn id_spec(&self) -> Seq<char> {
        self.id@
    }

    /// The cycle evaluated last.
    pub closed spec fn last_cycle(&self) -> u64 {
        self.cycle
    }

    /// The stored result.
    pub closed spec fn state(&self) -> Result<Option<crate::fn_flow::FlowView>, Seq<char>> {
        result_view(self.state)
    }

    /// Returns a new `FnEvalOnce` on `input`, which has evaluated no cycle yet.
    pub fn new(parent: &str, seq: usize, input: I) -> (r: Self)
        ensures
            r.id_spec() == node_id_text(parent@, "FnEvalOnce"@, seq),
            r.last_cycle() == u64::MAX,
            r.state() == Ok::<Option<crate::fn_flow::FlowView>, Seq<char>>(None),
    {
        FnEvalOnce { id: node_id(parent, "FnEvalOnce", seq), cycle: u64::MAX, input, state: Ok(None) }
    }

    /// The input: the node's `input`.
    pub closed spec fn input_spec(&self) -> I {
        self.input
    }

    /// The node with `v` in place of its `input`.
    pub closed spec fn with_input(&self, v: I) -> Self {
        FnEvalOnce { input: v, ..*self }
    }

    /// The input. Returns a reference to it; the node is otherwise unchanged.
    pub fn input(&mut self) -> (r: &mut I)
        ensures
            *r == old(self).input_spec(),
            *final(self) == old(self).with_input(*final(r)),
    {
        &mut self.input
    }

    /// Returns `true` when the input must be evaluated in the cycle `cycle`.
    pub fn needs_eval(&self, cycle: &CycleIndex) -> (r: bool)
        ensures
            r == (cycle.0 != self.last_cycle()),
    {
        self.cycle != cycle.0
    }

    /// Evaluates the node in the cycle `cycle`, given the result of its input
    /// when `needs_eval` asked for it.
    pub fn out(&mut self, cycle: &CycleIndex, input: Option<FnResult<FnFlow, String>>) -> (r: FnResult<FnFlow, String>)
        requires
            input is Some == (cycle.0 != old(self).last_cycle()),
        ensures
            result_view(r) == cached_step(old(self).id_spec(), old(self).last_cycle(), old(self).state(), cycle.0, input),
            final(self).state() == result_view(r),
            final(self).last_cycle() == cycle.0,
            final(self).id_spec() == old(self).id_spec(),
            input matches Some(Ok(x)) ==> r == Ok::<Option<FnFlow>, String>(x),
    {
        if self.cycle == cycle.0 {
            return copy_result(&self.state);
        }
        self.cycle = cycle.0;
        match input {
            Some(Ok(v)) => {
                let r: FnResult<FnFlow, String> = Ok(v);
                self.state = copy_result(&r);
                r
            }
            Some(Err(err)) => {
                let e = wrap_error(&self.id, err);
                self.state = Err(e.clone());
                Err(e)
            }
            None => copy_result(&self.state),
        }
    }
}

/// A cached node evaluates its input once per cycle: evaluated again in the
/// same cycle, it returns what it returned the first time.
pub proof fn lemma_once_per_cycle(
    id: Seq<char>,
    last_cycle: u64,
    state: Result<Option<crate::fn_flow::FlowView>, Seq<char>>,
    cycle: u64,
    first: Option<FnResult<FnFlow, String>>,
    second: Option<FnResult<FnFlow, String>>,
)
    ensures
        ({
            let r1 = cached_step(id, last_cycle, state, cycle, first);
            cached_step(id, cycle, r1, cycle, second) == r1
        }),
{
}

} // verus!
