//! `FnEnable`: lets a function run only while its `enable` input is `true`.
use vstd::prelude::*;
use crate::point::{Point, PointView, opt_view, copy_opt, truth_of};
use crate::fn_flow::{FnFlow, FnResult, FlowView, result_view, FlowContext};

verus! {

/// How an enabled function behaves while it is disabled.
#[derive(Clone, Copy, Debug, PartialEq, Eq, Structural)]
pub enum FnEnableMode {
    /// Disabled: the function is not evaluated, its state is reset, the branch is silent.
    Cold,
    /// Disabled: the function keeps being evaluated, the last enabled value is held as `Old`.
    Warm,
}

/// What the node decided after reading its `enable` input.
#[derive(Clone, Copy, Debug, PartialEq, Eq, Structural)]
pub struct EnableStep {
    /// The function is enabled in this cycle.
    pub enabled: bool,
    /// `enable` went `false -> true` in this cycle.
    pub rising: bool,
    /// The wrapped function must be reset before it is polled.
    pub reset_origin: bool,
    /// The wrapped function must be polled.
    pub poll_origin: bool,
}

/// The decision for `mode`, the previous enable state and the current one.
pub open spec fn enable_step(mode: FnEnableMode, prev: bool, en: bool) -> EnableStep {
    EnableStep {
        enabled: en,
        rising: !prev && en,
        reset_origin: match mode {
            FnEnableMode::Cold => prev != en,
            FnEnableMode::Warm => false,
        },
        poll_origin: match mode {
            FnEnableMode::Cold => en,
            FnEnableMode::Warm => true,
        },
    }
}

/// The enable state read from the `enable` input: its logical value, or the
/// previous state when the input has no value; `None` when the input failed
/// or is not a number.
pub open spec fn enable_read(prev: bool, en: FnResult<FnFlow, String>) -> Option<bool> {
    match en {
        Err(_) => None,
        Ok(None) => Some(prev),
        Ok(Some(f)) => truth_of(f.point().value@),
    }
}

/// The result and the held value after the wrapped function was handled.
pub open spec fn enable_finish(
    mode: FnEnableMode,
    step: EnableStep,
    last: Option<PointView>,
    origin: Option<FnResult<FnFlow, String>>,
) -> (Result<Option<FlowView>, Seq<char>>, Option<PointView>) {
    match mode {
        FnEnableMode::Cold => if !step.enabled {
            (Ok(None), last)
        } else {
            match origin {
                Some(Ok(Some(f))) => (
                    Ok(Some(FlowView { fresh: step.rising || f.fresh(), point: f.point()@ })),
                    Some(f.point()@),
                ),
                Some(o) => (result_view(o), last),
                None => (Ok(None), last),
            }
        },
        FnEnableMode::Warm => match origin {
            Some(Err(e)) => (Err(e@), last),
            _ => if !step.enabled {
                match last {
                    Some(p) => (Ok(Some(FlowView { fresh: false, point: p })), last),
                    None => (Ok(None), last),
                }
            } else {
                match origin {
                    Some(Ok(Some(f))) => (
                        Ok(Some(FlowView { fresh: step.rising || f.fresh(), point: f.point()@ })),
                        Some(f.point()@),
                    ),
                    _ => (Ok(None), last),
                }
            },
        },
    }
}

/// ### Function | `FnEnable`
///
/// Wraps the function `origin` and evaluates it according to the `enable` input.
/// - `Cold`: when disabled the function is not evaluated and the branch returns `None`;
///   it is reset on each change of `enable`.
/// - `Warm`: the function is evaluated every cycle; when disabled the last enabled value is held as `Old`.
/// - On the rising edge of `enable` the value is always `New`.
#[derive(Debug)]
pub struct FnEnable<T, I> {
    origin: T,
    mode: FnEnableMode,
    enable: I,
    prev_en: bool,
    last_val: Option<Point>,
}

impl<T, I> FnEnable<T, I> {
    /// The enable state of the previous cycle.
    pub closed spec fn prev_enabled(&self) -> bool {
        self.prev_en
    }

    /// The last value produced while enabled.
    pub closed spec fn held(&self) -> Option<PointView> {
        opt_view(self.last_val)
    }

    /// The wrapped function.
    pub closed spec fn origin_spec(&self) -> T {
        self.origin
    }

    /// The mode of the node.
    pub closed spec fn mode_spec(&self) -> FnEnableMode {
        self.mode
    }

    /// Returns a new `FnEnable` around `origin`, initially disabled.
    pub fn new(origin: T, mode: FnEnableMode, en: I) -> (r: Self)
        ensures
            !r.prev_enabled(),
            r.held() is None,
            r.mode_spec() == mode,
            r.origin_spec() == origin,
    {
        FnEnable { origin, mode, enable: en, prev_en: false, last_val: None }
    }

    /// The node with `v` in place of its `origin`.
    pub closed spec fn with_origin(&self, v: T) -> Self {
        FnEnable { origin: v, ..*self }
    }

    /// The wrapped function. Returns a reference to it; the node is otherwise unchanged.
    pub fn origin(&mut self) -> (r: &mut T)
        ensures
            *r == old(self).origin_spec(),
            *final(self) == old(self).with_origin(*final(r)),
    {
        &mut self.origin
    }

    /// The `enable` input: the node's `enable`.
    pub closed spec fn enable_spec(&self) -> I {
        self.enable
    }

    /// The node with `v` in place of its `enable`.
    pub closed spec fn with_enable(&self, v: I) -> Self {
        FnEnable { enable: v, ..*self }
    }

    /// The `enable` input. Returns a reference to it; the node is otherwise unchanged.
    pub fn enable(&mut self) -> (r: &mut I)
        ensures
            *r == old(self).enable_spec(),
            *final(self) == old(self).with_enable(*final(r)),
    {
        &mut self.enable
    }

    /// Returns the mode of the node.
    pub fn mode(&self) -> (r: FnEnableMode)
        ensures
            r == self.mode_spec(),
    {
        self.mode
    }

    /// First half of an evaluation: takes the result of the `enable` input and
    /// decides whether the wrapped function is reset and polled.
    pub fn begin(&mut self, en: FnResult<FnFlow, String>) -> (r: Result<EnableStep, String>)
        ensures
            final(self).mode_spec() == old(self).mode_spec(),
            match enable_read(old(self).prev_enabled(), en) {
                None => {
                    &&& r is Err
                    &&& (en matches Err(e) ==> r == Err::<EnableStep, String>(e))
                    &&& final(self).prev_enabled() == old(self).prev_enabled()
                    &&& final(self).held() == old(self).held()
                },
                Some(e) => {
                    &&& r == Ok::<EnableStep, String>(enable_step(old(self).mode_spec(), old(self).prev_enabled(), e))
                    &&& final(self).prev_enabled() == e
                    &&& final(self).held() == (if old(self).mode_spec() == FnEnableMode::Cold && !e && old(self).prev_enabled() {
                            None
                        } else {
                            old(self).held()
                        })
                },
            },
    {
        let en = match en {
            Err(e) => return Err(e),
            Ok(None) => self.prev_en,
            Ok(Some(f)) => match f.value().to_bool() {
                Some(b) => b,
                None => return Err(String::from_str("FnEnable.out | Invalid enable type, expected bool or number")),
            },
        };
        let rising = !self.prev_en && en;
        let falling = self.prev_en && !en;
        self.prev_en = en;
        match self.mode {
            FnEnableMode::Cold => {
                if !en && falling {
                    self.last_val = None;
                }
                Ok(EnableStep { enabled: en, rising, reset_origin: rising || falling, poll_origin: en })
            }
            FnEnableMode::Warm => Ok(EnableStep { enabled: en, rising, reset_origin: false, poll_origin: true }),
        }
    }

    /// Second half of an evaluation: takes the result of the wrapped function,
    /// when it was polled, and returns the node's result.
    pub fn finish(&mut self, step: EnableStep, origin: Option<FnResult<FnFlow, String>>) -> (r: FnResult<FnFlow, String>)
        requires
            origin is Some == step.poll_origin,
        ensures
            (result_view(r), final(self).held()) == enable_finish(old(self).mode_spec(), step, old(self).held(), origin),
            final(self).prev_enabled() == old(self).prev_enabled(),
            final(self).mode_spec() == old(self).mode_spec(),
    {
        match self.mode {
            FnEnableMode::Cold => {
                if !step.enabled {
                    return Ok(None);
                }
                let mut flow = FlowContext::new();
                let origin = match origin { Some(o) => o, None => return Ok(None) };
                let val = match flow.map(origin) {
                    Err(e) => return Err(e),
                    Ok(None) => return Ok(None),
                    Ok(Some(v)) => v,
                };
                self.last_val = Some(val.copy());
                if step.rising {
                    return Ok(Some(FnFlow::New(val)));
                }
                flow.wrap(val)
            }
            FnEnableMode::Warm => {
                let mut flow = FlowContext::new();
                let val = match origin {
                    Some(o) => match flow.map(o) {
                        Err(e) => return Err(e),
                        Ok(v) => v,
                    },
                    None => None,
                };
                if !step.enabled {
                    return match copy_opt(&self.last_val) {
                        Some(p) => Ok(Some(FnFlow::Old(p))),
                        None => Ok(None),
                    };
                }
                match val {
                    Some(val) => {
                        self.last_val = Some(val.copy());
                        if step.rising {
                            return Ok(Some(FnFlow::New(val)));
                        }
                        flow.wrap(val)
                    }
                    None => Ok(None),
                }
            }
        }
    }

    /// Forgets the enable state and the held value.
    pub fn reset(&mut self)
        ensures
            !final(self).prev_enabled(),
            final(self).held() is None,
            final(self).mode_spec() == old(self).mode_spec(),
    {
        self.prev_en = false;
        self.last_val = None;
    }
}

/// In `Cold` mode a disabled function never produces a value.
pub proof fn lemma_cold_disabled_is_silent(
    prev: bool,
    last: Option<PointView>,
    origin: Option<FnResult<FnFlow, String>>,
)
    ensures
        enable_finish(FnEnableMode::Cold, enable_step(FnEnableMode::Cold, prev, false), last, origin).0
            == Ok::<Option<FlowView>, Seq<char>>(None),
{
}

/// On the rising edge of `enable`, any value the function produces is `New`.
pub proof fn lemma_rising_edge_is_new(
    mode: FnEnableMode,
    last: Option<PointView>,
    origin: Option<FnResult<FnFlow, String>>,
    out: FlowView,
)
    requires
        enable_finish(mode, enable_step(mode, false, true), last, origin).0
            == Ok::<Option<FlowView>, Seq<char>>(Some(out)),
    ensures
        out.fresh,
{
}

/// In `Warm` mode a disabled function holds its last enabled value, as `Old`,
/// unless the function itself fails.
pub proof fn lemma_warm_disabled_holds(
    prev: bool,
    p: PointView,
    origin: Option<FnResult<FnFlow, String>>,
)
    requires
        !(origin matches Some(Err(_))),
    ensures
        enable_finish(FnEnableMode::Warm, enable_step(FnEnableMode::Warm, prev, false), Some(p), origin)
            == (Ok::<Option<FlowView>, Seq<char>>(Some(FlowView { fresh: false, point: p })), Some(p)),
{
}

/// While `enable` stays `true`, the function's value is passed on as it is,
/// with its own freshness, and becomes the held value, in either mode.
pub proof fn lemma_enabled_passes_value(mode: FnEnableMode, last: Option<PointView>, f: FnFlow)
    ensures
        enable_finish(mode, enable_step(mode, true, true), last, Some(Ok(Some(f))))
            == (Ok::<Option<FlowView>, Seq<char>>(Some(FlowView { fresh: f.fresh(), point: f.point()@ })), Some(f.point()@)),
        enable_step(mode, true, true).poll_origin,
        !enable_step(mode, true, true).reset_origin,
{
}

/// In `Cold` mode a disabled function is not polled, and a change of `enable`
/// resets it; in `Warm` mode it is polled every cycle and never reset.
pub proof fn lemma_modes_poll_and_reset(prev: bool, en: bool)
    ensures
        enable_step(FnEnableMode::Cold, prev, en).poll_origin == en,
        enable_step(FnEnableMode::Cold, prev, en).reset_origin == (prev != en),
        enable_step(FnEnableMode::Warm, prev, en).poll_origin,
        !enable_step(FnEnableMode::Warm, prev, en).reset_origin,
{
}

} // verus!
