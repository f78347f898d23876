//! `FnBuilder`: planning of a function tree from its configuration, and the
//! node constructors the builder uses.
//!
//! `plan` decides, for each function of a configuration, which node stands for
//! it, which of its inputs and parameters it takes, what a missing input or a
//! wrong parameter gives, and where an `enable` input wraps the node; the caller
//! turns the plan into nodes.
use vstd::prelude::*;
use crate::point::{Point, copy_string};
use crate::functions::fn_var::FnVar;
use crate::functions::fn_const::FnConst;
use crate::functions::fn_input::{InputType, Initial, InitialView, initial_view, initial_of, initial_value, input_type_name, input_type_name_of};
use crate::assoc::{keys_of, last_index_of, find_last};
use crate::text::node_id_text;

verus! {

/// What a slot of a function's configuration holds, and what its absence means.
#[derive(Clone, Copy, Debug, PartialEq, Eq, Structural)]
pub enum Need {
    /// An optional input.
    Opt,
    /// An optional `enable` input that wraps the node.
    Wrap,
    /// A required input: its absence is an error.
    Req,
    /// An input the builder takes for granted: its absence breaks the build.
    Must,
    /// A required input whose absence is reported as "can't get".
    Get,
    /// The `queue` parameter of `ToApiQueue`.
    Queue,
    /// The `delay` parameter of the delay timers.
    Delay,
    /// The `key` parameter of `Retain`.
    Key,
    /// The `every-cycle` parameter of `Retain`.
    EveryCycle,
    /// The `send-to` parameter of `Export`.
    SendToExport,
    /// The `send-to` parameter of `RecOpCycleMetric`.
    SendToMetric,
    /// The `piecewise` parameter of `PiecewiseLineApprox`.
    Piecewise,
    /// The point configuration `conf` of `Export`.
    PointConf,
}

/// The content of a slot.
pub struct SlotView {
    pub name: Seq<char>,
    pub ctx: Seq<char>,
    pub tag: Seq<char>,
    pub need: Need,
}

/// A slot of a function: its name, the context of its messages, the tag of
/// the function in messages, and what it needs.
#[derive(Clone, Copy, Debug)]
pub struct Slot {
    pub name: &'static str,
    pub ctx: &'static str,
    pub tag: &'static str,
    pub need: Need,
}

impl View for Slot {
    type V = SlotView;

    open spec fn view(&self) -> SlotView {
        SlotView { name: self.name@, ctx: self.ctx@, tag: self.tag@, need: self.need }
    }
}

/// The inputs a function reads after its slots.
pub enum Rest {
    Nothing,
    All,
    AllBut(Seq<Seq<char>>),
}

/// The inputs a function reads after its slots.
#[derive(Debug)]
pub enum RestExec {
    Nothing,
    All,
    AllBut(Vec<&'static str>),
}

impl View for RestExec {
    type V = Rest;

    open spec fn view(&self) -> Rest {
        match self {
            RestExec::Nothing => Rest::Nothing,
            RestExec::All => Rest::All,
            RestExec::AllBut(v) => Rest::AllBut(v@.map_values(|s: &'static str| s@)),
        }
    }
}

/// The type of a constant.
#[derive(Clone, Copy, Debug, PartialEq, Eq, Structural)]
pub enum ConstType {
    Bool,
    Int,
    Real,
    Double,
    String,
    Any,
    Unknown,
}

/// The value of a parameter.
#[derive(Debug)]
pub enum ParamValue {
    Str(String),
    Bool(bool),
    /// Any other value, as YAML text.
    Yaml(String),
}

/// The content of a parameter.
pub enum ParamView {
    Str(Seq<char>),
    Bool(bool),
    Yaml(Seq<char>),
}

impl View for ParamValue {
    type V = ParamView;

    open spec fn view(&self) -> ParamView {
        match self {
            ParamValue::Str(s) => ParamView::Str(s@),
            ParamValue::Bool(b) => ParamView::Bool(*b),
            ParamValue::Yaml(s) => ParamView::Yaml(s@),
        }
    }
}

/// Returns a copy of a parameter.
fn copy_param(p: &ParamValue) -> (r: ParamValue)
    ensures
        r@ == p@,
{
    match p {
        ParamValue::Str(s) => ParamValue::Str(copy_string(s)),
        ParamValue::Bool(b) => ParamValue::Bool(*b),
        ParamValue::Yaml(s) => ParamValue::Yaml(copy_string(s)),
    }
}

/// The configuration of a function tree.
#[derive(Debug)]
pub enum FnConf {
    /// A function, by name, with its named inputs and parameters.
    Fn { name: String, inputs: Vec<(String, FnConf)> },
    /// A variable: declared with its one input, used without any.
    Var { name: String, inputs: Vec<(String, FnConf)> },
    /// A constant, as written, with its type.
    Const { typ: ConstType, value: String },
    /// An input point, with the default its value starts from, if any.
    Point { name: String, typ: InputType, default: Option<String> },
    /// An output point, named `point`, with its inputs.
    PointConf { point: String, inputs: Vec<(String, FnConf)> },
    /// A parameter.
    Param(ParamValue),
}

/// The plan of a node.
#[derive(Debug)]
pub enum NodePlan {
    /// The node of a function: its inputs by slot name, the `enable` input that
    /// wraps it, if any, and its parameters.
    Node {
        kind: FnName,
        inputs: Vec<(String, NodePlan)>,
        enable: Option<Box<NodePlan>>,
        params: Vec<(String, ParamValue)>,
    },
    /// A variable declared with the node `input`.
    VarDecl { name: String, input: Box<NodePlan> },
    /// A variable declared before.
    VarUse { name: String },
    /// A constant.
    Const { typ: ConstType, value: String },
    /// An input point, with the value it starts with.
    Point { name: String, typ: InputType, initial: Initial },
}

/// The content of a plan.
pub enum PlanView {
    Node {
        kind: FnName,
        inputs: Seq<(Seq<char>, PlanView)>,
        enable: Option<Box<PlanView>>,
        params: Seq<(Seq<char>, ParamView)>,
    },
    VarDecl { name: Seq<char>, input: Box<PlanView> },
    VarUse { name: Seq<char> },
    Const { typ: ConstType, value: Seq<char> },
    Point { name: Seq<char>, typ: InputType, initial: InitialView },
}

/// The content of a plan.
pub open spec fn plan_view(p: NodePlan) -> PlanView
    decreases p,
{
    match p {
        NodePlan::Node { kind, inputs, enable, params } => PlanView::Node {
            kind,
            inputs: entries_view(inputs@),
            enable: match enable {
                Some(b) => Some(Box::new(plan_view(*b))),
                None => None,
            },
            params: params_view(params@),
        },
        NodePlan::VarDecl { name, input } => PlanView::VarDecl { name: name@, input: Box::new(plan_view(*input)) },
        NodePlan::VarUse { name } => PlanView::VarUse { name: name@ },
        NodePlan::Const { typ, value } => PlanView::Const { typ, value: value@ },
        NodePlan::Point { name, typ, initial } => PlanView::Point { name: name@, typ, initial: initial_view(initial) },
    }
}

/// The content of named plans.
pub open spec fn entries_view(s: Seq<(String, NodePlan)>) -> Seq<(Seq<char>, PlanView)>
    decreases s,
{
    if s.len() == 0 {
        Seq::empty()
    } else {
        entries_view(s.drop_last()).push((s.last().0@, plan_view(s.last().1)))
    }
}

/// The content of named parameters.
pub open spec fn params_view(s: Seq<(String, ParamValue)>) -> Seq<(Seq<char>, ParamView)> {
    s.map_values(|p: (String, ParamValue)| (p.0@, p.1@))
}

/// Why a plan cannot be made.
#[derive(Debug)]
pub enum PlanError {
    /// The configuration is wrong: the message says how.
    Fail(String),
    /// The configuration lacks what the builder takes for granted (an input it
    /// reads without checking, a parameter of the wrong kind): the build breaks off.
    Broken(String),
}

/// The content of a planning error.
pub enum PlanErr {
    Fail(Seq<char>),
    Broken(Seq<char>),
}

/// The content of a planning result.
pub open spec fn plan_result(r: Result<NodePlan, PlanError>) -> Result<PlanView, PlanErr> {
    match r {
        Ok(p) => Ok(plan_view(p)),
        Err(PlanError::Fail(m)) => Err(PlanErr::Fail(m@)),
        Err(PlanError::Broken(m)) => Err(PlanErr::Broken(m@)),
    }
}

/// The names of the declared variables.
pub open spec fn vars_view(v: Seq<String>) -> Seq<Seq<char>> {
    v.map_values(|s: String| s@)
}

/// Returns `true` when `a` and `b` hold the same text.
pub fn same_text(a: &str, b: &str) -> (r: bool)
    ensures
        r == (a@ == b@),
{
    let n = a.unicode_len();
    if n != b.unicode_len() {
        return false;
    }
    let mut i: usize = 0;
    while i < n
        invariant
            i <= n,
            n == a@.len(),
            n == b@.len(),
            forall|j: int| 0 <= j < i ==> a@[j] == b@[j],
        decreases n - i,
    {
        if a.get_char(i) != b.get_char(i) {
            return false;
        }
        i = i + 1;
    }
    assert(a@ =~= b@);
    true
}

/// The functions a configuration names, and the point node of a point configuration.
#[derive(Clone, Copy, Debug, PartialEq, Eq, Structural)]
pub enum FnName {
    Count,
    Add,
    Timer,
    TimerOnDelay,
    TimerOffDelay,
    ToApiQueue,
    Gt,
    Ge,
    Eq,
    Le,
    Lt,
    Ne,
    SqlMetric,
    PointId,
    Debug,
    Plot,
    ToBool,
    ToInt,
    ToReal,
    ToDouble,
    Export,
    Select,
    RisingEdge,
    FallingEdge,
    Retain,
    Acc,
    Mul,
    Div,
    Sub,
    BitAnd,
    BitOr,
    BitXor,
    Or,
    And,
    Not,
    Threshold,
    Smooth,
    Average,
    Pow,
    RecOpCycleMetric,
    Max,
    Min,
    PiecewiseLineApprox,
    IsChangedValue,
    Hold,
    ToString,
    Point,
}

/// The function named `s` in a configuration (names are written in CamelCase).
pub open spec fn name_of(s: Seq<char>) -> Option<FnName> {
    if s == "Count"@ {
        Some(FnName::Count)
    } else if s == "Add"@ {
        Some(FnName::Add)
    } else if s == "Timer"@ {
        Some(FnName::Timer)
    } else if s == "TimerOnDelay"@ {
        Some(FnName::TimerOnDelay)
    } else if s == "TimerOffDelay"@ {
        Some(FnName::TimerOffDelay)
    } else if s == "ToApiQueue"@ {
        Some(FnName::ToApiQueue)
    } else if s == "Gt"@ {
        Some(FnName::Gt)
    } else if s == "Ge"@ {
        Some(FnName::Ge)
    } else if s == "Eq"@ {
        Some(FnName::Eq)
    } else if s == "Le"@ {
        Some(FnName::Le)
    } else if s == "Lt"@ {
        Some(FnName::Lt)
    } else if s == "Ne"@ {
        Some(FnName::Ne)
    } else if s == "Sql"@ {
        Some(FnName::SqlMetric)
    } else if s == "PointId"@ {
        Some(FnName::PointId)
    } else if s == "Debug"@ {
        Some(FnName::Debug)
    } else if s == "Plot"@ {
        Some(FnName::Plot)
    } else if s == "ToBool"@ {
        Some(FnName::ToBool)
    } else if s == "ToInt"@ {
        Some(FnName::ToInt)
    } else if s == "ToReal"@ {
        Some(FnName::ToReal)
    } else if s == "ToDouble"@ {
        Some(FnName::ToDouble)
    } else if s == "Export"@ {
        Some(FnName::Export)
    } else if s == "Select"@ {
        Some(FnName::Select)
    } else if s == "RisingEdge"@ {
        Some(FnName::RisingEdge)
    } else if s == "FallingEdge"@ {
        Some(FnName::FallingEdge)
    } else if s == "Retain"@ {
        Some(FnName::Retain)
    } else if s == "Acc"@ {
        Some(FnName::Acc)
    } else if s == "Mul"@ {
        Some(FnName::Mul)
    } else if s == "Div"@ {
        Some(FnName::Div)
    } else if s == "Sub"@ {
        Some(FnName::Sub)
    } else if s == "BitAnd"@ {
        Some(FnName::BitAnd)
    } else if s == "BitOr"@ {
        Some(FnName::BitOr)
    } else if s == "BitXor"@ {
        Some(FnName::BitXor)
    } else if s == "Or"@ {
        Some(FnName::Or)
    } else if s == "And"@ {
        Some(FnName::And)
    } else if s == "Not"@ {
        Some(FnName::Not)
    } else if s == "Threshold"@ {
        Some(FnName::Threshold)
    } else if s == "Smooth"@ {
        Some(FnName::Smooth)
    } else if s == "Average"@ {
        Some(FnName::Average)
    } else if s == "Pow"@ {
        Some(FnName::Pow)
    } else if s == "RecOpCycleMetric"@ {
        Some(FnName::RecOpCycleMetric)
    } else if s == "Max"@ {
        Some(FnName::Max)
    } else if s == "Min"@ {
        Some(FnName::Min)
    } else if s == "PiecewiseLineApprox"@ {
        Some(FnName::PiecewiseLineApprox)
    } else if s == "IsChangedValue"@ {
        Some(FnName::IsChangedValue)
    } else if s == "Hold"@ {
        Some(FnName::Hold)
    } else if s == "ToString"@ {
        Some(FnName::ToString)
    } else {
        None
    }
}

/// The name by which a configuration names the function `k` (the point node
/// has none: a configuration names it by its own kind).
pub open spec fn name_text(k: FnName) -> Seq<char> {
    match k {
        FnName::Count => "Count"@,
        FnName::Add => "Add"@,
        FnName::Timer => "Timer"@,
        FnName::TimerOnDelay => "TimerOnDelay"@,
        FnName::TimerOffDelay => "TimerOffDelay"@,
        FnName::ToApiQueue => "ToApiQueue"@,
        FnName::Gt => "Gt"@,
        FnName::Ge => "Ge"@,
        FnName::Eq => "Eq"@,
        FnName::Le => "Le"@,
        FnName::Lt => "Lt"@,
        FnName::Ne => "Ne"@,
        FnName::SqlMetric => "Sql"@,
        FnName::PointId => "PointId"@,
        FnName::Debug => "Debug"@,
        FnName::Plot => "Plot"@,
        FnName::ToBool => "ToBool"@,
        FnName::ToInt => "ToInt"@,
        FnName::ToReal => "ToReal"@,
        FnName::ToDouble => "ToDouble"@,
        FnName::Export => "Export"@,
        FnName::Select => "Select"@,
        FnName::RisingEdge => "RisingEdge"@,
        FnName::FallingEdge => "FallingEdge"@,
        FnName::Retain => "Retain"@,
        FnName::Acc => "Acc"@,
        FnName::Mul => "Mul"@,
        FnName::Div => "Div"@,
        FnName::Sub => "Sub"@,
        FnName::BitAnd => "BitAnd"@,
        FnName::BitOr => "BitOr"@,
        FnName::BitXor => "BitXor"@,
        FnName::Or => "Or"@,
        FnName::And => "And"@,
        FnName::Not => "Not"@,
        FnName::Threshold => "Threshold"@,
        FnName::Smooth => "Smooth"@,
        FnName::Average => "Average"@,
        FnName::Pow => "Pow"@,
        FnName::RecOpCycleMetric => "RecOpCycleMetric"@,
        FnName::Max => "Max"@,
        FnName::Min => "Min"@,
        FnName::PiecewiseLineApprox => "PiecewiseLineApprox"@,
        FnName::IsChangedValue => "IsChangedValue"@,
        FnName::Hold => "Hold"@,
        FnName::ToString => "ToString"@,
        FnName::Point => "PointConf"@,
    }
}

/// A configuration name stands for the function of that name, and for no
/// other: two names that stand for a function stand for the same one only
/// when they are the same name, and no name stands for the point node.
pub proof fn lemma_names_name_their_function(s: Seq<char>, t: Seq<char>)
    ensures
        name_of(s) matches Some(k) ==> s == name_text(k) && k != FnName::Point,
        name_of(s) is Some && name_of(s) == name_of(t) ==> s == t,
{
}

/// Returns the function named `s` in a configuration.
pub fn function_of(s: &str) -> (r: Option<FnName>)
    ensures
        r == name_of(s@),
{
    if same_text(s, "Count") {
        return Some(FnName::Count);
    }
    if same_text(s, "Add") {
        return Some(FnName::Add);
    }
    if same_text(s, "Timer") {
        return Some(FnName::Timer);
    }
    if same_text(s, "TimerOnDelay") {
        return Some(FnName::TimerOnDelay);
    }
    if same_text(s, "TimerOffDelay") {
        return Some(FnName::TimerOffDelay);
    }
    if same_text(s, "ToApiQueue") {
        return Some(FnName::ToApiQueue);
    }
    if same_text(s, "Gt") {
        return Some(FnName::Gt);
    }
    if same_text(s, "Ge") {
        return Some(FnName::Ge);
    }
    if same_text(s, "Eq") {
        return Some(FnName::Eq);
    }
    if same_text(s, "Le") {
        return Some(FnName::Le);
    }
    if same_text(s, "Lt") {
        return Some(FnName::Lt);
    }
    if same_text(s, "Ne") {
        return Some(FnName::Ne);
    }
    if same_text(s, "Sql") {
        return Some(FnName::SqlMetric);
    }
    if same_text(s, "PointId") {
        return Some(FnName::PointId);
    }
    if same_text(s, "Debug") {
        return Some(FnName::Debug);
    }
    if same_text(s, "Plot") {
        return Some(FnName::Plot);
    }
    if same_text(s, "ToBool") {
        return Some(FnName::ToBool);
    }
    if same_text(s, "ToInt") {
        return Some(FnName::ToInt);
    }
    if same_text(s, "ToReal") {
        return Some(FnName::ToReal);
    }
    if same_text(s, "ToDouble") {
        return Some(FnName::ToDouble);
    }
    if same_text(s, "Export") {
        return Some(FnName::Export);
    }
    if same_text(s, "Select") {
        return Some(FnName::Select);
    }
    if same_text(s, "RisingEdge") {
        return Some(FnName::RisingEdge);
    }
    if same_text(s, "FallingEdge") {
        return Some(FnName::FallingEdge);
    }
    if same_text(s, "Retain") {
        return Some(FnName::Retain);
    }
    if same_text(s, "Acc") {
        return Some(FnName::Acc);
    }
    if same_text(s, "Mul") {
        return Some(FnName::Mul);
    }
    if same_text(s, "Div") {
        return Some(FnName::Div);
    }
    if same_text(s, "Sub") {
        return Some(FnName::Sub);
    }
    if same_text(s, "BitAnd") {
        return Some(FnName::BitAnd);
    }
    if same_text(s, "BitOr") {
        return Some(FnName::BitOr);
    }
    if same_text(s, "BitXor") {
        return Some(FnName::BitXor);
    }
    if same_text(s, "Or") {
        return Some(FnName::Or);
    }
    if same_text(s, "And") {
        return Some(FnName::And);
    }
    if same_text(s, "Not") {
        return Some(FnName::Not);
    }
    if same_text(s, "Threshold") {
        return Some(FnName::Threshold);
    }
    if same_text(s, "Smooth") {
        return Some(FnName::Smooth);
    }
    if same_text(s, "Average") {
        return Some(FnName::Average);
    }
    if same_text(s, "Pow") {
        return Some(FnName::Pow);
    }
    if same_text(s, "RecOpCycleMetric") {
        return Some(FnName::RecOpCycleMetric);
    }
    if same_text(s, "Max") {
        return Some(FnName::Max);
    }
    if same_text(s, "Min") {
        return Some(FnName::Min);
    }
    if same_text(s, "PiecewiseLineApprox") {
        return Some(FnName::PiecewiseLineApprox);
    }
    if same_text(s, "IsChangedValue") {
        return Some(FnName::IsChangedValue);
    }
    if same_text(s, "Hold") {
        return Some(FnName::Hold);
    }
    if same_text(s, "ToString") {
        return Some(FnName::ToString);
    }
    None
}

/// The slots a function reads from its configuration, in order.
pub open spec fn schema(k: FnName) -> Seq<SlotView> {
    match k {
        FnName::Count => seq![SlotView { name: "initial"@, ctx: "FnCount | Can't get 'initial'"@, tag: "FnCount"@, need: Need::Opt }, SlotView { name: "input"@, ctx: "FnCount | Can't get 'input'"@, tag: "FnCount"@, need: Need::Must }],
        FnName::Add => seq![],
        FnName::Timer => seq![SlotView { name: "enable"@, ctx: "FnTimer | Can't get 'enable'"@, tag: "FnTimer"@, need: Need::Wrap }, SlotView { name: "reset"@, ctx: "FnTimer | Can't get 'reset'"@, tag: "FnTimer"@, need: Need::Opt }, SlotView { name: "initial"@, ctx: "FnTimer | Can't get 'initial'"@, tag: "FnTimer"@, need: Need::Opt }, SlotView { name: "input"@, ctx: "FnTimer | Can't get 'input'"@, tag: "FnTimer"@, need: Need::Req }],
        FnName::TimerOnDelay => seq![SlotView { name: "enable"@, ctx: "FnTimerOnDelay | Can't get 'enable'"@, tag: "FnTimerOnDelay"@, need: Need::Wrap }, SlotView { name: "reset"@, ctx: "FnTimerOnDelay | Can't get 'reset'"@, tag: "FnTimerOnDelay"@, need: Need::Opt }, SlotView { name: "input"@, ctx: "FnTimerOnDelay | Can't get 'input'"@, tag: "FnTimerOnDelay"@, need: Need::Req }, SlotView { name: "delay"@, ctx: "FnTimerOnDelay | Can't get 'delay'"@, tag: "FnTimerOnDelay"@, need: Need::Delay }],
        FnName::TimerOffDelay => seq![SlotView { name: "enable"@, ctx: "FnTimerOffDelay | Can't get 'enable'"@, tag: "FnTimerOffDelay"@, need: Need::Wrap }, SlotView { name: "reset"@, ctx: "FnTimerOffDelay | Can't get 'reset'"@, tag: "FnTimerOffDelay"@, need: Need::Opt }, SlotView { name: "input"@, ctx: "FnTimerOffDelay | Can't get 'input'"@, tag: "FnTimerOffDelay"@, need: Need::Req }, SlotView { name: "delay"@, ctx: "FnTimerOffDelay | Can't get 'delay'"@, tag: "FnTimerOffDelay"@, need: Need::Delay }],
        FnName::ToApiQueue => seq![SlotView { name: "input"@, ctx: "FnToApiQueue | Can't get 'input'"@, tag: "FnToApiQueue"@, need: Need::Must }, SlotView { name: "queue"@, ctx: "FnToApiQueue | Can't get 'queue'"@, tag: "FnToApiQueue"@, need: Need::Queue }],
        FnName::Gt => seq![],
        FnName::Ge => seq![],
        FnName::Eq => seq![],
        FnName::Le => seq![],
        FnName::Lt => seq![],
        FnName::Ne => seq![],
        FnName::SqlMetric => seq![],
        FnName::PointId => seq![SlotView { name: "input"@, ctx: "FnPointId | Can't get 'input'"@, tag: "FnPointId"@, need: Need::Must }],
        FnName::Debug => seq![],
        FnName::Plot => seq![SlotView { name: "enable"@, ctx: "FnPlot | Can't get 'enable'"@, tag: "FnPlot"@, need: Need::Opt }, SlotView { name: "x"@, ctx: "FnPlot | Can't get 'x'"@, tag: "FnPlot"@, need: Need::Opt }],
        FnName::ToBool => seq![SlotView { name: "input"@, ctx: "FnToBool | Can't get 'input'"@, tag: "FnToBool"@, need: Need::Must }],
        FnName::ToInt => seq![SlotView { name: "input"@, ctx: "FnToInt | Can't get 'input'"@, tag: "FnToInt"@, need: Need::Must }],
        FnName::ToReal => seq![SlotView { name: "input"@, ctx: "FnToReal | Can't get 'input'"@, tag: "FnToReal"@, need: Need::Must }],
        FnName::ToDouble => seq![SlotView { name: "input"@, ctx: "FnToDouble | Can't get 'input'"@, tag: "FnToDouble"@, need: Need::Must }],
        FnName::Export => seq![SlotView { name: "input"@, ctx: "FnExport | Can't get 'input'"@, tag: "FnExport"@, need: Need::Get }, SlotView { name: "enable"@, ctx: "FnExport | Can't get 'enable'"@, tag: "FnExport"@, need: Need::Wrap }, SlotView { name: "conf"@, ctx: "FnExport | Can't get 'conf'"@, tag: "FnExport"@, need: Need::PointConf }, SlotView { name: "send-to"@, ctx: "FnExport | Can't get 'send-to'"@, tag: "FnExport"@, need: Need::SendToExport }],
        FnName::Select => seq![SlotView { name: "select"@, ctx: "FnSelect | Can't get 'select'"@, tag: "FnSelect"@, need: Need::Req }, SlotView { name: "default"@, ctx: "FnSelect | Can't get 'default'"@, tag: "FnSelect"@, need: Need::Opt }, SlotView { name: "input"@, ctx: "FnSelect | Can't get 'input'"@, tag: "FnSelect"@, need: Need::Req }],
        FnName::RisingEdge => seq![SlotView { name: "input"@, ctx: "FnRisingEdge | Can't get 'input'"@, tag: "FnRisingEdge"@, need: Need::Req }],
        FnName::FallingEdge => seq![SlotView { name: "input"@, ctx: "FnFallingEdge | Can't get 'input'"@, tag: "FnFallingEdge"@, need: Need::Req }],
        FnName::Retain => seq![SlotView { name: "default"@, ctx: "FnRetain | Can't get 'default'"@, tag: "FnRetain"@, need: Need::Opt }, SlotView { name: "input"@, ctx: "FnRetain | Can't get 'input'"@, tag: "FnRetain"@, need: Need::Opt }, SlotView { name: "enable"@, ctx: "FnRetain | Can't get 'enable'"@, tag: "FnRetain"@, need: Need::Opt }, SlotView { name: "every-cycle"@, ctx: "FnRetain | Can't get 'every-cycle'"@, tag: "FnRetain"@, need: Need::EveryCycle }, SlotView { name: "key"@, ctx: "FnRetain | Can't get 'key'"@, tag: "FnRetain"@, need: Need::Key }],
        FnName::Acc => seq![SlotView { name: "initial"@, ctx: "FnAcc | Can't get 'initial'"@, tag: "FnAcc"@, need: Need::Opt }, SlotView { name: "input"@, ctx: "FnAcc | Can't get 'input'"@, tag: "FnAcc"@, need: Need::Must }],
        FnName::Mul => seq![],
        FnName::Div => seq![],
        FnName::Sub => seq![],
        FnName::BitAnd => seq![],
        FnName::BitOr => seq![],
        FnName::BitXor => seq![],
        FnName::Or => seq![],
        FnName::And => seq![],
        FnName::Not => seq![SlotView { name: "input"@, ctx: "FnBitNot | Can't get 'input'"@, tag: "FnBitNot"@, need: Need::Must }],
        FnName::Threshold => seq![SlotView { name: "enable"@, ctx: "FnThreshold | Can't get 'enable'"@, tag: "FnThreshold"@, need: Need::Wrap }, SlotView { name: "threshold"@, ctx: "FnThreshold | Can't get 'threshold'"@, tag: "FnThreshold"@, need: Need::Req }, SlotView { name: "factor"@, ctx: "FnThreshold | Can't get 'factor'"@, tag: "FnThreshold"@, need: Need::Opt }, SlotView { name: "input"@, ctx: "FnThreshold | Can't get 'input'"@, tag: "FnThreshold"@, need: Need::Req }],
        FnName::Smooth => seq![SlotView { name: "factor"@, ctx: "FnSmooth | Can't get 'factor'"@, tag: "FnSmooth"@, need: Need::Must }, SlotView { name: "input"@, ctx: "FnSmooth | Can't get 'input'"@, tag: "FnSmooth"@, need: Need::Must }],
        FnName::Average => seq![SlotView { name: "enable"@, ctx: "FnAverage | Can't get 'enable'"@, tag: "FnAverage"@, need: Need::Wrap }, SlotView { name: "reset"@, ctx: "FnMax | Can't get 'reset'"@, tag: "FnAverage"@, need: Need::Opt }, SlotView { name: "input"@, ctx: "FnAverage | Can't get 'input'"@, tag: "FnAverage"@, need: Need::Must }],
        FnName::Pow => seq![],
        FnName::RecOpCycleMetric => seq![SlotView { name: "enable"@, ctx: "FnRecOpCycleMetric | Can't get 'enable'"@, tag: "FnRecOpCycleMetric"@, need: Need::Wrap }, SlotView { name: "reset"@, ctx: "FnRecOpCycleMetric | Can't get 'reset'"@, tag: "FnRecOpCycleMetric"@, need: Need::Opt }, SlotView { name: "send-to"@, ctx: "FnRecOpCycleMetric | Can't get 'send-to'"@, tag: "FnRecOpCycleMetric"@, need: Need::SendToMetric }, SlotView { name: "op-cycle"@, ctx: "FnRecOpCycleMetric | Can't get 'op-cycle'"@, tag: "FnRecOpCycleMetric"@, need: Need::Req }],
        FnName::Max => seq![SlotView { name: "enable"@, ctx: "FnMax | Can't get 'enable'"@, tag: "FnMax"@, need: Need::Wrap }, SlotView { name: "reset"@, ctx: "FnMax | Can't get 'reset'"@, tag: "FnMax"@, need: Need::Opt }, SlotView { name: "input"@, ctx: "FnMax | Can't get 'input'"@, tag: "FnMax"@, need: Need::Req }],
        FnName::Min => seq![SlotView { name: "enable"@, ctx: "FnMin | Can't get 'enable'"@, tag: "FnMin"@, need: Need::Wrap }, SlotView { name: "reset"@, ctx: "FnMin | Can't get 'reset'"@, tag: "FnMin"@, need: Need::Opt }, SlotView { name: "input"@, ctx: "FnMin | Can't get 'input'"@, tag: "FnMin"@, need: Need::Req }],
        FnName::PiecewiseLineApprox => seq![SlotView { name: "input"@, ctx: "FnPiecewiseLineApprox | Can't get 'input'"@, tag: "FnPiecewiseLineApprox"@, need: Need::Req }, SlotView { name: "piecewise"@, ctx: "FnPiecewiseLineApprox | Can't get 'piecewise'"@, tag: "FnPiecewiseLineApprox"@, need: Need::Piecewise }],
        FnName::IsChangedValue => seq![],
        FnName::Hold => seq![SlotView { name: "input"@, ctx: "FnHold | Can't get 'input'"@, tag: "FnHold"@, need: Need::Req }],
        FnName::ToString => seq![SlotView { name: "input"@, ctx: "FnToString | Can't get 'input'"@, tag: "FnToString"@, need: Need::Req }],
        FnName::Point => seq![SlotView { name: "enable"@, ctx: "PointConf | Can't get 'enable'"@, tag: "PointConf"@, need: Need::Opt }, SlotView { name: "input"@, ctx: "PointConf | Can't get 'input'"@, tag: "PointConf"@, need: Need::Opt }, SlotView { name: "changes-only"@, ctx: "PointConf | Can't get 'input'"@, tag: "PointConf"@, need: Need::Opt }],
    }
}

/// Returns the slots of a function.
fn slots_of(k: FnName) -> (r: Vec<Slot>)
    ensures
        r@.map_values(|s: Slot| s@) == schema(k),
{
    let v = match k {
        FnName::Count => vec![Slot { name: "initial", ctx: "FnCount | Can't get 'initial'", tag: "FnCount", need: Need::Opt }, Slot { name: "input", ctx: "FnCount | Can't get 'input'", tag: "FnCount", need: Need::Must }],
        FnName::Add => vec![],
        FnName::Timer => vec![Slot { name: "enable", ctx: "FnTimer | Can't get 'enable'", tag: "FnTimer", need: Need::Wrap }, Slot { name: "reset", ctx: "FnTimer | Can't get 'reset'", tag: "FnTimer", need: Need::Opt }, Slot { name: "initial", ctx: "FnTimer | Can't get 'initial'", tag: "FnTimer", need: Need::Opt }, Slot { name: "input", ctx: "FnTimer | Can't get 'input'", tag: "FnTimer", need: Need::Req }],
        FnName::TimerOnDelay => vec![Slot { name: "enable", ctx: "FnTimerOnDelay | Can't get 'enable'", tag: "FnTimerOnDelay", need: Need::Wrap }, Slot { name: "reset", ctx: "FnTimerOnDelay | Can't get 'reset'", tag: "FnTimerOnDelay", need: Need::Opt }, Slot { name: "input", ctx: "FnTimerOnDelay | Can't get 'input'", tag: "FnTimerOnDelay", need: Need::Req }, Slot { name: "delay", ctx: "FnTimerOnDelay | Can't get 'delay'", tag: "FnTimerOnDelay", need: Need::Delay }],
        FnName::TimerOffDelay => vec![Slot { name: "enable", ctx: "FnTimerOffDelay | Can't get 'enable'", tag: "FnTimerOffDelay", need: Need::Wrap }, Slot { name: "reset", ctx: "FnTimerOffDelay | Can't get 'reset'", tag: "FnTimerOffDelay", need: Need::Opt }, Slot { name: "input", ctx: "FnTimerOffDelay | Can't get 'input'", tag: "FnTimerOffDelay", need: Need::Req }, Slot { name: "delay", ctx: "FnTimerOffDelay | Can't get 'delay'", tag: "FnTimerOffDelay", need: Need::Delay }],
        FnName::ToApiQueue => vec![Slot { name: "input", ctx: "FnToApiQueue | Can't get 'input'", tag: "FnToApiQueue", need: Need::Must }, Slot { name: "queue", ctx: "FnToApiQueue | Can't get 'queue'", tag: "FnToApiQueue", need: Need::Queue }],
        FnName::Gt => vec![],
        FnName::Ge => vec![],
        FnName::Eq => vec![],
        FnName::Le => vec![],
        FnName::Lt => vec![],
        FnName::Ne => vec![],
        FnName::SqlMetric => vec![],
        FnName::PointId => vec![Slot { name: "input", ctx: "FnPointId | Can't get 'input'", tag: "FnPointId", need: Need::Must }],
        FnName::Debug => vec![],
        FnName::Plot => vec![Slot { name: "enable", ctx: "FnPlot | Can't get 'enable'", tag: "FnPlot", need: Need::Opt }, Slot { name: "x", ctx: "FnPlot | Can't get 'x'", tag: "FnPlot", need: Need::Opt }],
        FnName::ToBool => vec![Slot { name: "input", ctx: "FnToBool | Can't get 'input'", tag: "FnToBool", need: Need::Must }],
        FnName::ToInt => vec![Slot { name: "input", ctx: "FnToInt | Can't get 'input'", tag: "FnToInt", need: Need::Must }],
        FnName::ToReal => vec![Slot { name: "input", ctx: "FnToReal | Can't get 'input'", tag: "FnToReal", need: Need::Must }],
        FnName::ToDouble => vec![Slot { name: "input", ctx: "FnToDouble | Can't get 'input'", tag: "FnToDouble", need: Need::Must }],
        FnName::Export => vec![Slot { name: "input", ctx: "FnExport | Can't get 'input'", tag: "FnExport", need: Need::Get }, Slot { name: "enable", ctx: "FnExport | Can't get 'enable'", tag: "FnExport", need: Need::Wrap }, Slot { name: "conf", ctx: "FnExport | Can't get 'conf'", tag: "FnExport", need: Need::PointConf }, Slot { name: "send-to", ctx: "FnExport | Can't get 'send-to'", tag: "FnExport", need: Need::SendToExport }],
        FnName::Select => vec![Slot { name: "select", ctx: "FnSelect | Can't get 'select'", tag: "FnSelect", need: Need::Req }, Slot { name: "default", ctx: "FnSelect | Can't get 'default'", tag: "FnSelect", need: Need::Opt }, Slot { name: "input", ctx: "FnSelect | Can't get 'input'", tag: "FnSelect", need: Need::Req }],
        FnName::RisingEdge => vec![Slot { name: "input", ctx: "FnRisingEdge | Can't get 'input'", tag: "FnRisingEdge", need: Need::Req }],
        FnName::FallingEdge => vec![Slot { name: "input", ctx: "FnFallingEdge | Can't get 'input'", tag: "FnFallingEdge", need: Need::Req }],
        FnName::Retain => vec![Slot { name: "default", ctx: "FnRetain | Can't get 'default'", tag: "FnRetain", need: Need::Opt }, Slot { name: "input", ctx: "FnRetain | Can't get 'input'", tag: "FnRetain", need: Need::Opt }, Slot { name: "enable", ctx: "FnRetain | Can't get 'enable'", tag: "FnRetain", need: Need::Opt }, Slot { name: "every-cycle", ctx: "FnRetain | Can't get 'every-cycle'", tag: "FnRetain", need: Need::EveryCycle }, Slot { name: "key", ctx: "FnRetain | Can't get 'key'", tag: "FnRetain", need: Need::Key }],
        FnName::Acc => vec![Slot { name: "initial", ctx: "FnAcc | Can't get 'initial'", tag: "FnAcc", need: Need::Opt }, Slot { name: "input", ctx: "FnAcc | Can't get 'input'", tag: "FnAcc", need: Need::Must }],
        FnName::Mul => vec![],
        FnName::Div => vec![],
        FnName::Sub => vec![],
        FnName::BitAnd => vec![],
        FnName::BitOr => vec![],
        FnName::BitXor => vec![],
        FnName::Or => vec![],
        FnName::And => vec![],
        FnName::Not => vec![Slot { name: "input", ctx: "FnBitNot | Can't get 'input'", tag: "FnBitNot", need: Need::Must }],
        FnName::Threshold => vec![Slot { name: "enable", ctx: "FnThreshold | Can't get 'enable'", tag: "FnThreshold", need: Need::Wrap }, Slot { name: "threshold", ctx: "FnThreshold | Can't get 'threshold'", tag: "FnThreshold", need: Need::Req }, Slot { name: "factor", ctx: "FnThreshold | Can't get 'factor'", tag: "FnThreshold", need: Need::Opt }, Slot { name: "input", ctx: "FnThreshold | Can't get 'input'", tag: "FnThreshold", need: Need::Req }],
        FnName::Smooth => vec![Slot { name: "factor", ctx: "FnSmooth | Can't get 'factor'", tag: "FnSmooth", need: Need::Must }, Slot { name: "input", ctx: "FnSmooth | Can't get 'input'", tag: "FnSmooth", need: Need::Must }],
        FnName::Average => vec![Slot { name: "enable", ctx: "FnAverage | Can't get 'enable'", tag: "FnAverage", need: Need::Wrap }, Slot { name: "reset", ctx: "FnMax | Can't get 'reset'", tag: "FnAverage", need: Need::Opt }, Slot { name: "input", ctx: "FnAverage | Can't get 'input'", tag: "FnAverage", need: Need::Must }],
        FnName::Pow => vec![],
        FnName::RecOpCycleMetric => vec![Slot { name: "enable", ctx: "FnRecOpCycleMetric | Can't get 'enable'", tag: "FnRecOpCycleMetric", need: Need::Wrap }, Slot { name: "reset", ctx: "FnRecOpCycleMetric | Can't get 'reset'", tag: "FnRecOpCycleMetric", need: Need::Opt }, Slot { name: "send-to", ctx: "FnRecOpCycleMetric | Can't get 'send-to'", tag: "FnRecOpCycleMetric", need: Need::SendToMetric }, Slot { name: "op-cycle", ctx: "FnRecOpCycleMetric | Can't get 'op-cycle'", tag: "FnRecOpCycleMetric", need: Need::Req }],
        FnName::Max => vec![Slot { name: "enable", ctx: "FnMax | Can't get 'enable'", tag: "FnMax", need: Need::Wrap }, Slot { name: "reset", ctx: "FnMax | Can't get 'reset'", tag: "FnMax", need: Need::Opt }, Slot { name: "input", ctx: "FnMax | Can't get 'input'", tag: "FnMax", need: Need::Req }],
        FnName::Min => vec![Slot { name: "enable", ctx: "FnMin | Can't get 'enable'", tag: "FnMin", need: Need::Wrap }, Slot { name: "reset", ctx: "FnMin | Can't get 'reset'", tag: "FnMin", need: Need::Opt }, Slot { name: "input", ctx: "FnMin | Can't get 'input'", tag: "FnMin", need: Need::Req }],
        FnName::PiecewiseLineApprox => vec![Slot { name: "input", ctx: "FnPiecewiseLineApprox | Can't get 'input'", tag: "FnPiecewiseLineApprox", need: Need::Req }, Slot { name: "piecewise", ctx: "FnPiecewiseLineApprox | Can't get 'piecewise'", tag: "FnPiecewiseLineApprox", need: Need::Piecewise }],
        FnName::IsChangedValue => vec![],
        FnName::Hold => vec![Slot { name: "input", ctx: "FnHold | Can't get 'input'", tag: "FnHold", need: Need::Req }],
        FnName::ToString => vec![Slot { name: "input", ctx: "FnToString | Can't get 'input'", tag: "FnToString", need: Need::Req }],
        FnName::Point => vec![Slot { name: "enable", ctx: "PointConf | Can't get 'enable'", tag: "PointConf", need: Need::Opt }, Slot { name: "input", ctx: "PointConf | Can't get 'input'", tag: "PointConf", need: Need::Opt }, Slot { name: "changes-only", ctx: "PointConf | Can't get 'input'", tag: "PointConf", need: Need::Opt }],
    };
    assert(v@.map_values(|s: Slot| s@) =~= schema(k));
    v
}

/// Which of the remaining inputs a function reads, after its slots, and the
/// tag of the messages about them.
pub open spec fn rest_of(k: FnName) -> (Rest, Seq<char>) {
    match k {
        FnName::Count => (Rest::Nothing, "FnCount"@),
        FnName::Add => (Rest::All, "FnAdd"@),
        FnName::Timer => (Rest::Nothing, "FnTimer"@),
        FnName::TimerOnDelay => (Rest::Nothing, "FnTimerOnDelay"@),
        FnName::TimerOffDelay => (Rest::Nothing, "FnTimerOffDelay"@),
        FnName::ToApiQueue => (Rest::Nothing, "FnToApiQueue"@),
        FnName::Gt => (Rest::All, "FnGt"@),
        FnName::Ge => (Rest::All, "FnGe"@),
        FnName::Eq => (Rest::All, "FnEq"@),
        FnName::Le => (Rest::All, "FnLe"@),
        FnName::Lt => (Rest::All, "FnLt"@),
        FnName::Ne => (Rest::All, "FnNe"@),
        FnName::SqlMetric => (Rest::Nothing, "FnSql"@),
        FnName::PointId => (Rest::Nothing, "FnPointId"@),
        FnName::Debug => (Rest::All, "FnDebug"@),
        FnName::Plot => (Rest::AllBut(seq!["enable"@, "x"@]), "FnPlot"@),
        FnName::ToBool => (Rest::Nothing, "FnToBool"@),
        FnName::ToInt => (Rest::Nothing, "FnToInt"@),
        FnName::ToReal => (Rest::Nothing, "FnToReal"@),
        FnName::ToDouble => (Rest::Nothing, "FnToDouble"@),
        FnName::Export => (Rest::Nothing, "FnExport"@),
        FnName::Select => (Rest::Nothing, "FnSelect"@),
        FnName::RisingEdge => (Rest::Nothing, "FnRisingEdge"@),
        FnName::FallingEdge => (Rest::Nothing, "FnFallingEdge"@),
        FnName::Retain => (Rest::Nothing, "FnRetain"@),
        FnName::Acc => (Rest::Nothing, "FnAcc"@),
        FnName::Mul => (Rest::All, "FnSub"@),
        FnName::Div => (Rest::All, "FnSub"@),
        FnName::Sub => (Rest::All, "FnSub"@),
        FnName::BitAnd => (Rest::All, "FnBitAnd"@),
        FnName::BitOr => (Rest::All, "FnBitOr"@),
        FnName::BitXor => (Rest::All, "FnBitXor"@),
        FnName::Or => (Rest::All, "FnOr"@),
        FnName::And => (Rest::All, "FnAnd"@),
        FnName::Not => (Rest::Nothing, "FnBitNot"@),
        FnName::Threshold => (Rest::Nothing, "FnThreshold"@),
        FnName::Smooth => (Rest::Nothing, "FnSmooth"@),
        FnName::Average => (Rest::Nothing, "FnAverage"@),
        FnName::Pow => (Rest::All, "FnSub"@),
        FnName::RecOpCycleMetric => (Rest::AllBut(seq!["enable"@, "reset"@, "send-to"@, "conf"@, "op-cycle"@]), "FnRecOpCycleMetric"@),
        FnName::Max => (Rest::Nothing, "FnMax"@),
        FnName::Min => (Rest::Nothing, "FnMin"@),
        FnName::PiecewiseLineApprox => (Rest::Nothing, "FnPiecewiseLineApprox"@),
        FnName::IsChangedValue => (Rest::All, "FnIsChangedValue"@),
        FnName::Hold => (Rest::Nothing, "FnHold"@),
        FnName::ToString => (Rest::Nothing, "FnToString"@),
        FnName::Point => (Rest::Nothing, "PointConf"@),
    }
}

/// Returns which of the remaining inputs a function reads, and the tag of its messages.
fn rest_exec(k: FnName) -> (r: (RestExec, &'static str))
    ensures
        (r.0@, r.1@) == rest_of(k),
{
    let r = match k {
        FnName::Count => (RestExec::Nothing, "FnCount"),
        FnName::Add => (RestExec::All, "FnAdd"),
        FnName::Timer => (RestExec::Nothing, "FnTimer"),
        FnName::TimerOnDelay => (RestExec::Nothing, "FnTimerOnDelay"),
        FnName::TimerOffDelay => (RestExec::Nothing, "FnTimerOffDelay"),
        FnName::ToApiQueue => (RestExec::Nothing, "FnToApiQueue"),
        FnName::Gt => (RestExec::All, "FnGt"),
        FnName::Ge => (RestExec::All, "FnGe"),
        FnName::Eq => (RestExec::All, "FnEq"),
        FnName::Le => (RestExec::All, "FnLe"),
        FnName::Lt => (RestExec::All, "FnLt"),
        FnName::Ne => (RestExec::All, "FnNe"),
        FnName::SqlMetric => (RestExec::Nothing, "FnSql"),
        FnName::PointId => (RestExec::Nothing, "FnPointId"),
        FnName::Debug => (RestExec::All, "FnDebug"),
        FnName::Plot => (RestExec::AllBut(vec!["enable", "x"]), "FnPlot"),
        FnName::ToBool => (RestExec::Nothing, "FnToBool"),
        FnName::ToInt => (RestExec::Nothing, "FnToInt"),
        FnName::ToReal => (RestExec::Nothing, "FnToReal"),
        FnName::ToDouble => (RestExec::Nothing, "FnToDouble"),
        FnName::Export => (RestExec::Nothing, "FnExport"),
        FnName::Select => (RestExec::Nothing, "FnSelect"),
        FnName::RisingEdge => (RestExec::Nothing, "FnRisingEdge"),
        FnName::FallingEdge => (RestExec::Nothing, "FnFallingEdge"),
        FnName::Retain => (RestExec::Nothing, "FnRetain"),
        FnName::Acc => (RestExec::Nothing, "FnAcc"),
        FnName::Mul => (RestExec::All, "FnSub"),
        FnName::Div => (RestExec::All, "FnSub"),
        FnName::Sub => (RestExec::All, "FnSub"),
        FnName::BitAnd => (RestExec::All, "FnBitAnd"),
        FnName::BitOr => (RestExec::All, "FnBitOr"),
        FnName::BitXor => (RestExec::All, "FnBitXor"),
        FnName::Or => (RestExec::All, "FnOr"),
        FnName::And => (RestExec::All, "FnAnd"),
        FnName::Not => (RestExec::Nothing, "FnBitNot"),
        FnName::Threshold => (RestExec::Nothing, "FnThreshold"),
        FnName::Smooth => (RestExec::Nothing, "FnSmooth"),
        FnName::Average => (RestExec::Nothing, "FnAverage"),
        FnName::Pow => (RestExec::All, "FnSub"),
        FnName::RecOpCycleMetric => (RestExec::AllBut(vec!["enable", "reset", "send-to", "conf", "op-cycle"]), "FnRecOpCycleMetric"),
        FnName::Max => (RestExec::Nothing, "FnMax"),
        FnName::Min => (RestExec::Nothing, "FnMin"),
        FnName::PiecewiseLineApprox => (RestExec::Nothing, "FnPiecewiseLineApprox"),
        FnName::IsChangedValue => (RestExec::All, "FnIsChangedValue"),
        FnName::Hold => (RestExec::Nothing, "FnHold"),
        FnName::ToString => (RestExec::Nothing, "FnToString"),
        FnName::Point => (RestExec::Nothing, "PointConf"),
    };
    proof {
        match &r.0 {
            RestExec::AllBut(v) => { assert(v@.map_values(|s: &'static str| s@) =~= rest_of(k).0->AllBut_0); }
            _ => {}
        }
    }
    r
}


/// The plan of a function so far: its inputs by slot name, its `enable`
/// input, its parameters.
pub struct Acc {
    pub inputs: Seq<(Seq<char>, PlanView)>,
    pub enable: Option<PlanView>,
    pub params: Seq<(Seq<char>, ParamView)>,
}

/// What a parameter slot gives.
pub enum ParamOutcome {
    /// Nothing to record.
    Skip,
    /// The parameter to record.
    Keep(ParamView),
    Fail(Seq<char>),
    Broken(Seq<char>),
}

/// What the parameter slot `s` of the function named `fname` gives for the
/// configuration `found` under its name (`None`: no such entry).
pub open spec fn param_outcome(s: SlotView, fname: Seq<char>, found: Option<FnConf>) -> ParamOutcome {
    let not_param = ParamOutcome::Broken(s.tag + " | Parameter '"@ + s.name + "' is not a parameter"@);
    let not_text = s.tag + " | Parameter '"@ + s.name + "' must be a string"@;
    match s.need {
        Need::Queue => match found {
            None => ParamOutcome::Fail(s.tag + " | Parameter '"@ + s.name + "' is missed in '"@ + fname + "'"@),
            Some(FnConf::Param(ParamValue::Str(v))) => ParamOutcome::Keep(ParamView::Str(v@)),
            Some(FnConf::Param(_)) => ParamOutcome::Broken(not_text),
            Some(_) => not_param,
        },
        Need::Delay => match found {
            None => ParamOutcome::Fail(s.ctx),
            Some(FnConf::Param(ParamValue::Str(v))) => ParamOutcome::Keep(ParamView::Str(v@)),
            Some(FnConf::Param(_)) => ParamOutcome::Fail(s.tag + " | Wrong conf in '"@ + s.name + "'"@),
            Some(_) => not_param,
        },
        Need::Key => match found {
            None => ParamOutcome::Fail(s.tag + " | Parameter '"@ + s.name + "' - missed in '"@ + fname + "'"@),
            Some(FnConf::Param(ParamValue::Str(v))) => ParamOutcome::Keep(ParamView::Str(v@)),
            Some(FnConf::Param(_)) => ParamOutcome::Fail(not_text + " in '"@ + fname + "'"@),
            Some(_) => not_param,
        },
        Need::EveryCycle => match found {
            None => ParamOutcome::Keep(ParamView::Bool(false)),
            Some(FnConf::Param(ParamValue::Bool(b))) => ParamOutcome::Keep(ParamView::Bool(b)),
            Some(FnConf::Param(_)) => ParamOutcome::Keep(ParamView::Bool(false)),
            Some(_) => not_param,
        },
        Need::SendToExport => match found {
            None => ParamOutcome::Skip,
            Some(FnConf::Param(ParamValue::Str(v))) => ParamOutcome::Keep(ParamView::Str(v@)),
            Some(FnConf::Param(_)) => ParamOutcome::Fail(s.tag + " | Invalid conf in '"@ + s.name + "', string expected"@),
            Some(_) => ParamOutcome::Fail(s.tag + " | Invalid conf in '"@ + s.name + "'"@),
        },
        Need::SendToMetric => match found {
            None => ParamOutcome::Skip,
            Some(FnConf::Param(ParamValue::Str(v))) => ParamOutcome::Keep(ParamView::Str(v@)),
            Some(FnConf::Param(_)) => ParamOutcome::Broken(not_text),
            Some(_) => ParamOutcome::Fail(s.tag + " | Parameter '"@ + s.name + "' - invalid type, string expected"@),
        },
        Need::Piecewise => match found {
            None => ParamOutcome::Fail(s.ctx),
            Some(FnConf::Param(v)) => ParamOutcome::Keep(v@),
            Some(_) => ParamOutcome::Fail(s.tag + " | Parameter '"@ + s.name + "' - has invalid type, expected map in '"@ + fname + "'"@),
        },
        Need::PointConf => match found {
            None => ParamOutcome::Skip,
            Some(FnConf::PointConf { point, inputs }) => ParamOutcome::Keep(ParamView::Str(point@)),
            Some(_) => ParamOutcome::Fail(s.tag + " | Invalid Point config in '"@ + s.name + "'"@),
        },
        _ => ParamOutcome::Skip,
    }
}

/// `true` for the slots that hold an input (the others hold parameters).
pub open spec fn is_input(n: Need) -> bool {
    n == Need::Opt || n == Need::Wrap || n == Need::Req || n == Need::Must || n == Need::Get
}

/// The plan of a function of kind `k` with the plan so far `acc`.
pub open spec fn finish(k: FnName, acc: Acc) -> PlanView {
    PlanView::Node {
        kind: k,
        inputs: acc.inputs,
        enable: match acc.enable {
            Some(p) => Some(Box::new(p)),
            None => None,
        },
        params: acc.params,
    }
}

/// The error of a default that is not a value of its input's type.
pub open spec fn default_error(typ: InputType) -> Seq<char> {
    "FnInput | Error parsing Point default as "@ + input_type_name(typ)
}

/// The plan of the configuration `conf`, with the variables `vars` declared
/// before, and the variables declared after it.
///
/// - a function: its kind is the one its name names (an unknown name is an
///   error); its slots are read in order (see `plan_slots`), then the other
///   inputs its kind reads (see `plan_rest`);
/// - a variable with an input declares the variable with the plan of its
///   first input; without one it uses a variable declared before, and an
///   undeclared variable is an error;
/// - a constant of type `any` or of no type is an error;
/// - an input point starts from its default (see `initial_of`); a default
///   that is not a value of its type breaks the build;
/// - an output point reads its `enable`, `input` and `changes-only` inputs;
/// - a parameter out of place is an error.
pub open spec fn plan_spec(conf: FnConf, vars: Seq<Seq<char>>) -> (Result<PlanView, PlanErr>, Seq<Seq<char>>)
    decreases conf, 0nat,
{
    match conf {
        FnConf::Fn { name, inputs } => match name_of(name@) {
            None => (Err(PlanErr::Fail("Unknown function name: '"@ + name@ + "'"@)), vars),
            Some(k) => plan_slots(k, name@, inputs@, schema(k), Acc { inputs: Seq::empty(), enable: None, params: Seq::empty() }, vars),
        },
        FnConf::Var { name, inputs } => if inputs@.len() > 0 {
            let (r, v) = plan_spec(inputs@[0].1, vars);
            match r {
                Ok(p) => (Ok(PlanView::VarDecl { name: name@, input: Box::new(p) }), v.push(name@)),
                Err(PlanErr::Fail(m)) => (Err(PlanErr::Fail("Var | Can't get '"@ + inputs@[0].0@ + "': "@ + m)), v),
                Err(e) => (Err(e), v),
            }
        } else if vars.contains(name@) {
            (Ok(PlanView::VarUse { name: name@ }), vars)
        } else {
            (Err(PlanErr::Fail("Var "@ + name@ + " - is not declared"@)), vars)
        },
        FnConf::Const { typ, value } => match typ {
            ConstType::Any => (Err(PlanErr::Fail("Const '"@ + value@ + "': type 'any' - is not supported"@)), vars),
            ConstType::Unknown => (Err(PlanErr::Fail("Const '"@ + value@ + "': type required"@)), vars),
            _ => (Ok(PlanView::Const { typ, value: value@ }), vars),
        },
        FnConf::Point { name, typ, default } => {
            let initial = initial_of(typ, match default { Some(d) => Some(d@), None => None });
            match initial {
                InitialView::Invalid => (Err(PlanErr::Broken(default_error(typ))), vars),
                _ => (Ok(PlanView::Point { name: name@, typ, initial }), vars),
            }
        },
        FnConf::PointConf { point, inputs } => plan_slots(FnName::Point, "PointConf"@, inputs@, schema(FnName::Point),
            Acc { inputs: Seq::empty(), enable: None, params: seq![("conf"@, ParamView::Str(point@))] }, vars),
        FnConf::Param(_) => (Err(PlanErr::Fail("Param | Undefined variable or unknown custom parameters in the function conf"@)), vars),
    }
}

/// Reads the slots `slots` of a function of kind `k` named `fname` from its
/// configured `inputs`, the last entry of a name counting:
/// - a present input is planned; an error in it is reported with the slot's
///   context; an `enable` that wraps goes aside, the others join the inputs;
/// - an absent input: nothing for an optional one, an error for a required
///   one, a broken build for one taken for granted;
/// - a parameter gives what `param_outcome` says.
pub open spec fn plan_slots(
    k: FnName,
    fname: Seq<char>,
    inputs: Seq<(String, FnConf)>,
    slots: Seq<SlotView>,
    acc: Acc,
    vars: Seq<Seq<char>>,
) -> (Result<PlanView, PlanErr>, Seq<Seq<char>>)
    decreases inputs, slots.len() + inputs.len() + 1,
{
    if slots.len() == 0 {
        plan_rest(k, inputs, 0, acc, vars)
    } else {
        let s = slots[0];
        let j = last_index_of(keys_of(inputs), s.name);
        if is_input(s.need) {
            if 0 <= j < inputs.len() {
                let (r, v) = plan_spec(inputs[j].1, vars);
                match r {
                    Ok(p) => plan_slots(k, fname, inputs, slots.drop_first(),
                        if s.need == Need::Wrap { Acc { enable: Some(p), ..acc } }
                        else { Acc { inputs: acc.inputs.push((s.name, p)), ..acc } }, v),
                    Err(PlanErr::Fail(m)) => (Err(PlanErr::Fail(s.ctx + ": "@ + m)), v),
                    Err(e) => (Err(e), v),
                }
            } else {
                match s.need {
                    Need::Req => (Err(PlanErr::Fail(s.ctx + ": "@ + s.tag + " | '"@ + s.name + "' - is missed"@)), vars),
                    Need::Must => (Err(PlanErr::Broken(s.tag + " | '"@ + s.name + "' - is missed"@)), vars),
                    Need::Get => (Err(PlanErr::Fail(s.ctx)), vars),
                    _ => plan_slots(k, fname, inputs, slots.drop_first(), acc, vars),
                }
            }
        } else {
            let found = if 0 <= j < inputs.len() { Some(inputs[j].1) } else { None };
            match param_outcome(s, fname, found) {
                ParamOutcome::Skip => plan_slots(k, fname, inputs, slots.drop_first(), acc, vars),
                ParamOutcome::Keep(p) => plan_slots(k, fname, inputs, slots.drop_first(),
                    Acc { params: acc.params.push((s.name, p)), ..acc }, vars),
                ParamOutcome::Fail(m) => (Err(PlanErr::Fail(m)), vars),
                ParamOutcome::Broken(m) => (Err(PlanErr::Broken(m)), vars),
            }
        }
    }
}

/// Reads, from the `i`-th on, the configured inputs a function of kind `k`
/// takes after its slots (all, all but some names, or none), in order, and
/// finishes the plan.
pub open spec fn plan_rest(
    k: FnName,
    inputs: Seq<(String, FnConf)>,
    i: int,
    acc: Acc,
    vars: Seq<Seq<char>>,
) -> (Result<PlanView, PlanErr>, Seq<Seq<char>>)
    decreases inputs, inputs.len() - i,
{
    if i < 0 || i >= inputs.len() {
        (Ok(finish(k, acc)), vars)
    } else {
        let key = inputs[i].0@;
        let take = match rest_of(k).0 {
            Rest::Nothing => false,
            Rest::All => true,
            Rest::AllBut(ex) => !ex.contains(key),
        };
        if !take {
            plan_rest(k, inputs, i + 1, acc, vars)
        } else {
            let (r, v) = plan_spec(inputs[i].1, vars);
            match r {
                Ok(p) => plan_rest(k, inputs, i + 1, Acc { inputs: acc.inputs.push((key, p)), ..acc }, v),
                Err(PlanErr::Fail(m)) => (Err(PlanErr::Fail(rest_of(k).1 + " | Can't get '"@ + key + "': "@ + m)), v),
                Err(e) => (Err(e), v),
            }
        }
    }
}


/// The content of a plan so far.
pub open spec fn acc_view(inputs: Seq<(String, NodePlan)>, enable: Option<NodePlan>, params: Seq<(String, ParamValue)>) -> Acc {
    Acc {
        inputs: entries_view(inputs),
        enable: match enable {
            Some(p) => Some(plan_view(p)),
            None => None,
        },
        params: params_view(params),
    }
}

proof fn lemma_entries_push(s: Seq<(String, NodePlan)>, x: (String, NodePlan))
    ensures
        entries_view(s.push(x)) == entries_view(s).push((x.0@, plan_view(x.1))),
{
    assert(s.push(x).drop_last() =~= s);
}

/// What a parameter slot gives.
#[derive(Debug)]
enum ParamResult {
    Skip,
    Keep(ParamValue),
    Fail(String),
    Broken(String),
}

spec fn param_result_view(r: ParamResult) -> ParamOutcome {
    match r {
        ParamResult::Skip => ParamOutcome::Skip,
        ParamResult::Keep(p) => ParamOutcome::Keep(p@),
        ParamResult::Fail(m) => ParamOutcome::Fail(m@),
        ParamResult::Broken(m) => ParamOutcome::Broken(m@),
    }
}

/// Returns `a`, `b` and `c` one after the other.
fn text3(a: &str, b: &str, c: &str) -> (r: String)
    ensures
        r@ == a@ + b@ + c@,
{
    String::from_str(a).concat(b).concat(c)
}

/// Returns what the parameter slot `s` of the function named `fname` gives for
/// the configuration `found` under its name.
fn check_param(s: Slot, fname: &String, found: Option<&FnConf>) -> (r: ParamResult)
    ensures
        param_result_view(r) == param_outcome(s@, fname@, match found { Some(c) => Some(*c), None => None }),
{
    let not_param = text3(s.tag, " | Parameter '", s.name).concat("' is not a parameter");
    let not_text = text3(s.tag, " | Parameter '", s.name).concat("' must be a string");
    match s.need {
        Need::Queue => match found {
            None => ParamResult::Fail(text3(s.tag, " | Parameter '", s.name).concat("' is missed in '").concat(fname.as_str()).concat("'")),
            Some(FnConf::Param(ParamValue::Str(v))) => ParamResult::Keep(ParamValue::Str(copy_string(v))),
            Some(FnConf::Param(_)) => ParamResult::Broken(not_text),
            Some(_) => ParamResult::Broken(not_param),
        },
        Need::Delay => match found {
            None => ParamResult::Fail(String::from_str(s.ctx)),
            Some(FnConf::Param(ParamValue::Str(v))) => ParamResult::Keep(ParamValue::Str(copy_string(v))),
            Some(FnConf::Param(_)) => ParamResult::Fail(text3(s.tag, " | Wrong conf in '", s.name).concat("'")),
            Some(_) => ParamResult::Broken(not_param),
        },
        Need::Key => match found {
            None => ParamResult::Fail(text3(s.tag, " | Parameter '", s.name).concat("' - missed in '").concat(fname.as_str()).concat("'")),
            Some(FnConf::Param(ParamValue::Str(v))) => ParamResult::Keep(ParamValue::Str(copy_string(v))),
            Some(FnConf::Param(_)) => ParamResult::Fail(not_text.concat(" in '").concat(fname.as_str()).concat("'")),
            Some(_) => ParamResult::Broken(not_param),
        },
        Need::EveryCycle => match found {
            None => ParamResult::Keep(ParamValue::Bool(false)),
            Some(FnConf::Param(ParamValue::Bool(b))) => ParamResult::Keep(ParamValue::Bool(*b)),
            Some(FnConf::Param(_)) => ParamResult::Keep(ParamValue::Bool(false)),
            Some(_) => ParamResult::Broken(not_param),
        },
        Need::SendToExport => match found {
            None => ParamResult::Skip,
            Some(FnConf::Param(ParamValue::Str(v))) => ParamResult::Keep(ParamValue::Str(copy_string(v))),
            Some(FnConf::Param(_)) => ParamResult::Fail(text3(s.tag, " | Invalid conf in '", s.name).concat("', string expected")),
            Some(_) => ParamResult::Fail(text3(s.tag, " | Invalid conf in '", s.name).concat("'")),
        },
        Need::SendToMetric => match found {
            None => ParamResult::Skip,
            Some(FnConf::Param(ParamValue::Str(v))) => ParamResult::Keep(ParamValue::Str(copy_string(v))),
            Some(FnConf::Param(_)) => ParamResult::Broken(not_text),
            Some(_) => ParamResult::Fail(text3(s.tag, " | Parameter '", s.name).concat("' - invalid type, string expected")),
        },
        Need::Piecewise => match found {
            None => ParamResult::Fail(String::from_str(s.ctx)),
            Some(FnConf::Param(v)) => ParamResult::Keep(copy_param(v)),
            Some(_) => ParamResult::Fail(text3(s.tag, " | Parameter '", s.name)
                .concat("' - has invalid type, expected map in '").concat(fname.as_str()).concat("'")),
        },
        Need::PointConf => match found {
            None => ParamResult::Skip,
            Some(FnConf::PointConf { point, inputs: _ }) => ParamResult::Keep(ParamValue::Str(copy_string(point))),
            Some(_) => ParamResult::Fail(text3(s.tag, " | Invalid Point config in '", s.name).concat("'")),
        },
        _ => ParamResult::Skip,
    }
}

/// Returns `true` if `key` is one of `names`.
fn listed(names: &Vec<&'static str>, key: &String) -> (r: bool)
    ensures
        r == names@.map_values(|s: &'static str| s@).contains(key@),
{
    let ghost view = names@.map_values(|s: &'static str| s@);
    let mut i: usize = 0;
    while i < names.len()
        invariant
            i <= names.len(),
            view == names@.map_values(|s: &'static str| s@),
            forall|j: int| 0 <= j < i ==> view[j] != key@,
        decreases names.len() - i,
    {
        if same_text(names[i], key.as_str()) {
            assert(view[i as int] == key@);
            return true;
        }
        i = i + 1;
    }
    false
}

/// Returns `true` if a variable named `name` is declared in `vars`.
fn declared(vars: &Vec<String>, name: &String) -> (r: bool)
    ensures
        r == vars_view(vars@).contains(name@),
{
    let ghost view = vars_view(vars@);
    let mut i: usize = 0;
    while i < vars.len()
        invariant
            i <= vars.len(),
            view == vars_view(vars@),
            forall|j: int| 0 <= j < i ==> view[j] != name@,
        decreases vars.len() - i,
    {
        if same_text(vars[i].as_str(), name.as_str()) {
            assert(view[i as int] == name@);
            return true;
        }
        i = i + 1;
    }
    false
}

/// Plans the configuration `conf` of a node; `vars` holds the variables
/// declared so far, and receives those `conf` declares.
pub fn plan(conf: &FnConf, vars: &mut Vec<String>) -> (r: Result<NodePlan, PlanError>)
    ensures
        (plan_result(r), vars_view(final(vars)@)) == plan_spec(*conf, vars_view(old(vars)@)),
    decreases conf, 0nat,
{
    match conf {
        FnConf::Fn { name, inputs } => match function_of(name.as_str()) {
            None => Err(PlanError::Fail(text3("Unknown function name: '", name.as_str(), "'"))),
            Some(k) => {
                let ins: Vec<(String, NodePlan)> = Vec::new();
                let ps: Vec<(String, ParamValue)> = Vec::new();
                proof {
                    assert(entries_view(ins@) =~= Seq::<(Seq<char>, PlanView)>::empty());
                    assert(params_view(ps@) =~= Seq::<(Seq<char>, ParamView)>::empty());
                }
                plan_node(k, name, inputs, ins, None, ps, vars)
            }
        },
        FnConf::Var { name, inputs } => {
            if inputs.len() > 0 {
                let r = plan(&inputs[0].1, vars);
                match r {
                    Ok(p) => {
                        let ghost before = vars@;
                        vars.push(copy_string(name));
                        proof { assert(vars_view(vars@) =~= vars_view(before).push(name@)); }
                        Ok(NodePlan::VarDecl { name: copy_string(name), input: Box::new(p) })
                    }
                    Err(PlanError::Fail(m)) => Err(PlanError::Fail(text3("Var | Can't get '", inputs[0].0.as_str(), "': ").concat(m.as_str()))),
                    Err(e) => Err(e),
                }
            } else if declared(vars, name) {
                Ok(NodePlan::VarUse { name: copy_string(name) })
            } else {
                Err(PlanError::Fail(text3("Var ", name.as_str(), " - is not declared")))
            }
        }
        FnConf::Const { typ, value } => match typ {
            ConstType::Any => Err(PlanError::Fail(text3("Const '", value.as_str(), "': type 'any' - is not supported"))),
            ConstType::Unknown => Err(PlanError::Fail(text3("Const '", value.as_str(), "': type required"))),
            _ => Ok(NodePlan::Const { typ: *typ, value: copy_string(value) }),
        },
        FnConf::Point { name, typ, default } => {
            let d: Option<&str> = match default { Some(d) => Some(d.as_str()), None => None };
            let initial = initial_value(*typ, d);
            match initial {
                Initial::Invalid => Err(PlanError::Broken(String::from_str("FnInput | Error parsing Point default as ").concat(input_type_name_of(*typ)))),
                _ => Ok(NodePlan::Point { name: copy_string(name), typ: *typ, initial }),
            }
        }
        FnConf::PointConf { point, inputs } => {
            let mut params: Vec<(String, ParamValue)> = Vec::new();
            params.push((String::from_str("conf"), ParamValue::Str(copy_string(point))));
            proof { assert(params_view(params@) =~= seq![("conf"@, ParamView::Str(point@))]); }
            let fname = String::from_str("PointConf");
            proof { assert(entries_view(Seq::<(String, NodePlan)>::empty()) =~= Seq::<(Seq<char>, PlanView)>::empty()); }
            plan_node(FnName::Point, &fname, inputs, Vec::new(), None, params, vars)
        }
        FnConf::Param(_) => Err(PlanError::Fail(String::from_str("Param | Undefined variable or unknown custom parameters in the function conf"))),
    }
}

/// Plans a node of kind `k` named `fname` from its configured `inputs`,
/// starting from the plan so far: its slots, then the other inputs it reads.
fn plan_node(
    k: FnName,
    fname: &String,
    inputs: &Vec<(String, FnConf)>,
    inputs0: Vec<(String, NodePlan)>,
    enable0: Option<NodePlan>,
    params0: Vec<(String, ParamValue)>,
    vars: &mut Vec<String>,
) -> (r: Result<NodePlan, PlanError>)
    ensures
        (plan_result(r), vars_view(final(vars)@)) == plan_slots(k, fname@, inputs@, schema(k),
            acc_view(inputs0@, enable0, params0@), vars_view(old(vars)@)),
    decreases inputs, 1nat,
{
    let ghost start = acc_view(inputs0@, enable0, params0@);
    let mut acc_inputs = inputs0;
    let mut acc_enable = enable0;
    let mut acc_params = params0;
    assert(acc_view(acc_inputs@, acc_enable, acc_params@) == start);
    let ghost goal = plan_slots(k, fname@, inputs@, schema(k), acc_view(acc_inputs@, acc_enable, acc_params@), vars_view(vars@));
    let slots = slots_of(k);
    let ghost sv = slots@.map_values(|s: Slot| s@);
    assert(schema(k).skip(0) =~= schema(k));
    let mut i: usize = 0;
    while i < slots.len()
        invariant
            i <= slots.len(),
            sv == slots@.map_values(|s: Slot| s@),
            sv == schema(k),
            goal == plan_slots(k, fname@, inputs@, schema(k), start, vars_view(old(vars)@)),
            start == acc_view(inputs0@, enable0, params0@),
            goal == plan_slots(k, fname@, inputs@, schema(k).skip(i as int),
                acc_view(acc_inputs@, acc_enable, acc_params@), vars_view(vars@)),
        decreases slots.len() - i,
    {
        let s = slots[i];
        let ghost tail = schema(k).skip(i as int);
        assert(tail[0] == s@);
        assert(tail.drop_first() =~= schema(k).skip(i as int + 1));
        let key = String::from_str(s.name);
        let j = find_last(inputs, &key);
        proof {
            crate::assoc::lemma_last_index_of(keys_of(inputs@), s.name@);
            assert(keys_of(inputs@).len() == inputs@.len());
        }
        if s.need == Need::Opt || s.need == Need::Wrap || s.need == Need::Req || s.need == Need::Must || s.need == Need::Get {
            match j {
                Some(j) => {
                    let r = plan(&inputs[j].1, vars);
                    match r {
                        Ok(p) => {
                            if s.need == Need::Wrap {
                                acc_enable = Some(p);
                            } else {
                                proof { lemma_entries_push(acc_inputs@, (key, p)); }
                                acc_inputs.push((key, p));
                            }
                        }
                        Err(PlanError::Fail(m)) => {
                            return Err(PlanError::Fail(text3(s.ctx, ": ", m.as_str())));
                        }
                        Err(e) => {
                            return Err(e);
                        }
                    }
                }
                None => {
                    if s.need == Need::Req {
                        return Err(PlanError::Fail(text3(s.ctx, ": ", s.tag).concat(" | '").concat(s.name).concat("' - is missed")));
                    } else if s.need == Need::Must {
                        return Err(PlanError::Broken(text3(s.tag, " | '", s.name).concat("' - is missed")));
                    } else if s.need == Need::Get {
                        return Err(PlanError::Fail(String::from_str(s.ctx)));
                    }
                }
            }
        } else {
            let found = match j {
                Some(j) => Some(&inputs[j].1),
                None => None,
            };
            match check_param(s, fname, found) {
                ParamResult::Skip => {}
                ParamResult::Keep(p) => {
                    proof { assert(params_view(acc_params@.push((key, p))) =~= params_view(acc_params@).push((key@, p@))); }
                    acc_params.push((key, p));
                }
                ParamResult::Fail(m) => {
                    return Err(PlanError::Fail(m));
                }
                ParamResult::Broken(m) => {
                    return Err(PlanError::Broken(m));
                }
            }
        }
        i = i + 1;
    }
    let (mode, tag) = rest_exec(k);
    let mut n: usize = 0;
    while n < inputs.len()
        invariant
            n <= inputs.len(),
            (mode@, tag@) == rest_of(k),
            goal == plan_slots(k, fname@, inputs@, schema(k), start, vars_view(old(vars)@)),
            start == acc_view(inputs0@, enable0, params0@),
            goal == plan_rest(k, inputs@, n as int, acc_view(acc_inputs@, acc_enable, acc_params@), vars_view(vars@)),
        decreases inputs.len() - n,
    {
        let take = match &mode {
            RestExec::Nothing => false,
            RestExec::All => true,
            RestExec::AllBut(ex) => !listed(ex, &inputs[n].0),
        };
        if take {
            let r = plan(&inputs[n].1, vars);
            match r {
                Ok(p) => {
                    let key = copy_string(&inputs[n].0);
                    proof { lemma_entries_push(acc_inputs@, (key, p)); }
                    acc_inputs.push((key, p));
                }
                Err(PlanError::Fail(m)) => {
                    return Err(PlanError::Fail(text3(tag, " | Can't get '", inputs[n].0.as_str()).concat("': ").concat(m.as_str())));
                }
                Err(e) => {
                    return Err(e);
                }
            }
        }
        n = n + 1;
    }
    let enable = match acc_enable {
        Some(p) => Some(Box::new(p)),
        None => None,
    };
    Ok(NodePlan::Node { kind: k, inputs: acc_inputs, enable, params: acc_params })
}

/// Builds the nodes of a function tree from its configuration.
#[derive(Debug)]
pub struct FnBuilder {}

impl FnBuilder {
    /// Returns the variable named after `parent` that holds the result of `input`.
    pub fn fn_var<I>(parent: &str, seq: usize, input: I) -> (r: FnVar<I>)
        ensures
            r.id_spec() == node_id_text(parent@, "FnVar"@, seq),
            r.state() == Ok::<Option<crate::fn_flow::FlowView>, Seq<char>>(None),
    {
        FnVar::new(parent, seq, input)
    }

    /// Returns the constant named after `parent` with the point `value`.
    pub fn fn_const(parent: &str, seq: usize, value: Point) -> (r: FnConst)
        ensures
            r.id_spec() == node_id_text(parent@, "FnConst"@, seq),
            r.point() == value@,
    {
        FnConst::new(parent, seq, value)
    }
}

} // verus!
