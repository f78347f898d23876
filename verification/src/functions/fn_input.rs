//! `FnInput`: an input point of a task, updated by events.
use vstd::prelude::*;
use crate::point::{Point, PointValue, PointView, ValueView, PointType, Status, opt_view, copy_opt, copy_string, type_of, point_type_name, point_type_text};
use crate::fn_flow::{FnFlow, FnResult, FnKind, FlowView, result_view};
use crate::float_bits::{f32_positive, f64_positive, f32_is_positive, f64_is_positive, F32_ONE, F64_ONE};
use crate::eval_cycle::CycleIndex;
use crate::functions::fn_builder::same_text;
use crate::text::{parse_i64, parsed_i64, node_id, node_id_text, i64_text, signed_decimal, bool_to_text, bool_text};

verus! {

/// The type an input converts its points to.
#[derive(Clone, Copy, Debug, PartialEq, Eq, Structural)]
pub enum InputType {
    Bool,
    Int,
    Real,
    Double,
    String,
    /// Points of any type are taken as they are.
    Any,
}

/// The name of an input type.
pub open spec fn input_type_name(t: InputType) -> Seq<char> {
    match t {
        InputType::Bool => "Bool"@,
        InputType::Int => "Int"@,
        InputType::Real => "Real"@,
        InputType::Double => "Double"@,
        InputType::String => "String"@,
        InputType::Any => "Any"@,
    }
}

/// Returns the name of an input type.
pub fn input_type_name_of(t: InputType) -> (r: &'static str)
    ensures
        r@ == input_type_name(t),
{
    match t {
        InputType::Bool => "Bool",
        InputType::Int => "Int",
        InputType::Real => "Real",
        InputType::Double => "Double",
        InputType::String => "String",
        InputType::Any => "Any",
    }
}

/// The error an input of the type `typ` named `id` stores for a value of the type `got`.
pub open spec fn incompatible(id: Seq<char>, got: PointType, typ: InputType) -> Seq<char> {
    id + ".add | Error. Incompatible Type '"@ + point_type_name(got) + "', '"@ + input_type_name(typ) + "' expected"@
}

/// The value an input starts with, for its type and the default of its configuration.
#[derive(Debug)]
pub enum Initial {
    /// No value before the first event.
    Nothing,
    /// This value.
    Value(PointValue),
    /// The default read as a float of the input's type, which the caller does.
    Float(String),
    /// A default that is not a value of the input's type.
    Invalid,
}

/// The content of an initial value.
pub enum InitialView {
    Nothing,
    Value(ValueView),
    Float(Seq<char>),
    Invalid,
}

/// The content of an initial value.
pub open spec fn initial_view(i: Initial) -> InitialView {
    match i {
        Initial::Nothing => InitialView::Nothing,
        Initial::Value(v) => InitialView::Value(v@),
        Initial::Float(t) => InitialView::Float(t@),
        Initial::Invalid => InitialView::Invalid,
    }
}

/// The value an input of type `typ` starts with, given the default `default`
/// of its configuration: an input of any type starts `false`; a logical
/// default is `true` or `false`; an integer default is a decimal `i64`; a float
/// default is read by the caller; a text default is taken as it is.
pub open spec fn initial_of(typ: InputType, default: Option<Seq<char>>) -> InitialView {
    match typ {
        InputType::Any => InitialView::Value(ValueView::Bool(false)),
        _ => match default {
            None => InitialView::Nothing,
            Some(d) => match typ {
                InputType::Bool => if d == "true"@ {
                    InitialView::Value(ValueView::Bool(true))
                } else if d == "false"@ {
                    InitialView::Value(ValueView::Bool(false))
                } else {
                    InitialView::Invalid
                },
                InputType::Int => match parsed_i64(d) {
                    Some(v) => InitialView::Value(ValueView::Int(v)),
                    None => InitialView::Invalid,
                },
                InputType::Real | InputType::Double => InitialView::Float(d),
                _ => InitialView::Value(ValueView::Str(d)),
            },
        },
    }
}

/// Returns the value an input of type `typ` starts with, given the default of
/// its configuration.
pub fn initial_value(typ: InputType, default: Option<&str>) -> (r: Initial)
    ensures
        initial_view(r) == initial_of(typ, match default { Some(d) => Some(d@), None => None }),
{
    match typ {
        InputType::Any => Initial::Value(PointValue::Bool(false)),
        _ => match default {
            None => Initial::Nothing,
            Some(d) => match typ {
                InputType::Bool => if same_text(d, "true") {
                    Initial::Value(PointValue::Bool(true))
                } else if same_text(d, "false") {
                    Initial::Value(PointValue::Bool(false))
                } else {
                    Initial::Invalid
                },
                InputType::Int => match parse_i64(d) {
                    Some(v) => Initial::Value(PointValue::Int(v)),
                    None => Initial::Invalid,
                },
                InputType::Real | InputType::Double => Initial::Float(String::from_str(d)),
                _ => Initial::Value(PointValue::String(String::from_str(d))),
            },
        },
    }
}

/// A conversion that involves floating-point arithmetic, done by the caller.
#[derive(Clone, Copy, Debug, PartialEq, Eq, Structural)]
pub enum FloatConversion {
    /// `i64 as f32`
    IntToReal(i64),
    /// `i64 as f64`
    IntToDouble(i64),
    /// `f32 as f64`, from the bits of the `f32`
    RealToDouble(u32),
    /// `f64 as f32`, from the bits of the `f64`
    DoubleToReal(u64),
    /// The text of an `f32`, from its bits
    RealToText(u32),
    /// The text of an `f64`, from its bits
    DoubleToText(u64),
}

/// What an input makes of a value.
pub enum Converted {
    /// The converted value.
    Value(ValueView),
    /// The value cannot be converted to the input's type.
    Rejected,
    /// The conversion is done by the caller.
    Float(FloatConversion),
}

/// The conversion of the value `v` to the input type `typ`.
pub open spec fn convert_input(typ: InputType, v: ValueView) -> Converted {
    match typ {
        InputType::Any => Converted::Value(v),
        InputType::Bool => match v {
            ValueView::Bool(b) => Converted::Value(ValueView::Bool(b)),
            ValueView::Int(i) => Converted::Value(ValueView::Bool(i > 0)),
            ValueView::Real(b) => Converted::Value(ValueView::Bool(f32_positive(b))),
            ValueView::Double(b) => Converted::Value(ValueView::Bool(f64_positive(b))),
            _ => Converted::Rejected,
        },
        InputType::Int => match v {
            ValueView::Bool(b) => Converted::Value(ValueView::Int(if b { 1 } else { 0 })),
            ValueView::Int(i) => Converted::Value(ValueView::Int(i)),
            _ => Converted::Rejected,
        },
        InputType::Real => match v {
            ValueView::Bool(b) => Converted::Value(ValueView::Real(if b { F32_ONE } else { 0 })),
            ValueView::Int(i) => Converted::Float(FloatConversion::IntToReal(i)),
            ValueView::Real(b) => Converted::Value(ValueView::Real(b)),
            _ => Converted::Rejected,
        },
        InputType::Double => match v {
            ValueView::Bool(b) => Converted::Value(ValueView::Double(if b { F64_ONE } else { 0 })),
            ValueView::Int(i) => Converted::Float(FloatConversion::IntToDouble(i)),
            ValueView::Real(b) => Converted::Float(FloatConversion::RealToDouble(b)),
            ValueView::Double(b) => Converted::Value(ValueView::Double(b)),
            _ => Converted::Rejected,
        },
        InputType::String => match v {
            ValueView::Bool(b) => Converted::Value(ValueView::Str(bool_text(b))),
            ValueView::Int(i) => Converted::Value(ValueView::Str(signed_decimal(i as int))),
            ValueView::Real(b) => Converted::Float(FloatConversion::RealToText(b)),
            ValueView::Double(b) => Converted::Float(FloatConversion::DoubleToText(b)),
            ValueView::Str(s) => Converted::Value(ValueView::Str(s)),
            ValueView::Bytes(_) => Converted::Rejected,
        },
    }
}

/// An input stores values of its own type: a value it converts itself has the
/// input's type, a value already of that type is stored unchanged, and an
/// input of any type stores every value as it is.
pub proof fn lemma_input_keeps_its_type(typ: InputType, v: ValueView)
    ensures
        convert_input(typ, v) matches Converted::Value(w) ==> match typ {
            InputType::Any => w == v,
            InputType::Bool => w is Bool,
            InputType::Int => w is Int,
            InputType::Real => w is Real,
            InputType::Double => w is Double,
            InputType::String => w is Str,
        },
        match (typ, v) {
            (InputType::Bool, ValueView::Bool(_)) | (InputType::Int, ValueView::Int(_)) | (InputType::Real, ValueView::Real(_))
            | (InputType::Double, ValueView::Double(_)) | (InputType::String, ValueView::Str(_)) => convert_input(typ, v) == Converted::Value(v),
            _ => true,
        },
{
}

/// The type of the values a conversion produces.
pub open spec fn float_target(c: FloatConversion, v: ValueView) -> bool {
    match c {
        FloatConversion::IntToReal(_) | FloatConversion::DoubleToReal(_) => v is Real,
        FloatConversion::IntToDouble(_) | FloatConversion::RealToDouble(_) => v is Double,
        FloatConversion::RealToText(_) | FloatConversion::DoubleToText(_) => v is Str,
    }
}

/// The view of the stored result of an input.
pub open spec fn stored_view(s: Result<Option<Point>, String>) -> Result<Option<PointView>, Seq<char>> {
    match s {
        Ok(Some(p)) => Ok(Some(p@)),
        Ok(None) => Ok(None),
        Err(e) => Err(e@),
    }
}

/// ### Function | `FnInput`
///
/// An input point of the task: events update it through `add`, converting the
/// point to the configured type; its value is `New` in the cycle of the last
/// update and `Old` afterwards.
#[derive(Debug)]
pub struct FnInput {
    dbg: String,
    name: String,
    typ: InputType,
    point: Result<Option<Point>, String>,
    initial: Option<Point>,
    status: Option<Status>,
    options_hash: String,
    cycle: CycleIndex,
}

impl FnInput {
    /// The node's identifier.
    pub closed spec fn id_spec(&self) -> Seq<char> {
        self.dbg@
    }

    /// The name of the point the input reads.
    pub closed spec fn name_spec(&self) -> Seq<char> {
        self.name@
    }

    /// The configured type.
    pub closed spec fn typ_spec(&self) -> InputType {
        self.typ
    }

    /// The status a point must have to be taken, if any.
    pub closed spec fn status_filter(&self) -> Option<Status> {
        self.status
    }

    /// The stored value.
    pub closed spec fn stored(&self) -> Result<Option<PointView>, Seq<char>> {
        stored_view(self.point)
    }

    /// The initial value.
    pub closed spec fn initial_spec(&self) -> Option<PointView> {
        opt_view(self.initial)
    }

    /// The cycle of the last update.
    pub closed spec fn updated_in(&self) -> u64 {
        self.cycle.0
    }

    /// Returns a new `FnInput` for the point `name`.
    /// - `typ`: the type points are converted to
    /// - `initial`: the value before the first event
    /// - `status`: when given, only points with this status are taken
    /// - `options_hash`: identifies the input's configuration
    pub fn new(
        parent: &str,
        seq: usize,
        name: String,
        typ: InputType,
        initial: Option<Point>,
        status: Option<Status>,
        options_hash: String,
    ) -> (r: Self)
        ensures
            r.id_spec() == node_id_text(parent@, "FnInput"@, seq),
            r.typ_spec() == typ,
            r.status_filter() == status,
            r.stored() == Ok::<Option<PointView>, Seq<char>>(opt_view(initial)),
            r.initial_spec() == opt_view(initial),
            r.updated_in() == 1,
            r.name_spec() == name@,
            r.hash_spec() == options_hash@,
    {
        let point = copy_opt(&initial);
        FnInput {
            dbg: node_id(parent, "FnInput", seq),
            name,
            typ,
            point: Ok(point),
            initial,
            status,
            options_hash,
            cycle: CycleIndex::new(),
        }
    }

    /// Returns the node's identifier.
    pub fn id(&self) -> (r: String)
        ensures
            r@ == self.id_spec(),
    {
        self.dbg.clone()
    }

    /// Returns the kind of the node.
    pub fn kind(&self) -> (r: FnKind)
        ensures
            r == FnKind::Input,
    {
        FnKind::Input
    }

    /// Returns the names of the points the input reads: its own.
    pub fn inputs(&self) -> (r: Vec<String>)
        ensures
            r.len() == 1,
            r@[0]@ == self.name_spec(),
    {
        let mut r = Vec::new();
        r.push(copy_string(&self.name));
        r
    }

    /// The hash of the input's configuration.
    pub closed spec fn hash_spec(&self) -> Seq<char> {
        self.options_hash@
    }

    /// Returns the hash of the input's configuration.
    pub fn hash(&self) -> (r: String)
        ensures
            r@ == self.hash_spec(),
    {
        self.options_hash.clone()
    }

    /// Takes an event point in the cycle `cycle`. A point with another status
    /// than the configured one is ignored. When the conversion needs
    /// floating-point arithmetic, nothing is stored and the conversion is
    /// returned, for the caller to hand its result to `add_converted`.
    pub fn add(&mut self, point: &Point, cycle: &CycleIndex) -> (r: Option<FloatConversion>)
        ensures
            final(self).id_spec() == old(self).id_spec(),
            final(self).typ_spec() == old(self).typ_spec(),
            final(self).status_filter() == old(self).status_filter(),
            final(self).initial_spec() == old(self).initial_spec(),
            final(self).name_spec() == old(self).name_spec(),
            final(self).hash_spec() == old(self).hash_spec(),
            if old(self).status_filter() matches Some(s) && s != point.status {
                &&& r is None
                &&& final(self).stored() == old(self).stored()
                &&& final(self).updated_in() == old(self).updated_in()
            } else {
                match convert_input(old(self).typ_spec(), point@.value) {
                    Converted::Value(v) => {
                        &&& r is None
                        &&& final(self).stored() == Ok::<Option<PointView>, Seq<char>>(Some(PointView { value: v, ..point@ }))
                        &&& final(self).updated_in() == cycle.0
                    },
                    Converted::Rejected => {
                        &&& r is None
                        &&& final(self).stored() == Err::<Option<PointView>, Seq<char>>(
                            incompatible(old(self).id_spec(), type_of(point@.value), old(self).typ_spec()))
                        &&& final(self).updated_in() == cycle.0
                    },
                    Converted::Float(c) => {
                        &&& r == Some(c)
                        &&& final(self).stored() == old(self).stored()
                        &&& final(self).updated_in() == old(self).updated_in()
                    },
                }
            },
    {
        if let Some(status) = self.status {
            if point.status != status {
                return None;
            }
        }
        let value: Result<PointValue, ()> = match self.typ {
            InputType::Any => Ok(point.value.copy()),
            InputType::Bool => match &point.value {
                PointValue::Bool(b) => Ok(PointValue::Bool(*b)),
                PointValue::Int(i) => Ok(PointValue::Bool(*i > 0)),
                PointValue::Real(b) => Ok(PointValue::Bool(f32_is_positive(*b))),
                PointValue::Double(b) => Ok(PointValue::Bool(f64_is_positive(*b))),
                _ => Err(()),
            },
            InputType::Int => match &point.value {
                PointValue::Bool(b) => Ok(PointValue::Int(if *b { 1 } else { 0 })),
                PointValue::Int(i) => Ok(PointValue::Int(*i)),
                _ => Err(()),
            },
            InputType::Real => match &point.value {
                PointValue::Bool(b) => Ok(PointValue::Real(if *b { F32_ONE } else { 0 })),
                PointValue::Int(i) => return Some(FloatConversion::IntToReal(*i)),
                PointValue::Real(b) => Ok(PointValue::Real(*b)),
                _ => Err(()),
            },
            InputType::Double => match &point.value {
                PointValue::Bool(b) => Ok(PointValue::Double(if *b { F64_ONE } else { 0 })),
                PointValue::Int(i) => return Some(FloatConversion::IntToDouble(*i)),
                PointValue::Real(b) => return Some(FloatConversion::RealToDouble(*b)),
                PointValue::Double(b) => Ok(PointValue::Double(*b)),
                _ => Err(()),
            },
            InputType::String => match &point.value {
                PointValue::Bool(b) => Ok(PointValue::String(bool_to_text(*b))),
                PointValue::Int(i) => Ok(PointValue::String(i64_text(*i))),
                PointValue::Real(b) => return Some(FloatConversion::RealToText(*b)),
                PointValue::Double(b) => return Some(FloatConversion::DoubleToText(*b)),
                PointValue::String(s) => Ok(PointValue::String(copy_string(s))),
                PointValue::Bytes(_) => Err(()),
            },
        };
        self.cycle = *cycle;
        self.point = match value {
            Ok(v) => Ok(Some(Point::new(point.txid, copy_string(&point.name), v, point.status, point.cot, point.ts))),
            Err(()) => Err(self.dbg.clone().concat(".add | Error. Incompatible Type '").concat(point_type_text(point.typ()))
                .concat("', '").concat(input_type_name_of(self.typ)).concat("' expected")),
        };
        None
    }

    /// Stores the point `point` converted by the caller to `value`, the result
    /// of the conversion `add` asked for.
    pub fn add_converted(&mut self, point: &Point, value: PointValue, cycle: &CycleIndex)
        requires
            convert_input(old(self).typ_spec(), point@.value) matches Converted::Float(c) && float_target(c, value@),
        ensures
            final(self).stored() == Ok::<Option<PointView>, Seq<char>>(Some(PointView { value: value@, ..point@ })),
            final(self).updated_in() == cycle.0,
            final(self).id_spec() == old(self).id_spec(),
            final(self).typ_spec() == old(self).typ_spec(),
            final(self).status_filter() == old(self).status_filter(),
            final(self).initial_spec() == old(self).initial_spec(),
            final(self).name_spec() == old(self).name_spec(),
            final(self).hash_spec() == old(self).hash_spec(),
    {
        self.cycle = *cycle;
        self.point = Ok(Some(Point::new(point.txid, copy_string(&point.name), value, point.status, point.cot, point.ts)));
    }

    /// Returns the stored value: `New` when it was updated in the cycle `cycle`, `Old` otherwise.
    pub fn out(&self, cycle: &CycleIndex) -> (r: FnResult<FnFlow, String>)
        ensures
            result_view(r) == match self.stored() {
                Ok(Some(p)) => Ok(Some(FlowView { fresh: self.updated_in() == cycle.0, point: p })),
                Ok(None) => Ok(None),
                Err(e) => Err(e),
            },
    {
        match &self.point {
            Ok(Some(point)) => if self.cycle.0 == cycle.0 {
                Ok(Some(FnFlow::New(point.copy())))
            } else {
                Ok(Some(FnFlow::Old(point.copy())))
            },
            Ok(None) => Ok(None),
            Err(err) => Err(err.clone()),
        }
    }

    /// Returns to the initial value.
    pub fn reset(&mut self)
        ensures
            final(self).stored() == Ok::<Option<PointView>, Seq<char>>(old(self).initial_spec()),
            final(self).updated_in() == old(self).updated_in(),
            final(self).id_spec() == old(self).id_spec(),
            final(self).typ_spec() == old(self).typ_spec(),
            final(self).status_filter() == old(self).status_filter(),
            final(self).initial_spec() == old(self).initial_spec(),
            final(self).name_spec() == old(self).name_spec(),
            final(self).hash_spec() == old(self).hash_spec(),
    {
        self.point = Ok(copy_opt(&self.initial));
    }
}

} // verus!
