//! `FnExport`: hands the `New` points of its input over to another service.
use vstd::prelude::*;
use crate::point::{Point, PointValue, PointView, ValueView, truth_of, int_of, copy_string, copy_bytes};
use crate::fn_flow::{FnFlow, FnResult, FnKind};
use crate::float_bits::{F32_ONE, F64_ONE};
use crate::functions::fn_input::{InputType, Converted, FloatConversion, convert_input, float_target, lemma_input_keeps_its_type};
use crate::text::{node_id, node_id_text, i64_text, bool_to_text};

verus! {

/// The type of the exported point.
#[derive(Clone, Copy, Debug, PartialEq, Eq, Structural)]
pub enum ExportType {
    Bool,
    Int,
    Real,
    Double,
    String,
    Bytes,
    Json,
}

/// The configuration of the exported point: its name and type.
#[derive(Debug)]
pub struct ExportConf {
    pub name: String,
    pub typ: ExportType,
}

/// The value exported for the value `v` as the type `typ`.
pub open spec fn export_value(typ: ExportType, v: ValueView) -> Converted {
    match typ {
        ExportType::Bool => match truth_of(v) {
            Some(b) => Converted::Value(ValueView::Bool(b)),
            None => Converted::Rejected,
        },
        ExportType::Int => match int_of(v) {
            Some(i) => Converted::Value(ValueView::Int(i)),
            None => Converted::Rejected,
        },
        ExportType::Real => match v {
            ValueView::Double(b) => Converted::Float(FloatConversion::DoubleToReal(b)),
            _ => convert_input(InputType::Real, v),
        },
        ExportType::Double => convert_input(InputType::Double, v),
        ExportType::String => convert_input(InputType::String, v),
        ExportType::Bytes | ExportType::Json => match v {
            ValueView::Bytes(b) => Converted::Value(ValueView::Bytes(b)),
            _ => Converted::Rejected,
        },
    }
}

/// An exported value has the configured type, and a value that already has it
/// is exported unchanged.
pub proof fn lemma_export_keeps_the_type(typ: ExportType, v: ValueView)
    ensures
        export_value(typ, v) matches Converted::Value(w) ==> match typ {
            ExportType::Bool => w is Bool,
            ExportType::Int => w is Int,
            ExportType::Real => w is Real,
            ExportType::Double => w is Double,
            ExportType::String => w is Str,
            ExportType::Bytes | ExportType::Json => w is Bytes,
        },
        match (typ, v) {
            (ExportType::Bool, ValueView::Bool(_)) | (ExportType::Int, ValueView::Int(_)) | (ExportType::Real, ValueView::Real(_))
            | (ExportType::Double, ValueView::Double(_)) | (ExportType::String, ValueView::Str(_))
            | (ExportType::Bytes, ValueView::Bytes(_)) => export_value(typ, v) == Converted::Value(v),
            _ => true,
        },
{
    lemma_input_keeps_its_type(InputType::Real, v);
    lemma_input_keeps_its_type(InputType::Double, v);
    lemma_input_keeps_its_type(InputType::String, v);
}

/// ### Function | `FnExport`
///
/// Passes its input on unchanged; each `New` point is handed over to the
/// destination service with the node's transaction id, converted to the
/// configured name and type when a configuration is given.
#[derive(Debug)]
pub struct FnExport<I> {
    txid: usize,
    conf: Option<ExportConf>,
    input: I,
    id: String,
}

impl<I> FnExport<I> {
    /// The node's identifier.
    pub closed spec fn id_spec(&self) -> Seq<char> {
        self.id@
    }

    /// The transaction id of the exported points.
    pub closed spec fn txid_spec(&self) -> usize {
        self.txid
    }

    /// The configured name and type of the exported point.
    pub closed spec fn conf_spec(&self) -> Option<(Seq<char>, ExportType)> {
        match self.conf {
            Some(c) => Some((c.name@, c.typ)),
            None => None,
        }
    }

    /// Returns a new `FnExport`; `txid` identifies the sender.
    pub fn new(parent: &str, seq: usize, txid: usize, conf: Option<ExportConf>, input: I) -> (r: Self)
        ensures
            r.id_spec() == node_id_text(parent@, "FnExport"@, seq),
            r.txid_spec() == txid,
            r.conf_spec() == (match conf { Some(c) => Some((c.name@, c.typ)), None => None::<(Seq<char>, ExportType)> }),
    {
        FnExport { txid, conf, input, id: node_id(parent, "FnExport", seq) }
    }

    /// Returns the node's identifier.
    pub fn id(&self) -> (r: String)
        ensures
            r@ == self.id_spec(),
    {
        self.id.clone()
    }

    /// Returns the kind of the node.
    pub fn kind(&self) -> (r: FnKind)
        ensures
            r == FnKind::Fn,
    {
        FnKind::Fn
    }

    /// The input: the node's `input`.
    pub closed spec fn input_spec(&self) -> I {
        self.input
    }

    /// The node with `v` in place of its `input`.
    pub closed spec fn with_input(&self, v: I) -> Self {
        FnExport { input: v, ..*self }
    }

    /// The input. Returns a reference to it; the node is otherwise unchanged.
    pub fn input(&mut self) -> (r: &mut I)
        ensures
            *r == old(self).input_spec(),
            *final(self) == old(self).with_input(*final(r)),
    {
        &mut self.input
    }

    /// The floating-point conversion the caller must make to export the input
    /// result, if any.
    pub open spec fn conversion_spec(&self, input: FnResult<FnFlow, String>) -> Option<FloatConversion> {
        match (input, self.conf_spec()) {
                (Ok(Some(f)), Some((_, typ))) => if f.fresh() {
                    match export_value(typ, f.point()@.value) {
                        Converted::Float(c) => Some(c),
                        _ => None,
                    }
                } else {
                    None
                },
                _ => None,
            }
    }

    /// Returns the floating-point conversion the caller must make to export the
    /// input result, if any.
    pub fn conversion(&self, input: &FnResult<FnFlow, String>) -> (r: Option<FloatConversion>)
        ensures
            r == self.conversion_spec(*input),
    {
        let typ = match &self.conf {
            Some(c) => c.typ,
            None => return None,
        };
        match input {
            Ok(Some(f)) => {
                if !f.is_new() {
                    return None;
                }
                match (typ, &f.value().value) {
                    (ExportType::Real, PointValue::Int(i)) => Some(FloatConversion::IntToReal(*i)),
                    (ExportType::Real, PointValue::Double(b)) => Some(FloatConversion::DoubleToReal(*b)),
                    (ExportType::Double, PointValue::Int(i)) => Some(FloatConversion::IntToDouble(*i)),
                    (ExportType::Double, PointValue::Real(b)) => Some(FloatConversion::RealToDouble(*b)),
                    (ExportType::String, PointValue::Real(b)) => Some(FloatConversion::RealToText(*b)),
                    (ExportType::String, PointValue::Double(b)) => Some(FloatConversion::DoubleToText(*b)),
                    _ => None,
                }
            }
            _ => None,
        }
    }

    /// Converts the value `v` for export; `Err` when it cannot be converted,
    /// `None` inside `Ok` when the conversion is the caller's.
    fn export(&self, typ: ExportType, v: &PointValue) -> (r: Result<Option<PointValue>, ()>)
        ensures
            match export_value(typ, v@) {
                Converted::Value(w) => r matches Ok(Some(x)) && x@ == w,
                Converted::Rejected => r is Err,
                Converted::Float(_) => r == Ok::<Option<PointValue>, ()>(None),
            },
    {
        match typ {
            ExportType::Bool => match v.to_bool() {
                Some(b) => Ok(Some(PointValue::Bool(b))),
                None => Err(()),
            },
            ExportType::Int => match v.to_int() {
                Some(i) => Ok(Some(PointValue::Int(i))),
                None => Err(()),
            },
            ExportType::Real => match v {
                PointValue::Bool(b) => Ok(Some(PointValue::Real(if *b { F32_ONE } else { 0u32 }))),
                PointValue::Real(b) => Ok(Some(PointValue::Real(*b))),
                PointValue::Int(_) | PointValue::Double(_) => Ok(None),
                _ => Err(()),
            },
            ExportType::Double => match v {
                PointValue::Bool(b) => Ok(Some(PointValue::Double(if *b { F64_ONE } else { 0u64 }))),
                PointValue::Double(b) => Ok(Some(PointValue::Double(*b))),
                PointValue::Int(_) | PointValue::Real(_) => Ok(None),
                _ => Err(()),
            },
            ExportType::String => match v {
                PointValue::Bool(b) => Ok(Some(PointValue::String(bool_to_text(*b)))),
                PointValue::Int(i) => Ok(Some(PointValue::String(i64_text(*i)))),
                PointValue::String(s) => Ok(Some(PointValue::String(copy_string(s)))),
                PointValue::Real(_) | PointValue::Double(_) => Ok(None),
                PointValue::Bytes(_) => Err(()),
            },
            ExportType::Bytes | ExportType::Json => match v {
                PointValue::Bytes(b) => Ok(Some(PointValue::Bytes(copy_bytes(b)))),
                _ => Err(()),
            },
        }
    }

    /// Evaluates the node on the result of its input; `converted` is the value
    /// the caller made for the conversion `conversion` asked for. Returns the
    /// input unchanged and the point to hand over, if any.
    pub fn out(&self, input: FnResult<FnFlow, String>, converted: Option<PointValue>) -> (r: (FnResult<FnFlow, String>, Option<Point>))
        requires
            self.conversion_spec(input) matches Some(c) ==> (converted matches Some(v) && float_target(c, v@)),
        ensures
            match input {
                Err(e) => r.0 == Err::<Option<FnFlow>, String>(e) && r.1 is None,
                Ok(None) => r.0 == Ok::<Option<FnFlow>, String>(None) && r.1 is None,
                Ok(Some(f)) => if !f.fresh() {
                    r.0 == Ok::<Option<FnFlow>, String>(Some(f)) && r.1 is None
                } else {
                    let p = f.point()@;
                    match self.conf_spec() {
                        None => r.0 == Ok::<Option<FnFlow>, String>(Some(f))
                            && (r.1 matches Some(q) && q@ == PointView { txid: self.txid_spec(), ..p }),
                        Some((name, typ)) => match export_value(typ, p.value) {
                            Converted::Rejected => r.0 is Err && r.1 is None,
                            Converted::Value(w) => r.0 == Ok::<Option<FnFlow>, String>(Some(f))
                                && (r.1 matches Some(q) && q@ == PointView { txid: self.txid_spec(), name, value: w, ..p }),
                            Converted::Float(_) => r.0 == Ok::<Option<FnFlow>, String>(Some(f))
                                && (r.1 matches Some(q) && q@ == PointView { txid: self.txid_spec(), name, value: converted.unwrap()@, ..p }),
                        },
                    }
                },
            },
    {
        let f = match input {
            Err(e) => return (Err(e), None),
            Ok(None) => return (Ok(None), None),
            Ok(Some(f)) => f,
        };
        if !f.is_new() {
            return (Ok(Some(f)), None);
        }
        let p = f.value();
        let q = match &self.conf {
            None => p.derive_with(self.txid, copy_string(&p.name), p.value.copy()),
            Some(conf) => {
                let value = match self.export(conf.typ, &p.value) {
                    Err(()) => return (Err(self.id.clone().concat(".out | Invalid input type for the configured point type")), None),
                    Ok(Some(v)) => v,
                    Ok(None) => match converted {
                        Some(v) => v,
                        None => PointValue::Bool(false),
                    },
                };
                p.derive_with(self.txid, copy_string(&conf.name), value)
            }
        };
        (Ok(Some(f)), Some(q))
    }
}

} // verus!
