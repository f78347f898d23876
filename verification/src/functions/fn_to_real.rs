//! `FnToReal`: conversion of the input into an `f32`.
use vstd::prelude::*;
use crate::point::{PointValue, PointView, ValueView};
use crate::fn_flow::{FnFlow, FnResult, FnKind};
use crate::float_bits::F32_ONE;
use crate::functions::fn_input::FloatConversion;
use crate::text::{node_id, node_id_text};

verus! {

/// The `f32` the caller must make of an input value: by a conversion, or by
/// reading a text.
#[derive(Debug)]
pub enum ToReal {
    /// An integer or an `f64` converted to the nearest `f32`.
    Convert(FloatConversion),
    /// A text read as an `f32` (`None` when it is not a number).
    Parse(String),
}

/// The bits of the `f32` a value converts to: computed here for a logical value
/// or an `f32`, else `converted`, which the caller made (`None`: a text that is
/// not a number).
pub open spec fn real_of(v: ValueView, converted: Option<u32>) -> Option<u32> {
    match v {
        ValueView::Bool(b) => Some(if b { F32_ONE } else { 0u32 }),
        ValueView::Real(b) => Some(b),
        _ => converted,
    }
}

/// `true` when the input result holds a value that `FnToReal` takes (anything
/// but bytes), or no value.
pub open spec fn to_real_accepts(input: FnResult<FnFlow, String>) -> bool {
    input matches Ok(Some(f)) ==> !(f.point()@.value is Bytes)
}

/// ### Function | `FnToReal`
///
/// Converts its input into a `Real` point named `<id>.out`, keeping the
/// transaction id, status, cause, timestamp and freshness of the input:
/// - bool: `true` -> 1.0, `false` -> 0.0
/// - int, double: converted to the nearest `f32` (by the caller, see `conversion`)
/// - real: unchanged
/// - string: read as an `f32` (by the caller); a text that is not a number is an error
#[derive(Debug)]
pub struct FnToReal<I> {
    id: String,
    input: I,
}

impl<I> FnToReal<I> {
    /// The node's identifier.
    pub closed spec fn id_spec(&self) -> Seq<char> {
        self.id@
    }

    /// Returns a new `FnToReal` on `input`.
    pub fn new(parent: &str, seq: usize, input: I) -> (r: Self)
        ensures
            r.id_spec() == node_id_text(parent@, "FnToReal"@, seq),
    {
        FnToReal { id: node_id(parent, "FnToReal", seq), input }
    }

    /// Returns the node's identifier.
    pub fn id(&self) -> (r: String)
        ensures
            r@ == self.id_spec(),
    {
        self.id.clone()
    }

    /// Returns the kind of the node.
    pub fn kind(&self) -> (r: FnKind)
        ensures
            r == FnKind::Fn,
    {
        FnKind::Fn
    }

    /// The input: the node's `input`.
    pub closed spec fn input_spec(&self) -> I {
        self.input
    }

    /// The node with `v` in place of its `input`.
    pub closed spec fn with_input(&self, v: I) -> Self {
        FnToReal { input: v, ..*self }
    }

    /// The input. Returns a reference to it; the node is otherwise unchanged.
    pub fn input(&mut self) -> (r: &mut I)
        ensures
            *r == old(self).input_spec(),
            *final(self) == old(self).with_input(*final(r)),
    {
        &mut self.input
    }

    /// The `f32` the caller must make of the input result, if any.
    pub fn conversion(&self, input: &FnResult<FnFlow, String>) -> (r: Option<ToReal>)
        ensures
            match *input {
                Ok(Some(f)) => match f.point()@.value {
                    ValueView::Int(i) => r == Some(ToReal::Convert(FloatConversion::IntToReal(i))),
                    ValueView::Double(b) => r == Some(ToReal::Convert(FloatConversion::DoubleToReal(b))),
                    ValueView::Str(t) => r matches Some(ToReal::Parse(u)) && u@ == t,
                    _ => r is None,
                },
                _ => r is None,
            },
    {
        match input {
            Ok(Some(f)) => match &f.value().value {
                PointValue::Int(i) => Some(ToReal::Convert(FloatConversion::IntToReal(*i))),
                PointValue::Double(b) => Some(ToReal::Convert(FloatConversion::DoubleToReal(*b))),
                PointValue::String(t) => Some(ToReal::Parse(t.clone())),
                _ => None,
            },
            _ => None,
        }
    }

    /// Evaluates the node on the result of its input; `converted` is the bits of
    /// the `f32` the caller made as `conversion` asked (`None` when a text is not
    /// a number).
    pub fn out(&self, input: FnResult<FnFlow, String>, converted: Option<u32>) -> (r: FnResult<FnFlow, String>)
        requires
            to_real_accepts(input),
            input matches Ok(Some(f)) && (f.point()@.value is Int || f.point()@.value is Double) ==> converted is Some,
        ensures
            match input {
                Err(e) => r == Err::<Option<FnFlow>, String>(e),
                Ok(None) => r == Ok::<Option<FnFlow>, String>(None),
                Ok(Some(f)) => match real_of(f.point()@.value, converted) {
                    None => r matches Err(m) && m@ == self.id_spec() + ".out | Invalid input '"@
                        + f.point()@.value->Str_0 + "', expected a real number"@,
                    Some(b) => r matches Ok(Some(g)) && g.fresh() == f.fresh() && g.point()@ == PointView {
                        name: self.id_spec() + ".out"@,
                        value: ValueView::Real(b),
                        ..f.point()@
                    },
                },
            },
    {
        match input {
            Err(e) => Err(e),
            Ok(None) => Ok(None),
            Ok(Some(f)) => {
                let fresh = f.is_new();
                let p = f.into_value();
                let bits: u32 = match &p.value {
                    PointValue::Bool(b) => if *b { F32_ONE } else { 0u32 },
                    PointValue::Real(b) => *b,
                    PointValue::String(t) => match converted {
                        Some(b) => b,
                        None => {
                            return Err(self.id.clone().concat(".out | Invalid input '").concat(t.as_str())
                                .concat("', expected a real number"));
                        }
                    },
                    _ => match converted {
                        Some(b) => b,
                        None => 0u32,
                    },
                };
                let q = p.derive_with(p.txid, self.id.clone().concat(".out"), PointValue::Real(bits));
                if fresh { Ok(Some(FnFlow::New(q))) } else { Ok(Some(FnFlow::Old(q))) }
            }
        }
    }
}

} // verus!
