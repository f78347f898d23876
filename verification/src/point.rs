//! The data point that flows between task functions.
//!
//! A point carries a typed value together with its quality status, its cause
//! of transmission and its timestamp (nanoseconds since the UNIX epoch).
//! Floating-point values are carried as their IEEE 754 bit patterns.
use vstd::prelude::*;
use crate::float_bits::{f32_eq, f32_is_positive, f64_eq, f64_is_positive, f32_same, f64_same, f32_positive, f64_positive, f32_round, f64_round, f32_round_to_i64, f64_round_to_i64};

verus! {

/// The type of a point's value.
#[derive(Clone, Copy, Debug, PartialEq, Eq, Structural)]
pub enum PointType {
    Bool,
    Int,
    Real,
    Double,
    String,
    Bytes,
}

/// Quality status of a point, from best to worst.
#[derive(Clone, Copy, Debug, PartialEq, Eq, Structural)]
pub enum Status {
    Good,
    Obsolete,
    TimeInvalid,
    Invalid,
}

/// Cause of transmission of a point.
#[derive(Clone, Copy, Debug, PartialEq, Eq, Structural)]
pub enum Cot {
    Inf,
    Act,
    ActCon,
    ActErr,
    Req,
    ReqCon,
    ReqErr,
}

/// The value of a point; `Real` holds the bits of an `f32`, `Double` those of an `f64`.
#[derive(Clone, Debug)]
pub enum PointValue {
    Bool(bool),
    Int(i64),
    Real(u32),
    Double(u64),
    String(String),
    Bytes(Vec<u8>),
}

/// The mathematical content of a value.
pub enum ValueView {
    Bool(bool),
    Int(i64),
    Real(u32),
    Double(u64),
    Str(Seq<char>),
    Bytes(Seq<u8>),
}

impl View for PointValue {
    type V = ValueView;

    open spec fn view(&self) -> ValueView {
        match self {
            PointValue::Bool(b) => ValueView::Bool(*b),
            PointValue::Int(i) => ValueView::Int(*i),
            PointValue::Real(b) => ValueView::Real(*b),
            PointValue::Double(b) => ValueView::Double(*b),
            PointValue::String(s) => ValueView::Str(s@),
            PointValue::Bytes(v) => ValueView::Bytes(v@),
        }
    }
}

/// A data point.
#[derive(Clone, Debug)]
pub struct Point {
    pub txid: usize,
    pub name: String,
    pub value: PointValue,
    pub status: Status,
    pub cot: Cot,
    pub ts: i64,
}

/// Severity of a status: `Good` is the best, `Invalid` the worst.
pub open spec fn status_rank(s: Status) -> int {
    match s {
        Status::Good => 0,
        Status::Obsolete => 1,
        Status::TimeInvalid => 2,
        Status::Invalid => 3,
    }
}

/// The worse of two statuses.
pub open spec fn worse_status(a: Status, b: Status) -> Status {
    if status_rank(b) > status_rank(a) { b } else { a }
}

/// Returns the worse of two statuses.
pub fn worse(a: Status, b: Status) -> (r: Status)
    ensures
        r == worse_status(a, b),
{
    let ra: u8 = match a { Status::Good => 0, Status::Obsolete => 1, Status::TimeInvalid => 2, Status::Invalid => 3 };
    let rb: u8 = match b { Status::Good => 0, Status::Obsolete => 1, Status::TimeInvalid => 2, Status::Invalid => 3 };
    if rb > ra { b } else { a }
}

/// The type of a value.
pub open spec fn type_of(v: ValueView) -> PointType {
    match v {
        ValueView::Bool(_) => PointType::Bool,
        ValueView::Int(_) => PointType::Int,
        ValueView::Real(_) => PointType::Real,
        ValueView::Double(_) => PointType::Double,
        ValueView::Str(_) => PointType::String,
        ValueView::Bytes(_) => PointType::Bytes,
    }
}

/// The name of a point type.
pub open spec fn point_type_name(t: PointType) -> Seq<char> {
    match t {
        PointType::Bool => "Bool"@,
        PointType::Int => "Int"@,
        PointType::Real => "Real"@,
        PointType::Double => "Double"@,
        PointType::String => "String"@,
        PointType::Bytes => "Bytes"@,
    }
}

/// Returns the name of a point type.
pub fn point_type_text(t: PointType) -> (r: &'static str)
    ensures
        r@ == point_type_name(t),
{
    match t {
        PointType::Bool => "Bool",
        PointType::Int => "Int",
        PointType::Real => "Real",
        PointType::Double => "Double",
        PointType::String => "String",
        PointType::Bytes => "Bytes",
    }
}

/// `true` for the numeric types (`Bool`, `Int`, `Real`, `Double`).
pub open spec fn is_number(v: ValueView) -> bool {
    match v {
        ValueView::Str(_) | ValueView::Bytes(_) => false,
        _ => true,
    }
}

/// The logical value of a numeric value: a number is `true` when it is greater than zero.
pub open spec fn truth_of(v: ValueView) -> Option<bool> {
    match v {
        ValueView::Bool(b) => Some(b),
        ValueView::Int(i) => Some(i > 0),
        ValueView::Real(b) => Some(f32_positive(b)),
        ValueView::Double(b) => Some(f64_positive(b)),
        _ => None,
    }
}

/// The integer value of a numeric value: `true` is 1, `false` is 0, a float is
/// rounded to the nearest integer, halves away from zero (saturating, NaN gives 0).
pub open spec fn int_of(v: ValueView) -> Option<i64> {
    match v {
        ValueView::Bool(b) => Some(if b { 1i64 } else { 0i64 }),
        ValueView::Int(i) => Some(i),
        ValueView::Real(b) => Some(f32_round(b)),
        ValueView::Double(b) => Some(f64_round(b)),
        _ => None,
    }
}

/// For logical and integer values, truth agrees with the integer value: a
/// value is `true` exactly when its integer (`true` is 1, `false` is 0) is
/// greater than zero. Texts and bytes have no truth.
pub proof fn lemma_truth_agrees_with_integer(v: ValueView)
    ensures
        (v is Bool || v is Int) ==> (int_of(v) matches Some(x) && truth_of(v) == Some(x > 0)),
        (v is Str || v is Bytes) ==> truth_of(v) is None && int_of(v) is None,
{
}

/// Equality of values as `==` on the value type: same variant and equal contents,
/// floating-point contents compared by IEEE equality.
pub open spec fn same_value(a: ValueView, b: ValueView) -> bool {
    match (a, b) {
        (ValueView::Bool(x), ValueView::Bool(y)) => x == y,
        (ValueView::Int(x), ValueView::Int(y)) => x == y,
        (ValueView::Real(x), ValueView::Real(y)) => f32_same(x, y),
        (ValueView::Double(x), ValueView::Double(y)) => f64_same(x, y),
        (ValueView::Str(x), ValueView::Str(y)) => x == y,
        (ValueView::Bytes(x), ValueView::Bytes(y)) => x == y,
        _ => false,
    }
}

/// Returns an exact copy of `s`.
pub fn copy_string(s: &String) -> (r: String)
    ensures
        r@ == s@,
{
    s.clone()
}

/// Returns an exact copy of `v`.
pub fn copy_bytes(v: &Vec<u8>) -> (r: Vec<u8>)
    ensures
        r@ == v@,
{
    let mut r: Vec<u8> = Vec::new();
    let mut i: usize = 0;
    while i < v.len()
        invariant
            i <= v.len(),
            r@ == v@.subrange(0, i as int),
        decreases v.len() - i,
    {
        r.push(v[i]);
        i = i + 1;
    }
    assert(r@ =~= v@);
    r
}

/// Returns `true` if both byte sequences are equal.
pub fn bytes_eq(a: &Vec<u8>, b: &Vec<u8>) -> (r: bool)
    ensures
        r == (a@ == b@),
{
    if a.len() != b.len() {
        return false;
    }
    let mut i: usize = 0;
    while i < a.len()
        invariant
            i <= a.len(),
            a.len() == b.len(),
            forall|j: int| 0 <= j < i ==> a@[j] == b@[j],
        decreases a.len() - i,
    {
        if a[i] != b[i] {
            return false;
        }
        i = i + 1;
    }
    assert(a@ =~= b@);
    true
}

impl PointValue {
    /// Returns an exact copy of the value.
    pub fn copy(&self) -> (r: PointValue)
        ensures
            r@ == self@,
    {
        match self {
            PointValue::Bool(b) => PointValue::Bool(*b),
            PointValue::Int(i) => PointValue::Int(*i),
            PointValue::Real(b) => PointValue::Real(*b),
            PointValue::Double(b) => PointValue::Double(*b),
            PointValue::String(s) => PointValue::String(copy_string(s)),
            PointValue::Bytes(v) => PointValue::Bytes(copy_bytes(v)),
        }
    }

    /// Returns the type of the value.
    pub fn typ(&self) -> (r: PointType)
        ensures
            r == type_of(self@),
    {
        match self {
            PointValue::Bool(_) => PointType::Bool,
            PointValue::Int(_) => PointType::Int,
            PointValue::Real(_) => PointType::Real,
            PointValue::Double(_) => PointType::Double,
            PointValue::String(_) => PointType::String,
            PointValue::Bytes(_) => PointType::Bytes,
        }
    }

    /// Returns `true` for the numeric types.
    pub fn is_number(&self) -> (r: bool)
        ensures
            r == is_number(self@),
    {
        match self {
            PointValue::String(_) | PointValue::Bytes(_) => false,
            _ => true,
        }
    }

    /// Returns the logical value of a numeric value, `None` for strings and bytes.
    pub fn to_bool(&self) -> (r: Option<bool>)
        ensures
            r == truth_of(self@),
    {
        match self {
            PointValue::Bool(b) => Some(*b),
            PointValue::Int(i) => Some(*i > 0),
            PointValue::Real(b) => Some(f32_is_positive(*b)),
            PointValue::Double(b) => Some(f64_is_positive(*b)),
            _ => None,
        }
    }

    /// Returns the integer value of a numeric value, `None` for strings and bytes.
    pub fn to_int(&self) -> (r: Option<i64>)
        ensures
            r == int_of(self@),
    {
        match self {
            PointValue::Bool(b) => Some(if *b { 1i64 } else { 0i64 }),
            PointValue::Int(i) => Some(*i),
            PointValue::Real(b) => Some(f32_round_to_i64(*b)),
            PointValue::Double(b) => Some(f64_round_to_i64(*b)),
            _ => None,
        }
    }

    /// Returns `true` if both values are equal (see `same_value`).
    pub fn same_as(&self, other: &PointValue) -> (r: bool)
        ensures
            r == same_value(self@, other@),
    {
        match (self, other) {
            (PointValue::Bool(x), PointValue::Bool(y)) => *x == *y,
            (PointValue::Int(x), PointValue::Int(y)) => *x == *y,
            (PointValue::Real(x), PointValue::Real(y)) => f32_eq(*x, *y),
            (PointValue::Double(x), PointValue::Double(y)) => f64_eq(*x, *y),
            (PointValue::String(x), PointValue::String(y)) => *x == *y,
            (PointValue::Bytes(x), PointValue::Bytes(y)) => bytes_eq(x, y),
            _ => false,
        }
    }
}


/// The mathematical content of a point.
pub struct PointView {
    pub txid: usize,
    pub name: Seq<char>,
    pub value: ValueView,
    pub status: Status,
    pub cot: Cot,
    pub ts: i64,
}

impl View for Point {
    type V = PointView;

    open spec fn view(&self) -> PointView {
        PointView {
            txid: self.txid,
            name: self.name@,
            value: self.value@,
            status: self.status,
            cot: self.cot,
            ts: self.ts,
        }
    }
}

impl Point {
    /// Returns a new point.
    pub fn new(txid: usize, name: String, value: PointValue, status: Status, cot: Cot, ts: i64) -> (r: Point)
        ensures
            r.txid == txid,
            r.name == name,
            r.value == value,
            r.status == status,
            r.cot == cot,
            r.ts == ts,
    {
        Point { txid, name, value, status, cot, ts }
    }

    /// Returns an exact copy of the point.
    pub fn copy(&self) -> (r: Point)
        ensures
            r@ == self@,
    {
        Point {
            txid: self.txid,
            name: copy_string(&self.name),
            value: self.value.copy(),
            status: self.status,
            cot: self.cot,
            ts: self.ts,
        }
    }

    /// Returns the type of the point's value.
    pub fn typ(&self) -> (r: PointType)
        ensures
            r == type_of(self.value@),
    {
        self.value.typ()
    }

    /// Returns the logical value of a numeric point, `None` for strings and bytes.
    pub fn to_bool(&self) -> (r: Option<bool>)
        ensures
            r == truth_of(self.value@),
    {
        self.value.to_bool()
    }

    /// Returns a point with the same metadata as `self`, the given name and the given value.
    pub fn derive_with(&self, txid: usize, name: String, value: PointValue) -> (r: Point)
        ensures
            r.txid == txid,
            r@.name == name@,
            r@.value == value@,
            r.status == self.status,
            r.cot == self.cot,
            r.ts == self.ts,
    {
        Point { txid, name, value, status: self.status, cot: self.cot, ts: self.ts }
    }
}

/// The view of an optional point.
pub open spec fn opt_view(o: Option<Point>) -> Option<PointView> {
    match o {
        Some(p) => Some(p@),
        None => None,
    }
}

/// Returns an exact copy of an optional point.
pub fn copy_opt(o: &Option<Point>) -> (r: Option<Point>)
    ensures
        opt_view(r) == opt_view(*o),
{
    match o {
        Some(p) => Some(p.copy()),
        None => None,
    }
}

} // verus!
