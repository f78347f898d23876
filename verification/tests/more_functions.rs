use task_functions::point::{Point, PointValue, Status, Cot};
use task_functions::fn_flow::{FnFlow, FnResult, FnKind, FlowContext};
use task_functions::eval_cycle::EvalCycle;
use task_functions::functions::fn_input::{FnInput, InputType, FloatConversion};
use task_functions::functions::fn_filter::{FnFilter, FnKeepValid};
use task_functions::functions::fn_debug::FnDebug;
use task_functions::functions::fn_to_real::{FnToReal, ToReal};
use task_functions::functions::fn_to_double::FnToDouble;
use task_functions::functions::fn_to_string::FnToString;
use task_functions::functions::fn_bit_xor::FnBitXor;
use task_functions::functions::fn_point::FnPoint;
use task_functions::functions::fn_smooth::FnSmooth;

fn point(name: &str, value: PointValue, status: Status) -> Point {
    Point::new(3, name.to_string(), value, status, Cot::Act, 12)
}

fn new_flow(p: Point) -> FnResult<FnFlow, String> {
    Ok(Some(FnFlow::New(p)))
}

fn old_flow(p: Point) -> FnResult<FnFlow, String> {
    Ok(Some(FnFlow::Old(p)))
}

#[test]
fn input_converts_and_tracks_freshness() {
    let mut cycle = EvalCycle::new();
    let mut input = FnInput::new("App", 1, "/App/P".to_string(), InputType::Bool, None, None, "h".to_string());
    assert_eq!(input.kind(), FnKind::Input);
    cycle.increment();
    let c = cycle.get();
    assert!(input.out(&c).unwrap().is_none(), "no value before the first event");
    assert!(input.add(&point("/App/P", PointValue::Int(5), Status::Good), &c).is_none());
    let r = input.out(&c).unwrap().unwrap();
    assert!(r.is_new(), "New in the cycle of the event");
    assert!(matches!(r.value().value, PointValue::Bool(true)));
    cycle.increment();
    assert!(!input.out(&cycle.get()).unwrap().unwrap().is_new(), "Old afterwards");
    input.add(&point("/App/P", PointValue::String("x".to_string()), Status::Good), &cycle.get());
    assert_eq!(input.out(&cycle.get()).unwrap_err(), "App/FnInput1.add | Error. Incompatible Type 'String', 'Bool' expected",
        "an incompatible type is an error");
    input.reset();
    assert!(input.out(&cycle.get()).unwrap().is_none(), "reset returns to the initial value");
}

#[test]
fn input_leaves_float_conversions_to_the_caller() {
    let cycle = EvalCycle::new();
    let c = cycle.get();
    let mut input = FnInput::new("App", 1, "/App/P".to_string(), InputType::Double, None, Some(Status::Good), "h".to_string());
    let p = point("/App/P", PointValue::Int(2), Status::Good);
    let conv = input.add(&p, &c);
    assert_eq!(conv, Some(FloatConversion::IntToDouble(2)));
    input.add_converted(&p, PointValue::Double(2.0f64.to_bits()), &c);
    assert!(matches!(input.out(&c).unwrap().unwrap().value().value, PointValue::Double(b) if f64::from_bits(b) == 2.0));
    assert!(input.add(&point("/App/P", PointValue::Int(9), Status::Invalid), &c).is_none());
    assert!(matches!(input.out(&c).unwrap().unwrap().value().value, PointValue::Double(b) if f64::from_bits(b) == 2.0), "another status is ignored");
}

#[test]
fn filter_passes_while_true() {
    let mut f = FnFilter::new("App", 1, None, (), ());
    let pass = new_flow(point("pass", PointValue::Bool(true), Status::Good));
    let r = f.out(pass, Some(new_flow(point("in", PointValue::Int(4), Status::Good)))).unwrap().unwrap();
    assert!(matches!(r.value().value, PointValue::Int(4)));
    let stop = new_flow(point("pass", PointValue::Int(0), Status::Good));
    assert!(f.out(stop, None).unwrap().is_none());
    assert!(f.out(new_flow(point("pass", PointValue::String("y".to_string()), Status::Good)), None).is_err());
}

#[test]
fn keep_valid_hides_errors() {
    let mut k = FnKeepValid::new("App", 1, ());
    let r = k.out(new_flow(point("in", PointValue::Int(1), Status::Good))).unwrap().unwrap();
    assert!(r.is_new());
    let r = k.out(Err("lost".to_string())).unwrap().unwrap();
    assert!(matches!(r.value().value, PointValue::Int(1)), "the last valid result replaces an error");
    assert!(k.out(Ok(None)).unwrap().is_none());
    assert!(k.out(Err("lost".to_string())).unwrap().is_none());
}

#[test]
fn debug_passes_a_single_input() {
    let one = FnDebug::new("App", 1, vec![("a".to_string(), ())]);
    let r = one.out(vec![old_flow(point("a", PointValue::Int(2), Status::Good))]).unwrap().unwrap();
    assert!(matches!(r.value().value, PointValue::Int(2)));
    let two = FnDebug::new("App", 2, vec![("a".to_string(), ()), ("b".to_string(), ())]);
    assert!(two.out(vec![Ok(None), Ok(None)]).unwrap().is_none());
}

#[test]
fn to_real_converts_numbers() {
    let node = FnToReal::new("App", 1, ());
    let r = node.out(old_flow(point("b", PointValue::Bool(true), Status::Obsolete)), None).unwrap().unwrap();
    assert!(matches!(r.value().value, PointValue::Real(b) if f32::from_bits(b) == 1.0));
    assert!(!r.is_new());
    assert_eq!(r.value().name, "App/FnToReal1.out");
    assert_eq!(r.value().status, Status::Obsolete);
    let input = new_flow(point("i", PointValue::Int(3), Status::Good));
    assert!(matches!(node.conversion(&input), Some(ToReal::Convert(FloatConversion::IntToReal(3)))));
    let r = node.out(input, Some(3.0f32.to_bits())).unwrap().unwrap();
    assert!(matches!(r.value().value, PointValue::Real(b) if f32::from_bits(b) == 3.0));
    assert!(node.out(Err("e".to_string()), None).is_err());
}

#[test]
fn to_real_reads_strings() {
    let node = FnToReal::new("App", 1, ());
    let input = new_flow(point("s", PointValue::String("2.5".to_string()), Status::Good));
    let converted = match node.conversion(&input) {
        Some(ToReal::Parse(t)) => t.parse::<f32>().ok().map(f32::to_bits),
        other => panic!("expected a text to read, got {:?}", other),
    };
    let r = node.out(input, converted).unwrap().unwrap();
    assert!(matches!(r.value().value, PointValue::Real(b) if f32::from_bits(b) == 2.5));
    assert!(r.is_new());
    let bad = new_flow(point("s", PointValue::String("abc".to_string()), Status::Good));
    assert_eq!(node.out(bad, None).unwrap_err(), "App/FnToReal1.out | Invalid input 'abc', expected a real number");
}

#[test]
fn unfinished_functions_refuse_to_be_built() {
    assert_eq!(FnToDouble::new("App", 1, ()).unwrap_err(), "App/FnToDouble1.new | Isn't implemented yet");
    assert_eq!(FnToString::new("App", 2, ()).unwrap_err(), "App/FnToString2.new | Isn't implemented yet");
    assert_eq!(FnBitXor::new("App", 4, vec![()]).unwrap_err(), "App/FnBitXor4.new | Isn't implemented yet");
    assert_eq!(FnPoint::new("App", 5, None, None, Some(())).unwrap_err(), "App/FnPoint5.new | Isn't implemented yet");
    assert_eq!(FnSmooth::new("App", 6, (), ()).unwrap_err(), "App/FnSmooth6.new | Isn't implemented yet");
}

#[test]
fn flow_context_tracks_new_inputs() {
    let mut flow = FlowContext::new();
    assert!(flow.is_old());
    let p = flow.map(old_flow(point("a", PointValue::Int(1), Status::Good))).unwrap().unwrap();
    assert!(!flow.is_new());
    let _ = flow.ignore(new_flow(point("b", PointValue::Int(1), Status::Good)));
    assert!(!flow.is_new(), "ignore does not register New");
    let _ = flow.map(new_flow(point("c", PointValue::Int(1), Status::Good)));
    assert!(flow.is_new());
    assert!(flow.wrap(p).unwrap().unwrap().is_new());
}
