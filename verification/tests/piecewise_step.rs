use task_functions::fn_flow::{FnFlow, FnResult};
use task_functions::functions::fn_input::FloatConversion;
use task_functions::functions::fn_piecewise_step::{
    parse_range, FnPiecewiseStep, LinearStep, PiecewiseStep, StepError, ToDouble,
};
use task_functions::point::{Cot, Point, PointValue, Status};
use task_functions::float_bits::f64_is_close;

const STEPS_YAML: &str = "
    ..0.05: '-0_05'
    0.05..0.15: '0_05-0_15'
    0.15..0.25: '0_15-0_25'
    0.25..: '0_25-'
";
const CLOSED_YAML: &str = "
    0.05..0.15: '0_05-0_15'
    0.15..0.25: '0_15-0_25'
";

/// The step of `range` giving `val`: the bounds read as `f64` here.
fn linear_step(range: &str, val: Point) -> Result<LinearStep, StepError> {
    let text = parse_range(range)?;
    let bound = |t: &Option<String>| t.as_ref().map(|b| b.parse::<f64>().unwrap());
    let (start, end) = (bound(&text.start), bound(&text.end));
    LinearStep::try_new(start.map(f64::to_bits), end.map(f64::to_bits), val)
}

/// The step function of a YAML map `range: value`, its values named `parent`.
fn steps_of(parent: &str, txid: usize, yaml: &str) -> Result<PiecewiseStep, String> {
    let conf: serde_yaml::Value = serde_yaml::from_str(yaml).unwrap();
    let pairs: serde_yaml::Mapping = serde_yaml::from_value(conf).map_err(|e| e.to_string())?;
    let mut lines = vec![];
    for (range, val) in pairs {
        let range = range.as_str().ok_or("range is not a string".to_string())?.to_string();
        let value = match val {
            serde_yaml::Value::Bool(v) => PointValue::Bool(v),
            serde_yaml::Value::Number(n) => match n.as_i64() {
                Some(i) => PointValue::Int(i),
                None => PointValue::Double(n.as_f64().unwrap().to_bits()),
            },
            serde_yaml::Value::String(s) => PointValue::String(s),
            other => return Err(format!("value isn't supported: {:?}", other)),
        };
        let point = Point::new(txid, parent.to_string(), value, Status::Good, Cot::Inf, 0);
        lines.push(linear_step(&range, point).map_err(|e| format!("{:?}", e))?);
    }
    Ok(PiecewiseStep::new(lines))
}

fn setup_func(yaml: &str) -> PiecewiseStep {
    steps_of("test_parent", 1, yaml).unwrap()
}

fn eval(func: &PiecewiseStep, x: f64) -> Option<&Point> {
    func.eval(x.to_bits())
}

fn eval_string(func: &PiecewiseStep, x: f64) -> Option<String> {
    match eval(func, x) {
        Some(p) => match &p.value {
            PointValue::String(s) => Some(s.clone()),
            other => panic!("Expected a string, got: {:?}", other),
        },
        None => None,
    }
}

fn input_point(value: PointValue) -> Point {
    Point::new(1, "AI_01".to_string(), value, Status::Good, Cot::Act, 7)
}

fn setup_fn(yaml: &str) -> FnPiecewiseStep<()> {
    let id = "test_parent/FnPiecewiseStep1";
    FnPiecewiseStep::new("test_parent", 1, (), steps_of(id, 1, yaml).unwrap())
}

/// Evaluates the node on `input`, making the `f64` it asks for as a caller does.
fn run(f: &FnPiecewiseStep<()>, input: Point) -> FnResult<FnFlow, String> {
    let input: FnResult<FnFlow, String> = Ok(Some(FnFlow::New(input)));
    let converted = match f.conversion(&input) {
        Some(ToDouble::Convert(FloatConversion::IntToDouble(i))) => Some((i as f64).to_bits()),
        Some(ToDouble::Convert(FloatConversion::RealToDouble(b))) => Some((f32::from_bits(b) as f64).to_bits()),
        Some(ToDouble::Convert(other)) => panic!("unexpected conversion {:?}", other),
        Some(ToDouble::Parse(t)) => t.parse::<f64>().ok().map(f64::to_bits),
        None => None,
    };
    f.out(input, converted)
}

#[test]
fn test_open_left_range() {
    let func = setup_func(STEPS_YAML);
    assert_eq!(eval_string(&func, -100.0), Some("-0_05".to_string()));
    assert_eq!(eval_string(&func, 0.0), Some("-0_05".to_string()));
    assert_eq!(eval_string(&func, 0.049), Some("-0_05".to_string()));
}

#[test]
fn test_range_boundaries() {
    let func = setup_func(STEPS_YAML);
    assert_eq!(eval_string(&func, 0.05), Some("0_05-0_15".to_string()));
    assert_eq!(eval_string(&func, 0.149), Some("0_05-0_15".to_string()));
    assert_eq!(eval_string(&func, 0.15), Some("0_15-0_25".to_string()));
}

#[test]
fn test_open_right_range() {
    let func = setup_func(STEPS_YAML);
    assert_eq!(eval_string(&func, 0.25), Some("0_25-".to_string()));
    assert_eq!(eval_string(&func, 100.0), Some("0_25-".to_string()));
}

#[test]
fn test_out_of_ranges_returns_none() {
    let func = setup_func(CLOSED_YAML);
    assert!(eval(&func, -1.0).is_none());
    assert!(eval(&func, 0.5).is_none());
    assert!(eval(&func, 100.0).is_none());
}

#[test]
fn test_numeric_values() {
    let yaml = "
        0.0..10.0: 5
        10.0..20.0: 1.5
    ";
    let func = setup_func(yaml);
    match eval(&func, 5.0).map(|p| &p.value) {
        Some(PointValue::Int(v)) => assert_eq!(*v, 5),
        other => panic!("Expected Point::Int(5), got: {:?}", other),
    }
    match eval(&func, 15.0).map(|p| &p.value) {
        Some(PointValue::Double(v)) => assert_eq!(f64::from_bits(*v), 1.5),
        other => panic!("Expected Point::Double(1.5), got: {:?}", other),
    }
}

#[test]
fn test_invalid_range_format_rejected() {
    let yaml = "
        0.0..1.0: 'ok'
        abc: 'bad'
    ";
    assert!(steps_of("test", 1, yaml).is_err());
}

#[test]
fn test_unbounded_range_rejected() {
    let yaml = "
        ..: 'bad'
    ";
    assert!(steps_of("test", 1, yaml).is_err());
}

#[test]
fn test_equal_bounds_rejected() {
    let yaml = "
        0.15..0.15: 'bad'
    ";
    assert!(steps_of("test", 1, yaml).is_err());
}

#[test]
fn test_null_value_rejected() {
    let yaml = "
        0.0..1.0:
    ";
    assert!(steps_of("test", 1, yaml).is_err());
}

#[test]
fn test_out_maps_value_and_renames_point() {
    let f = setup_fn(STEPS_YAML);
    let res = run(&f, input_point(PointValue::Real(0.10f32.to_bits()))).unwrap().unwrap();
    match res {
        FnFlow::New(p) => {
            assert!(matches!(&p.value, PointValue::String(s) if s == "0_05-0_15"));
            assert!(p.name.contains("/FnPiecewiseStep"));
        }
        other => panic!("Expected FnFlow::New(Point::String), got: {:?}", other),
    }
}

#[test]
fn test_out_parses_string_input() {
    let f = setup_fn(STEPS_YAML);
    let res = run(&f, input_point(PointValue::String("0.20".to_string()))).unwrap().unwrap();
    match res {
        FnFlow::New(p) => assert!(matches!(&p.value, PointValue::String(s) if s == "0_15-0_25")),
        other => panic!("Expected FnFlow::New(Point::String), got: {:?}", other),
    }
}

#[test]
fn test_out_returns_none_in_gap() {
    let f = setup_fn(CLOSED_YAML);
    assert!(run(&f, input_point(PointValue::Real(0.5f32.to_bits()))).unwrap().is_none());
}

#[test]
fn test_out_nan_input_error() {
    let f = setup_fn(STEPS_YAML);
    assert!(run(&f, input_point(PointValue::Double(f64::NAN.to_bits()))).is_err());
}

#[test]
fn test_out_invalid_string_input_error() {
    let f = setup_fn(STEPS_YAML);
    assert!(run(&f, input_point(PointValue::String("abc".to_string()))).is_err());
}

#[test]
fn range_reads_both_bounds_with_white_space() {
    let t = parse_range("  0.05 ..\t0.15 ").unwrap();
    assert_eq!(t.start.as_deref(), Some("0.05"));
    assert_eq!(t.end.as_deref(), Some("0.15"));
}

#[test]
fn range_reads_open_sides() {
    let t = parse_range("..7").unwrap();
    assert_eq!(t.start, None);
    assert_eq!(t.end.as_deref(), Some("7"));
    let t = parse_range("12.5..").unwrap();
    assert_eq!(t.start.as_deref(), Some("12.5"));
    assert_eq!(t.end, None);
}

#[test]
fn range_errors_by_kind() {
    assert_eq!(parse_range("..").unwrap_err(), StepError::NoBound);
    assert_eq!(parse_range("  ..  ").unwrap_err(), StepError::NoBound);
    assert_eq!(parse_range("abc").unwrap_err(), StepError::Format);
    assert_eq!(parse_range("1...5").unwrap_err(), StepError::Format);
    assert_eq!(parse_range("1. .. 5").unwrap_err(), StepError::Format);
    assert_eq!(parse_range("-1..5").unwrap_err(), StepError::Format);
    assert_eq!(parse_range("1..5 x").unwrap_err(), StepError::Format);
    assert_eq!(parse_range("").unwrap_err(), StepError::Format);
}

#[test]
fn step_bounds_are_swapped_when_reversed() {
    let val = Point::new(0, "s".to_string(), PointValue::Bool(true), Status::Good, Cot::Inf, 0);
    let step = linear_step("0.25..0.15", val).unwrap();
    let func = PiecewiseStep::new(vec![step]);
    assert!(eval(&func, 0.2).is_some());
    assert!(eval(&func, 0.15).is_some());
    assert!(eval(&func, 0.25).is_none());
    assert!(eval(&func, 0.1).is_none());
}

#[test]
fn step_equal_bounds_error() {
    let val = Point::new(0, "s".to_string(), PointValue::Bool(true), Status::Good, Cot::Inf, 0);
    assert_eq!(linear_step("3..3.0", val).unwrap_err(), StepError::EqualBounds);
}

#[test]
fn first_matching_step_decides() {
    let yaml = "
        0..10: 'wide'
        2..3: 'narrow'
    ";
    let func = setup_func(yaml);
    assert_eq!(eval_string(&func, 2.5), Some("wide".to_string()));
    assert_eq!(eval_string(&func, -0.0), Some("wide".to_string()));
    assert!(eval(&func, f64::NAN).is_none());
}

#[test]
fn out_keeps_input_status_and_time_and_freshness() {
    let f = setup_fn(STEPS_YAML);
    let input = Point::new(3, "AI_02".to_string(), PointValue::Int(1), Status::Invalid, Cot::Act, 42);
    let res = f.out(Ok(Some(FnFlow::Old(input))), Some(1.0f64.to_bits())).unwrap().unwrap();
    match res {
        FnFlow::Old(p) => {
            assert!(matches!(&p.value, PointValue::String(s) if s == "0_25-"));
            assert_eq!(p.status, Status::Invalid);
            assert_eq!(p.ts, 42);
            assert_eq!(p.cot, Cot::Inf);
            assert_eq!(p.txid, 1);
            assert_eq!(p.name, "test_parent/FnPiecewiseStep1");
        }
        other => panic!("Expected FnFlow::Old, got: {:?}", other),
    }
    assert!(f.out(Ok(None), None).unwrap().is_none());
    assert_eq!(f.out(Err("e".to_string()), None).unwrap_err(), "e");
    let bytes = Point::new(3, "AI_02".to_string(), PointValue::Bytes(vec![1]), Status::Good, Cot::Act, 42);
    assert!(f.out(Ok(Some(FnFlow::New(bytes))), None).is_err());
    let flag = Point::new(3, "AI_02".to_string(), PointValue::Bool(false), Status::Good, Cot::Act, 42);
    assert!(f.out(Ok(Some(FnFlow::New(flag))), None).unwrap().is_some());
}

#[test]
fn close_bits_agree_with_f64_arithmetic() {
    let mp = f64::MIN_POSITIVE;
    let tiny = f64::from_bits(1);
    let mut values = vec![
        0.0, -0.0, tiny, -tiny, mp, -mp, mp * 2.0, mp * 4.0, 1.0, -1.0, 1e300, f64::MAX,
        f64::INFINITY, f64::NEG_INFINITY, f64::NAN, 0.15, 0.25,
        f64::from_bits(mp.to_bits() - 1), f64::from_bits(mp.to_bits() + 1),
        f64::from_bits((2.0 * mp).to_bits() - 1), f64::from_bits((2.0 * mp).to_bits() + 1),
        f64::from_bits((4.0 * mp).to_bits() - 1), f64::from_bits((4.0 * mp).to_bits() + 1),
        f64::from_bits(0x000f_ffff_ffff_ffff), f64::from_bits(0x0008_0000_0000_0000),
        f64::from_bits(0x0008_0000_0000_0001), f64::from_bits(0x0020_0000_0000_0001),
        f64::from_bits(0x0030_0000_0000_0000), f64::from_bits(0x0350_0000_0000_0000),
        f64::from_bits(0x0360_0000_0000_0000), f64::from_bits(0x0360_0000_0000_0001),
        f64::from_bits(0x036f_ffff_ffff_ffff),
    ];
    let more: Vec<f64> = values.iter().map(|v| -v).collect();
    values.extend(more);
    for a in &values {
        for b in &values {
            let expected = (b - a).abs() <= f64::MIN_POSITIVE;
            assert_eq!(f64_is_close(a.to_bits(), b.to_bits()), expected, "{:e} {:e}", a, b);
        }
    }
}

#[test]
fn tiny_distinct_bounds_count_as_equal() {
    let val = Point::new(0, "s".to_string(), PointValue::Bool(true), Status::Good, Cot::Inf, 0);
    let tiny = format!("0.{}1", "0".repeat(309));
    assert_eq!(linear_step(&format!("0..{tiny}"), val).unwrap_err(), StepError::EqualBounds);
    let val = Point::new(0, "s".to_string(), PointValue::Bool(true), Status::Good, Cot::Inf, 0);
    assert!(linear_step("0..0.5", val).is_ok());
}
