use task_functions::point::{Point, PointValue, Status, Cot};
use task_functions::fn_flow::{FnFlow, FnResult};
use task_functions::functions::fn_change::FnChange;
use task_functions::functions::fn_hold::FnHold;
use task_functions::functions::fn_count::FnCount;
use task_functions::functions::fn_edge::{FnRisingEdge, FnFallingEdge};
use task_functions::functions::fn_enable::{FnEnable, FnEnableMode};

fn double_point(val: f64, status: Status) -> Point {
    Point::new(0, "test".to_string(), PointValue::Double(val.to_bits()), status, Cot::Inf, 1_000)
}

fn bool_point(val: bool, status: Status) -> Point {
    Point::new(0, "in1".to_string(), PointValue::Bool(val), status, Cot::Inf, 1_000)
}

fn int_point(val: i64) -> Point {
    Point::new(0, "test".to_string(), PointValue::Int(val), Status::Good, Cot::Inf, 1_000)
}

fn new_flow(p: Point) -> FnResult<FnFlow, String> {
    Ok(Some(FnFlow::New(p)))
}

fn old_flow(p: Point) -> FnResult<FnFlow, String> {
    Ok(Some(FnFlow::Old(p)))
}

fn flow_bool(f: &FnFlow) -> bool {
    match &f.value().value {
        PointValue::Bool(b) => *b,
        other => panic!("expected a bool, got {:?}", other),
    }
}

fn flow_int(f: &FnFlow) -> i64 {
    match &f.value().value {
        PointValue::Int(i) => *i,
        other => panic!("expected an int, got {:?}", other),
    }
}

fn flow_double(f: &FnFlow) -> f64 {
    match &f.value().value {
        PointValue::Double(b) => f64::from_bits(*b),
        other => panic!("expected a double, got {:?}", other),
    }
}

// FnChange

#[test]
fn test_identical_values_are_muted_to_old() {
    let mut filter = FnChange::new(());
    let res1 = filter.out(new_flow(double_point(25.5, Status::Good))).unwrap().unwrap();
    assert!(matches!(res1, FnFlow::New(_)), "the first event is always New");
    let res2 = filter.out(new_flow(double_point(25.5, Status::Good))).unwrap().unwrap();
    assert!(matches!(res2, FnFlow::Old(_)), "an unchanged value is lowered to Old");
}

#[test]
fn test_status_change_forces_new_flow() {
    let mut filter = FnChange::new(());
    let _ = filter.out(new_flow(double_point(25.5, Status::Good))).unwrap();
    let res2 = filter.out(new_flow(double_point(25.5, Status::Invalid))).unwrap().unwrap();
    assert!(matches!(res2, FnFlow::New(_)), "a change of status is New");
}

#[test]
fn test_reset_clears_state_and_allows_new() {
    let mut filter = FnChange::new(());
    let _ = filter.out(new_flow(double_point(10.0, Status::Good))).unwrap();
    filter.reset();
    let res = filter.out(new_flow(double_point(10.0, Status::Good))).unwrap().unwrap();
    assert!(matches!(res, FnFlow::New(_)), "after reset the same value is New again");
}

#[test]
fn test_upgrades_old_to_new_if_value_changed() {
    let mut filter = FnChange::new(());
    let res1 = filter.out(new_flow(double_point(10.0, Status::Good))).unwrap().unwrap();
    assert!(matches!(res1, FnFlow::New(_)));
    let res2 = filter.out(old_flow(double_point(99.9, Status::Good))).unwrap().unwrap();
    match res2 {
        FnFlow::New(_) => assert_eq!(flow_double(&res2), 99.9),
        _ => panic!("a changed value must be raised to New"),
    }
}

// FnHold

#[test]
fn test_fnhold_passes_new_and_caches_it() {
    let mut hold = FnHold::new("parent", 1, ());
    let res = hold.out(new_flow(double_point(10.0, Status::Good))).unwrap().unwrap();
    assert!(matches!(res, FnFlow::New(_)), "the first valid value passes as New");
    let cached = hold.out(Ok(None)).unwrap().unwrap();
    assert_eq!(flow_double(&cached), 10.0, "the value is cached");
}

#[test]
fn test_fnhold_returns_cached_old_on_none() {
    let mut hold = FnHold::new("parent", 1, ());
    let _ = hold.out(new_flow(double_point(42.0, Status::Good))).unwrap();
    let res = hold.out(Ok(None)).unwrap().unwrap();
    assert!(matches!(res, FnFlow::Old(_)), "without an input value the cache is returned as Old");
    assert_eq!(flow_double(&res), 42.0);
}

#[test]
fn test_fnhold_returns_none_if_empty_and_reset() {
    let mut hold = FnHold::new("parent", 1, ());
    let res = hold.out(Ok(None)).unwrap();
    assert!(res.is_none(), "empty cache and no input: None");
    let _ = hold.out(new_flow(double_point(55.0, Status::Good))).unwrap();
    hold.reset();
    let res_after_reset = hold.out(Ok(None)).unwrap();
    assert!(res_after_reset.is_none(), "the cache is cleared by reset");
}

// FnCount

#[test]
fn test_fn_count_logic() {
    let mut fn_count = FnCount::new("root", 1, None::<()>, ());
    let res = fn_count.out(new_flow(int_point(0)), None).unwrap().unwrap();
    assert!(matches!(res, FnFlow::Old(_)));
    assert_eq!(flow_int(&res), 0);
    let res = fn_count.out(new_flow(int_point(1)), None).unwrap().unwrap();
    assert!(matches!(res, FnFlow::New(_)));
    assert_eq!(flow_int(&res), 1);
    let res = fn_count.out(new_flow(int_point(0)), None).unwrap().unwrap();
    assert!(matches!(res, FnFlow::Old(_)));
    assert_eq!(flow_int(&res), 1);
    let res = fn_count.out(new_flow(int_point(1)), None).unwrap().unwrap();
    assert!(matches!(res, FnFlow::New(_)));
    assert_eq!(flow_int(&res), 2);
    let res = fn_count.out(old_flow(int_point(1)), None).unwrap().unwrap();
    assert!(matches!(res, FnFlow::Old(_)));
    assert_eq!(flow_int(&res), 2);
}

#[test]
fn fn_count_starts_from_initial() {
    let mut fn_count = FnCount::new("root", 1, Some(()), ());
    assert!(fn_count.needs_initial());
    let res = fn_count.out(new_flow(int_point(0)), Some(new_flow(int_point(10)))).unwrap().unwrap();
    assert_eq!(flow_int(&res), 10);
    assert!(!fn_count.needs_initial());
    let res = fn_count.out(new_flow(int_point(1)), None).unwrap().unwrap();
    assert_eq!(flow_int(&res), 11);
}

#[test]
fn fn_count_overflow_is_an_error() {
    let mut fn_count = FnCount::new("root", 1, Some(()), ());
    let _ = fn_count.out(new_flow(int_point(0)), Some(new_flow(int_point(i64::MAX)))).unwrap();
    assert!(fn_count.out(new_flow(int_point(1)), None).is_err());
}

#[test]
fn fn_count_rejects_a_string() {
    let mut fn_count = FnCount::new("root", 1, None::<()>, ());
    let p = Point::new(0, "s".to_string(), PointValue::String("x".to_string()), Status::Good, Cot::Inf, 0);
    assert!(fn_count.out(new_flow(p), None).is_err());
}

// FnFallingEdge

#[test]
fn test_falling_edge_pulse_generation() {
    let mut edge_node = FnFallingEdge::new("parent", 1, ());
    let out = edge_node.out(new_flow(bool_point(false, Status::Good))).unwrap().unwrap();
    assert!(matches!(out, FnFlow::New(_)), "the first value is New");
    assert_eq!(flow_bool(&out), false);
    let out = edge_node.out(new_flow(bool_point(true, Status::Good))).unwrap().unwrap();
    assert!(matches!(out, FnFlow::Old(_)), "no change of the output: Old");
    assert_eq!(flow_bool(&out), false);
    let out = edge_node.out(new_flow(bool_point(false, Status::Good))).unwrap().unwrap();
    assert!(matches!(out, FnFlow::New(_)), "the pulse is New");
    assert_eq!(flow_bool(&out), true);
    let out = edge_node.out(old_flow(bool_point(false, Status::Good))).unwrap().unwrap();
    assert!(matches!(out, FnFlow::New(_)), "the end of the pulse is New");
    assert_eq!(flow_bool(&out), false);
    let out = edge_node.out(old_flow(bool_point(false, Status::Good))).unwrap().unwrap();
    assert!(matches!(out, FnFlow::Old(_)), "silence is Old");
    assert_eq!(flow_bool(&out), false);
}

#[test]
fn test_ignore_empty_input() {
    let mut edge_node = FnFallingEdge::new("parent", 1, ());
    let out = edge_node.out(Ok(None)).unwrap();
    assert!(out.is_none());
}

#[test]
fn test_reset_clears_internal_state() {
    let mut edge_node = FnFallingEdge::new("parent", 1, ());
    let _ = edge_node.out(new_flow(bool_point(true, Status::Good))).unwrap();
    edge_node.reset();
    let out = edge_node.out(new_flow(bool_point(false, Status::Good))).unwrap().unwrap();
    assert_eq!(flow_bool(&out), false, "after reset no falling edge is seen");
}

#[test]
fn test_status_change_forces_new() {
    let mut edge_node = FnFallingEdge::new("parent", 1, ());
    let _ = edge_node.out(new_flow(bool_point(false, Status::Good))).unwrap();
    let out = edge_node.out(new_flow(bool_point(false, Status::Invalid))).unwrap().unwrap();
    assert!(matches!(out, FnFlow::New(_)), "a change of status is New");
    assert_eq!(out.value().status, Status::Invalid);
}

#[test]
fn test_cascades_error_on_invalid_type() {
    let mut edge_node = FnFallingEdge::new("parent", 1, ());
    let p = Point::new(0, "in1".to_string(), PointValue::String("42".to_string()), Status::Good, Cot::Inf, 0);
    let err = edge_node.out(new_flow(p));
    assert!(matches!(err, Err(_)));
    assert!(err.unwrap_err().contains("Invalid input"));
}

// FnRisingEdge

#[test]
fn test_rising_edge_pulse_and_hold() {
    let mut detector = FnRisingEdge::new("test_parent", 1, ());
    let res1 = detector.out(new_flow(bool_point(false, Status::Good))).unwrap().unwrap();
    assert!(res1.is_new(), "the first evaluation is New");
    assert_eq!(flow_bool(&res1), false);
    let res2 = detector.out(new_flow(bool_point(true, Status::Good))).unwrap().unwrap();
    assert!(res2.is_new(), "the edge is New");
    assert_eq!(flow_bool(&res2), true);
    let res3 = detector.out(old_flow(bool_point(true, Status::Good))).unwrap().unwrap();
    assert!(res3.is_new(), "the end of the pulse is New");
    assert_eq!(flow_bool(&res3), false);
    let res4 = detector.out(new_flow(bool_point(false, Status::Good))).unwrap().unwrap();
    assert!(!res4.is_new(), "the signal falling after the pulse is not New");
}

#[test]
fn test_rising_edge_cold_mode_reset() {
    let mut detector = FnRisingEdge::new("test_parent", 1, ());
    let _ = detector.out(new_flow(bool_point(true, Status::Good))).unwrap();
    let res_none = detector.out(Ok(None)).unwrap();
    assert!(res_none.is_none(), "without a value the branch stops");
    let res_restart = detector.out(new_flow(bool_point(true, Status::Good))).unwrap().unwrap();
    assert!(res_restart.is_new());
}

#[test]
fn test_rising_edge_status_change() {
    let mut detector = FnRisingEdge::new("test_parent", 1, ());
    let _ = detector.out(new_flow(bool_point(false, Status::Good))).unwrap();
    let res = detector.out(new_flow(bool_point(false, Status::Invalid))).unwrap().unwrap();
    assert!(res.is_new(), "a change of status is New");
    assert_eq!(res.value().status, Status::Invalid);
}

// FnEnable

#[test]
fn test_cold_mode() {
    let mut fn_enable = FnEnable::new((), FnEnableMode::Cold, ());
    let step = fn_enable.begin(new_flow(bool_point(false, Status::Good))).unwrap();
    assert!(!step.poll_origin, "the origin is not evaluated while disabled");
    let out = fn_enable.finish(step, None).unwrap();
    assert!(out.is_none(), "Cold mode returns None while disabled");
    let step = fn_enable.begin(new_flow(bool_point(true, Status::Good))).unwrap();
    assert!(step.reset_origin, "the origin is reset on the rising edge");
    assert!(step.poll_origin);
    let out = fn_enable.finish(step, Some(old_flow(bool_point(true, Status::Good)))).unwrap().unwrap();
    assert!(out.is_new(), "the rising edge forces New");
    let step = fn_enable.begin(old_flow(bool_point(true, Status::Good))).unwrap();
    assert!(!step.reset_origin);
    let out = fn_enable.finish(step, Some(old_flow(bool_point(true, Status::Good)))).unwrap().unwrap();
    assert!(!out.is_new(), "steady high with an Old origin is Old");
    let step = fn_enable.begin(new_flow(bool_point(false, Status::Good))).unwrap();
    assert!(step.reset_origin, "the origin is reset on the falling edge");
    let out = fn_enable.finish(step, None).unwrap();
    assert!(out.is_none(), "the falling edge in Cold mode returns None");
}

#[test]
fn test_warm_mode() {
    let mut fn_enable = FnEnable::new((), FnEnableMode::Warm, ());
    let step = fn_enable.begin(new_flow(bool_point(true, Status::Good))).unwrap();
    assert!(step.poll_origin);
    let out = fn_enable.finish(step, Some(old_flow(bool_point(true, Status::Good)))).unwrap().unwrap();
    assert!(out.is_new(), "the rising edge forces New");
    let step = fn_enable.begin(new_flow(bool_point(false, Status::Good))).unwrap();
    assert!(step.poll_origin, "Warm mode evaluates the origin while disabled");
    assert!(!step.reset_origin, "Warm mode never resets the origin");
    let out = fn_enable.finish(step, Some(old_flow(bool_point(true, Status::Good)))).unwrap().unwrap();
    assert!(!out.is_new(), "disabled Warm mode returns Old");
}

#[test]
fn test_flow_isolation() {
    let mut fn_enable = FnEnable::new((), FnEnableMode::Warm, ());
    let step = fn_enable.begin(new_flow(bool_point(true, Status::Good))).unwrap();
    let _ = fn_enable.finish(step, Some(old_flow(bool_point(true, Status::Good))));
    let step = fn_enable.begin(new_flow(bool_point(true, Status::Good))).unwrap();
    let out = fn_enable.finish(step, Some(old_flow(bool_point(true, Status::Good)))).unwrap().unwrap();
    assert!(!out.is_new(), "a New enable does not make the data New");
}

#[test]
fn enable_rejects_a_string() {
    let mut fn_enable = FnEnable::new((), FnEnableMode::Cold, ());
    let p = Point::new(0, "en".to_string(), PointValue::String("on".to_string()), Status::Good, Cot::Inf, 0);
    assert!(fn_enable.begin(new_flow(p)).is_err());
}
