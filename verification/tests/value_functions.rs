use task_functions::point::{Point, PointValue, Status, Cot};
use task_functions::fn_flow::{FnFlow, FnResult};
use task_functions::functions::fn_is_changed_value::FnIsChangedValue;
use task_functions::functions::fn_to_int::FnToInt;
use task_functions::functions::fn_not::FnNot;
use task_functions::functions::fn_select::FnSelect;
use task_functions::functions::fn_point_id::FnPointId;
use task_functions::functions::fn_eq::FnEq;
use task_functions::functions::fn_or::FnOr;
use task_functions::functions::fn_bit_and::FnBitAnd;
use task_functions::functions::fn_add::FnAdd;
use task_functions::functions::fn_sub::FnSub;
use task_functions::functions::fn_mul::{product_fits_in, FnMul};
use task_functions::functions::fn_div::FnDiv;
use task_functions::functions::fn_pow::FnPow;
use task_functions::functions::gather::{InputsError, TwoInputsError};

fn point(name: &str, value: PointValue) -> Point {
    Point::new(0, name.to_string(), value, Status::Good, Cot::Inf, 1_000)
}

fn int_point(val: i64) -> Point {
    point("test", PointValue::Int(val))
}

fn real_point(val: f32) -> Point {
    point("test", PointValue::Real(val.to_bits()))
}

fn double_point(val: f64) -> Point {
    point("test", PointValue::Double(val.to_bits()))
}

fn bool_point(val: bool) -> Point {
    point("test", PointValue::Bool(val))
}

fn new_flow(p: Point) -> FnResult<FnFlow, String> {
    Ok(Some(FnFlow::New(p)))
}

fn old_flow(p: Point) -> FnResult<FnFlow, String> {
    Ok(Some(FnFlow::Old(p)))
}

fn flow_bool(f: &FnFlow) -> bool {
    match &f.value().value {
        PointValue::Bool(b) => *b,
        other => panic!("expected a bool, got {:?}", other),
    }
}

fn flow_int(f: &FnFlow) -> i64 {
    match &f.value().value {
        PointValue::Int(i) => *i,
        other => panic!("expected an int, got {:?}", other),
    }
}

fn flow_real(f: &FnFlow) -> f32 {
    match &f.value().value {
        PointValue::Real(b) => f32::from_bits(*b),
        other => panic!("expected a real, got {:?}", other),
    }
}

fn flow_double(f: &FnFlow) -> f64 {
    match &f.value().value {
        PointValue::Double(b) => f64::from_bits(*b),
        other => panic!("expected a double, got {:?}", other),
    }
}

// FnIsChangedValue

#[test]
fn test_edge_detection_sequence() {
    let mut fn_node = FnIsChangedValue::new("TestNs", 1, 0, vec![()]);
    let res1 = fn_node.out(vec![new_flow(int_point(10))]).unwrap().unwrap();
    assert!(res1.is_new(), "T1: New on the first change");
    assert_eq!(flow_bool(&res1), true);
    let res2 = fn_node.out(vec![old_flow(int_point(10))]).unwrap().unwrap();
    assert!(res2.is_new(), "T2: New when the pulse ends");
    assert_eq!(flow_bool(&res2), false);
    let res3 = fn_node.out(vec![old_flow(int_point(10))]).unwrap().unwrap();
    assert!(!res3.is_new(), "T3: Old once stable");
    assert_eq!(flow_bool(&res3), false);
    let res4 = fn_node.out(vec![new_flow(int_point(20))]).unwrap().unwrap();
    assert!(res4.is_new(), "T4: New on the next change");
    assert_eq!(flow_bool(&res4), true);
}

#[test]
fn test_consecutive_changes() {
    let mut fn_node = FnIsChangedValue::new("TestNs", 1, 0, vec![()]);
    let res1 = fn_node.out(vec![new_flow(int_point(10))]).unwrap().unwrap();
    assert!(res1.is_new());
    assert_eq!(flow_bool(&res1), true);
    let res2 = fn_node.out(vec![new_flow(int_point(20))]).unwrap().unwrap();
    assert!(res2.is_new(), "T2: New, the value changed");
    assert_eq!(flow_bool(&res2), true);
    let res3 = fn_node.out(vec![old_flow(int_point(20))]).unwrap().unwrap();
    assert!(res3.is_new(), "T3: New(false) ends the pulse");
    assert_eq!(flow_bool(&res3), false);
}

// FnToInt

#[test]
fn test_rounding_and_types() {
    let node = FnToInt::new("parent", 1, ());
    let out = node.out(new_flow(Point::new(1, "In".to_string(), PointValue::Real(0.9f32.to_bits()), Status::Good, Cot::Inf, 5))).unwrap().unwrap();
    assert!(out.is_new());
    assert_eq!(flow_int(&out), 1, "0.9 must be rounded to 1");
    let out = node.out(new_flow(Point::new(2, "In".to_string(), PointValue::Real(0.1f32.to_bits()), Status::Good, Cot::Inf, 5))).unwrap().unwrap();
    assert_eq!(flow_int(&out), 0);
    let out = node.out(new_flow(Point::new(3, "In".to_string(), PointValue::Bool(true), Status::Good, Cot::Inf, 5))).unwrap().unwrap();
    assert_eq!(flow_int(&out), 1);
}

#[test]
fn test_taint_tracking_old_flow() {
    let node = FnToInt::new("parent", 1, ());
    let out_new = node.out(new_flow(int_point(42))).unwrap().unwrap();
    assert!(out_new.is_new());
    let out_old = node.out(old_flow(int_point(42))).unwrap().unwrap();
    assert!(!out_old.is_new(), "Old is passed on");
    assert_eq!(flow_int(&out_old), 42);
}

#[test]
fn test_string_parsing() {
    let node = FnToInt::new("parent", 1, ());
    let out = node.out(new_flow(point("In", PointValue::String("123".to_string())))).unwrap().unwrap();
    assert_eq!(flow_int(&out), 123);
    assert!(node.out(new_flow(point("In", PointValue::String("12.5".to_string())))).is_err(), "a non-integer string fails");
}

#[test]
fn to_int_rounds_halves_away_from_zero() {
    let node = FnToInt::new("parent", 1, ());
    assert_eq!(flow_int(&node.out(new_flow(double_point(2.5))).unwrap().unwrap()), 3);
    assert_eq!(flow_int(&node.out(new_flow(double_point(-2.5))).unwrap().unwrap()), -3);
    assert_eq!(flow_int(&node.out(new_flow(double_point(-0.4))).unwrap().unwrap()), 0);
    assert_eq!(flow_int(&node.out(new_flow(double_point(1.0e30))).unwrap().unwrap()), i64::MAX);
    assert_eq!(flow_int(&node.out(new_flow(double_point(f64::NAN))).unwrap().unwrap()), 0);
    assert_eq!(flow_int(&node.out(new_flow(real_point(-7.6))).unwrap().unwrap()), -8);
}

#[test]
fn to_int_names_the_point_after_the_node() {
    let node = FnToInt::new("App/Task", 7, ());
    let out = node.out(new_flow(int_point(1))).unwrap().unwrap();
    assert_eq!(out.value().name, "App/Task/FnToInt7");
    assert_eq!(node.id(), "App/Task/FnToInt7");
}

// FnNot

#[test]
fn test_fnnot_logic_and_taint_tracking() {
    let fn_not = FnNot::new("Test", 1, ());
    assert!(fn_not.out(Ok(None)).unwrap().is_none(), "no value is passed on");
    let p = Point::new(1, "src".to_string(), PointValue::Bool(true), Status::Good, Cot::Inf, 77);
    let res = fn_not.out(new_flow(p)).unwrap().unwrap();
    assert!(res.is_new());
    assert_eq!(flow_bool(&res), false);
    assert_eq!(res.value().ts, 77, "the timestamp is kept");
    let p = Point::new(2, "src".to_string(), PointValue::Bool(false), Status::Good, Cot::Inf, 77);
    let res = fn_not.out(old_flow(p)).unwrap().unwrap();
    assert!(!res.is_new());
    assert_eq!(flow_bool(&res), true);
}

// FnSelect

#[test]
fn test_select_true_evaluates_input_only() {
    let fn_select = FnSelect::new("parent", 1, Some(()), (), ());
    let result = fn_select.out(new_flow(double_point(42.0)), Some(new_flow(double_point(0.0))), new_flow(double_point(1.0))).unwrap();
    assert_eq!(flow_double(&result.unwrap()), 42.0);
}

#[test]
fn test_select_negative_value_evaluates_default_only() {
    let fn_select = FnSelect::new("parent", 1, Some(()), (), ());
    let result = fn_select.out(new_flow(double_point(42.0)), Some(new_flow(double_point(99.0))), new_flow(double_point(-5.0))).unwrap();
    assert_eq!(flow_double(&result.unwrap()), 99.0);
}

#[test]
fn test_select_none_aborts_flow_immediately() {
    let fn_select = FnSelect::new("parent", 1, Some(()), (), ());
    let result = fn_select.out(new_flow(double_point(42.0)), Some(new_flow(double_point(99.0))), Ok(None)).unwrap();
    assert!(result.is_none());
}

#[test]
fn test_select_false_without_default_returns_none() {
    let fn_select = FnSelect::new("parent", 1, None, (), ());
    let result = fn_select.out(new_flow(double_point(42.0)), None, new_flow(double_point(0.0))).unwrap();
    assert!(result.is_none());
}

// FnPointId

fn point_id_node() -> FnPointId<()> {
    FnPointId::new("test_node", 1, 5, (), vec![("AI_01".to_string(), 42)])
}

#[test]
fn test_should_pass_new_flow_and_map_id() {
    let node = point_id_node();
    let res = node.out(new_flow(point("AI_01", PointValue::Real(12.34f32.to_bits())))).unwrap().unwrap();
    assert!(matches!(res, FnFlow::New(_)));
    assert_eq!(flow_int(&res), 42);
    assert_eq!(res.value().status, Status::Good);
}

#[test]
fn test_should_preserve_old_flow_status() {
    let node = point_id_node();
    let res = node.out(old_flow(point("AI_01", PointValue::Real(12.34f32.to_bits())))).unwrap().unwrap();
    assert!(matches!(res, FnFlow::Old(_)));
    assert_eq!(flow_int(&res), 42);
}

#[test]
fn test_should_return_error_on_unknown_point() {
    let node = point_id_node();
    let res = node.out(new_flow(point("UNKNOWN_REG", PointValue::Real(0))));
    assert!(res.is_err());
    assert!(res.unwrap_err().contains("not found in configured points"));
}

#[test]
fn test_should_handle_none_flow_transparently() {
    let node = FnPointId::new("test_node", 1, 5, (), vec![]);
    assert!(node.out(Ok(None)).unwrap().is_none());
}

#[test]
fn point_id_last_configuration_wins() {
    let node = FnPointId::new("test_node", 1, 5, (), vec![("a".to_string(), 1), ("b".to_string(), 2), ("a".to_string(), 3)]);
    let res = node.out(new_flow(point("a", PointValue::Int(0)))).unwrap().unwrap();
    assert_eq!(flow_int(&res), 3);
    assert_eq!(res.value().txid, 5);
    assert_eq!(res.value().name, "test_node/FnPointId1");
}

// FnEq

#[test]
fn test_eq_both_new_true() {
    let eq = FnEq::new("test", 1, 0, vec![(), ()]).unwrap();
    let res = eq.out(new_flow(double_point(10.5)), new_flow(double_point(5.5))).unwrap();
    assert!(matches!(res, Some(FnFlow::New(_))));
    assert_eq!(flow_bool(&res.unwrap()), false);
}

#[test]
fn test_eq_both_old_optimization() {
    let eq = FnEq::new("test", 1, 0, vec![(), ()]).unwrap();
    let res = eq.out(old_flow(double_point(5.5)), old_flow(double_point(5.5))).unwrap();
    assert!(matches!(res, Some(FnFlow::Old(_))));
    assert_eq!(flow_bool(&res.unwrap()), true);
}

#[test]
fn test_eq_one_new_triggers_recalculation() {
    let eq = FnEq::new("test", 1, 0, vec![(), ()]).unwrap();
    let res = eq.out(new_flow(double_point(3.0)), old_flow(double_point(4.0))).unwrap();
    assert!(matches!(res, Some(FnFlow::New(_))));
}

#[test]
fn test_eq_none_short_circuit_propagation() {
    let eq = FnEq::new("test", 1, 0, vec![(), ()]).unwrap();
    let res = eq.out(new_flow(double_point(3.0)), Ok(None)).unwrap();
    assert!(res.is_none());
}

#[test]
fn eq_needs_two_inputs_and_numbers() {
    assert_eq!(FnEq::new("test", 1, 0, vec![()]).unwrap_err(), TwoInputsError::NotTwoInputs);
    let eq = FnEq::new("test", 1, 0, vec![(), ()]).unwrap();
    assert!(eq.out(new_flow(point("s", PointValue::String("a".to_string()))), new_flow(int_point(1))).is_err());
    let res = eq.out(new_flow(double_point(0.0)), new_flow(double_point(-0.0))).unwrap().unwrap();
    assert!(flow_bool(&res), "0.0 == -0.0");
    let res = eq.out(new_flow(double_point(f64::NAN)), new_flow(double_point(f64::NAN))).unwrap().unwrap();
    assert!(!flow_bool(&res), "NaN != NaN");
    let res = eq.out(new_flow(int_point(1)), new_flow(bool_point(true))).unwrap().unwrap();
    assert!(!flow_bool(&res), "values of different types differ");
}

// FnOr

#[test]
fn test_or_logic_and_taint_tracking() {
    let node = FnOr::new("node", 1, 0, vec![(), ()]).unwrap();
    let res = node.out(vec![new_flow(bool_point(true)), old_flow(bool_point(false))]).unwrap().unwrap();
    assert!(matches!(res, FnFlow::New(_)));
    assert_eq!(flow_bool(&res), true);
}

#[test]
fn test_all_inputs_are_old_yields_old() {
    let node = FnOr::new("node", 1, 0, vec![(), ()]).unwrap();
    let res = node.out(vec![old_flow(bool_point(false)), old_flow(bool_point(false))]).unwrap().unwrap();
    assert!(matches!(res, FnFlow::Old(_)));
    assert_eq!(flow_bool(&res), false);
}

#[test]
fn test_fetch_phase_prevents_short_circuiting() {
    let node = FnOr::new("node", 1, 0, vec![(), ()]).unwrap();
    let res = node.out(vec![Ok(None), old_flow(bool_point(true))]).unwrap();
    assert!(res.is_none(), "one input without value stops the branch");
}

#[test]
fn or_needs_an_input() {
    assert_eq!(FnOr::<()>::new("node", 1, 0, vec![]).unwrap_err(), InputsError::NoInputs);
    let node = FnOr::new("node", 1, 0, vec![(), ()]).unwrap();
    assert!(node.out(vec![new_flow(int_point(0)), new_flow(point("s", PointValue::Bytes(vec![1])))]).is_err());
    let res = node.out(vec![new_flow(int_point(0)), old_flow(double_point(0.5))]).unwrap().unwrap();
    assert!(flow_bool(&res), "a number greater than zero is true");
}

// FnBitAnd

#[test]
fn test_and_true_and_true() {
    let and_node = FnBitAnd::new("task", 1, 0, vec![(), ()]).unwrap();
    let res = and_node.out(vec![new_flow(bool_point(true)), new_flow(bool_point(true))]).unwrap().unwrap();
    assert!(matches!(res, FnFlow::New(_)), "Expected New flow");
    assert!(flow_bool(&res));
}

#[test]
fn test_and_true_and_false() {
    let and_node = FnBitAnd::new("task", 1, 0, vec![(), ()]).unwrap();
    let res = and_node.out(vec![new_flow(bool_point(true)), new_flow(bool_point(false))]).unwrap().unwrap();
    assert!(matches!(res, FnFlow::New(_)), "Expected New flow");
    assert!(!flow_bool(&res));
}

#[test]
fn test_and_taint_tracking_old() {
    let and_node = FnBitAnd::new("task", 1, 0, vec![(), ()]).unwrap();
    let res = and_node.out(vec![old_flow(bool_point(true)), old_flow(bool_point(true))]).unwrap().unwrap();
    assert!(matches!(res, FnFlow::Old(_)), "Expected Old flow");
    assert!(flow_bool(&res));
}

#[test]
fn test_and_cold_mode() {
    let and_node = FnBitAnd::new("task", 1, 0, vec![(), ()]).unwrap();
    let res = and_node.out(vec![Ok(None), new_flow(bool_point(true))]).unwrap();
    assert!(res.is_none());
}

#[test]
fn and_needs_an_input_and_reads_numbers() {
    assert_eq!(FnBitAnd::<()>::new("task", 1, 0, vec![]).unwrap_err(), InputsError::NoInputs);
    let and_node = FnBitAnd::new("task", 7, 3, vec![(), (), ()]).unwrap();
    assert_eq!(and_node.id(), "task/FnBitAnd7");
    let res = and_node.out(vec![new_flow(int_point(2)), old_flow(double_point(0.5)), old_flow(bool_point(true))]).unwrap().unwrap();
    assert!(flow_bool(&res), "numbers greater than zero are true");
    assert_eq!(res.value().name, "task/FnBitAnd7");
    assert_eq!(res.value().txid, 3);
    let res = and_node.out(vec![new_flow(int_point(2)), old_flow(int_point(0)), old_flow(bool_point(true))]).unwrap().unwrap();
    assert!(!flow_bool(&res));
    assert!(and_node.out(vec![new_flow(int_point(1)), new_flow(point("s", PointValue::Bytes(vec![1]))), Ok(None)]).is_err());
}

// FnAdd

#[test]
fn test_add_successful_type_promotion() {
    let add = FnAdd::new("parent", 1, 0, vec![(), ()]).unwrap();
    let terms = add.terms(vec![
        new_flow(Point::new(1, "n1".to_string(), PointValue::Int(10), Status::Good, Cot::Inf, 1)),
        new_flow(Point::new(2, "n2".to_string(), PointValue::Real(5.5f32.to_bits()), Status::Good, Cot::Inf, 2)),
    ]).unwrap().unwrap();
    assert_eq!(terms.whole, 10);
    assert!(terms.doubles.is_empty());
    assert_eq!(terms.reals, vec![5.5f32.to_bits()]);
    // the caller sums the floating-point terms: 10 + 5.5
    let res = add.finish(&terms, Some(PointValue::Real(15.5f32.to_bits()))).unwrap().unwrap();
    assert!(matches!(res, FnFlow::New(_)));
    assert_eq!(flow_real(&res), 15.5);
}

#[test]
fn test_fetch_phase_polls_all_inputs_unconditionally() {
    let add = FnAdd::new("parent", 1, 0, vec![(), ()]).unwrap();
    let res = add.terms(vec![Ok(None), new_flow(int_point(5))]).unwrap();
    assert!(res.is_none());
}

#[test]
fn test_nan_input_returns_error() {
    let add = FnAdd::new("root", 1, 0, vec![()]).unwrap();
    assert!(add.terms(vec![new_flow(real_point(f32::NAN))]).is_err());
}

#[test]
fn add_and_mul_errors_name_the_input() {
    let add = FnAdd::new("root", 1, 0, vec![()]).unwrap();
    assert_eq!(add.terms(vec![new_flow(real_point(f32::NAN))]).err().unwrap(),
        "root/FnAdd1.out | Invalid input 'test': NAN, expected bool or number");
    assert_eq!(add.terms(vec![new_flow(bool_point(true))]).err().unwrap(),
        "root/FnAdd1.out | Invalid input type 'Bool', expected number");
    let mul = FnMul::new("root", 2, 0, vec![()]).unwrap();
    assert_eq!(mul.factors(vec![new_flow(point("s", PointValue::String("x".to_string())))]).err().unwrap(),
        "root/FnMul2.out | Invalid input type 'String', expected bool or number");
}

#[test]
fn add_of_integers_is_exact_and_checked() {
    let add = FnAdd::new("root", 1, 9, vec![(), (), ()]).unwrap();
    let terms = add.terms(vec![new_flow(int_point(2)), old_flow(int_point(40)), old_flow(int_point(-1))]).unwrap().unwrap();
    let res = add.finish(&terms, None).unwrap().unwrap();
    assert!(res.is_new());
    assert_eq!(flow_int(&res), 41);
    assert_eq!(res.value().txid, 9);
    assert!(add.terms(vec![new_flow(int_point(i64::MAX)), new_flow(int_point(1))]).is_err(), "overflow");
    assert!(add.terms(vec![new_flow(bool_point(true))]).is_err(), "a logical value is not added");
    assert_eq!(FnAdd::<()>::new("root", 1, 0, vec![]).unwrap_err(), InputsError::NoInputs);
}

// FnSub

#[test]
fn test_sub_type_promotion_and_math() {
    let sub = FnSub::new("root", 1, 0, vec![(), ()]).unwrap();
    let o = sub.operands(old_flow(int_point(10)), new_flow(real_point(2.5))).unwrap().unwrap();
    assert!(sub.int_result(&o).is_none(), "a float is involved");
    // the caller subtracts in the most precise type of the operands
    let res = sub.finish(&o, Some(PointValue::Real((10.0f32 - 2.5f32).to_bits()))).unwrap().unwrap();
    assert!(matches!(res, FnFlow::New(_)));
    assert_eq!(flow_real(&res), 7.5f32);
}

#[test]
fn test_taint_tracking_propagation() {
    let sub = FnSub::new("root", 1, 0, vec![(), ()]).unwrap();
    let o = sub.operands(old_flow(int_point(5)), old_flow(int_point(2))).unwrap().unwrap();
    let res = sub.int_result(&o).unwrap().unwrap().unwrap();
    assert!(matches!(res, FnFlow::Old(_)));
    assert_eq!(flow_int(&res), 3);
}

#[test]
fn test_short_circuit_none_break() {
    let sub = FnSub::new("root", 1, 0, vec![(), ()]).unwrap();
    assert!(sub.operands(Ok(None), new_flow(int_point(5))).unwrap().is_none());
}

#[test]
fn sub_overflow_is_an_error() {
    let sub = FnSub::new("root", 1, 0, vec![(), ()]).unwrap();
    let o = sub.operands(new_flow(int_point(i64::MIN)), new_flow(int_point(1))).unwrap().unwrap();
    assert!(sub.int_result(&o).unwrap().is_err());
    assert!(sub.operands(new_flow(int_point(1)), new_flow(point("s", PointValue::String("1".to_string())))).is_err());
}

// FnMul

#[test]
fn test_mul_type_promotion_and_math() {
    let mul = FnMul::new("Test", 1, 0, vec![(), ()]).unwrap();
    let f = mul.factors(vec![new_flow(int_point(2)), new_flow(real_point(3.5))]).unwrap().unwrap();
    assert_eq!(f.whole, 2);
    assert_eq!(f.reals, vec![3.5f32.to_bits()]);
    // the caller multiplies the floating-point factors: 2 * 3.5
    let res = mul.finish(&f, Some(PointValue::Real(7.0f32.to_bits()))).unwrap().unwrap();
    assert_eq!(flow_real(&res), 7.0);
}

#[test]
fn test_mul_bool_gate_zeroing() {
    let mul = FnMul::new("Test", 1, 0, vec![(), ()]).unwrap();
    let f = mul.factors(vec![new_flow(double_point(100.5)), new_flow(bool_point(false))]).unwrap().unwrap();
    assert_eq!(f.whole, 0, "false multiplies by zero");
    assert_eq!(f.doubles, vec![100.5f64.to_bits()]);
    // the caller multiplies the floating-point factors: 0 * 100.5
    let res = mul.finish(&f, Some(PointValue::Double(0.0f64.to_bits()))).unwrap().unwrap();
    assert_eq!(flow_double(&res), 0.0);
}

#[test]
fn test_mul_nan_rejection() {
    let mul = FnMul::new("Test", 1, 0, vec![()]).unwrap();
    assert!(mul.factors(vec![new_flow(real_point(f32::NAN))]).is_err());
}

#[test]
fn test_mul_cold_mode_propagation() {
    let mul = FnMul::new("Test", 1, 0, vec![(), ()]).unwrap();
    assert!(mul.factors(vec![Ok(None), new_flow(int_point(5))]).unwrap().is_none());
}

// FnDiv

#[test]
fn test_fndiv_division_by_zero() {
    let div = FnDiv::new("test", 1, 0, vec![(), ()]).unwrap();
    let o = div.operands(new_flow(int_point(10)), new_flow(int_point(0))).unwrap().unwrap();
    assert!(div.int_result(&o).unwrap().is_err());
}

#[test]
fn test_fndiv_integer_truncation() {
    let div = FnDiv::new("test", 1, 0, vec![(), ()]).unwrap();
    let o = div.operands(new_flow(int_point(5)), new_flow(int_point(2))).unwrap().unwrap();
    let res = div.int_result(&o).unwrap().unwrap().unwrap();
    assert!(matches!(res, FnFlow::New(_)));
    assert_eq!(flow_int(&res), 2);
    let o = div.operands(new_flow(int_point(-7)), new_flow(int_point(2))).unwrap().unwrap();
    assert_eq!(flow_int(&div.int_result(&o).unwrap().unwrap().unwrap()), -3);
}

#[test]
fn test_fndiv_type_promotion() {
    let div = FnDiv::new("test", 1, 0, vec![(), ()]).unwrap();
    let o = div.operands(new_flow(int_point(5)), new_flow(real_point(2.0))).unwrap().unwrap();
    assert!(div.int_result(&o).is_none());
    let res = div.finish(&o, Some(PointValue::Real((5.0f32 / 2.0f32).to_bits()))).unwrap().unwrap();
    assert_eq!(flow_real(&res), 2.5);
}

#[test]
fn test_fndiv_cold_mode() {
    let div = FnDiv::new("test", 1, 0, vec![(), ()]).unwrap();
    assert!(div.operands(new_flow(int_point(10)), Ok(None)).unwrap().is_none());
}

#[test]
fn test_fndiv_taint_tracking_old() {
    let div = FnDiv::new("test", 1, 0, vec![(), ()]).unwrap();
    let o = div.operands(old_flow(int_point(10)), old_flow(int_point(2))).unwrap().unwrap();
    let res = div.int_result(&o).unwrap().unwrap().unwrap();
    assert!(matches!(res, FnFlow::Old(_)));
    assert_eq!(flow_int(&res), 5);
}

#[test]
fn test_fndiv_taint_tracking_mixed() {
    let div = FnDiv::new("test", 1, 0, vec![(), ()]).unwrap();
    let o = div.operands(old_flow(int_point(10)), new_flow(int_point(2))).unwrap().unwrap();
    let res = div.int_result(&o).unwrap().unwrap().unwrap();
    assert!(matches!(res, FnFlow::New(_)));
}

// FnPow

#[test]
fn test_pow_classical_math() {
    let pow_node = FnPow::new("parent", 1, 0, vec![(), ()]).unwrap();
    let o = pow_node.operands(new_flow(int_point(2)), new_flow(int_point(3))).unwrap().unwrap();
    let res = pow_node.int_result(&o).unwrap().unwrap().unwrap();
    assert!(matches!(res, FnFlow::New(_)));
    assert_eq!(flow_int(&res), 8);
}

#[test]
fn test_pow_flow_old() {
    let pow_node = FnPow::new("parent", 1, 0, vec![(), ()]).unwrap();
    let o = pow_node.operands(old_flow(int_point(2)), old_flow(int_point(3))).unwrap().unwrap();
    let res = pow_node.int_result(&o).unwrap().unwrap().unwrap();
    assert!(matches!(res, FnFlow::Old(_)));
    assert_eq!(flow_int(&res), 8);
}

#[test]
fn test_pow_nan_protection() {
    let pow_node = FnPow::new("parent", 1, 0, vec![(), ()]).unwrap();
    let o = pow_node.operands(new_flow(real_point(-4.0)), new_flow(real_point(0.5))).unwrap().unwrap();
    let value = (-4.0f32).powf(0.5);
    assert!(pow_node.finish(&o, Some(PointValue::Real(value.to_bits()))).is_err(), "a NaN power is an error");
}

#[test]
fn test_pow_cold_mode() {
    let pow_node = FnPow::new("parent", 1, 0, vec![(), ()]).unwrap();
    assert!(pow_node.operands(Ok(None), new_flow(int_point(3))).unwrap().is_none());
}

#[test]
fn pow_integer_limits() {
    let pow_node = FnPow::new("parent", 1, 0, vec![(), ()]).unwrap();
    let o = pow_node.operands(new_flow(int_point(-2)), new_flow(int_point(63))).unwrap().unwrap();
    assert_eq!(flow_int(&pow_node.int_result(&o).unwrap().unwrap().unwrap()), i64::MIN);
    let o = pow_node.operands(new_flow(int_point(2)), new_flow(int_point(63))).unwrap().unwrap();
    assert!(pow_node.int_result(&o).unwrap().is_err(), "overflow");
    let o = pow_node.operands(new_flow(int_point(2)), new_flow(int_point(-1))).unwrap().unwrap();
    assert!(pow_node.int_result(&o).unwrap().is_err(), "negative exponent");
    let o = pow_node.operands(new_flow(int_point(7)), new_flow(bool_point(false))).unwrap().unwrap();
    assert_eq!(flow_int(&pow_node.int_result(&o).unwrap().unwrap().unwrap()), 1);
}

// FnMax

use task_functions::functions::fn_max::FnMax;

fn max_out(node: &mut FnMax<()>, input: FnResult<FnFlow, String>, reset: Option<FnResult<FnFlow, String>>) -> FnResult<FnFlow, String> {
    // the caller converts integers and `f32` values to `f64`
    let converted = match &input {
        Ok(Some(f)) => match &f.value().value {
            PointValue::Int(i) => Some((*i as f64).to_bits()),
            PointValue::Real(b) => Some((f32::from_bits(*b) as f64).to_bits()),
            _ => None,
        },
        _ => None,
    };
    node.out(input, reset, converted)
}

#[test]
fn test_fnmax_accumulates_and_holds() {
    let mut max_node = FnMax::new("test", 1, None, ());
    let res1 = max_out(&mut max_node, new_flow(double_point(10.0)), None).unwrap().unwrap();
    assert_eq!(flow_double(&res1), 10.0);
    assert!(matches!(res1, FnFlow::New(_)));
    let res2 = max_out(&mut max_node, new_flow(double_point(5.0)), None).unwrap().unwrap();
    assert_eq!(flow_double(&res2), 10.0);
    assert!(matches!(res2, FnFlow::Old(_)), "the maximum is held");
}

#[test]
fn test_fnmax_bool_latch() {
    let mut max_node = FnMax::new("test", 1, None, ());
    max_out(&mut max_node, new_flow(bool_point(false)), None).unwrap();
    let res = max_out(&mut max_node, new_flow(bool_point(true)), None).unwrap().unwrap();
    assert_eq!(flow_bool(&res), true);
    assert!(matches!(res, FnFlow::New(_)));
    let res_held = max_out(&mut max_node, new_flow(bool_point(false)), None).unwrap().unwrap();
    assert_eq!(flow_bool(&res_held), true);
    assert!(matches!(res_held, FnFlow::Old(_)));
}

#[test]
fn test_fnmax_reset_edge() {
    let mut max_node = FnMax::new("test", 1, Some(()), ());
    max_out(&mut max_node, new_flow(double_point(50.0)), Some(new_flow(bool_point(false)))).unwrap();
    let res_reset = max_out(&mut max_node, old_flow(double_point(50.0)), Some(new_flow(bool_point(true)))).unwrap().unwrap();
    assert!(matches!(res_reset, FnFlow::New(_)), "a reset is New");
}

#[test]
fn max_of_integers_and_negatives() {
    let mut max_node = FnMax::new("test", 1, None, ());
    let r = max_out(&mut max_node, new_flow(double_point(-3.0)), None).unwrap().unwrap();
    assert_eq!(flow_double(&r), -3.0);
    let r = max_out(&mut max_node, new_flow(double_point(-7.0)), None).unwrap().unwrap();
    assert!(r.is_new() == false && flow_double(&r) == -3.0);
    let r = max_out(&mut max_node, new_flow(double_point(-0.0)), None).unwrap().unwrap();
    assert!(r.is_new());
    let r = max_out(&mut max_node, new_flow(double_point(0.0)), None).unwrap().unwrap();
    assert!(!r.is_new(), "0.0 is not greater than -0.0");
    let mut ints = FnMax::new("test", 2, None, ());
    let r = max_out(&mut ints, new_flow(int_point(4)), None).unwrap().unwrap();
    assert_eq!(flow_int(&r), 4);
    assert!(max_out(&mut ints, new_flow(double_point(f64::INFINITY)), None).is_err(), "not finite");
}

#[test]
fn product_bound_is_checked_up_to_where_the_reading_stops() {
    assert!(product_fits_in(&vec![new_flow(int_point(i64::MAX)), new_flow(int_point(1))]));
    assert!(!product_fits_in(&vec![new_flow(int_point(i64::MAX)), new_flow(int_point(2))]));
    // a false gate zeroes the product before the large factor
    assert!(product_fits_in(&vec![new_flow(bool_point(false)), new_flow(int_point(i64::MAX)), new_flow(int_point(2))]));
    // the reading stops at a NaN, so the factors after it are never multiplied
    assert!(product_fits_in(&vec![new_flow(int_point(i64::MAX)), new_flow(real_point(f32::NAN)), new_flow(int_point(2))]));
    assert!(product_fits_in(&vec![new_flow(int_point(i64::MAX)), Ok(None), new_flow(int_point(2))]));
}
