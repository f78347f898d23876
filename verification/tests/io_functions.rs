use task_functions::point::{Point, PointValue, Status, Cot};
use task_functions::fn_flow::{FnFlow, FnResult, FnKind};
use task_functions::eval_cycle::{EvalCycle, CycleIndex};
use task_functions::functions::fn_retain_read::FnRetainRead;
use task_functions::functions::fn_retain_write::FnRetainWrite;
use task_functions::functions::fn_retain::{FnRetain, ConfParam, RetainNode, RetainConfError};
use task_functions::functions::fn_enable::FnEnableMode;
use task_functions::functions::fn_export::{FnExport, ExportConf, ExportType};
use task_functions::functions::fn_input::FloatConversion;
use task_functions::functions::fn_to_api_queue::FnToApiQueue;
use task_functions::functions::fn_acc::{add_ints, FnAcc, AccStep};
use task_functions::functions::fn_rec_op_cycle_metric::{FnRecOpCycleMetric, State, OpCycle};
use task_functions::functions::fn_var::{FnVar, FnEvalOnce};
use task_functions::functions::fn_builder::FnBuilder;

fn point(name: &str, value: PointValue, ts: i64) -> Point {
    Point::new(0, name.to_string(), value, Status::Good, Cot::Inf, ts)
}

fn int_point(val: i64) -> Point {
    point("test", PointValue::Int(val), 1_000)
}

fn double_point(val: f64) -> Point {
    point("test", PointValue::Double(val.to_bits()), 1_000)
}

fn str_point(name: &str, val: &str) -> Point {
    point(name, PointValue::String(val.to_string()), 1_000)
}

fn new_flow(p: Point) -> FnResult<FnFlow, String> {
    Ok(Some(FnFlow::New(p)))
}

fn old_flow(p: Point) -> FnResult<FnFlow, String> {
    Ok(Some(FnFlow::Old(p)))
}

fn flow_int(f: &FnFlow) -> i64 {
    match &f.value().value {
        PointValue::Int(i) => *i,
        other => panic!("expected an int, got {:?}", other),
    }
}

fn value_double(p: &Point) -> f64 {
    match &p.value {
        PointValue::Double(b) => f64::from_bits(*b),
        other => panic!("expected a double, got {:?}", other),
    }
}

fn value_str(p: &Point) -> String {
    match &p.value {
        PointValue::String(s) => s.clone(),
        other => panic!("expected a string, got {:?}", other),
    }
}

// FnRetainRead

#[test]
fn test_retain_read() {
    let mut node = FnRetainRead::new("FnRetainRead", 1, 0, "key", false, Some(()));
    let stored: Option<Point> = None;
    assert!(node.needs_read());
    assert!(node.needs_default(&stored));
    let flow1 = node.out(stored, Some(new_flow(int_point(42)))).unwrap().unwrap();
    assert!(flow1.is_new());
    assert_eq!(flow_int(&flow1), 42);
    assert!(!node.needs_read(), "read once");
    assert!(!node.needs_default(&None), "the default is polled once");
    let flow2 = node.out(None, None).unwrap().unwrap();
    assert!(!flow2.is_new());
    assert_eq!(flow_int(&flow2), 42);
}

#[test]
fn test_retain_read_every_cycle_true() {
    let mut node = FnRetainRead::new("FnRetainRead", 1, 0, "key", true, Some(()));
    assert!(node.needs_default(&None));
    let flow1 = node.out(None, Some(new_flow(int_point(100)))).unwrap().unwrap();
    assert!(flow1.is_new());
    assert!(node.needs_read() && node.needs_default(&None), "read each cycle");
    let flow2 = node.out(None, Some(old_flow(int_point(100)))).unwrap().unwrap();
    assert!(!flow2.is_new());
}

#[test]
fn retain_read_prefers_the_retained_point() {
    let mut node = FnRetainRead::new("FnRetainRead", 1, 0, "key", true, Some(()));
    let stored = Some(int_point(7));
    assert!(!node.needs_default(&stored));
    let flow1 = node.out(stored, None).unwrap().unwrap();
    assert!(flow1.is_new());
    let flow2 = node.out(Some(int_point(7)), None).unwrap().unwrap();
    assert!(!flow2.is_new(), "unchanged value and status: Old");
    let flow3 = node.out(Some(int_point(8)), None).unwrap().unwrap();
    assert!(flow3.is_new());
    assert_eq!(flow_int(&flow3), 8);
    node.reset();
    let none = FnRetainRead::new("FnRetainRead", 2, 0, "key", false, None::<()>).out(None, None).unwrap();
    assert!(none.is_none(), "nothing retained and no default");
}

// FnRetainWrite

#[test]
fn test_eager_evaluation_and_deduplication() {
    let mut retain = FnRetainWrite::new("test", 1, "key", Some(()), ());
    let (res, event) = retain.out(new_flow(int_point(10)), Some(new_flow(int_point(5))));
    assert!(matches!(res.unwrap().unwrap(), FnFlow::New(_)));
    let event = event.expect("the first point is retained");
    assert_eq!(event.key, "key");
    let (res2, event2) = retain.out(new_flow(int_point(10)), Some(new_flow(int_point(5))));
    assert!(matches!(res2.unwrap().unwrap(), FnFlow::New(_)));
    assert!(event2.is_none(), "a duplicate is not retained");
}

#[test]
fn test_default_fallback_ignores_flow() {
    let mut retain = FnRetainWrite::new("test", 1, "key", Some(()), ());
    let (res, event) = retain.out(Ok(None), Some(new_flow(int_point(42))));
    let res = res.unwrap().unwrap();
    assert!(matches!(res, FnFlow::Old(_)), "the default value is Old");
    assert_eq!(flow_int(&res), 42);
    assert!(event.is_some(), "the default value is retained");
}

#[test]
fn retain_write_on_change_of_timestamp_or_status() {
    let mut retain = FnRetainWrite::new("test", 1, "key", None, ());
    assert!(retain.out(new_flow(int_point(1)), None).1.is_some());
    assert!(retain.out(old_flow(point("test", PointValue::Int(1), 2_000)), None).1.is_some(), "a new timestamp is retained");
    let bad = Point::new(0, "test".to_string(), PointValue::Int(1), Status::Invalid, Cot::Inf, 2_000);
    assert!(retain.out(old_flow(bad), None).1.is_some(), "a new status is retained");
    assert!(retain.out(Err("boom".to_string()), None).0.is_err());
    retain.reset();
    let bad = Point::new(0, "test".to_string(), PointValue::Int(1), Status::Invalid, Cot::Inf, 2_000);
    assert!(retain.out(old_flow(bad), None).1.is_some(), "after reset the point is retained again");
}

// FnRetain

#[test]
fn retain_builds_read_or_write() {
    let read = FnRetain::new("App", 1, 0, FnEnableMode::Cold, None::<()>, None, None,
        Some(ConfParam::Bool(true)), Some(ConfParam::Str("k".to_string()))).unwrap();
    assert!(matches!(read, RetainNode::Read(_)));
    let write = FnRetain::new("App", 2, 0, FnEnableMode::Cold, Some(()), None, Some(()),
        None, Some(ConfParam::Str("k".to_string()))).unwrap();
    assert!(matches!(write, RetainNode::EnabledWrite(_)));
    let missing = FnRetain::new("App", 3, 0, FnEnableMode::Warm, None::<()>, None, None, None, None);
    assert!(matches!(missing, Err(RetainConfError::KeyMissing)));
    let not_str = FnRetain::new("App", 3, 0, FnEnableMode::Warm, None::<()>, None, None, None, Some(ConfParam::Bool(true)));
    assert!(matches!(not_str, Err(RetainConfError::KeyNotString)));
    let bad_every = FnRetain::new("App", 3, 0, FnEnableMode::Warm, None::<()>, None, None,
        Some(ConfParam::Other), Some(ConfParam::Str("k".to_string())));
    assert!(matches!(bad_every, Err(RetainConfError::EveryCycle)));
}

// FnExport

#[test]
fn test_export_sends_only_on_new() {
    let node = FnExport::new("Test", 1, 99, None, ());
    let (res1, sent) = node.out(new_flow(int_point(42)), None);
    assert!(matches!(res1.unwrap().unwrap(), FnFlow::New(_)));
    let sent = sent.expect("a New point is sent");
    assert_eq!(sent.txid, 99, "the txid is replaced");
    let (res2, sent2) = node.out(old_flow(int_point(42)), None);
    assert!(matches!(res2.unwrap().unwrap(), FnFlow::Old(_)));
    assert!(sent2.is_none(), "an Old point is not sent");
}

#[test]
fn test_export_transparent_tap() {
    let node = FnExport::new("Test", 1, 99, None, ());
    let (res, _) = node.out(new_flow(int_point(100)), None);
    let res = res.unwrap().unwrap();
    assert!(matches!(res, FnFlow::New(_)));
    assert_eq!(flow_int(&res), 100);
}

#[test]
fn export_converts_to_the_configured_point() {
    let conf = ExportConf { name: "/App/Out".to_string(), typ: ExportType::Bool };
    let node = FnExport::new("Test", 1, 3, Some(conf), ());
    let (_, sent) = node.out(new_flow(int_point(5)), None);
    let sent = sent.unwrap();
    assert_eq!(sent.name, "/App/Out");
    assert!(matches!(sent.value, PointValue::Bool(true)));
    let conf = ExportConf { name: "/App/Out".to_string(), typ: ExportType::Double };
    let node = FnExport::new("Test", 1, 3, Some(conf), ());
    let input = new_flow(int_point(5));
    assert_eq!(node.conversion(&input), Some(FloatConversion::IntToDouble(5)));
    let (_, sent) = node.out(input, Some(PointValue::Double(5.0f64.to_bits())));
    assert_eq!(value_double(&sent.unwrap()), 5.0);
    let conf = ExportConf { name: "/App/Out".to_string(), typ: ExportType::Bytes };
    let node = FnExport::new("Test", 1, 3, Some(conf), ());
    let (res, sent) = node.out(new_flow(int_point(5)), None);
    assert!(res.is_err() && sent.is_none(), "an integer is not bytes");
}

// FnToApiQueue

#[test]
fn test_fntoapiqueue_sends_on_new() {
    let node = FnToApiQueue::new("test", 1, 1, ());
    let (res, sent) = node.out(new_flow(str_point("sql_cmd", "INSERT INTO db")), None);
    assert!(matches!(res.unwrap().unwrap(), FnFlow::New(_)));
    let sent = sent.expect("the request is sent");
    assert_eq!(value_str(&sent), "INSERT INTO db");
    assert_eq!(sent.txid, 1);
}

#[test]
fn test_fntoapiqueue_ignores_old_flow() {
    let node = FnToApiQueue::new("test", 1, 1, ());
    let (res, sent) = node.out(old_flow(str_point("sql_cmd", "UPDATE db")), None);
    assert!(matches!(res.unwrap().unwrap(), FnFlow::Old(_)));
    assert!(sent.is_none(), "an Old request is not sent");
}

#[test]
fn test_fntoapiqueue_ignores_empty_sql() {
    let node = FnToApiQueue::new("test", 1, 1, ());
    let (res, sent) = node.out(new_flow(str_point("sql_cmd", "   \0  ")), None);
    assert!(matches!(res.unwrap().unwrap(), FnFlow::New(_)));
    assert!(sent.is_none(), "an empty request is not sent");
}

#[test]
fn to_api_queue_escapes_quoted_strings() {
    let node = FnToApiQueue::new("test", 1, 1, ());
    let sql = node.prepare_raw_sql("  insert into t (a) values ('it''s', 'x\0y');  ").unwrap();
    assert_eq!(sql, "insert into t (a) values ('it''s', 'xy');");
    assert!(node.prepare_raw_sql("select 'unterminated").is_err());
    assert_eq!(node.prepare_raw_sql(" \t\n ").unwrap(), "");
}

#[test]
fn to_api_queue_takes_numbers_as_text() {
    let node = FnToApiQueue::new("test", 1, 1, ());
    let (_, sent) = node.out(new_flow(int_point(12)), None);
    assert_eq!(value_str(&sent.unwrap()), "12");
    let input = new_flow(double_point(1.5));
    assert_eq!(node.conversion(&input), Some(FloatConversion::DoubleToText(1.5f64.to_bits())));
    let (_, sent) = node.out(input, Some("1.5".to_string()));
    assert_eq!(value_str(&sent.unwrap()), "1.5");
    let (res, _) = node.out(new_flow(point("b", PointValue::Bytes(vec![1, 2]), 0)), None);
    assert!(res.is_err());
}

// FnAcc

fn acc_out(acc: &mut FnAcc<()>, input: FnResult<FnFlow, String>, initial: Option<FnResult<FnFlow, String>>) -> FnResult<FnFlow, String> {
    match acc.out(input, initial) {
        AccStep::Done(r) => r,
        AccStep::Sum(a, b) => {
            // the caller adds the two points
            let sum = value_double(&a) + value_double(&b);
            acc.add_result(Point::new(a.txid, a.name.clone(), PointValue::Double(sum.to_bits()), a.status, a.cot, a.ts))
        }
    }
}

#[test]
fn test_acc_accumulates_strictly_on_new_and_sleeps_on_old() {
    let mut acc_node = FnAcc::new("test", 1, None, ());
    let res1 = acc_out(&mut acc_node, new_flow(double_point(5.0)), None).unwrap().unwrap();
    assert!(matches!(&res1, FnFlow::New(p) if value_double(p) == 5.0));
    let res2 = acc_out(&mut acc_node, old_flow(double_point(5.0)), None).unwrap().unwrap();
    assert!(matches!(&res2, FnFlow::Old(p) if value_double(p) == 5.0));
    let res3 = acc_out(&mut acc_node, new_flow(double_point(10.0)), None).unwrap().unwrap();
    assert!(matches!(&res3, FnFlow::New(p) if value_double(p) == 15.0));
}

#[test]
fn test_acc_initial_parameter_bypasses_taint_tracking() {
    let mut acc_node = FnAcc::new("test", 1, Some(()), ());
    let res = acc_out(&mut acc_node, new_flow(double_point(10.0)), Some(new_flow(double_point(100.0)))).unwrap().unwrap();
    assert!(matches!(&res, FnFlow::New(p) if value_double(p) == 110.0));
}

#[test]
fn test_acc_reset_clears_state_and_rereads_initial() {
    let mut acc_node = FnAcc::new("test", 1, Some(()), ());
    let _ = acc_out(&mut acc_node, new_flow(double_point(10.0)), Some(new_flow(double_point(50.0))));
    acc_node.reset();
    let res = acc_out(&mut acc_node, new_flow(double_point(5.0)), Some(new_flow(double_point(50.0)))).unwrap().unwrap();
    assert!(matches!(&res, FnFlow::New(p) if value_double(p) == 55.0));
}

#[test]
fn acc_counts_a_logical_input_as_an_integer() {
    let mut acc_node = FnAcc::new("test", 1, None, ());
    match acc_node.out(new_flow(point("b", PointValue::Bool(true), 0)), None) {
        AccStep::Sum(a, b) => {
            assert!(matches!(a.value, PointValue::Int(0)));
            assert!(matches!(b.value, PointValue::Int(1)));
        }
        AccStep::Done(_) => panic!("a changed input is added"),
    }
    assert!(matches!(FnAcc::new("test", 2, None, ()).out(new_flow(str_point("s", "x")), None), AccStep::Done(Err(_))));
}

// FnRecOpCycleMetric

#[test]
fn test_state_cycle_accuracy() {
    let mut state = State::new();
    assert_eq!(state.add(false), OpCycle::Idle);
    assert_eq!(state.add(false), OpCycle::Idle);
    assert_eq!(state.add(true), OpCycle::Started);
    assert_eq!(state.add(true), OpCycle::Started);
    assert_eq!(state.add(true), OpCycle::Started);
    assert_eq!(state.add(false), OpCycle::Finished);
    assert_eq!(state.add(false), OpCycle::Idle);
    assert_eq!(state.add(false), OpCycle::Idle);
    assert_eq!(state.add(true), OpCycle::Started);
    state.reset();
    assert_eq!(state.add(false), OpCycle::Idle);
}

#[test]
fn test_snapshot_physics_on_falling_edge() {
    let mut node: FnRecOpCycleMetric<(), ()> = FnRecOpCycleMetric::new("Test", 1, Some(()), None, (), vec![("speed".to_string(), ())]);
    let (res, sent) = node.out(None, new_flow(int_point(1)), vec![new_flow(str_point("test", "1501.0"))]);
    res.unwrap();
    assert!(sent.is_empty(), "nothing is sent while the cycle runs");
    let (res, sent) = node.out(None, new_flow(int_point(1)), vec![new_flow(str_point("test", "1552.0"))]);
    res.unwrap();
    assert!(sent.is_empty(), "nothing is sent while the cycle runs");
    let (res, sent) = node.out(None, new_flow(int_point(0)), vec![new_flow(str_point("test", "1552.0"))]);
    res.unwrap();
    assert_eq!(sent.len(), 1, "the values are sent on the falling edge");
    assert_eq!(value_str(&sent[0]), "1552.0", "the last value of the cycle is sent");
}

#[test]
fn rec_op_cycle_reset_leaves_the_cycle() {
    let mut node: FnRecOpCycleMetric<(), ()> = FnRecOpCycleMetric::new("Test", 1, Some(()), Some(()), (), vec![("a".to_string(), ())]);
    let (_, _) = node.out(Some(new_flow(int_point(0))), new_flow(int_point(1)), vec![new_flow(str_point("a", "q1"))]);
    // a rising edge of reset leaves the cycle: the signal still true starts a new one
    let (_, sent) = node.out(Some(new_flow(int_point(1))), new_flow(int_point(1)), vec![new_flow(str_point("a", "q2"))]);
    assert!(sent.is_empty());
    let (_, sent) = node.out(Some(new_flow(int_point(1))), new_flow(int_point(0)), vec![new_flow(str_point("a", "q2"))]);
    assert_eq!(sent.len(), 1);
    let (res, _) = node.out(Some(new_flow(str_point("r", "x"))), new_flow(int_point(0)), vec![Ok(None)]);
    assert!(res.is_err(), "a string reset is refused");
}

// FnVar, FnEvalOnce, EvalCycle

#[test]
fn var_evaluates_its_input_once_per_cycle() {
    let mut cycle = EvalCycle::new();
    let mut var = FnBuilder::fn_var("App/Task", 1, ());
    assert_eq!(var.id(), "App/Task/FnVar1");
    assert_eq!(var.kind(), FnKind::Var);
    cycle.increment();
    let c = cycle.get();
    assert!(var.needs_eval(&c));
    let r = var.out(&c, Some(new_flow(int_point(3)))).unwrap().unwrap();
    assert_eq!(flow_int(&r), 3);
    assert!(!var.needs_eval(&c), "cached within the cycle");
    let again = var.out(&c, None).unwrap().unwrap();
    assert_eq!(flow_int(&again), 3);
    cycle.increment();
    assert!(var.needs_eval(&cycle.get()));
}

#[test]
fn eval_once_caches_within_a_cycle() {
    let mut once = FnEvalOnce::new("App", 1, ());
    let c = CycleIndex::new();
    assert!(once.needs_eval(&c));
    let r = once.out(&c, Some(Err("failed".to_string())));
    assert!(r.is_err());
    assert!(!once.needs_eval(&c));
    assert_eq!(once.out(&c, None).unwrap_err(), "App/FnEvalOnce1.out | Error: failed");
}

#[test]
fn eval_cycle_counts() {
    let mut cycle = EvalCycle::new();
    let a = cycle.get();
    cycle.increment();
    let b = cycle.get();
    assert!(a != b);
    let mut c = CycleIndex::restart();
    assert!(c.update(&b));
    assert!(!c.update(&b));
}

#[test]
fn builder_makes_constants() {
    let c = FnBuilder::fn_const("App", 3, int_point(5));
    assert_eq!(c.id(), "App/FnConst3");
    assert_eq!(flow_int(&c.out().unwrap().unwrap()), 5);
}

#[test]
fn integer_accumulation_adds_the_values_and_keeps_the_accumulated_metadata() {
    let acc = point("/acc", PointValue::Int(40), 7);
    let term = point("/in", PointValue::Int(2), 9);
    let sum = add_ints(&acc, &term).unwrap();
    assert!(matches!(sum.value, PointValue::Int(42)));
    assert_eq!(sum.name, "/acc");
    assert_eq!(sum.ts, 7);
    assert!(add_ints(&point("/acc", PointValue::Int(i64::MAX), 0), &int_point(1)).is_none());
    assert!(add_ints(&point("/acc", PointValue::Double(0), 0), &int_point(1)).is_none());
}
