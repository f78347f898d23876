use task_functions::point::{Point, PointValue, Status, Cot};
use task_functions::fn_flow::{FnFlow, FnResult};
use task_functions::edge::{Edge, EdgeDetector};
use task_functions::functions::fn_not::FnNot;
use task_functions::functions::fn_eq::FnEq;
use task_functions::functions::fn_or::FnOr;
use task_functions::functions::fn_count::FnCount;
use task_functions::functions::fn_to_api_queue::FnToApiQueue;

fn point(value: PointValue) -> Point {
    Point::new(0, "p".to_string(), value, Status::Good, Cot::Inf, 0)
}

fn new_flow(p: Point) -> FnResult<FnFlow, String> {
    Ok(Some(FnFlow::New(p)))
}

fn old_flow(p: Point) -> FnResult<FnFlow, String> {
    Ok(Some(FnFlow::Old(p)))
}

#[test]
fn edges_alternate() {
    let mut d = EdgeDetector::new();
    assert_eq!(d.add(false), None, "the first sample has no edge");
    assert_eq!(d.add(true), Some(Edge::Rising));
    assert_eq!(d.add(true), None, "no rising edge twice in a row");
    assert_eq!(d.add(false), Some(Edge::Falling));
    assert_eq!(d.add(false), None, "no falling edge twice in a row");
    d.reset();
    assert_eq!(d.add(true), None, "after reset the first sample has no edge");
}

#[test]
fn not_twice_gives_the_logical_value() {
    let first = FnNot::new("a", 1, ());
    let second = FnNot::new("b", 1, ());
    let once = first.out(new_flow(point(PointValue::Int(7)))).unwrap();
    let twice = second.out(Ok(once)).unwrap().unwrap();
    assert!(matches!(twice.value().value, PointValue::Bool(true)));
    assert!(twice.is_new());
}

#[test]
fn eq_is_symmetric() {
    let eq = FnEq::new("e", 1, 0, vec![(), ()]).unwrap();
    let a = point(PointValue::Real(1.5f32.to_bits()));
    let b = point(PointValue::Real(2.5f32.to_bits()));
    let ab = eq.out(new_flow(a.clone()), old_flow(b.clone())).unwrap().unwrap();
    let ba = eq.out(old_flow(b), new_flow(a)).unwrap().unwrap();
    assert!(matches!((&ab.value().value, &ba.value().value), (PointValue::Bool(x), PointValue::Bool(y)) if x == y));
}

#[test]
fn result_is_new_exactly_when_an_input_is_new() {
    let or = FnOr::new("o", 1, 0, vec![(), (), ()]).unwrap();
    let p = point(PointValue::Bool(false));
    let all_old = or.out(vec![old_flow(p.clone()), old_flow(p.clone()), old_flow(p.clone())]).unwrap().unwrap();
    assert!(!all_old.is_new());
    let one_new = or.out(vec![old_flow(p.clone()), old_flow(p.clone()), new_flow(p)]).unwrap().unwrap();
    assert!(one_new.is_new());
}

#[test]
fn count_grows_by_one_on_each_rising_edge_only() {
    let mut c = FnCount::new("c", 1, None::<()>, ());
    let mut last = 0;
    for (v, fresh) in [(0, true), (1, true), (1, true), (1, false), (0, true), (1, false), (1, true)] {
        let p = point(PointValue::Int(v));
        let r = c.out(if fresh { new_flow(p) } else { old_flow(p) }, None).unwrap().unwrap();
        let n = match r.value().value { PointValue::Int(n) => n, _ => panic!("an int") };
        assert!(n == last || n == last + 1);
        last = n;
    }
    assert_eq!(last, 2);
}

#[test]
fn prepared_requests_hold_no_nul() {
    let q = FnToApiQueue::new("q", 1, 0, ());
    let sql = q.prepare_raw_sql("select '\0a', b\0 from t").unwrap();
    assert!(!sql.contains('\0'));
    assert_eq!(sql, "select 'a', b from t");
}

#[test]
fn nodes_with_different_numbers_get_different_ids() {
    let a = FnCount::new("task", 1, None::<()>, ());
    let b = FnCount::new("task", 11, None::<()>, ());
    let c = FnCount::new("task", 2, None::<()>, ());
    assert_eq!(a.id(), "task/FnCount1");
    assert_eq!(b.id(), "task/FnCount11");
    assert_ne!(a.id(), b.id());
    assert_ne!(a.id(), c.id());
    assert_ne!(b.id(), c.id());
}

#[test]
fn flow_context_sees_new_once_any_input_is_new() {
    use_flow_context();
}

fn use_flow_context() {
    let p = Point::new(0, "p".to_string(), PointValue::Int(1), Status::Good, Cot::Inf, 0);
    let mut c = task_functions::fn_flow::FlowContext::new();
    let r = c.map_all(vec![Ok(Some(FnFlow::Old(p.clone()))), Ok(None)]);
    assert_eq!(r.len(), 2);
    assert!(!c.is_new());
    let _ = c.map_all(vec![Ok(Some(FnFlow::New(p.clone())))]);
    assert!(c.is_new());
    let _ = c.map_all(vec![Ok(Some(FnFlow::Old(p.clone()))), Err("e".to_string())]);
    assert!(c.is_new(), "once New, always New");
}

#[test]
fn counter_hands_out_each_number_once() {
    let mut c = task_functions::text::SeqCounter::new();
    let a = c.take();
    let b = c.take();
    let d = c.take();
    assert_eq!((a, b, d), (1, 2, 3));
    let ids: Vec<_> = [a, b, d].iter().map(|s| FnCount::new("task", *s, None::<()>, ()).id()).collect();
    assert_eq!(ids, vec!["task/FnCount1", "task/FnCount2", "task/FnCount3"]);
}

#[test]
fn trim_removes_unicode_white_space() {
    assert_eq!(task_functions::text::trim(" \t\u{3000}a b\u{a0}\n"), "a b");
    assert_eq!(task_functions::text::trim("   "), "");
    assert_eq!(task_functions::text::trim("x"), "x");
}
