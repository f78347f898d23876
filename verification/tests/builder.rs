use task_functions::functions::fn_builder::{
    plan, function_of, ConstType, FnConf, FnName, NodePlan, ParamValue, PlanError,
};
use task_functions::functions::fn_input::{InputType, Initial};
use task_functions::point::PointValue;

fn f(name: &str, inputs: Vec<(&str, FnConf)>) -> FnConf {
    FnConf::Fn { name: name.to_string(), inputs: inputs.into_iter().map(|(n, c)| (n.to_string(), c)).collect() }
}

fn point(name: &str) -> FnConf {
    FnConf::Point { name: name.to_string(), typ: InputType::Real, default: None }
}

fn konst(typ: ConstType, value: &str) -> FnConf {
    FnConf::Const { typ, value: value.to_string() }
}

fn param(v: &str) -> FnConf {
    FnConf::Param(ParamValue::Str(v.to_string()))
}

fn fail(r: Result<NodePlan, PlanError>) -> String {
    match r {
        Err(PlanError::Fail(m)) => m,
        other => panic!("expected a failure, got {:?}", other),
    }
}

#[test]
fn names_are_camel_case() {
    assert_eq!(function_of("Add"), Some(FnName::Add));
    assert_eq!(function_of("RecOpCycleMetric"), Some(FnName::RecOpCycleMetric));
    assert_eq!(function_of("add"), None);
    assert_eq!(function_of("Point"), None);
}

#[test]
fn a_nested_tree_is_planned_in_order() {
    let conf = f("Debug", vec![("input", f("Ge", vec![("input1", point("/App/Load")), ("input2", konst(ConstType::Real, "5.5"))]))]);
    let mut vars = vec![];
    match plan(&conf, &mut vars).unwrap() {
        NodePlan::Node { kind: FnName::Debug, inputs, enable: None, params } => {
            assert!(params.is_empty());
            assert_eq!(inputs.len(), 1);
            match &inputs[0] {
                (n, NodePlan::Node { kind: FnName::Ge, inputs, .. }) => {
                    assert_eq!(n, "input");
                    assert!(matches!(&inputs[0], (n, NodePlan::Point { name, .. }) if n == "input1" && name == "/App/Load"));
                    assert!(matches!(&inputs[1], (n, NodePlan::Const { typ: ConstType::Real, value }) if n == "input2" && value == "5.5"));
                }
                other => panic!("unexpected {:?}", other),
            }
        }
        other => panic!("unexpected {:?}", other),
    }
}

#[test]
fn unknown_function_is_an_error() {
    assert_eq!(fail(plan(&f("Frobnicate", vec![]), &mut vec![])), "Unknown function name: 'Frobnicate'");
}

#[test]
fn missing_required_input_is_an_error() {
    let r = plan(&f("Select", vec![("input", point("/a"))]), &mut vec![]);
    assert_eq!(fail(r), "FnSelect | Can't get 'select': FnSelect | 'select' - is missed");
    let r = plan(&f("Max", vec![("enable", konst(ConstType::Bool, "true"))]), &mut vec![]);
    assert_eq!(fail(r), "FnMax | Can't get 'input': FnMax | 'input' - is missed");
}

#[test]
fn input_taken_for_granted_breaks_the_build() {
    match plan(&f("Count", vec![]), &mut vec![]) {
        Err(PlanError::Broken(m)) => assert_eq!(m, "FnCount | 'input' - is missed"),
        other => panic!("unexpected {:?}", other),
    }
}

#[test]
fn enable_wraps_the_node() {
    let conf = f("Max", vec![("enable", konst(ConstType::Bool, "true")), ("input", point("/a")), ("reset", point("/r"))]);
    match plan(&conf, &mut vec![]).unwrap() {
        NodePlan::Node { kind: FnName::Max, inputs, enable: Some(en), .. } => {
            assert!(matches!(*en, NodePlan::Const { .. }));
            let names: Vec<&str> = inputs.iter().map(|(n, _)| n.as_str()).collect();
            assert_eq!(names, vec!["reset", "input"], "slots in the order the function reads them");
        }
        other => panic!("unexpected {:?}", other),
    }
    // for Retain, `enable` is an ordinary input
    let conf = f("Retain", vec![("enable", konst(ConstType::Bool, "true")), ("key", param("k"))]);
    match plan(&conf, &mut vec![]).unwrap() {
        NodePlan::Node { kind: FnName::Retain, inputs, enable: None, params } => {
            assert_eq!(inputs[0].0, "enable");
            assert!(matches!(&params[0], (n, ParamValue::Bool(false)) if n == "every-cycle"));
            assert!(matches!(&params[1], (n, ParamValue::Str(k)) if n == "key" && k == "k"));
        }
        other => panic!("unexpected {:?}", other),
    }
}

#[test]
fn variables_are_declared_then_used() {
    let mut vars = vec![];
    let decl = FnConf::Var { name: "x".to_string(), inputs: vec![("input".to_string(), point("/a"))] };
    assert!(matches!(plan(&decl, &mut vars).unwrap(), NodePlan::VarDecl { .. }));
    assert_eq!(vars, vec!["x".to_string()]);
    let use_x = FnConf::Var { name: "x".to_string(), inputs: vec![] };
    assert!(matches!(plan(&use_x, &mut vars).unwrap(), NodePlan::VarUse { name } if name == "x"));
    let use_y = FnConf::Var { name: "y".to_string(), inputs: vec![] };
    assert_eq!(fail(plan(&use_y, &mut vars)), "Var y - is not declared");
}

#[test]
fn errors_carry_the_path() {
    let conf = f("Add", vec![("a", point("/a")), ("b", f("Not", vec![("input", FnConf::Var { name: "z".to_string(), inputs: vec![] })]))]);
    assert_eq!(fail(plan(&conf, &mut vec![])), "FnAdd | Can't get 'b': FnBitNot | Can't get 'input': Var z - is not declared");
}

#[test]
fn constants_need_a_concrete_type() {
    assert_eq!(fail(plan(&konst(ConstType::Any, "1"), &mut vec![])), "Const '1': type 'any' - is not supported");
    assert_eq!(fail(plan(&konst(ConstType::Unknown, "1"), &mut vec![])), "Const '1': type required");
    assert_eq!(fail(plan(&param("x"), &mut vec![])), "Param | Undefined variable or unknown custom parameters in the function conf");
}

#[test]
fn parameters_are_checked() {
    let r = plan(&f("ToApiQueue", vec![("input", point("/a"))]), &mut vec![]);
    assert_eq!(fail(r), "FnToApiQueue | Parameter 'queue' is missed in 'ToApiQueue'");
    let r = plan(&f("Retain", vec![("key", FnConf::Param(ParamValue::Bool(true)))]), &mut vec![]);
    assert_eq!(fail(r), "FnRetain | Parameter 'key' must be a string in 'Retain'");
    let r = plan(&f("Export", vec![("input", point("/a")), ("send-to", point("/b"))]), &mut vec![]);
    assert_eq!(fail(r), "FnExport | Invalid conf in 'send-to'");
    let r = plan(&f("Export", vec![("enable", point("/e"))]), &mut vec![]);
    assert_eq!(fail(r), "FnExport | Can't get 'input'");
}

#[test]
fn rest_inputs_skip_named_slots() {
    let conf = f("RecOpCycleMetric", vec![
        ("op-cycle", point("/op")), ("send-to", param("Queue")), ("load", point("/load")), ("conf", param("x")),
    ]);
    match plan(&conf, &mut vec![]).unwrap() {
        NodePlan::Node { kind: FnName::RecOpCycleMetric, inputs, params, .. } => {
            let names: Vec<&str> = inputs.iter().map(|(n, _)| n.as_str()).collect();
            assert_eq!(names, vec!["op-cycle", "load"]);
            assert!(matches!(&params[0], (n, ParamValue::Str(q)) if n == "send-to" && q == "Queue"));
        }
        other => panic!("unexpected {:?}", other),
    }
}

fn typed_point(typ: InputType, default: Option<&str>) -> FnConf {
    FnConf::Point { name: "/App/In".to_string(), typ, default: default.map(|d| d.to_string()) }
}

fn initial(r: Result<NodePlan, PlanError>) -> Initial {
    match r {
        Ok(NodePlan::Point { initial, .. }) => initial,
        other => panic!("expected a point, got {:?}", other),
    }
}

#[test]
fn input_points_start_from_their_default() {
    let mut vars = Vec::new();
    assert!(matches!(initial(plan(&typed_point(InputType::Bool, Some("true")), &mut vars)), Initial::Value(PointValue::Bool(true))));
    assert!(matches!(initial(plan(&typed_point(InputType::Bool, Some("false")), &mut vars)), Initial::Value(PointValue::Bool(false))));
    assert!(matches!(initial(plan(&typed_point(InputType::Int, Some("-42")), &mut vars)), Initial::Value(PointValue::Int(-42))));
    assert!(matches!(initial(plan(&typed_point(InputType::Int, None), &mut vars)), Initial::Nothing));
    assert!(matches!(initial(plan(&typed_point(InputType::Any, None), &mut vars)), Initial::Value(PointValue::Bool(false))));
    assert!(matches!(initial(plan(&typed_point(InputType::String, Some("abc")), &mut vars)), Initial::Value(PointValue::String(s)) if s == "abc"));
    assert!(matches!(initial(plan(&typed_point(InputType::Double, Some("1.5")), &mut vars)), Initial::Float(s) if s == "1.5"));
}

#[test]
fn input_point_with_a_wrong_default_breaks_the_build() {
    let mut vars = Vec::new();
    match plan(&typed_point(InputType::Bool, Some("yes")), &mut vars) {
        Err(PlanError::Broken(m)) => assert_eq!(m, "FnInput | Error parsing Point default as Bool"),
        other => panic!("expected a broken build, got {:?}", other),
    }
    match plan(&typed_point(InputType::Int, Some("1.5")), &mut vars) {
        Err(PlanError::Broken(m)) => assert_eq!(m, "FnInput | Error parsing Point default as Int"),
        other => panic!("expected a broken build, got {:?}", other),
    }
}
