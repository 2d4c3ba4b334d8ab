use proclang::eval::{ProcedureEnvironment, Store, VariableEnvironment};
use proclang::types::{
    Command, Declaration, Declarations, Expression, Expressions, Identifier, Parameters, Program,
    Sort, Value, Variables,
};

fn params(names: &[(&str, &str)]) -> Parameters {
    let mut p = Parameters::Empty;
    for (name, sort) in names {
        p = Parameters::Sequence(Box::new(p), (*name).into(), (*sort).into());
    }
    p
}

fn declarations(items: Vec<Declaration>) -> Declarations {
    let mut ds = Declarations::Empty;
    for d in items {
        ds = Declarations::Sequence(Box::new(ds), d);
    }
    ds
}

fn program(items: Vec<Declaration>, inputs: &[(&str, &str)], body: Command) -> Program {
    Program(declarations(items), "main".into(), params(inputs), body)
}

fn assign(x: &str, e: Expression) -> Command {
    Command::Assign(x.into(), e)
}

fn num(n: i32) -> Box<Expression> {
    n.into()
}

fn var(x: &str) -> Box<Expression> {
    x.into()
}

fn boolean(b: bool) -> Box<Expression> {
    Box::new(Expression::Value(if b { Value::True } else { Value::False }))
}

fn empty_environment() -> (VariableEnvironment, ProcedureEnvironment) {
    (VariableEnvironment::init(), ProcedureEnvironment::init())
}

fn evaluate(e: Expression) -> Result<Value, String> {
    e.eval(&Store::init(Value::Numeral(0)), &empty_environment())
}

fn call(name: &str, args: Vec<Expression>, outs: Vec<&str>) -> Command {
    let mut es = Expressions::Empty;
    for a in args.into_iter().rev() {
        es = Expressions::Sequence(a, Box::new(es));
    }
    let mut vs = Variables::Empty;
    for v in outs.into_iter().rev() {
        vs = Variables::Sequence(v.into(), Box::new(vs));
    }
    Command::Call(name.into(), es, vs, None)
}

fn check_error(p: Program) -> String {
    match p.typecheck() {
        Ok(_) => panic!("the check should fail"),
        Err(reason) => reason,
    }
}

#[test]
fn division_by_zero_fails_evaluation() {
    let e = Expression::Division(num(7), num(0));
    assert_eq!(evaluate(e), Err("division by 0".to_string()));
}

#[test]
fn division_by_zero_in_a_checked_program() {
    let p = program(vec![], &[("a", "Int")], assign("a", Expression::Division(num(7), num(0))));
    let annotated = p.typecheck().unwrap();
    assert_eq!(annotated.eval(vec![1.into()]), Err("division by 0".to_string()));
}

#[test]
fn division_truncates_toward_zero() {
    assert_eq!(evaluate(Expression::Division(num(-7), num(2))), Ok(Value::Numeral(-3)));
    assert_eq!(evaluate(Expression::Division(num(7), num(-2))), Ok(Value::Numeral(-3)));
    assert_eq!(evaluate(Expression::Division(num(-7), num(-2))), Ok(Value::Numeral(3)));
    assert_eq!(evaluate(Expression::Division(num(7), num(2))), Ok(Value::Numeral(3)));
}

#[test]
fn arithmetic_results() {
    assert_eq!(evaluate(Expression::Difference(num(3), num(10))), Ok(Value::Numeral(-7)));
    assert_eq!(evaluate(Expression::Product(num(-4), num(6))), Ok(Value::Numeral(-24)));
    assert_eq!(evaluate(Expression::Negative(num(5))), Ok(Value::Numeral(-5)));
}

#[test]
fn arithmetic_overflow_is_an_error() {
    let overflow = Err("arithmetic overflow".to_string());
    assert_eq!(evaluate(Expression::Sum(num(i32::MAX), num(1))), overflow);
    assert_eq!(evaluate(Expression::Difference(num(i32::MIN), num(1))), overflow);
    assert_eq!(evaluate(Expression::Product(num(65536), num(65536))), overflow);
    assert_eq!(evaluate(Expression::Division(num(i32::MIN), num(-1))), overflow);
    assert_eq!(evaluate(Expression::Negative(num(i32::MIN))), overflow);
}

#[test]
fn operands_must_be_numbers() {
    assert_eq!(
        evaluate(Expression::Sum(boolean(true), num(1))),
        Err("left value of the expression is not a number".to_string())
    );
    assert_eq!(
        evaluate(Expression::LessThanOrEqual(num(1), boolean(false))),
        Err("right value of the expression is not a number".to_string())
    );
    assert_eq!(
        evaluate(Expression::Negative(boolean(true))),
        Err("can only negate numbers".to_string())
    );
}

#[test]
fn comparisons_and_connectives() {
    assert_eq!(evaluate(Expression::Equal(num(3), num(3))), Ok(Value::True));
    assert_eq!(evaluate(Expression::Equal(num(3), num(4))), Ok(Value::False));
    assert_eq!(evaluate(Expression::Equal(boolean(true), boolean(true))), Ok(Value::True));
    assert_eq!(evaluate(Expression::LessThanOrEqual(num(4), num(4))), Ok(Value::True));
    assert_eq!(evaluate(Expression::LessThanOrEqual(num(5), num(4))), Ok(Value::False));
    assert_eq!(evaluate(Expression::Not(boolean(false))), Ok(Value::True));
    assert_eq!(evaluate(Expression::Or(boolean(false), boolean(true))), Ok(Value::True));
    assert_eq!(evaluate(Expression::And(boolean(true), boolean(false))), Ok(Value::False));
}

#[test]
fn and_or_short_circuit() {
    let failing = || Box::new(Expression::Equal(Box::new(Expression::Division(num(1), num(0))), num(1)));
    assert_eq!(evaluate(Expression::And(boolean(false), failing())), Ok(Value::False));
    assert_eq!(evaluate(Expression::Or(boolean(true), failing())), Ok(Value::True));
    assert_eq!(
        evaluate(Expression::And(boolean(true), failing())),
        Err("division by 0".to_string())
    );
}

#[test]
fn unknown_identifier_at_run_time() {
    assert_eq!(evaluate(Expression::Variable("zz".into())), Err("unknown identifier zz".to_string()));
}

#[test]
fn unannotated_call_is_refused() {
    let c = call("f", vec![], vec![]);
    let r = c.eval(&Store::init(Value::Numeral(0)), &empty_environment(), 0);
    assert_eq!(r, Err("call hasn't been annotated".to_string()));
}

#[test]
fn unknown_signature_at_run_time() {
    let signature = (Identifier::from("f"), (vec![Sort::from("Int")], vec![]));
    let c = Command::Call("f".into(), Expressions::Sequence(1.into(), Box::new(Expressions::Empty)), Variables::Empty, Some(signature));
    let r = c.eval(&Store::init(Value::Numeral(0)), &empty_environment(), 0).map(|(s, _)| s);
    assert_eq!(r, Err("unknown signature f(Int;)".to_string()));
}

#[test]
fn input_count_must_match_parameters() {
    let p = program(vec![], &[("a", "Int"), ("b", "Int")], assign("a", *var("b")));
    let annotated = p.typecheck().unwrap();
    assert_eq!(
        annotated.eval(vec![1.into(), 2.into(), 3.into()]),
        Err("address sequence size mismatch".to_string())
    );
    assert_eq!(annotated.eval(vec![1.into(), 2.into()]), Ok(vec![2.into(), 2.into()]));
}

#[test]
fn endless_loop_hits_the_step_limit() {
    let body = Command::While(*boolean(true), Box::new(assign("a", Expression::Sum(var("a"), num(1)))));
    let p = program(vec![], &[("a", "Int")], body);
    let annotated = p.typecheck().unwrap();
    assert_eq!(
        annotated.eval_with_limit(&vec![0.into()], 5),
        Err("step limit exceeded".to_string())
    );
}

#[test]
fn loop_runs_within_its_limit() {
    let body = Command::While(
        Expression::LessThanOrEqual(var("a"), num(4)),
        Box::new(assign("a", Expression::Sum(var("a"), num(1)))),
    );
    let p = program(vec![], &[("a", "Int")], body);
    let annotated = p.typecheck().unwrap();
    assert_eq!(annotated.eval_with_limit(&vec![0.into()], 5), Ok(vec![5.into()]));
    assert_eq!(annotated.eval_with_limit(&vec![0.into()], 4), Err("step limit exceeded".to_string()));
}

#[test]
fn while_false_leaves_store_unchanged() {
    let store = Store::init(Value::Numeral(0)).update(0, Value::Numeral(42));
    let environment = (VariableEnvironment::init().update(&"a".into(), &0), ProcedureEnvironment::init());
    let c = Command::While(*boolean(false), Box::new(assign("a", Expression::Sum(var("a"), num(1)))));
    let (after, top) = c.eval(&store, &environment, 1).unwrap();
    assert_eq!(after, store);
    assert_eq!(top, 1);
    assert_eq!(*after.lookup(&0), Value::Numeral(42));
}

#[test]
fn output_parameters_are_written_through() {
    let inc = Declaration::Procedure(
        "inc".into(),
        params(&[("a", "Int")]),
        params(&[("r", "Int")]),
        assign("r", Expression::Sum(var("a"), num(1))),
    );
    let p = program(vec![inc], &[("x", "Int"), ("y", "Int")], call("inc", vec![*var("x")], vec!["y"]));
    let annotated = p.typecheck().unwrap();
    assert_eq!(annotated.eval(vec![4.into(), 0.into()]), Ok(vec![4.into(), 5.into()]));
}

#[test]
fn inputs_are_passed_by_value() {
    let clobber = Declaration::Procedure(
        "clobber".into(),
        params(&[("a", "Int")]),
        params(&[("r", "Int")]),
        Command::Sequence(
            Box::new(assign("a", *num(100))),
            Box::new(assign("r", *var("a"))),
        ),
    );
    let p = program(vec![clobber], &[("x", "Int"), ("y", "Int")], call("clobber", vec![*var("x")], vec!["y"]));
    let annotated = p.typecheck().unwrap();
    assert_eq!(annotated.eval(vec![7.into(), 0.into()]), Ok(vec![7.into(), 100.into()]));
}

#[test]
fn procedures_see_their_declaration_environment() {
    let get = Declaration::Procedure(
        "get".into(),
        params(&[]),
        params(&[("r", "Int")]),
        assign("r", *var("g")),
    );
    let body = Command::Sequence(
        Box::new(assign("g", *num(9))),
        Box::new(Command::Var(
            "g".into(),
            "Int".into(),
            Box::new(Command::Sequence(
                Box::new(assign("g", *num(1))),
                Box::new(call("get", vec![], vec!["y"])),
            )),
        )),
    );
    let p = program(
        vec![Declaration::Variable("g".into(), "Int".into()), get],
        &[("y", "Int")],
        body,
    );
    let annotated = p.typecheck().unwrap();
    assert_eq!(annotated.eval(vec![0.into()]), Ok(vec![9.into()]));
}

#[test]
fn store_reads_default_and_written_cells() {
    let store = Store::init(Value::Numeral(5));
    assert_eq!(*store.lookup(&3), Value::Numeral(5));
    let store = store.update(3, Value::True);
    assert_eq!(*store.lookup(&3), Value::True);
    assert_eq!(*store.lookup(&2), Value::Numeral(5));
    assert_eq!(*store.lookup(&4), Value::Numeral(5));
    let again = store.update(1, Value::False);
    assert_eq!(*again.lookup(&1), Value::False);
    assert_eq!(*store.lookup(&1), Value::Numeral(5));
}

#[test]
fn variable_environment_later_binding_hides_earlier() {
    let e = VariableEnvironment::init().update(&"a".into(), &1).update(&"b".into(), &2);
    let e2 = e.update(&"a".into(), &7);
    assert_eq!(e.lookup(&"a".into()), Ok(1));
    assert_eq!(e2.lookup(&"a".into()), Ok(7));
    assert_eq!(e2.lookup(&"b".into()), Ok(2));
    assert_eq!(e2.lookup(&"c".into()), Err("unknown identifier c".to_string()));
}

#[test]
fn procedure_environment_lookup_of_missing_signature() {
    let signature = (Identifier::from("p"), (vec![Sort::from("Int"), Sort::from("Bool")], vec![Sort::from("Int")]));
    match ProcedureEnvironment::init().lookup(&signature) {
        Ok(_) => panic!("nothing is bound"),
        Err(m) => assert_eq!(m, "unknown signature p(Int,Bool;Int)"),
    }
}

#[test]
fn same_name_in_inputs_and_outputs_is_rejected() {
    let f = Declaration::Procedure("f".into(), params(&[("a", "Int")]), params(&[("a", "Int")]), assign("a", *num(1)));
    let p = program(vec![f], &[], assign("x", *num(0)));
    assert_eq!(check_error(p), "function parameter a declared twice");
}

#[test]
fn undeclared_identifier_is_rejected() {
    let p = program(vec![], &[("x", "Int")], assign("x", *var("y")));
    assert_eq!(check_error(p), "identifier y is not defined");
    let p = program(vec![], &[], assign("x", *num(1)));
    assert_eq!(check_error(p), "identifier x is not defined");
}

#[test]
fn type_errors_have_their_messages() {
    let ints = &[("x", "Int"), ("b", "Bool")];
    let p = program(vec![], ints, assign("x", Expression::Sum(boolean(true), num(1))));
    assert_eq!(check_error(p), "expected int expression");
    let p = program(vec![], ints, assign("b", Expression::And(num(1), boolean(true))));
    assert_eq!(check_error(p), "expected boolean expression");
    let p = program(vec![], ints, assign("x", *boolean(true)));
    assert_eq!(check_error(p), "expression of type Bool can't be assigned to variable of type Int");
    let p = program(vec![], ints, assign("x", Expression::Equal(num(1), boolean(true))));
    assert_eq!(check_error(p), "expression type mismatch: Int, Bool");
    let skip = || Box::new(assign("x", *num(1)));
    let p = program(vec![], ints, Command::IfElse(*num(1), skip(), skip()));
    assert_eq!(check_error(p), "if requires boolean expression");
    let p = program(vec![], ints, Command::If(*num(1), skip()));
    assert_eq!(check_error(p), "if requires boolean expressions");
    let p = program(vec![], ints, Command::While(*num(1), skip()));
    assert_eq!(check_error(p), "while requires boolean expressions");
}

#[test]
fn equality_has_the_sort_of_its_operands() {
    let ints = &[("x", "Int")];
    let p = program(vec![], ints, assign("x", Expression::Equal(num(1), num(1))));
    assert!(p.typecheck().is_ok());
    let p = program(vec![], ints, Command::If(Expression::Equal(num(1), num(1)), Box::new(assign("x", *num(1)))));
    assert_eq!(check_error(p), "if requires boolean expressions");
}

#[test]
fn calls_must_match_a_signature_exactly() {
    let f = Declaration::Procedure("f".into(), params(&[("a", "Int")]), params(&[("r", "Int")]), assign("r", *var("a")));
    let p = program(vec![f], &[("x", "Int"), ("b", "Bool")], call("f", vec![*var("x")], vec!["b"]));
    assert_eq!(check_error(p), "no function matches signature f(Int;Bool)");
    let f = Declaration::Procedure("f".into(), params(&[("a", "Int")]), params(&[("r", "Int")]), assign("r", *var("a")));
    let p = program(vec![f], &[("x", "Int")], call("f", vec![*var("x")], vec!["q"]));
    assert_eq!(check_error(p), "variable q is not defined");
}

#[test]
fn procedures_cannot_call_themselves() {
    let f = Declaration::Procedure("f".into(), params(&[]), params(&[]), call("f", vec![], vec![]));
    let p = program(vec![f], &[], call("f", vec![], vec![]));
    assert_eq!(check_error(p), "no function matches signature f(;)");
}

#[test]
fn checking_annotates_calls() {
    let f = Declaration::Procedure("f".into(), params(&[("a", "Int")]), params(&[]), assign("a", *num(1)));
    let p = program(vec![f], &[("x", "Int")], call("f", vec![*var("x")], vec![]));
    let annotated = p.typecheck().unwrap();
    match &annotated.3 {
        Command::Call(_, _, _, Some(sig)) => {
            assert_eq!(sig.0, Identifier::from("f"));
            assert_eq!(sig.1.0, vec![Sort::from("Int")]);
            assert!(sig.1.1.is_empty());
        }
        _ => panic!("the body should be an annotated call"),
    }
}

#[test]
fn loop_variable_gets_a_fresh_cell_each_iteration() {
    let body = Command::Var(
        "x".into(),
        "Int".into(),
        Box::new(Command::Sequence(
            Box::new(assign("x", Expression::Sum(var("x"), num(1)))),
            Box::new(Command::Sequence(
                Box::new(assign("s", Expression::Sum(var("s"), var("x")))),
                Box::new(assign("i", Expression::Sum(var("i"), num(1)))),
            )),
        )),
    );
    let w = Command::While(Expression::LessThanOrEqual(var("i"), num(2)), Box::new(body));
    let environment = (
        VariableEnvironment::init().update(&"i".into(), &0).update(&"s".into(), &1),
        ProcedureEnvironment::init(),
    );
    let (store, top) = w.eval(&Store::init(Value::Numeral(0)), &environment, 2).unwrap();
    assert_eq!(*store.lookup(&0), Value::Numeral(3));
    assert_eq!(*store.lookup(&1), Value::Numeral(3));
    assert_eq!(top, 5);
}

#[test]
fn sequenced_declarations_do_not_share_cells() {
    let first = Command::Var("x".into(), "Int".into(), Box::new(assign("x", *num(5))));
    let second = Command::Var("y".into(), "Int".into(), Box::new(assign("z", *var("y"))));
    let p = program(vec![], &[("z", "Int")], Command::Sequence(Box::new(first), Box::new(second)));
    let annotated = p.typecheck().unwrap();
    assert_eq!(annotated.eval(vec![7.into()]), Ok(vec![0.into()]));
}

#[test]
fn calls_allocate_past_their_arguments() {
    let id = Declaration::Procedure(
        "id".into(),
        params(&[("a", "Int")]),
        params(&[("r", "Int")]),
        Command::Var("t".into(), "Int".into(), Box::new(assign("r", *var("a")))),
    );
    let p = program(
        vec![id],
        &[("x", "Int"), ("y", "Int")],
        Command::Sequence(
            Box::new(call("id", vec![*num(8)], vec!["x"])),
            Box::new(Command::Var("w".into(), "Int".into(), Box::new(assign("y", *var("w"))))),
        ),
    );
    let annotated = p.typecheck().unwrap();
    assert_eq!(annotated.eval(vec![1.into(), 2.into()]), Ok(vec![8.into(), 0.into()]));
}
