use proclang::gcd::{a_b_gcd_parameter_sequence, generate_gcd, x_y_gcd_parameter_sequence};
use proclang::types::{Expression, Value};

#[test]
fn gcd_scenario_through_the_pipeline() {
    let program = generate_gcd(a_b_gcd_parameter_sequence());
    let result = program.run(vec![60.into(), 12.into(), 0.into(), 0.into()]);
    assert_eq!(result, Ok(vec![60.into(), 12.into(), 72.into(), 1.into()]));
}

#[test]
fn failed_check_means_no_evaluation() {
    let program = generate_gcd(x_y_gcd_parameter_sequence());
    let result = program.run(vec![60.into(), 12.into(), 0.into(), 0.into()]);
    assert_eq!(result, Err("identifier a is not defined".to_string()));
}

#[test]
fn evaluation_is_repeatable() {
    let program = generate_gcd(a_b_gcd_parameter_sequence()).typecheck().unwrap();
    let inputs: Vec<Value> = vec![24.into(), 60.into(), 0.into(), 0.into()];
    let first = program.eval(inputs.clone());
    let second = program.eval(inputs.clone());
    assert_eq!(first, second);
    assert_eq!(first, Ok(vec![24.into(), 60.into(), 12.into(), 2.into()]));
}

#[test]
fn rechecking_keeps_annotations() {
    let annotated = generate_gcd(a_b_gcd_parameter_sequence()).typecheck().unwrap();
    let again = annotated.typecheck().unwrap();
    assert_eq!(again, annotated);
    assert_ne!(annotated, generate_gcd(a_b_gcd_parameter_sequence()));
}

#[test]
fn rendering_expressions() {
    let e = Expression::Sum(Expression::Product(2.into(), 3.into()).into(), 4.into());
    assert_eq!(e.render(), "((2*3)+4)");
    let e = Expression::Not(Box::new(Expression::LessThanOrEqual("a".into(), (-12).into())));
    assert_eq!(e.render(), "¬(a≤-12)");
    let e = Expression::And(Box::new(Expression::Value(Value::True)), Box::new(Expression::Equal("x".into(), "y".into())));
    assert_eq!(e.render(), "(true∧x=y)");
    assert_eq!(Value::Numeral(i32::MIN).render(), "-2147483648");
    assert_eq!(Value::False.render(), "false");
}

#[test]
fn rendering_the_gcd_program() {
    let text = generate_gcd(a_b_gcd_parameter_sequence()).render();
    let expected = [
        "var c:Int;",
        "procedure div (a:Int,b:Int; ref q:Int,r:Int) {",
        "  q:=0;",
        "  r:=a;",
        "  while b≤r do {",
        "    q:=(q+1);",
        "    r:=(r-b);",
        "  }",
        "  c:=(c+1);",
        "}",
        "procedure gcd (a:Int,b:Int; ref g:Int,n:Int) {",
        "  c:=0;",
        "  while (¬(a≤0)∧¬(b≤0)) do {",
        "    var c:Int;",
        "    if (b≤a) then {",
        "      call div(a, b;c, a);",
        "    } else {",
        "      call div(b, a;c, b);",
        "    }",
        "  }",
        "  if (¬(a≤0)) then {",
        "    g:=a;",
        "  } else {",
        "    g:=b;",
        "  }",
        "  n:=c;",
        "}",
        "program gcd (a:Int,b:Int,c:Int,d:Int) {",
        "  call gcd((a*b), (a+b);c, d);",
        "}",
    ]
    .join("\n");
    assert_eq!(text, expected);
}
