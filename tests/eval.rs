use proclang::eval::{ProcedureEnvironment, Store, VariableEnvironment};
use proclang::gcd::{a_b_gcd_parameter_sequence, generate_gcd};
use proclang::types::{Expression, Value};

#[test]
fn test_gcd_60_12() -> Result<(), String> {
    let program = generate_gcd(a_b_gcd_parameter_sequence());
    let annotated_program = program.typecheck()?;

    let input_sequence = vec![60.into(), 12.into(), 0.into(), 0.into()];
    let result_sequence = annotated_program.eval(input_sequence)?;
    assert_eq!(
        result_sequence,
        vec![60.into(), 12.into(), 72.into(), 1.into()]
    );
    // gcd(60 * 12, 60 + 12) = 72 (1 iteration)

    Ok(())
}

#[test]
fn test_gcd_24_60() -> Result<(), String> {
    let program = generate_gcd(a_b_gcd_parameter_sequence());
    let annotated_program = program.typecheck()?;

    let input_sequence = vec![24.into(), 60.into(), 0.into(), 0.into()];
    let result_sequence = annotated_program.eval(input_sequence)?;
    assert_eq!(
        result_sequence,
        vec![24.into(), 60.into(), 12.into(), 2.into()]
    );
    // gcd(24 * 60, 24 + 60) = 12 (2 iterations)

    Ok(())
}

#[test]
fn test_gcd_6_4() -> Result<(), String> {
    let program = generate_gcd(a_b_gcd_parameter_sequence());
    let annotated_program = program.typecheck()?;

    let input_sequence = vec![6.into(), 4.into(), 0.into(), 0.into()];
    let result_sequence = annotated_program.eval(input_sequence)?;
    assert_eq!(
        result_sequence,
        vec![6.into(), 4.into(), 2.into(), 3.into()]
    );
    // gcd(6 * 4, 6 + 4) = 2 (3 iterations)

    Ok(())
}

#[test]
fn test_gcd_11_13() -> Result<(), String> {
    let program = generate_gcd(a_b_gcd_parameter_sequence());
    let annotated_program = program.typecheck()?;

    let input_sequence = vec![11.into(), 13.into(), 0.into(), 0.into()];
    let result_sequence = annotated_program.eval(input_sequence)?;
    assert_eq!(
        result_sequence,
        vec![11.into(), 13.into(), 1.into(), 3.into()]
    );
    // gcd(11 * 13, 11 + 13) = 1 (3 iterations)

    Ok(())
}

#[test]
fn test_eval_expression() -> Result<(), String> {
    let exp = Expression::Sum(Expression::Product(2.into(), 3.into()).into(), 4.into());
    assert_eq!(
        Value::Numeral(10),
        exp.eval(
            &Store::init(Value::Numeral(0)),
            &(VariableEnvironment::init(), ProcedureEnvironment::init())
        )?
    );
    Ok(())
}
