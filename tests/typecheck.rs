use proclang::gcd::{
    a_a_gcd_parameter_sequence, a_b_gcd_parameter_sequence, a_g_gcd_parameter_sequence,
    generate_gcd, x_y_gcd_parameter_sequence,
};

#[test]
fn test_typecheck_gcd() -> Result<(), String> {
    let program = generate_gcd(a_b_gcd_parameter_sequence());
    program.typecheck()?;
    Ok(())
}

#[test]
fn test_typecheck_duplicate_parameters() -> Result<(), String> {
    let program = generate_gcd(a_a_gcd_parameter_sequence());
    match program.typecheck() {
        Ok(_) => Err("should fail".into()),
        Err(reason) => {
            assert_eq!("parameter a declared twice", reason);
            Ok(())
        }
    }
}

#[test]
fn test_typecheck_undefined_variable() -> Result<(), String> {
    let program = generate_gcd(x_y_gcd_parameter_sequence());
    match program.typecheck() {
        Ok(_) => Err("should fail".into()),
        Err(reason) => {
            assert_eq!("identifier a is not defined", reason);
            Ok(())
        }
    }
}

#[test]
fn test_typecheck_duplicate_parameters_2() -> Result<(), String> {
    let program = generate_gcd(a_g_gcd_parameter_sequence());
    match program.typecheck() {
        Ok(_) => Err("should fail".into()),
        Err(reason) => {
            assert_eq!("function parameter g declared twice", reason);
            Ok(())
        }
    }
}
