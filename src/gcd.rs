use vstd::prelude::*;

use crate::types::{
    cmd_model, decl_model, decls_model, expr_model, exprs_model, params_model, program_model, vars_model,
    CmdModel, Command, DeclModel, Declaration, Declarations, ExprModel, Expression, Expressions,
    Identifier, Parameters, ParamsModel, Program, ProgramModel, Sort, Value, Variable, Variables,
};

verus! {

// ---------------------------------------------------------------------------
// The sample program, as a model:
//
//  var c:Int;
//  procedure div(a:Int,b:Int; ref q:Int,r:Int) {
//      q := 0; r := a;
//      while b <= r do { q := q+1; r := r-b }
//      c := c+1
//  }
//  procedure gcd(<parameters>; ref g:Int,n:Int) {
//      c := 0;
//      while ¬(a <= 0) ∧ ¬(b <= 0) do {
//          var c:Int;
//          if b <= a then call div(a,b;c,a) else call div(b,a;c,b)
//      }
//      if ¬(a <= 0) then g := a else g := b;
//      n := c
//  }
//  program gcd(a:Int,b:Int,c:Int,d:Int) { call gcd(a*b,a+b;c,d) }

pub open spec fn variable_model(x: Seq<char>) -> ExprModel {
    ExprModel::Variable(x)
}

pub open spec fn numeral_model(n: i32) -> ExprModel {
    ExprModel::Value(Value::Numeral(n))
}

pub open spec fn int_params(names: Seq<Seq<char>>) -> ParamsModel {
    names.map_values(|x: Seq<char>| (x, "Int"@))
}

pub open spec fn seq2(a: CmdModel, b: CmdModel) -> CmdModel {
    CmdModel::Sequence(Box::new(a), Box::new(b))
}

pub open spec fn positive(x: Seq<char>) -> ExprModel {
    ExprModel::Not(Box::new(ExprModel::LessThanOrEqual(Box::new(variable_model(x)), Box::new(numeral_model(0)))))
}

pub open spec fn div_call(x: Seq<char>, y: Seq<char>) -> CmdModel {
    CmdModel::Call("div"@, seq![variable_model(x), variable_model(y)], seq!["c"@, x], None)
}

pub open spec fn div_model() -> DeclModel {
    DeclModel::Procedure(
        "div"@,
        int_params(seq!["a"@, "b"@]),
        int_params(seq!["q"@, "r"@]),
        seq2(
            seq2(CmdModel::Assign("q"@, numeral_model(0)), CmdModel::Assign("r"@, variable_model("a"@))),
            seq2(
                CmdModel::While(
                    ExprModel::LessThanOrEqual(Box::new(variable_model("b"@)), Box::new(variable_model("r"@))),
                    Box::new(
                        seq2(
                            CmdModel::Assign(
                                "q"@,
                                ExprModel::Sum(Box::new(variable_model("q"@)), Box::new(numeral_model(1))),
                            ),
                            CmdModel::Assign(
                                "r"@,
                                ExprModel::Difference(Box::new(variable_model("r"@)), Box::new(variable_model("b"@))),
                            ),
                        ),
                    ),
                ),
                CmdModel::Assign("c"@, ExprModel::Sum(Box::new(variable_model("c"@)), Box::new(numeral_model(1)))),
            ),
        ),
    )
}

pub open spec fn gcd_model(params: ParamsModel) -> DeclModel {
    DeclModel::Procedure(
        "gcd"@,
        params,
        int_params(seq!["g"@, "n"@]),
        seq2(
            CmdModel::Assign("c"@, numeral_model(0)),
            seq2(
                CmdModel::While(
                    ExprModel::And(Box::new(positive("a"@)), Box::new(positive("b"@))),
                    Box::new(
                        CmdModel::Var(
                            "c"@,
                            "Int"@,
                            Box::new(
                                CmdModel::IfElse(
                                    ExprModel::LessThanOrEqual(
                                        Box::new(variable_model("b"@)),
                                        Box::new(variable_model("a"@)),
                                    ),
                                    Box::new(div_call("a"@, "b"@)),
                                    Box::new(div_call("b"@, "a"@)),
                                ),
                            ),
                        ),
                    ),
                ),
                seq2(
                    CmdModel::IfElse(
                        positive("a"@),
                        Box::new(CmdModel::Assign("g"@, variable_model("a"@))),
                        Box::new(CmdModel::Assign("g"@, variable_model("b"@))),
                    ),
                    CmdModel::Assign("n"@, variable_model("c"@)),
                ),
            ),
        ),
    )
}

/// The sample program, with `params` as the input parameters of its `gcd` procedure.
pub open spec fn gcd_program(params: ParamsModel) -> ProgramModel {
    ProgramModel {
        decls: seq![DeclModel::Variable("c"@, "Int"@), div_model(), gcd_model(params)],
        name: "gcd"@,
        params: int_params(seq!["a"@, "b"@, "c"@, "d"@]),
        body: CmdModel::Call(
            "gcd"@,
            seq![
                ExprModel::Product(Box::new(variable_model("a"@)), Box::new(variable_model("b"@))),
                ExprModel::Sum(Box::new(variable_model("a"@)), Box::new(variable_model("b"@))),
            ],
            seq!["c"@, "d"@],
            None,
        ),
    }
}

// ---------------------------------------------------------------------------
// Building the trees.

fn var(name: &str) -> (r: Expression)
    ensures
        expr_model(r) == variable_model(name@),
{
    Expression::Variable(Identifier::new(name))
}

fn num(n: i32) -> (r: Expression)
    ensures
        expr_model(r) == numeral_model(n),
{
    Expression::Value(Value::Numeral(n))
}

fn assign(name: &str, e: Expression) -> (r: Command)
    ensures
        cmd_model(r) == CmdModel::Assign(name@, expr_model(e)),
{
    Command::Assign(Identifier::new(name), e)
}

fn then(first: Command, second: Command) -> (r: Command)
    ensures
        cmd_model(r) == seq2(cmd_model(first), cmd_model(second)),
{
    Command::Sequence(Box::new(first), Box::new(second))
}

fn positive_expr(name: &str) -> (r: Expression)
    ensures
        expr_model(r) == positive(name@),
{
    let at_most_zero = at_most(var(name), num(0));
    Expression::Not(Box::new(at_most_zero))
}

fn sum(l: Expression, r: Expression) -> (e: Expression)
    ensures
        expr_model(e) == ExprModel::Sum(Box::new(expr_model(l)), Box::new(expr_model(r))),
{
    Expression::Sum(Box::new(l), Box::new(r))
}

fn difference(l: Expression, r: Expression) -> (e: Expression)
    ensures
        expr_model(e) == ExprModel::Difference(Box::new(expr_model(l)), Box::new(expr_model(r))),
{
    Expression::Difference(Box::new(l), Box::new(r))
}

fn product(l: Expression, r: Expression) -> (e: Expression)
    ensures
        expr_model(e) == ExprModel::Product(Box::new(expr_model(l)), Box::new(expr_model(r))),
{
    Expression::Product(Box::new(l), Box::new(r))
}

fn at_most(l: Expression, r: Expression) -> (e: Expression)
    ensures
        expr_model(e) == ExprModel::LessThanOrEqual(
            Box::new(expr_model(l)),
            Box::new(expr_model(r)),
        ),
{
    Expression::LessThanOrEqual(Box::new(l), Box::new(r))
}

/// The expressions `a, b`.
fn two_expressions(a: Expression, b: Expression) -> (r: Expressions)
    ensures
        exprs_model(r) == seq![expr_model(a), expr_model(b)],
{
    let tail = Expressions::Sequence(b, Box::new(Expressions::Empty));
    assert(exprs_model(Expressions::Empty) == Seq::<ExprModel>::empty());
    assert(exprs_model(tail) =~= seq![expr_model(b)]);
    let r = Expressions::Sequence(a, Box::new(tail));
    assert(exprs_model(r) =~= seq![expr_model(a), expr_model(b)]);
    r
}

/// The variables `x, y`.
fn two_variables(x: &str, y: &str) -> (r: Variables)
    ensures
        vars_model(r) == seq![x@, y@],
{
    let tail = Variables::Sequence(Variable(Identifier::new(y)), Box::new(Variables::Empty));
    assert(vars_model(Variables::Empty) == Seq::<Seq<char>>::empty());
    assert(vars_model(tail) =~= seq![y@]);
    let r = Variables::Sequence(Variable(Identifier::new(x)), Box::new(tail));
    assert(vars_model(r) =~= seq![x@, y@]);
    r
}

/// Integer parameters with the given names, in order.
fn int_parameters(names: &[&str]) -> (r: Parameters)
    ensures
        params_model(r) == int_params(names@.map_values(|s: &str| s@)),
{
    let mut r = Parameters::Empty;
    let mut i: usize = 0;
    while i < names.len()
        invariant
            i <= names@.len(),
            params_model(r) == int_params(names@.subrange(0, i as int).map_values(|s: &str| s@)),
        decreases names@.len() - i,
    {
        r = Parameters::Sequence(Box::new(r), Variable(Identifier::new(names[i])), Sort::from("Int"));
        assert(names@.subrange(0, i + 1).map_values(|s: &str| s@) =~= names@.subrange(
            0,
            i as int,
        ).map_values(|s: &str| s@).push(names@[i as int]@));
        assert(int_params(names@.subrange(0, i + 1).map_values(|s: &str| s@)) =~= int_params(
            names@.subrange(0, i as int).map_values(|s: &str| s@),
        ).push((names@[i as int]@, "Int"@)));
        i = i + 1;
    }
    assert(names@.subrange(0, names@.len() as int) =~= names@);
    r
}

fn div_call_command(x: &str, y: &str) -> (r: Command)
    ensures
        cmd_model(r) == div_call(x@, y@),
{
    Command::Call(
        Identifier::new("div"),
        two_expressions(var(x), var(y)),
        two_variables("c", x),
        None,
    )
}

/// Parameters `a:Int, b:Int`.
pub fn a_b_gcd_parameter_sequence() -> (r: Parameters)
    ensures
        params_model(r) == int_params(seq!["a"@, "b"@]),
{
    let r = int_parameters(&["a", "b"]);
    assert(seq!["a", "b"].map_values(|s: &str| s@) =~= seq!["a"@, "b"@]);
    r
}

/// Parameters `a:Int, a:Int`: a repeated name.
pub fn a_a_gcd_parameter_sequence() -> (r: Parameters)
    ensures
        params_model(r) == int_params(seq!["a"@, "a"@]),
{
    let r = int_parameters(&["a", "a"]);
    assert(seq!["a", "a"].map_values(|s: &str| s@) =~= seq!["a"@, "a"@]);
    r
}

/// Parameters `x:Int, y:Int`: the body then reads names that are not declared.
pub fn x_y_gcd_parameter_sequence() -> (r: Parameters)
    ensures
        params_model(r) == int_params(seq!["x"@, "y"@]),
{
    let r = int_parameters(&["x", "y"]);
    assert(seq!["x", "y"].map_values(|s: &str| s@) =~= seq!["x"@, "y"@]);
    r
}

/// Parameters `a:Int, g:Int`: `g` is also an output parameter.
pub fn a_g_gcd_parameter_sequence() -> (r: Parameters)
    ensures
        params_model(r) == int_params(seq!["a"@, "g"@]),
{
    let r = int_parameters(&["a", "g"]);
    assert(seq!["a", "g"].map_values(|s: &str| s@) =~= seq!["a"@, "g"@]);
    r
}

fn div_declaration() -> (r: Declaration)
    ensures
        decl_model(r) == div_model(),
{
    let step = then(
        assign("q", sum(var("q"), num(1))),
        assign("r", difference(var("r"), var("b"))),
    );
    let div_while = Command::While(at_most(var("b"), var("r")), Box::new(step));
    let count = assign("c", sum(var("c"), num(1)));
    let body = then(then(assign("q", num(0)), assign("r", var("a"))), then(div_while, count));
    let outs = int_parameters(&["q", "r"]);
    assert(seq!["q", "r"].map_values(|s: &str| s@) =~= seq!["q"@, "r"@]);
    Declaration::Procedure(Identifier::new("div"), a_b_gcd_parameter_sequence(), outs, body)
}

fn gcd_declaration(gcd_parameter_sequence: Parameters) -> (r: Declaration)
    ensures
        decl_model(r) == gcd_model(params_model(gcd_parameter_sequence)),
{
    let choice = Command::IfElse(
        at_most(var("b"), var("a")),
        Box::new(div_call_command("a", "b")),
        Box::new(div_call_command("b", "a")),
    );
    let while_body = Command::Var(Identifier::new("c"), Sort::from("Int"), Box::new(choice));
    let condition = Expression::And(Box::new(positive_expr("a")), Box::new(positive_expr("b")));
    let gcd_while = Command::While(condition, Box::new(while_body));
    assert(cmd_model(choice) == CmdModel::IfElse(
        ExprModel::LessThanOrEqual(Box::new(variable_model("b"@)), Box::new(variable_model("a"@))),
        Box::new(div_call("a"@, "b"@)),
        Box::new(div_call("b"@, "a"@)),
    ));
    assert(cmd_model(while_body) == CmdModel::Var("c"@, "Int"@, Box::new(cmd_model(choice))));
    let gcd_if = Command::IfElse(
        positive_expr("a"),
        Box::new(assign("g", var("a"))),
        Box::new(assign("g", var("b"))),
    );
    let body = then(assign("c", num(0)), then(gcd_while, then(gcd_if, assign("n", var("c")))));
    let outs = int_parameters(&["g", "n"]);
    assert(seq!["g", "n"].map_values(|s: &str| s@) =~= seq!["g"@, "n"@]);
    Declaration::Procedure(Identifier::new("gcd"), gcd_parameter_sequence, outs, body)
}

/// The sample program computing `gcd(a*b, a+b)` by repeated subtraction, with
/// `gcd_parameter_sequence` as the input parameters of its `gcd` procedure.
pub fn generate_gcd(gcd_parameter_sequence: Parameters) -> (r: Program)
    ensures
        program_model(r) == gcd_program(params_model(gcd_parameter_sequence)),
{
    let c = Declaration::Variable(Identifier::new("c"), Sort::from("Int"));
    let first = Declarations::Sequence(Box::new(Declarations::Empty), c);
    assert(decls_model(Declarations::Empty) == Seq::<DeclModel>::empty());
    assert(decls_model(first) =~= seq![DeclModel::Variable("c"@, "Int"@)]);
    let second = Declarations::Sequence(Box::new(first), div_declaration());
    assert(decls_model(second) =~= seq![DeclModel::Variable("c"@, "Int"@), div_model()]);
    let declarations = Declarations::Sequence(
        Box::new(second),
        gcd_declaration(gcd_parameter_sequence),
    );
    let parameters = int_parameters(&["a", "b", "c", "d"]);
    assert(seq!["a", "b", "c", "d"].map_values(|s: &str| s@) =~= seq!["a"@, "b"@, "c"@, "d"@]);
    let arguments = two_expressions(product(var("a"), var("b")), sum(var("a"), var("b")));
    let main = Command::Call(Identifier::new("gcd"), arguments, two_variables("c", "d"), None);
    let program = Program(declarations, Identifier::new("gcd"), parameters, main);
    assert(decls_model(program.0) =~= gcd_program(params_model(gcd_parameter_sequence)).decls);
    program
}

} // verus!
