use vstd::prelude::*;

verus! {

/// A run-time value: an integer numeral or one of the two truth values.
#[derive(Debug, Clone, Copy, PartialEq, Eq, Structural)]
pub enum Value {
    Numeral(i32),
    True,
    False,
}

/// A name of a variable, a procedure, a program or a sort.
#[derive(Debug, PartialEq, Eq)]
pub struct Identifier(pub String);

/// A variable named in the output list of a call.
#[derive(Debug, PartialEq, Eq)]
pub struct Variable(pub Identifier);

/// A type tag; `Int` and `Bool` are the sorts the checker knows.
#[derive(Debug, PartialEq, Eq)]
pub struct Sort(pub Identifier);

/// A whole program: its declarations, its name, its formal parameters and its body.
#[derive(Debug, PartialEq, Eq)]
pub struct Program(pub Declarations, pub Identifier, pub Parameters, pub Command);

/// Declarations, in order; the last one is the outermost.
#[derive(Debug, PartialEq, Eq)]
pub enum Declarations {
    Empty,
    Sequence(Box<Declarations>, Declaration),
}

/// Argument expressions of a call, in order; the first one is the outermost.
#[derive(Debug, PartialEq, Eq)]
pub enum Expressions {
    Empty,
    Sequence(Expression, Box<Expressions>),
}

/// Output variables of a call, in order; the first one is the outermost.
#[derive(Debug, PartialEq, Eq)]
pub enum Variables {
    Empty,
    Sequence(Variable, Box<Variables>),
}

#[derive(Debug, PartialEq, Eq)]
pub enum Expression {
    Value(Value),
    Variable(Identifier),
    Sum(Box<Expression>, Box<Expression>),
    Difference(Box<Expression>, Box<Expression>),
    Product(Box<Expression>, Box<Expression>),
    Division(Box<Expression>, Box<Expression>),
    Negative(Box<Expression>),
    Equal(Box<Expression>, Box<Expression>),
    LessThanOrEqual(Box<Expression>, Box<Expression>),
    And(Box<Expression>, Box<Expression>),
    Or(Box<Expression>, Box<Expression>),
    Not(Box<Expression>),
}

/// A command; a `Call` carries the signature that type checking resolved, if any.
#[derive(Debug, PartialEq, Eq)]
pub enum Command {
    Assign(Identifier, Expression),
    Var(Identifier, Sort, Box<Command>),
    Sequence(Box<Command>, Box<Command>),
    IfElse(Expression, Box<Command>, Box<Command>),
    If(Expression, Box<Command>),
    While(Expression, Box<Command>),
    Call(Identifier, Expressions, Variables, Option<Signature>),
}

#[derive(Debug, PartialEq, Eq)]
pub enum Declaration {
    Variable(Identifier, Sort),
    Procedure(Identifier, Parameters, Parameters, Command),
}

/// Formal parameters, in order; the last one is the outermost.
#[derive(Debug, PartialEq, Eq)]
pub enum Parameters {
    Empty,
    Sequence(Box<Parameters>, Variable, Sort),
}

/// A procedure's name with the sorts of its input and of its output parameters.
pub type Signature = (Identifier, (Vec<Sort>, Vec<Sort>));

// ---------------------------------------------------------------------------
// Mathematical models of the syntax tree: names become character sequences and
// the cons-style lists become sequences.

pub type SignatureModel = (Seq<char>, (Seq<Seq<char>>, Seq<Seq<char>>));

/// Parameters as (name, sort) pairs in declaration order.
pub type ParamsModel = Seq<(Seq<char>, Seq<char>)>;

pub enum ExprModel {
    Value(Value),
    Variable(Seq<char>),
    Sum(Box<ExprModel>, Box<ExprModel>),
    Difference(Box<ExprModel>, Box<ExprModel>),
    Product(Box<ExprModel>, Box<ExprModel>),
    Division(Box<ExprModel>, Box<ExprModel>),
    Negative(Box<ExprModel>),
    Equal(Box<ExprModel>, Box<ExprModel>),
    LessThanOrEqual(Box<ExprModel>, Box<ExprModel>),
    And(Box<ExprModel>, Box<ExprModel>),
    Or(Box<ExprModel>, Box<ExprModel>),
    Not(Box<ExprModel>),
}

pub enum CmdModel {
    Assign(Seq<char>, ExprModel),
    Var(Seq<char>, Seq<char>, Box<CmdModel>),
    Sequence(Box<CmdModel>, Box<CmdModel>),
    IfElse(ExprModel, Box<CmdModel>, Box<CmdModel>),
    If(ExprModel, Box<CmdModel>),
    While(ExprModel, Box<CmdModel>),
    Call(Seq<char>, Seq<ExprModel>, Seq<Seq<char>>, Option<SignatureModel>),
}

pub enum DeclModel {
    Variable(Seq<char>, Seq<char>),
    Procedure(Seq<char>, ParamsModel, ParamsModel, CmdModel),
}

pub struct ProgramModel {
    pub decls: Seq<DeclModel>,
    pub name: Seq<char>,
    pub params: ParamsModel,
    pub body: CmdModel,
}

impl View for Identifier {
    type V = Seq<char>;

    open spec fn view(&self) -> Seq<char> {
        self.0@
    }
}

impl View for Variable {
    type V = Seq<char>;

    open spec fn view(&self) -> Seq<char> {
        self.0@
    }
}

impl View for Sort {
    type V = Seq<char>;

    open spec fn view(&self) -> Seq<char> {
        self.0@
    }
}

/// A result with its value and its message taken to their models.
pub open spec fn outcome<T: View>(r: Result<T, String>) -> Result<T::V, Seq<char>> {
    match r {
        Ok(v) => Ok(v@),
        Err(m) => Err(m@),
    }
}

pub open spec fn sorts_model(s: Seq<Sort>) -> Seq<Seq<char>> {
    s.map_values(|x: Sort| x@)
}

pub open spec fn signature_model(s: Signature) -> SignatureModel {
    (s.0@, (sorts_model(s.1.0@), sorts_model(s.1.1@)))
}

pub open spec fn expr_model(e: Expression) -> ExprModel
    decreases e,
{
    match e {
        Expression::Value(v) => ExprModel::Value(v),
        Expression::Variable(x) => ExprModel::Variable(x@),
        Expression::Sum(l, r) => ExprModel::Sum(Box::new(expr_model(*l)), Box::new(expr_model(*r))),
        Expression::Difference(l, r) => ExprModel::Difference(
            Box::new(expr_model(*l)),
            Box::new(expr_model(*r)),
        ),
        Expression::Product(l, r) => ExprModel::Product(
            Box::new(expr_model(*l)),
            Box::new(expr_model(*r)),
        ),
        Expression::Division(l, r) => ExprModel::Division(
            Box::new(expr_model(*l)),
            Box::new(expr_model(*r)),
        ),
        Expression::Negative(x) => ExprModel::Negative(Box::new(expr_model(*x))),
        Expression::Equal(l, r) => ExprModel::Equal(
            Box::new(expr_model(*l)),
            Box::new(expr_model(*r)),
        ),
        Expression::LessThanOrEqual(l, r) => ExprModel::LessThanOrEqual(
            Box::new(expr_model(*l)),
            Box::new(expr_model(*r)),
        ),
        Expression::And(l, r) => ExprModel::And(Box::new(expr_model(*l)), Box::new(expr_model(*r))),
        Expression::Or(l, r) => ExprModel::Or(Box::new(expr_model(*l)), Box::new(expr_model(*r))),
        Expression::Not(x) => ExprModel::Not(Box::new(expr_model(*x))),
    }
}

pub open spec fn exprs_model(es: Expressions) -> Seq<ExprModel>
    decreases es,
{
    match es {
        Expressions::Empty => Seq::empty(),
        Expressions::Sequence(e, rest) => seq![expr_model(e)] + exprs_model(*rest),
    }
}

pub open spec fn vars_model(vs: Variables) -> Seq<Seq<char>>
    decreases vs,
{
    match vs {
        Variables::Empty => Seq::empty(),
        Variables::Sequence(v, rest) => seq![v@] + vars_model(*rest),
    }
}

pub open spec fn params_model(ps: Parameters) -> ParamsModel
    decreases ps,
{
    match ps {
        Parameters::Empty => Seq::empty(),
        Parameters::Sequence(rest, v, s) => params_model(*rest).push((v@, s@)),
    }
}

pub open spec fn cmd_model(c: Command) -> CmdModel
    decreases c,
{
    match c {
        Command::Assign(x, e) => CmdModel::Assign(x@, expr_model(e)),
        Command::Var(x, s, body) => CmdModel::Var(x@, s@, Box::new(cmd_model(*body))),
        Command::Sequence(c1, c2) => CmdModel::Sequence(
            Box::new(cmd_model(*c1)),
            Box::new(cmd_model(*c2)),
        ),
        Command::IfElse(e, c1, c2) => CmdModel::IfElse(
            expr_model(e),
            Box::new(cmd_model(*c1)),
            Box::new(cmd_model(*c2)),
        ),
        Command::If(e, c1) => CmdModel::If(expr_model(e), Box::new(cmd_model(*c1))),
        Command::While(e, c1) => CmdModel::While(expr_model(e), Box::new(cmd_model(*c1))),
        Command::Call(x, es, vs, sig) => CmdModel::Call(
            x@,
            exprs_model(es),
            vars_model(vs),
            match sig {
                Some(s) => Some(signature_model(s)),
                None => None,
            },
        ),
    }
}

pub open spec fn decl_model(d: Declaration) -> DeclModel {
    match d {
        Declaration::Variable(x, s) => DeclModel::Variable(x@, s@),
        Declaration::Procedure(x, ins, outs, body) => DeclModel::Procedure(
            x@,
            params_model(ins),
            params_model(outs),
            cmd_model(body),
        ),
    }
}

pub open spec fn decls_model(ds: Declarations) -> Seq<DeclModel>
    decreases ds,
{
    match ds {
        Declarations::Empty => Seq::empty(),
        Declarations::Sequence(rest, d) => decls_model(*rest).push(decl_model(d)),
    }
}

pub open spec fn program_model(p: Program) -> ProgramModel {
    ProgramModel {
        decls: decls_model(p.0),
        name: p.1@,
        params: params_model(p.2),
        body: cmd_model(p.3),
    }
}

// ---------------------------------------------------------------------------
// Constructors and clones.

impl Identifier {
    pub fn new(name: &str) -> (r: Identifier)
        ensures
            r@ == name@,
    {
        Identifier(name.to_owned())
    }
}

impl Clone for Identifier {
    fn clone(&self) -> (r: Self)
        ensures
            r == *self,
    {
        Identifier(self.0.clone())
    }
}

impl Clone for Variable {
    fn clone(&self) -> (r: Self)
        ensures
            r == *self,
    {
        Variable(self.0.clone())
    }
}

impl Clone for Sort {
    fn clone(&self) -> (r: Self)
        ensures
            r == *self,
    {
        Sort(self.0.clone())
    }
}

/// Copies a list of sorts, keeping each sort's name.
pub fn clone_sorts(v: &Vec<Sort>) -> (r: Vec<Sort>)
    ensures
        sorts_model(r@) == sorts_model(v@),
{
    let mut r: Vec<Sort> = Vec::new();
    let mut i: usize = 0;
    while i < v.len()
        invariant
            i <= v@.len(),
            r@ == v@.subrange(0, i as int),
        decreases v@.len() - i,
    {
        r.push(v[i].clone());
        i = i + 1;
    }
    assert(r@ == v@);
    r
}

pub fn clone_signature(s: &Signature) -> (r: Signature)
    ensures
        signature_model(r) == signature_model(*s),
{
    (s.0.clone(), (clone_sorts(&s.1.0), clone_sorts(&s.1.1)))
}

impl Clone for Expression {
    fn clone(&self) -> (r: Self)
        ensures
            r == *self,
        decreases self,
    {
        match self {
            Expression::Value(v) => Expression::Value(*v),
            Expression::Variable(x) => Expression::Variable(x.clone()),
            Expression::Sum(l, r) => Expression::Sum(
                Box::new((**l).clone()),
                Box::new((**r).clone()),
            ),
            Expression::Difference(l, r) => Expression::Difference(
                Box::new((**l).clone()),
                Box::new((**r).clone()),
            ),
            Expression::Product(l, r) => Expression::Product(
                Box::new((**l).clone()),
                Box::new((**r).clone()),
            ),
            Expression::Division(l, r) => Expression::Division(
                Box::new((**l).clone()),
                Box::new((**r).clone()),
            ),
            Expression::Negative(x) => Expression::Negative(Box::new((**x).clone())),
            Expression::Equal(l, r) => Expression::Equal(
                Box::new((**l).clone()),
                Box::new((**r).clone()),
            ),
            Expression::LessThanOrEqual(l, r) => Expression::LessThanOrEqual(
                Box::new((**l).clone()),
                Box::new((**r).clone()),
            ),
            Expression::And(l, r) => Expression::And(
                Box::new((**l).clone()),
                Box::new((**r).clone()),
            ),
            Expression::Or(l, r) => Expression::Or(
                Box::new((**l).clone()),
                Box::new((**r).clone()),
            ),
            Expression::Not(x) => Expression::Not(Box::new((**x).clone())),
        }
    }
}

impl Clone for Expressions {
    fn clone(&self) -> (r: Self)
        ensures
            r == *self,
        decreases self,
    {
        match self {
            Expressions::Empty => Expressions::Empty,
            Expressions::Sequence(e, rest) => Expressions::Sequence(
                e.clone(),
                Box::new((**rest).clone()),
            ),
        }
    }
}

impl Clone for Variables {
    fn clone(&self) -> (r: Self)
        ensures
            r == *self,
        decreases self,
    {
        match self {
            Variables::Empty => Variables::Empty,
            Variables::Sequence(v, rest) => Variables::Sequence(
                v.clone(),
                Box::new((**rest).clone()),
            ),
        }
    }
}

impl Clone for Parameters {
    fn clone(&self) -> (r: Self)
        ensures
            r == *self,
        decreases self,
    {
        match self {
            Parameters::Empty => Parameters::Empty,
            Parameters::Sequence(rest, v, s) => Parameters::Sequence(
                Box::new((**rest).clone()),
                v.clone(),
                s.clone(),
            ),
        }
    }
}

impl Clone for Command {
    fn clone(&self) -> (r: Self)
        ensures
            cmd_model(r) == cmd_model(*self),
        decreases self,
    {
        match self {
            Command::Assign(x, e) => Command::Assign(x.clone(), e.clone()),
            Command::Var(x, s, body) => Command::Var(x.clone(), s.clone(), Box::new((**body).clone())),
            Command::Sequence(c1, c2) => Command::Sequence(
                Box::new((**c1).clone()),
                Box::new((**c2).clone()),
            ),
            Command::IfElse(e, c1, c2) => Command::IfElse(
                e.clone(),
                Box::new((**c1).clone()),
                Box::new((**c2).clone()),
            ),
            Command::If(e, c1) => Command::If(e.clone(), Box::new((**c1).clone())),
            Command::While(e, c1) => Command::While(e.clone(), Box::new((**c1).clone())),
            Command::Call(x, es, vs, sig) => {
                let sig2 = match sig {
                    Some(s) => Some(clone_signature(s)),
                    None => None,
                };
                Command::Call(x.clone(), es.clone(), vs.clone(), sig2)
            },
        }
    }
}

impl Clone for Declaration {
    fn clone(&self) -> (r: Self)
        ensures
            decl_model(r) == decl_model(*self),
    {
        match self {
            Declaration::Variable(x, s) => Declaration::Variable(x.clone(), s.clone()),
            Declaration::Procedure(x, ins, outs, body) => Declaration::Procedure(
                x.clone(),
                ins.clone(),
                outs.clone(),
                body.clone(),
            ),
        }
    }
}

impl Clone for Declarations {
    fn clone(&self) -> (r: Self)
        ensures
            decls_model(r) == decls_model(*self),
        decreases self,
    {
        match self {
            Declarations::Empty => Declarations::Empty,
            Declarations::Sequence(rest, d) => Declarations::Sequence(
                Box::new((**rest).clone()),
                d.clone(),
            ),
        }
    }
}

// ---------------------------------------------------------------------------
// Conversions used to build trees by hand. A conversion from a string slice makes a
// `String`, which specifications cannot build, so its result is stated in the `ensures`
// of `from` alone.

impl From<i32> for Value {
    fn from(value: i32) -> (r: Self)
        ensures
            r == Value::Numeral(value),
    {
        Value::Numeral(value)
    }
}

impl vstd::std_specs::convert::FromSpecImpl<i32> for Value {
    open spec fn obeys_from_spec() -> bool {
        true
    }

    open spec fn from_spec(v: i32) -> Self {
        Value::Numeral(v)
    }
}

impl From<i32> for Expression {
    fn from(value: i32) -> (r: Self)
        ensures
            r == Expression::Value(Value::Numeral(value)),
    {
        Expression::Value(Value::Numeral(value))
    }
}

impl vstd::std_specs::convert::FromSpecImpl<i32> for Expression {
    open spec fn obeys_from_spec() -> bool {
        true
    }

    open spec fn from_spec(v: i32) -> Self {
        Expression::Value(Value::Numeral(v))
    }
}

impl From<i32> for Box<Expression> {
    fn from(value: i32) -> (r: Self)
        ensures
            *r == Expression::Value(Value::Numeral(value)),
    {
        Box::new(Expression::Value(Value::Numeral(value)))
    }
}

impl vstd::std_specs::convert::FromSpecImpl<i32> for Box<Expression> {
    open spec fn obeys_from_spec() -> bool {
        true
    }

    open spec fn from_spec(v: i32) -> Self {
        Box::new(Expression::Value(Value::Numeral(v)))
    }
}

impl From<&str> for Identifier {
    fn from(value: &str) -> (r: Self)
        ensures
            r@ == value@,
    {
        Identifier(value.to_owned())
    }
}

impl vstd::std_specs::convert::FromSpecImpl<&str> for Identifier {
    open spec fn obeys_from_spec() -> bool {
        false
    }

    open spec fn from_spec(v: &str) -> Self {
        arbitrary()
    }
}

impl From<&str> for Sort {
    fn from(value: &str) -> (r: Self)
        ensures
            r@ == value@,
    {
        Sort(Identifier(value.to_owned()))
    }
}

impl vstd::std_specs::convert::FromSpecImpl<&str> for Sort {
    open spec fn obeys_from_spec() -> bool {
        false
    }

    open spec fn from_spec(v: &str) -> Self {
        arbitrary()
    }
}

impl From<&str> for Variable {
    fn from(value: &str) -> (r: Self)
        ensures
            r@ == value@,
    {
        Variable(Identifier(value.to_owned()))
    }
}

impl vstd::std_specs::convert::FromSpecImpl<&str> for Variable {
    open spec fn obeys_from_spec() -> bool {
        false
    }

    open spec fn from_spec(v: &str) -> Self {
        arbitrary()
    }
}

impl From<&str> for Expression {
    fn from(value: &str) -> (r: Self)
        ensures
            r matches Expression::Variable(x) && x@ == value@,
    {
        Expression::Variable(Identifier(value.to_owned()))
    }
}

impl vstd::std_specs::convert::FromSpecImpl<&str> for Expression {
    open spec fn obeys_from_spec() -> bool {
        false
    }

    open spec fn from_spec(v: &str) -> Self {
        arbitrary()
    }
}

impl From<&str> for Box<Expression> {
    fn from(value: &str) -> (r: Self)
        ensures
            *r matches Expression::Variable(x) && x@ == value@,
    {
        Box::new(Expression::Variable(Identifier(value.to_owned())))
    }
}

impl vstd::std_specs::convert::FromSpecImpl<&str> for Box<Expression> {
    open spec fn obeys_from_spec() -> bool {
        false
    }

    open spec fn from_spec(v: &str) -> Self {
        arbitrary()
    }
}

} // verus!
