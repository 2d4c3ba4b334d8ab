use vstd::prelude::*;

use crate::text::owned;
use crate::types::{
    cmd_model, decl_model, decls_model, expr_model, exprs_model, params_model, program_model,
    vars_model, CmdModel, Command, DeclModel, Declaration, Declarations, ExprModel, Expression,
    Expressions, Parameters, ParamsModel, Program, ProgramModel, Value, Variables,
};

verus! {

// ---------------------------------------------------------------------------
// The canonical text of a tree. Commands, declarations and programs span lines;
// a nested block is indented by two spaces.

pub open spec fn digit_char(d: int) -> char {
    if d == 0 {
        '0'
    } else if d == 1 {
        '1'
    } else if d == 2 {
        '2'
    } else if d == 3 {
        '3'
    } else if d == 4 {
        '4'
    } else if d == 5 {
        '5'
    } else if d == 6 {
        '6'
    } else if d == 7 {
        '7'
    } else if d == 8 {
        '8'
    } else {
        '9'
    }
}

/// The decimal digits of `n`, most significant first.
pub open spec fn digits(n: nat) -> Seq<char>
    decreases n,
{
    if n < 10 {
        seq![digit_char(n as int)]
    } else {
        digits(n / 10).push(digit_char((n % 10) as int))
    }
}

pub open spec fn int_text(n: int) -> Seq<char> {
    if n < 0 {
        seq!['-'] + digits((-n) as nat)
    } else {
        digits(n as nat)
    }
}

pub open spec fn value_text(v: Value) -> Seq<char> {
    match v {
        Value::Numeral(n) => int_text(n as int),
        Value::True => "true"@,
        Value::False => "false"@,
    }
}

pub open spec fn binary_text(l: Seq<char>, op: Seq<char>, r: Seq<char>) -> Seq<char> {
    "("@ + l + op + r + ")"@
}

pub open spec fn expr_text(e: ExprModel) -> Seq<char>
    decreases e,
{
    match e {
        ExprModel::Value(v) => value_text(v),
        ExprModel::Variable(x) => x,
        ExprModel::Sum(l, r) => binary_text(expr_text(*l), "+"@, expr_text(*r)),
        ExprModel::Difference(l, r) => binary_text(expr_text(*l), "-"@, expr_text(*r)),
        ExprModel::Product(l, r) => binary_text(expr_text(*l), "*"@, expr_text(*r)),
        ExprModel::Division(l, r) => binary_text(expr_text(*l), "/"@, expr_text(*r)),
        ExprModel::Negative(x) => "-("@ + expr_text(*x) + ")"@,
        ExprModel::Equal(l, r) => expr_text(*l) + "="@ + expr_text(*r),
        ExprModel::LessThanOrEqual(l, r) => expr_text(*l) + "≤"@ + expr_text(*r),
        ExprModel::And(l, r) => binary_text(expr_text(*l), "∧"@, expr_text(*r)),
        ExprModel::Or(l, r) => binary_text(expr_text(*l), "∨"@, expr_text(*r)),
        ExprModel::Not(x) => "¬("@ + expr_text(*x) + ")"@,
    }
}

/// The items with `sep` between each two neighbours.
pub open spec fn join(items: Seq<Seq<char>>, sep: Seq<char>) -> Seq<char>
    decreases items.len(),
{
    if items.len() == 0 {
        Seq::empty()
    } else if items.len() == 1 {
        items[0]
    } else {
        join(items.drop_last(), sep) + sep + items.last()
    }
}

pub open spec fn exprs_text(es: Seq<ExprModel>) -> Seq<char> {
    join(es.map_values(|e: ExprModel| expr_text(e)), ", "@)
}

pub open spec fn params_text(ps: ParamsModel) -> Seq<char> {
    join(ps.map_values(|p: (Seq<char>, Seq<char>)| p.0 + ":"@ + p.1), ","@)
}

pub open spec fn indent(lines: Seq<Seq<char>>) -> Seq<Seq<char>> {
    lines.map_values(|l: Seq<char>| "  "@ + l)
}

pub open spec fn cmd_lines(c: CmdModel) -> Seq<Seq<char>>
    decreases c,
{
    match c {
        CmdModel::Assign(x, e) => seq![x + ":="@ + expr_text(e) + ";"@],
        CmdModel::Var(x, s, body) => seq!["var "@ + x + ":"@ + s + ";"@] + cmd_lines(*body),
        CmdModel::Sequence(c1, c2) => cmd_lines(*c1) + cmd_lines(*c2),
        CmdModel::IfElse(e, c1, c2) => seq!["if ("@ + expr_text(e) + ") then {"@] + indent(
            cmd_lines(*c1),
        ) + seq!["} else {"@] + indent(cmd_lines(*c2)) + seq!["}"@],
        CmdModel::If(e, c1) => seq!["if ("@ + expr_text(e) + ") then"@] + indent(cmd_lines(*c1)),
        CmdModel::While(e, c1) => seq!["while "@ + expr_text(e) + " do {"@] + indent(
            cmd_lines(*c1),
        ) + seq!["}"@],
        CmdModel::Call(x, es, vs, _) => seq![
            "call "@ + x + "("@ + exprs_text(es) + ";"@ + join(vs, ", "@) + ");"@,
        ],
    }
}

pub open spec fn decl_lines(d: DeclModel) -> Seq<Seq<char>> {
    match d {
        DeclModel::Variable(x, s) => seq!["var "@ + x + ":"@ + s + ";"@],
        DeclModel::Procedure(x, ins, outs, body) => {
            let outputs = if outs.len() == 0 {
                Seq::empty()
            } else {
                "; ref "@ + params_text(outs)
            };
            seq!["procedure "@ + x + " ("@ + params_text(ins) + outputs + ") {"@] + indent(
                cmd_lines(body),
            ) + seq!["}"@]
        },
    }
}

pub open spec fn decls_lines(ds: Seq<DeclModel>) -> Seq<Seq<char>>
    decreases ds.len(),
{
    if ds.len() == 0 {
        Seq::empty()
    } else {
        decls_lines(ds.drop_last()) + decl_lines(ds.last())
    }
}

pub open spec fn program_lines(p: ProgramModel) -> Seq<Seq<char>> {
    decls_lines(p.decls) + seq!["program "@ + p.name + " ("@ + params_text(p.params) + ") {"@]
        + indent(cmd_lines(p.body)) + seq!["}"@]
}

pub open spec fn texts(v: Seq<String>) -> Seq<Seq<char>> {
    v.map_values(|s: String| s@)
}

// ---------------------------------------------------------------------------
// Writing the text.

fn cat(a: String, b: &str) -> (r: String)
    ensures
        r@ == a@ + b@,
{
    a.concat(b)
}

fn digit(d: u32) -> (r: &'static str)
    requires
        d < 10,
    ensures
        r@ == seq![digit_char(d as int)],
{
    proof {
        reveal_strlit("0");
        reveal_strlit("1");
        reveal_strlit("2");
        reveal_strlit("3");
        reveal_strlit("4");
        reveal_strlit("5");
        reveal_strlit("6");
        reveal_strlit("7");
        reveal_strlit("8");
        reveal_strlit("9");
    }
    if d == 0 {
        "0"
    } else if d == 1 {
        "1"
    } else if d == 2 {
        "2"
    } else if d == 3 {
        "3"
    } else if d == 4 {
        "4"
    } else if d == 5 {
        "5"
    } else if d == 6 {
        "6"
    } else if d == 7 {
        "7"
    } else if d == 8 {
        "8"
    } else {
        "9"
    }
}

fn write_digits(n: u32) -> (r: String)
    ensures
        r@ == digits(n as nat),
    decreases n,
{
    if n < 10 {
        owned(digit(n))
    } else {
        cat(write_digits(n / 10), digit(n % 10))
    }
}

fn write_int(n: i32) -> (r: String)
    ensures
        r@ == int_text(n as int),
{
    if n < 0 {
        let magnitude: u32 = (0i64 - n as i64) as u32;
        proof {
            reveal_strlit("-");
        }
        let minus = owned("-");
        let d = write_digits(magnitude);
        cat(minus, d.as_str())
    } else {
        write_digits(n as u32)
    }
}

fn write_binary(l: String, op: &str, r: String) -> (t: String)
    ensures
        t@ == binary_text(l@, op@, r@),
{
    cat(cat(cat(cat(owned("("), l.as_str()), op), r.as_str()), ")")
}

/// The items with `sep` between each two neighbours.
fn write_joined(items: &Vec<String>, sep: &str) -> (r: String)
    ensures
        r@ == join(texts(items@), sep@),
{
    let mut r = String::new();
    let mut i: usize = 0;
    while i < items.len()
        invariant
            i <= items@.len(),
            r@ == join(texts(items@.subrange(0, i as int)), sep@),
        decreases items@.len() - i,
    {
        proof {
            let next = texts(items@.subrange(0, i + 1));
            assert(next.drop_last() =~= texts(items@.subrange(0, i as int)));
            assert(next.last() == items@[i as int]@);
            if i == 0 {
                assert(next.len() == 1);
            }
        }
        if i > 0 {
            r = cat(r, sep);
        }
        r = cat(r, items[i].as_str());
        i = i + 1;
    }
    assert(items@.subrange(0, items@.len() as int) =~= items@);
    r
}

fn indent_lines(lines: Vec<String>) -> (r: Vec<String>)
    ensures
        texts(r@) == indent(texts(lines@)),
{
    let mut r: Vec<String> = Vec::new();
    let mut i: usize = 0;
    while i < lines.len()
        invariant
            i <= lines@.len(),
            texts(r@) == indent(texts(lines@.subrange(0, i as int))),
        decreases lines@.len() - i,
    {
        let ghost before = r@;
        r.push(cat(owned("  "), lines[i].as_str()));
        assert(texts(r@) =~= texts(before).push("  "@ + lines@[i as int]@));
        assert(indent(texts(lines@.subrange(0, i + 1))) =~= indent(
            texts(lines@.subrange(0, i as int)),
        ).push("  "@ + lines@[i as int]@));
        i = i + 1;
    }
    assert(lines@.subrange(0, lines@.len() as int) =~= lines@);
    r
}

/// Appends `more` to `lines`.
fn append_lines(lines: &mut Vec<String>, more: Vec<String>)
    ensures
        texts(final(lines)@) == texts(old(lines)@) + texts(more@),
{
    let mut more = more;
    let ghost start = texts(lines@);
    let ghost added = texts(more@);
    lines.append(&mut more);
    assert(texts(lines@) =~= start + added);
}

fn one_line(s: String) -> (r: Vec<String>)
    ensures
        texts(r@) == seq![s@],
{
    let mut r: Vec<String> = Vec::new();
    r.push(s);
    assert(texts(r@) =~= seq![r@[0]@]);
    r
}

impl Value {
    /// `true`, `false`, or the numeral in decimal.
    pub fn render(&self) -> (r: String)
        ensures
            r@ == value_text(*self),
    {
        match self {
            Value::Numeral(n) => write_int(*n),
            Value::True => owned("true"),
            Value::False => owned("false"),
        }
    }
}

impl Expression {
    pub fn render(&self) -> (r: String)
        ensures
            r@ == expr_text(expr_model(*self)),
        decreases self,
    {
        match self {
            Expression::Value(v) => v.render(),
            Expression::Variable(x) => x.0.clone(),
            Expression::Sum(l, r) => write_binary(l.render(), "+", r.render()),
            Expression::Difference(l, r) => write_binary(l.render(), "-", r.render()),
            Expression::Product(l, r) => write_binary(l.render(), "*", r.render()),
            Expression::Division(l, r) => write_binary(l.render(), "/", r.render()),
            Expression::Negative(x) => cat(cat(owned("-("), x.render().as_str()), ")"),
            Expression::Equal(l, r) => cat(cat(l.render(), "="), r.render().as_str()),
            Expression::LessThanOrEqual(l, r) => cat(cat(l.render(), "≤"), r.render().as_str()),
            Expression::And(l, r) => write_binary(l.render(), "∧", r.render()),
            Expression::Or(l, r) => write_binary(l.render(), "∨", r.render()),
            Expression::Not(x) => cat(cat(owned("¬("), x.render().as_str()), ")"),
        }
    }
}

} // verus!

verus! {

impl Expressions {
    fn items(&self) -> (r: Vec<String>)
        ensures
            texts(r@) == exprs_model(*self).map_values(|x: ExprModel| expr_text(x)),
        decreases self,
    {
        match self {
            Expressions::Empty => {
                let r: Vec<String> = Vec::new();
                assert(texts(r@) =~= Seq::<Seq<char>>::empty());
                r
            },
            Expressions::Sequence(e, rest) => {
                let mut r = rest.items();
                let ghost tail = texts(r@);
                r.insert(0, e.render());
                assert(texts(r@) =~= seq![expr_text(expr_model(*e))] + tail);
                assert(exprs_model(*self).map_values(|x: ExprModel| expr_text(x)) =~= seq![
                    expr_text(expr_model(*e)),
                ] + exprs_model(**rest).map_values(|x: ExprModel| expr_text(x)));
                r
            },
        }
    }

    /// The expressions separated by `, `.
    pub fn render(&self) -> (r: String)
        ensures
            r@ == exprs_text(exprs_model(*self)),
    {
        write_joined(&self.items(), ", ")
    }
}

impl Variables {
    fn items(&self) -> (r: Vec<String>)
        ensures
            texts(r@) == vars_model(*self),
        decreases self,
    {
        match self {
            Variables::Empty => {
                let r: Vec<String> = Vec::new();
                assert(texts(r@) =~= Seq::<Seq<char>>::empty());
                r
            },
            Variables::Sequence(v, rest) => {
                let mut r = rest.items();
                let ghost tail = texts(r@);
                r.insert(0, v.0.0.clone());
                assert(texts(r@) =~= seq![v@] + tail);
                r
            },
        }
    }

    /// The variable names separated by `, `.
    pub fn render(&self) -> (r: String)
        ensures
            r@ == join(vars_model(*self), ", "@),
    {
        write_joined(&self.items(), ", ")
    }
}

impl Parameters {
    fn items(&self) -> (r: Vec<String>)
        ensures
            texts(r@) == params_model(*self).map_values(
                |p: (Seq<char>, Seq<char>)| p.0 + ":"@ + p.1,
            ),
        decreases self,
    {
        match self {
            Parameters::Empty => {
                let r: Vec<String> = Vec::new();
                assert(texts(r@) =~= Seq::<Seq<char>>::empty());
                r
            },
            Parameters::Sequence(rest, v, s) => {
                let mut r = rest.items();
                let ghost before = texts(r@);
                r.push(cat(cat(v.0.0.clone(), ":"), s.0.0.as_str()));
                assert(texts(r@) =~= before.push(v@ + ":"@ + s@));
                assert(params_model(*self).map_values(|p: (Seq<char>, Seq<char>)| p.0 + ":"@ + p.1)
                    =~= params_model(**rest).map_values(
                    |p: (Seq<char>, Seq<char>)| p.0 + ":"@ + p.1,
                ).push(v@ + ":"@ + s@));
                r
            },
        }
    }

    /// The parameters as `name:Sort`, separated by commas.
    pub fn render(&self) -> (r: String)
        ensures
            r@ == params_text(params_model(*self)),
    {
        write_joined(&self.items(), ",")
    }
}

impl Command {
    /// The lines of the command's text.
    pub fn lines(&self) -> (r: Vec<String>)
        ensures
            texts(r@) == cmd_lines(cmd_model(*self)),
        decreases self,
    {
        match self {
            Command::Assign(x, e) => {
                let line = cat(cat(cat(x.0.clone(), ":="), e.render().as_str()), ";");
                one_line(line)
            },
            Command::Var(x, s, body) => {
                let line = cat(cat(cat(cat(owned("var "), x.0.as_str()), ":"), s.0.0.as_str()), ";");
                let mut r = one_line(line);
                append_lines(&mut r, body.lines());
                r
            },
            Command::Sequence(c1, c2) => {
                let mut r = c1.lines();
                append_lines(&mut r, c2.lines());
                r
            },
            Command::IfElse(e, c1, c2) => {
                let head = cat(cat(owned("if ("), e.render().as_str()), ") then {");
                let mut r = one_line(head);
                append_lines(&mut r, indent_lines(c1.lines()));
                append_lines(&mut r, one_line(owned("} else {")));
                append_lines(&mut r, indent_lines(c2.lines()));
                append_lines(&mut r, one_line(owned("}")));
                r
            },
            Command::If(e, c1) => {
                let head = cat(cat(owned("if ("), e.render().as_str()), ") then");
                let mut r = one_line(head);
                append_lines(&mut r, indent_lines(c1.lines()));
                r
            },
            Command::While(e, c1) => {
                let head = cat(cat(owned("while "), e.render().as_str()), " do {");
                let mut r = one_line(head);
                append_lines(&mut r, indent_lines(c1.lines()));
                append_lines(&mut r, one_line(owned("}")));
                r
            },
            Command::Call(x, es, vs, _) => {
                let line = cat(cat(owned("call "), x.0.as_str()), "(");
                let line = cat(cat(line, es.render().as_str()), ";");
                let line = cat(cat(line, vs.render().as_str()), ");");
                one_line(line)
            },
        }
    }

    /// The command's text, its lines separated by newlines.
    pub fn render(&self) -> (r: String)
        ensures
            r@ == join(cmd_lines(cmd_model(*self)), "\n"@),
    {
        write_joined(&self.lines(), "\n")
    }
}

impl Declaration {
    pub fn lines(&self) -> (r: Vec<String>)
        ensures
            texts(r@) == decl_lines(decl_model(*self)),
    {
        match self {
            Declaration::Variable(x, s) => {
                let line = cat(cat(cat(cat(owned("var "), x.0.as_str()), ":"), s.0.0.as_str()), ";");
                one_line(line)
            },
            Declaration::Procedure(x, ins, outs, body) => {
                let head = cat(cat(cat(owned("procedure "), x.0.as_str()), " ("), ins.render().as_str());
                let head = match outs {
                    Parameters::Empty => head,
                    Parameters::Sequence(..) => cat(cat(head, "; ref "), outs.render().as_str()),
                };
                proof {
                    let outputs = if params_model(*outs).len() == 0 {
                        Seq::<char>::empty()
                    } else {
                        "; ref "@ + params_text(params_model(*outs))
                    };
                    assert(params_model(Parameters::Empty).len() == 0);
                    assert(head@ =~= "procedure "@ + x@ + " ("@ + params_text(params_model(*ins))
                        + outputs);
                }
                let mut r = one_line(cat(head, ") {"));
                append_lines(&mut r, indent_lines(body.lines()));
                append_lines(&mut r, one_line(owned("}")));
                r
            },
        }
    }

    pub fn render(&self) -> (r: String)
        ensures
            r@ == join(decl_lines(decl_model(*self)), "\n"@),
    {
        write_joined(&self.lines(), "\n")
    }
}

impl Declarations {
    pub fn lines(&self) -> (r: Vec<String>)
        ensures
            texts(r@) == decls_lines(decls_model(*self)),
        decreases self,
    {
        match self {
            Declarations::Empty => {
                let r: Vec<String> = Vec::new();
                assert(texts(r@) =~= Seq::<Seq<char>>::empty());
                r
            },
            Declarations::Sequence(rest, d) => {
                assert(decls_model(*self).drop_last() =~= decls_model(**rest));
                let mut r = rest.lines();
                append_lines(&mut r, d.lines());
                r
            },
        }
    }

    pub fn render(&self) -> (r: String)
        ensures
            r@ == join(decls_lines(decls_model(*self)), "\n"@),
    {
        write_joined(&self.lines(), "\n")
    }
}

impl Program {
    pub fn lines(&self) -> (r: Vec<String>)
        ensures
            texts(r@) == program_lines(program_model(*self)),
    {
        let Program(declarations, name, parameters, body) = self;
        let mut r = declarations.lines();
        let head = cat(cat(owned("program "), name.0.as_str()), " (");
        let head = cat(cat(head, parameters.render().as_str()), ") {");
        append_lines(&mut r, one_line(head));
        append_lines(&mut r, indent_lines(body.lines()));
        append_lines(&mut r, one_line(owned("}")));
        r
    }

    /// The program's canonical text.
    pub fn render(&self) -> (r: String)
        ensures
            r@ == join(program_lines(program_model(*self)), "\n"@),
    {
        write_joined(&self.lines(), "\n")
    }
}

} // verus!
