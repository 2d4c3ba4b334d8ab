use vstd::prelude::*;

use crate::text::{concat2, concat3, concat4, owned, signature_text, write_signature};
use crate::types::{
    clone_signature, cmd_model, decl_model, decls_model, expr_model, exprs_model, params_model,
    outcome, program_model, signature_model, sorts_model, vars_model, CmdModel, Command, DeclModel,
    Declaration, Declarations, ExprModel, Expression, Expressions, Identifier, Parameters,
    ParamsModel, Program, ProgramModel, Signature, SignatureModel, Sort, Value, Variable,
    Variables,
};

verus! {

// ---------------------------------------------------------------------------
// Typing contexts.

pub open spec fn int_sort() -> Seq<char> {
    "Int"@
}

pub open spec fn bool_sort() -> Seq<char> {
    "Bool"@
}

/// The sort bound to each name; a later entry hides an earlier one.
pub open spec fn typing_map(s: Seq<(Identifier, Sort)>) -> Map<Seq<char>, Seq<char>>
    decreases s.len(),
{
    if s.len() == 0 {
        Map::empty()
    } else {
        typing_map(s.drop_last()).insert(s.last().0@, s.last().1@)
    }
}

/// Names with their sorts, as seen at one point of a program.
pub struct VariableTypingMap {
    entries: Vec<(Identifier, Sort)>,
}

impl View for VariableTypingMap {
    type V = Map<Seq<char>, Seq<char>>;

    closed spec fn view(&self) -> Map<Seq<char>, Seq<char>> {
        typing_map(self.entries@)
    }
}

impl VariableTypingMap {
    pub fn new() -> (r: VariableTypingMap)
        ensures
            r@ == Map::<Seq<char>, Seq<char>>::empty(),
    {
        VariableTypingMap { entries: Vec::new() }
    }

    pub fn get(&self, x: &Identifier) -> (r: Option<Sort>)
        ensures
            r is None <==> !self@.contains_key(x@),
            r matches Some(s) ==> s@ == self@[x@],
    {
        let mut i: usize = self.entries.len();
        assert(self.entries@.subrange(0, i as int) =~= self.entries@);
        while i > 0
            invariant
                i <= self.entries@.len(),
                typing_map(self.entries@.subrange(0, i as int)).contains_key(x@)
                    == self@.contains_key(x@),
                typing_map(self.entries@.subrange(0, i as int)).contains_key(x@) ==> typing_map(
                    self.entries@.subrange(0, i as int),
                )[x@] == self@[x@],
            decreases i,
        {
            let ghost prefix = self.entries@.subrange(0, i as int);
            assert(prefix.drop_last() =~= self.entries@.subrange(0, i - 1));
            if self.entries[i - 1].0.0 == x.0 {
                return Some(self.entries[i - 1].1.clone());
            }
            i = i - 1;
        }
        None
    }

    pub fn insert(&mut self, x: Identifier, s: Sort)
        ensures
            final(self)@ == old(self)@.insert(x@, s@),
    {
        let ghost before = self.entries@;
        self.entries.push((x, s));
        assert(self.entries@.drop_last() =~= before);
    }

    pub fn extend(&mut self, other: &VariableTypingMap)
        ensures
            final(self)@ == old(self)@.union_prefer_right(other@),
    {
        let ghost start = self@;
        let mut i: usize = 0;
        while i < other.entries.len()
            invariant
                i <= other.entries@.len(),
                self@ == start.union_prefer_right(typing_map(other.entries@.subrange(0, i as int))),
            decreases other.entries@.len() - i,
        {
            let ghost prev = typing_map(other.entries@.subrange(0, i as int));
            assert(other.entries@.subrange(0, i + 1).drop_last() =~= other.entries@.subrange(
                0,
                i as int,
            ));
            let x = other.entries[i].0.clone();
            let s = other.entries[i].1.clone();
            self.insert(x, s);
            assert(self@ =~= start.union_prefer_right(
                typing_map(other.entries@.subrange(0, i + 1)),
            ));
            i = i + 1;
        }
        assert(other.entries@.subrange(0, other.entries@.len() as int) =~= other.entries@);
    }
}

/// The signatures of the procedures declared so far.
pub struct ProcedureTypingSet {
    signatures: Vec<Signature>,
}

impl View for ProcedureTypingSet {
    type V = Set<SignatureModel>;

    closed spec fn view(&self) -> Set<SignatureModel> {
        Set::new(
            |m: SignatureModel|
                exists|i: int|
                    0 <= i < self.signatures@.len() && #[trigger] signature_model(
                        self.signatures@[i],
                    ) == m,
        )
    }
}

pub fn same_sorts(a: &Vec<Sort>, b: &Vec<Sort>) -> (r: bool)
    ensures
        r == (sorts_model(a@) == sorts_model(b@)),
{
    if a.len() != b.len() {
        assert(sorts_model(a@).len() != sorts_model(b@).len());
        return false;
    }
    let mut i: usize = 0;
    while i < a.len()
        invariant
            a@.len() == b@.len(),
            i <= a@.len(),
            forall|j: int| 0 <= j < i ==> a@[j]@ == b@[j]@,
        decreases a@.len() - i,
    {
        if a[i].0.0 != b[i].0.0 {
            assert(sorts_model(a@)[i as int] != sorts_model(b@)[i as int]);
            return false;
        }
        i = i + 1;
    }
    assert(sorts_model(a@) =~= sorts_model(b@));
    true
}

pub fn same_signature(a: &Signature, b: &Signature) -> (r: bool)
    ensures
        r == (signature_model(*a) == signature_model(*b)),
{
    a.0.0 == b.0.0 && same_sorts(&a.1.0, &b.1.0) && same_sorts(&a.1.1, &b.1.1)
}

impl ProcedureTypingSet {
    pub fn new() -> (r: ProcedureTypingSet)
        ensures
            r@ == Set::<SignatureModel>::empty(),
    {
        let r = ProcedureTypingSet { signatures: Vec::new() };
        assert(r@ =~= Set::<SignatureModel>::empty());
        r
    }

    pub fn contains(&self, s: &Signature) -> (r: bool)
        ensures
            r == self@.contains(signature_model(*s)),
    {
        let mut i: usize = 0;
        while i < self.signatures.len()
            invariant
                i <= self.signatures@.len(),
                forall|j: int|
                    0 <= j < i ==> signature_model(self.signatures@[j]) != signature_model(*s),
            decreases self.signatures@.len() - i,
        {
            if same_signature(&self.signatures[i], s) {
                assert(self@.contains(signature_model(*s)));
                return true;
            }
            i = i + 1;
        }
        false
    }

    pub fn insert(&mut self, s: Signature)
        ensures
            final(self)@ == old(self)@.insert(signature_model(s)),
    {
        let ghost before = self.signatures@;
        self.signatures.push(s);
        assert forall|m: SignatureModel| #[trigger] self@.contains(m) == old(self)@.insert(
            signature_model(s),
        ).contains(m) by {
            if m == signature_model(s) {
                assert(signature_model(self.signatures@[before.len() as int]) == m);
            }
            if old(self)@.contains(m) {
                let i = choose|i: int|
                    0 <= i < before.len() && #[trigger] signature_model(before[i]) == m;
                assert(self.signatures@[i] == before[i]);
            }
            if self@.contains(m) && m != signature_model(s) {
                let i = choose|i: int|
                    0 <= i < self.signatures@.len() && #[trigger] signature_model(
                        self.signatures@[i],
                    ) == m;
                assert(before[i] == self.signatures@[i]);
            }
        }
        assert(self@ =~= old(self)@.insert(signature_model(s)));
    }

    pub fn duplicate(&self) -> (r: ProcedureTypingSet)
        ensures
            r@ == self@,
    {
        let mut signatures: Vec<Signature> = Vec::new();
        let mut i: usize = 0;
        while i < self.signatures.len()
            invariant
                i <= self.signatures@.len(),
                signatures@.len() == i,
                forall|j: int|
                    0 <= j < i ==> signature_model(#[trigger] signatures@[j]) == signature_model(
                        self.signatures@[j],
                    ),
            decreases self.signatures@.len() - i,
        {
            signatures.push(clone_signature(&self.signatures[i]));
            i = i + 1;
        }
        let r = ProcedureTypingSet { signatures };
        assert forall|m: SignatureModel| #[trigger] r@.contains(m) == self@.contains(m) by {
            if r@.contains(m) {
                let j = choose|j: int|
                    0 <= j < r.signatures@.len() && #[trigger] signature_model(r.signatures@[j])
                        == m;
                assert(signature_model(self.signatures@[j]) == m);
            }
            if self@.contains(m) {
                let j = choose|j: int|
                    0 <= j < self.signatures@.len() && #[trigger] signature_model(
                        self.signatures@[j],
                    ) == m;
                assert(signature_model(r.signatures@[j]) == m);
            }
        }
        assert(r@ =~= self@);
        r
    }
}

impl VariableTypingMap {
    pub fn duplicate(&self) -> (r: VariableTypingMap)
        ensures
            r@ == self@,
    {
        let mut r = VariableTypingMap::new();
        r.extend(self);
        assert(r@ =~= self@);
        r
    }
}

// ---------------------------------------------------------------------------
// Messages.

pub open spec fn undefined_message(x: Seq<char>) -> Seq<char> {
    "identifier "@ + x + " is not defined"@
}

pub open spec fn undefined_variable_message(x: Seq<char>) -> Seq<char> {
    "variable "@ + x + " is not defined"@
}

pub open spec fn parameter_twice_message(x: Seq<char>) -> Seq<char> {
    "parameter "@ + x + " declared twice"@
}

pub open spec fn function_parameter_twice_message(x: Seq<char>) -> Seq<char> {
    "function parameter "@ + x + " declared twice"@
}

pub open spec fn assign_mismatch_message(e: Seq<char>, v: Seq<char>) -> Seq<char> {
    "expression of type "@ + e + " can't be assigned to variable of type "@ + v
}

pub open spec fn equal_mismatch_message(l: Seq<char>, r: Seq<char>) -> Seq<char> {
    "expression type mismatch: "@ + l + ", "@ + r
}

pub open spec fn no_match_message(name: Seq<char>, ins: Seq<Seq<char>>, outs: Seq<Seq<char>>) -> Seq<char> {
    "no function matches signature "@ + signature_text(name, ins, outs)
}

pub open spec fn expected_int_message() -> Seq<char> {
    "expected int expression"@
}

pub open spec fn expected_bool_message() -> Seq<char> {
    "expected boolean expression"@
}

pub open spec fn if_else_condition_message() -> Seq<char> {
    "if requires boolean expression"@
}

pub open spec fn if_condition_message() -> Seq<char> {
    "if requires boolean expressions"@
}

pub open spec fn while_condition_message() -> Seq<char> {
    "while requires boolean expressions"@
}

// ---------------------------------------------------------------------------
// The typing rules.

/// Both operands must have sort `want`; the left one is checked first.
pub open spec fn both_of_sort(
    l: Result<Seq<char>, Seq<char>>,
    r: Result<Seq<char>, Seq<char>>,
    want: Seq<char>,
    message: Seq<char>,
    result: Seq<char>,
) -> Result<Seq<char>, Seq<char>> {
    match l {
        Err(e) => Err(e),
        Ok(a) => if a != want {
            Err(message)
        } else {
            match r {
                Err(e) => Err(e),
                Ok(b) => if b != want {
                    Err(message)
                } else {
                    Ok(result)
                },
            }
        },
    }
}

pub open spec fn one_of_sort(
    x: Result<Seq<char>, Seq<char>>,
    want: Seq<char>,
    message: Seq<char>,
) -> Result<Seq<char>, Seq<char>> {
    match x {
        Err(e) => Err(e),
        Ok(a) => if a != want {
            Err(message)
        } else {
            Ok(want)
        },
    }
}

/// The sort of an expression, or the first error met left to right. An equality takes
/// the sort of its operands, not `Bool`.
pub open spec fn sort_of(e: ExprModel, vt: Map<Seq<char>, Seq<char>>) -> Result<Seq<char>, Seq<char>>
    decreases e,
{
    match e {
        ExprModel::Value(v) => match v {
            Value::Numeral(_) => Ok(int_sort()),
            _ => Ok(bool_sort()),
        },
        ExprModel::Variable(x) => if vt.contains_key(x) {
            Ok(vt[x])
        } else {
            Err(undefined_message(x))
        },
        ExprModel::Sum(l, r) => both_of_sort(
            sort_of(*l, vt),
            sort_of(*r, vt),
            int_sort(),
            expected_int_message(),
            int_sort(),
        ),
        ExprModel::Difference(l, r) => both_of_sort(
            sort_of(*l, vt),
            sort_of(*r, vt),
            int_sort(),
            expected_int_message(),
            int_sort(),
        ),
        ExprModel::Product(l, r) => both_of_sort(
            sort_of(*l, vt),
            sort_of(*r, vt),
            int_sort(),
            expected_int_message(),
            int_sort(),
        ),
        ExprModel::Division(l, r) => both_of_sort(
            sort_of(*l, vt),
            sort_of(*r, vt),
            int_sort(),
            expected_int_message(),
            int_sort(),
        ),
        ExprModel::Negative(x) => one_of_sort(sort_of(*x, vt), int_sort(), expected_int_message()),
        ExprModel::Equal(l, r) => match sort_of(*l, vt) {
            Err(e) => Err(e),
            Ok(a) => match sort_of(*r, vt) {
                Err(e) => Err(e),
                Ok(b) => if a != b {
                    Err(equal_mismatch_message(a, b))
                } else {
                    Ok(a)
                },
            },
        },
        ExprModel::LessThanOrEqual(l, r) => both_of_sort(
            sort_of(*l, vt),
            sort_of(*r, vt),
            int_sort(),
            expected_int_message(),
            bool_sort(),
        ),
        ExprModel::And(l, r) => both_of_sort(
            sort_of(*l, vt),
            sort_of(*r, vt),
            bool_sort(),
            expected_bool_message(),
            bool_sort(),
        ),
        ExprModel::Or(l, r) => both_of_sort(
            sort_of(*l, vt),
            sort_of(*r, vt),
            bool_sort(),
            expected_bool_message(),
            bool_sort(),
        ),
        ExprModel::Not(x) => one_of_sort(sort_of(*x, vt), bool_sort(), expected_bool_message()),
    }
}

/// The sorts of a list of expressions, or the first error.
pub open spec fn sorts_of(es: Seq<ExprModel>, vt: Map<Seq<char>, Seq<char>>) -> Result<
    Seq<Seq<char>>,
    Seq<char>,
>
    decreases es.len(),
{
    if es.len() == 0 {
        Ok(Seq::empty())
    } else {
        match sort_of(es[0], vt) {
            Err(e) => Err(e),
            Ok(s) => match sorts_of(es.drop_first(), vt) {
                Err(e) => Err(e),
                Ok(rest) => Ok(seq![s] + rest),
            },
        }
    }
}

/// The declared sorts of a list of variables, or the first undefined one.
pub open spec fn variable_sorts(vs: Seq<Seq<char>>, vt: Map<Seq<char>, Seq<char>>) -> Result<
    Seq<Seq<char>>,
    Seq<char>,
>
    decreases vs.len(),
{
    if vs.len() == 0 {
        Ok(Seq::empty())
    } else if !vt.contains_key(vs[0]) {
        Err(undefined_variable_message(vs[0]))
    } else {
        match variable_sorts(vs.drop_first(), vt) {
            Err(e) => Err(e),
            Ok(rest) => Ok(seq![vt[vs[0]]] + rest),
        }
    }
}

/// The typing of a parameter list and its sorts in order; a repeated name is an error.
pub open spec fn parameter_typing(ps: ParamsModel) -> Result<
    (Map<Seq<char>, Seq<char>>, Seq<Seq<char>>),
    Seq<char>,
>
    decreases ps.len(),
{
    if ps.len() == 0 {
        Ok((Map::empty(), Seq::empty()))
    } else {
        match parameter_typing(ps.drop_last()) {
            Err(e) => Err(e),
            Ok((m, sorts)) => {
                let (x, s) = ps.last();
                if m.contains_key(x) {
                    Err(parameter_twice_message(x))
                } else {
                    Ok((m.insert(x, s), sorts.push(s)))
                }
            },
        }
    }
}

/// The first input parameter whose name is also an output parameter, if any.
pub open spec fn first_shared(ins: ParamsModel, outs: Map<Seq<char>, Seq<char>>) -> Option<
    Seq<char>,
>
    decreases ins.len(),
{
    if ins.len() == 0 {
        None
    } else if outs.contains_key(ins[0].0) {
        Some(ins[0].0)
    } else {
        first_shared(ins.drop_first(), outs)
    }
}

/// Checks a command and returns it with every call annotated.
pub open spec fn check_command(
    c: CmdModel,
    vt: Map<Seq<char>, Seq<char>>,
    pt: Set<SignatureModel>,
) -> Result<CmdModel, Seq<char>>
    decreases c,
{
    match c {
        CmdModel::Assign(x, e) => if !vt.contains_key(x) {
            Err(undefined_message(x))
        } else {
            match sort_of(e, vt) {
                Err(m) => Err(m),
                Ok(s) => if s != vt[x] {
                    Err(assign_mismatch_message(s, vt[x]))
                } else {
                    Ok(c)
                },
            }
        },
        CmdModel::Var(x, s, body) => match check_command(*body, vt.insert(x, s), pt) {
            Err(m) => Err(m),
            Ok(b) => Ok(CmdModel::Var(x, s, Box::new(b))),
        },
        CmdModel::Sequence(c1, c2) => match check_command(*c1, vt, pt) {
            Err(m) => Err(m),
            Ok(d1) => match check_command(*c2, vt, pt) {
                Err(m) => Err(m),
                Ok(d2) => Ok(CmdModel::Sequence(Box::new(d1), Box::new(d2))),
            },
        },
        CmdModel::IfElse(e, c1, c2) => match sort_of(e, vt) {
            Err(m) => Err(m),
            Ok(s) => if s != bool_sort() {
                Err(if_else_condition_message())
            } else {
                match check_command(*c1, vt, pt) {
                    Err(m) => Err(m),
                    Ok(d1) => match check_command(*c2, vt, pt) {
                        Err(m) => Err(m),
                        Ok(d2) => Ok(CmdModel::IfElse(e, Box::new(d1), Box::new(d2))),
                    },
                }
            },
        },
        CmdModel::If(e, c1) => match sort_of(e, vt) {
            Err(m) => Err(m),
            Ok(s) => if s != bool_sort() {
                Err(if_condition_message())
            } else {
                match check_command(*c1, vt, pt) {
                    Err(m) => Err(m),
                    Ok(d1) => Ok(CmdModel::If(e, Box::new(d1))),
                }
            },
        },
        CmdModel::While(e, c1) => match sort_of(e, vt) {
            Err(m) => Err(m),
            Ok(s) => if s != bool_sort() {
                Err(while_condition_message())
            } else {
                match check_command(*c1, vt, pt) {
                    Err(m) => Err(m),
                    Ok(d1) => Ok(CmdModel::While(e, Box::new(d1))),
                }
            },
        },
        CmdModel::Call(x, es, vs, _) => match sorts_of(es, vt) {
            Err(m) => Err(m),
            Ok(ins) => match variable_sorts(vs, vt) {
                Err(m) => Err(m),
                Ok(outs) => if pt.contains((x, (ins, outs))) {
                    Ok(CmdModel::Call(x, es, vs, Some((x, (ins, outs)))))
                } else {
                    Err(no_match_message(x, ins, outs))
                },
            },
        },
    }
}

/// Checks one declaration in the context built by the earlier ones.
pub open spec fn check_declaration(
    d: DeclModel,
    vt: Map<Seq<char>, Seq<char>>,
    pt: Set<SignatureModel>,
) -> Result<(Map<Seq<char>, Seq<char>>, Set<SignatureModel>, DeclModel), Seq<char>> {
    match d {
        DeclModel::Variable(x, s) => Ok((vt.insert(x, s), pt, d)),
        DeclModel::Procedure(x, ins, outs, body) => match parameter_typing(ins) {
            Err(m) => Err(m),
            Ok((in_map, in_sorts)) => match parameter_typing(outs) {
                Err(m) => Err(m),
                Ok((out_map, out_sorts)) => match first_shared(ins, out_map) {
                    Some(y) => Err(function_parameter_twice_message(y)),
                    None => match check_command(
                        body,
                        vt.union_prefer_right(out_map.union_prefer_right(in_map)),
                        pt,
                    ) {
                        Err(m) => Err(m),
                        Ok(b) => Ok(
                            (
                                vt,
                                pt.insert((x, (in_sorts, out_sorts))),
                                DeclModel::Procedure(x, ins, outs, b),
                            ),
                        ),
                    },
                },
            },
        },
    }
}

/// Checks declarations from first to last, threading the typing context.
pub open spec fn check_declarations(ds: Seq<DeclModel>) -> Result<
    (Map<Seq<char>, Seq<char>>, Set<SignatureModel>, Seq<DeclModel>),
    Seq<char>,
>
    decreases ds.len(),
{
    if ds.len() == 0 {
        Ok((Map::empty(), Set::empty(), Seq::empty()))
    } else {
        match check_declarations(ds.drop_last()) {
            Err(m) => Err(m),
            Ok((vt, pt, done)) => match check_declaration(ds.last(), vt, pt) {
                Err(m) => Err(m),
                Ok((vt2, pt2, d)) => Ok((vt2, pt2, done.push(d))),
            },
        }
    }
}

/// A program that passed type checking: checking it gives it back unchanged, so every
/// call in it carries the signature the checker resolved.
pub open spec fn is_checked(p: ProgramModel) -> bool {
    check_program(p) == Ok::<ProgramModel, Seq<char>>(p)
}

/// Checks a program: the annotated program, or the first error.
pub open spec fn check_program(p: ProgramModel) -> Result<ProgramModel, Seq<char>> {
    match check_declarations(p.decls) {
        Err(m) => Err(m),
        Ok((vt, pt, decls)) => match parameter_typing(p.params) {
            Err(m) => Err(m),
            Ok((param_map, _)) => match check_command(p.body, vt.union_prefer_right(param_map), pt) {
                Err(m) => Err(m),
                Ok(body) => Ok(ProgramModel { decls, name: p.name, params: p.params, body }),
            },
        },
    }
}

} // verus!

verus! {

// ---------------------------------------------------------------------------
// The checker.

fn int_sort_value() -> (r: Sort)
    ensures
        r@ == int_sort(),
{
    Sort::from("Int")
}

fn bool_sort_value() -> (r: Sort)
    ensures
        r@ == bool_sort(),
{
    Sort::from("Bool")
}

fn same_sort(a: &Sort, b: &Sort) -> (r: bool)
    ensures
        r == (a@ == b@),
{
    a.0.0 == b.0.0
}

/// The two operands of a binary arithmetic, comparison or boolean expression.
spec fn operand_pair(e: Expression) -> (Expression, Expression) {
    match e {
        Expression::Sum(l, r) => (*l, *r),
        Expression::Difference(l, r) => (*l, *r),
        Expression::Product(l, r) => (*l, *r),
        Expression::Division(l, r) => (*l, *r),
        Expression::LessThanOrEqual(l, r) => (*l, *r),
        Expression::And(l, r) => (*l, *r),
        Expression::Or(l, r) => (*l, *r),
        _ => (e, e),
    }
}

/// Both operands of `e` must have the sort `want`; the left one is checked first.
fn operands_of_sort(
    e: &Expression,
    variable_typings: &VariableTypingMap,
    want: &Sort,
    message: &str,
) -> (res: Result<(), String>)
    requires
        e is Sum || e is Difference || e is Product || e is Division || e is LessThanOrEqual
            || e is And || e is Or,
    ensures
        match res {
            Ok(_) => both_of_sort(
                sort_of(expr_model(operand_pair(*e).0), variable_typings@),
                sort_of(expr_model(operand_pair(*e).1), variable_typings@),
                want@,
                message@,
                want@,
            ) == Ok::<Seq<char>, Seq<char>>(want@),
            Err(m) => both_of_sort(
                sort_of(expr_model(operand_pair(*e).0), variable_typings@),
                sort_of(expr_model(operand_pair(*e).1), variable_typings@),
                want@,
                message@,
                want@,
            ) == Err::<Seq<char>, Seq<char>>(m@),
        },
    decreases e, 0nat,
{
    let (l, r) = match e {
        Expression::Sum(l, r)
        | Expression::Difference(l, r)
        | Expression::Product(l, r)
        | Expression::Division(l, r)
        | Expression::LessThanOrEqual(l, r)
        | Expression::And(l, r)
        | Expression::Or(l, r) => (l, r),
        _ => {
            return Ok(());
        },
    };
    let left = l.typecheck(variable_typings)?;
    if !same_sort(&left, want) {
        return Err(owned(message));
    }
    let right = r.typecheck(variable_typings)?;
    if !same_sort(&right, want) {
        return Err(owned(message));
    }
    Ok(())
}

impl Expression {
    /// The sort of the expression under the given typing.
    pub fn typecheck(&self, variable_typings: &VariableTypingMap) -> (r: Result<Sort, String>)
        ensures
            outcome(r) == sort_of(expr_model(*self), variable_typings@),
        decreases self, 1nat,
    {
        match self {
            Expression::Value(literal) => match literal {
                Value::Numeral(_) => Ok(int_sort_value()),
                _ => Ok(bool_sort_value()),
            },
            Expression::Variable(identifier) => match variable_typings.get(identifier) {
                Some(s) => Ok(s),
                None => Err(concat3("identifier ", identifier.0.as_str(), " is not defined")),
            },
            Expression::Sum(l, r)
            | Expression::Difference(l, r)
            | Expression::Product(l, r)
            | Expression::Division(l, r) => {
                let int_ty = int_sort_value();
                operands_of_sort(self, variable_typings, &int_ty, "expected int expression")?;
                Ok(int_ty)
            },
            Expression::LessThanOrEqual(l, r) => {
                let int_ty = int_sort_value();
                operands_of_sort(self, variable_typings, &int_ty, "expected int expression")?;
                Ok(bool_sort_value())
            },
            Expression::And(l, r) | Expression::Or(l, r) => {
                let boolean = bool_sort_value();
                operands_of_sort(self, variable_typings, &boolean, "expected boolean expression")?;
                Ok(boolean)
            },
            Expression::Negative(x) => {
                let int_ty = int_sort_value();
                let s = x.typecheck(variable_typings)?;
                if !same_sort(&s, &int_ty) {
                    return Err(owned("expected int expression"));
                }
                Ok(int_ty)
            },
            Expression::Not(x) => {
                let boolean = bool_sort_value();
                let s = x.typecheck(variable_typings)?;
                if !same_sort(&s, &boolean) {
                    return Err(owned("expected boolean expression"));
                }
                Ok(boolean)
            },
            Expression::Equal(l, r) => {
                let left = l.typecheck(variable_typings)?;
                let right = r.typecheck(variable_typings)?;
                if !same_sort(&left, &right) {
                    return Err(
                        concat4(
                            "expression type mismatch: ",
                            left.0.0.as_str(),
                            ", ",
                            right.0.0.as_str(),
                        ),
                    );
                }
                Ok(left)
            },
        }
    }
}

} // verus!

verus! {

impl Expressions {
    /// The sorts of the expressions, in order.
    pub fn typecheck(&self, variable_typings: &VariableTypingMap) -> (r: Result<Vec<Sort>, String>)
        ensures
            match r {
                Ok(v) => sorts_of(exprs_model(*self), variable_typings@) == Ok::<
                    Seq<Seq<char>>,
                    Seq<char>,
                >(sorts_model(v@)),
                Err(m) => sorts_of(exprs_model(*self), variable_typings@) == Err::<
                    Seq<Seq<char>>,
                    Seq<char>,
                >(m@),
            },
        decreases self,
    {
        match self {
            Expressions::Empty => {
                let v: Vec<Sort> = Vec::new();
                assert(sorts_model(v@) =~= Seq::<Seq<char>>::empty());
                Ok(v)
            },
            Expressions::Sequence(first, rest) => {
                let ghost es = exprs_model(*self);
                assert(es.drop_first() =~= exprs_model(**rest));
                let expression_sort = first.typecheck(variable_typings)?;
                let mut result = rest.typecheck(variable_typings)?;
                let ghost tail = result@;
                result.insert(0, expression_sort);
                assert(sorts_model(result@) =~= seq![expression_sort@] + sorts_model(tail));
                Ok(result)
            },
        }
    }
}

impl Variables {
    /// The declared sorts of the variables, in order.
    pub fn typecheck(&self, variable_typings: &VariableTypingMap) -> (r: Result<Vec<Sort>, String>)
        ensures
            match r {
                Ok(v) => variable_sorts(vars_model(*self), variable_typings@) == Ok::<
                    Seq<Seq<char>>,
                    Seq<char>,
                >(sorts_model(v@)),
                Err(m) => variable_sorts(vars_model(*self), variable_typings@) == Err::<
                    Seq<Seq<char>>,
                    Seq<char>,
                >(m@),
            },
        decreases self,
    {
        match self {
            Variables::Empty => {
                let v: Vec<Sort> = Vec::new();
                assert(sorts_model(v@) =~= Seq::<Seq<char>>::empty());
                Ok(v)
            },
            Variables::Sequence(first, rest) => {
                let ghost vs = vars_model(*self);
                assert(vs.drop_first() =~= vars_model(**rest));
                match variable_typings.get(&first.0) {
                    Some(variable_sort) => {
                        let mut result = rest.typecheck(variable_typings)?;
                        let ghost tail = result@;
                        result.insert(0, variable_sort);
                        assert(sorts_model(result@) =~= seq![variable_sort@] + sorts_model(tail));
                        Ok(result)
                    },
                    None => Err(concat3("variable ", first.0.0.as_str(), " is not defined")),
                }
            },
        }
    }
}

impl Parameters {
    /// The typing of the parameters and their sorts in order; a repeated name is an error.
    pub fn typecheck(&self) -> (r: Result<(VariableTypingMap, Vec<Sort>), String>)
        ensures
            match r {
                Ok((m, v)) => parameter_typing(params_model(*self)) == Ok::<
                    (Map<Seq<char>, Seq<char>>, Seq<Seq<char>>),
                    Seq<char>,
                >((m@, sorts_model(v@))),
                Err(e) => parameter_typing(params_model(*self)) == Err::<
                    (Map<Seq<char>, Seq<char>>, Seq<Seq<char>>),
                    Seq<char>,
                >(e@),
            },
        decreases self,
    {
        match self {
            Parameters::Empty => {
                let v: Vec<Sort> = Vec::new();
                assert(sorts_model(v@) =~= Seq::<Seq<char>>::empty());
                Ok((VariableTypingMap::new(), v))
            },
            Parameters::Sequence(rest, variable, sort) => {
                let ghost ps = params_model(*self);
                assert(ps.drop_last() =~= params_model(**rest));
                let (mut variable_typings, mut sort_sequence) = rest.typecheck()?;
                if variable_typings.get(&variable.0).is_some() {
                    return Err(concat3("parameter ", variable.0.0.as_str(), " declared twice"));
                }
                let ghost before = sort_sequence@;
                sort_sequence.push(sort.clone());
                assert(sorts_model(sort_sequence@) =~= sorts_model(before).push(sort@));
                variable_typings.insert(variable.0.clone(), sort.clone());
                Ok((variable_typings, sort_sequence))
            },
        }
    }
}

/// The first input parameter, in declaration order, that is also an output parameter.
fn first_shared_parameter(ins: &Parameters, outs: &VariableTypingMap) -> (r: Option<Identifier>)
    ensures
        match r {
            Some(x) => first_shared(params_model(*ins), outs@) == Some(x@),
            None => first_shared(params_model(*ins), outs@) is None,
        },
    decreases ins,
{
    proof {
        lemma_first_shared_last(params_model(*ins), outs@);
    }
    match ins {
        Parameters::Empty => None,
        Parameters::Sequence(rest, variable, _) => {
            assert(params_model(*ins).drop_last() =~= params_model(**rest));
            match first_shared_parameter(rest, outs) {
                Some(x) => Some(x),
                None => if outs.get(&variable.0).is_some() {
                    Some(variable.0.clone())
                } else {
                    None
                },
            }
        },
    }
}

/// Scanning for a shared name can start from either end of the earlier part.
proof fn lemma_first_shared_last(ins: ParamsModel, outs: Map<Seq<char>, Seq<char>>)
    ensures
        ins.len() > 0 ==> first_shared(ins, outs) == match first_shared(ins.drop_last(), outs) {
            Some(y) => Some(y),
            None => if outs.contains_key(ins.last().0) {
                Some(ins.last().0)
            } else {
                None
            },
        },
    decreases ins.len(),
{
    if ins.len() == 1 {
        assert(ins.drop_last().len() == 0);
        assert(ins.drop_first().len() == 0);
    } else if ins.len() > 1 {
        lemma_first_shared_last(ins.drop_first(), outs);
        assert(ins.drop_first().drop_last() =~= ins.drop_last().drop_first());
        assert(ins.drop_last()[0] == ins[0]);
        assert(ins.drop_first().last() == ins.last());
    }
}

} // verus!

verus! {

impl Command {
    /// Checks the command and returns it with every call annotated with its signature.
    pub fn typecheck(
        &self,
        variable_typings: &VariableTypingMap,
        procedure_typings: &ProcedureTypingSet,
    ) -> (r: Result<Command, String>)
        ensures
            match r {
                Ok(c) => check_command(cmd_model(*self), variable_typings@, procedure_typings@)
                    == Ok::<CmdModel, Seq<char>>(cmd_model(c)),
                Err(m) => check_command(cmd_model(*self), variable_typings@, procedure_typings@)
                    == Err::<CmdModel, Seq<char>>(m@),
            },
        decreases self,
    {
        match self {
            Command::Assign(identifier, expression) => match variable_typings.get(identifier) {
                Some(variable_sort) => {
                    let expression_sort = expression.typecheck(variable_typings)?;
                    if !same_sort(&expression_sort, &variable_sort) {
                        Err(
                            concat4(
                                "expression of type ",
                                expression_sort.0.0.as_str(),
                                " can't be assigned to variable of type ",
                                variable_sort.0.0.as_str(),
                            ),
                        )
                    } else {
                        Ok(self.clone())
                    }
                },
                None => Err(concat3("identifier ", identifier.0.as_str(), " is not defined")),
            },
            Command::Var(identifier, sort, command) => {
                let mut inner = variable_typings.duplicate();
                inner.insert(identifier.clone(), sort.clone());
                let command = command.typecheck(&inner, procedure_typings)?;
                Ok(Command::Var(identifier.clone(), sort.clone(), Box::new(command)))
            },
            Command::Sequence(first, second) => {
                let first = first.typecheck(variable_typings, procedure_typings)?;
                let second = second.typecheck(variable_typings, procedure_typings)?;
                Ok(Command::Sequence(Box::new(first), Box::new(second)))
            },
            Command::IfElse(expression, branch_if, branch_else) => {
                let condition = expression.typecheck(variable_typings)?;
                if !same_sort(&condition, &bool_sort_value()) {
                    Err(owned("if requires boolean expression"))
                } else {
                    let branch_if = branch_if.typecheck(variable_typings, procedure_typings)?;
                    let branch_else = branch_else.typecheck(variable_typings, procedure_typings)?;
                    Ok(Command::IfElse(expression.clone(), Box::new(branch_if), Box::new(branch_else)))
                }
            },
            Command::If(expression, branch_if) => {
                let condition = expression.typecheck(variable_typings)?;
                if !same_sort(&condition, &bool_sort_value()) {
                    Err(owned("if requires boolean expressions"))
                } else {
                    let branch_if = branch_if.typecheck(variable_typings, procedure_typings)?;
                    Ok(Command::If(expression.clone(), Box::new(branch_if)))
                }
            },
            Command::While(expression, body) => {
                let condition = expression.typecheck(variable_typings)?;
                if !same_sort(&condition, &bool_sort_value()) {
                    Err(owned("while requires boolean expressions"))
                } else {
                    let body = body.typecheck(variable_typings, procedure_typings)?;
                    Ok(Command::While(expression.clone(), Box::new(body)))
                }
            },
            Command::Call(identifier, expressions, variables, _) => {
                let expression_sorts = expressions.typecheck(variable_typings)?;
                let variable_sorts = variables.typecheck(variable_typings)?;
                let signature: Signature = (identifier.clone(), (expression_sorts, variable_sorts));
                if procedure_typings.contains(&signature) {
                    Ok(
                        Command::Call(
                            identifier.clone(),
                            expressions.clone(),
                            variables.clone(),
                            Some(signature),
                        ),
                    )
                } else {
                    let written = write_signature(
                        identifier.0.as_str(),
                        &signature.1.0,
                        &signature.1.1,
                    );
                    Err(concat2("no function matches signature ", written.as_str()))
                }
            },
        }
    }
}

impl Declaration {
    /// Checks the declaration and extends the typing context with it.
    pub fn typecheck(
        &self,
        variable_typings: &VariableTypingMap,
        procedure_typings: &ProcedureTypingSet,
    ) -> (r: Result<(VariableTypingMap, ProcedureTypingSet, Declaration), String>)
        ensures
            match r {
                Ok((vt, pt, d)) => check_declaration(
                    decl_model(*self),
                    variable_typings@,
                    procedure_typings@,
                ) == Ok::<
                    (Map<Seq<char>, Seq<char>>, Set<SignatureModel>, DeclModel),
                    Seq<char>,
                >((vt@, pt@, decl_model(d))),
                Err(m) => check_declaration(
                    decl_model(*self),
                    variable_typings@,
                    procedure_typings@,
                ) == Err::<
                    (Map<Seq<char>, Seq<char>>, Set<SignatureModel>, DeclModel),
                    Seq<char>,
                >(m@),
            },
    {
        match self {
            Declaration::Variable(identifier, sort) => {
                let mut variable_typings = variable_typings.duplicate();
                variable_typings.insert(identifier.clone(), sort.clone());
                Ok((variable_typings, procedure_typings.duplicate(), self.clone()))
            },
            Declaration::Procedure(identifier, in_params, out_params, body) => {
                let (in_typings, in_sorts) = in_params.typecheck()?;
                let (out_typings, out_sorts) = out_params.typecheck()?;
                if let Some(shared) = first_shared_parameter(in_params, &out_typings) {
                    return Err(concat3("function parameter ", shared.0.as_str(), " declared twice"));
                }
                let mut parameter_typings = out_typings;
                parameter_typings.extend(&in_typings);
                let mut body_typings = variable_typings.duplicate();
                body_typings.extend(&parameter_typings);
                let body = body.typecheck(&body_typings, procedure_typings)?;
                let mut procedure_typings = procedure_typings.duplicate();
                procedure_typings.insert((identifier.clone(), (in_sorts, out_sorts)));
                Ok(
                    (
                        variable_typings.duplicate(),
                        procedure_typings,
                        Declaration::Procedure(
                            identifier.clone(),
                            in_params.clone(),
                            out_params.clone(),
                            body,
                        ),
                    ),
                )
            },
        }
    }
}

impl Declarations {
    /// Checks the declarations from first to last.
    pub fn typecheck(&self) -> (r: Result<
        (VariableTypingMap, ProcedureTypingSet, Declarations),
        String,
    >)
        ensures
            match r {
                Ok((vt, pt, ds)) => check_declarations(decls_model(*self)) == Ok::<
                    (Map<Seq<char>, Seq<char>>, Set<SignatureModel>, Seq<DeclModel>),
                    Seq<char>,
                >((vt@, pt@, decls_model(ds))),
                Err(m) => check_declarations(decls_model(*self)) == Err::<
                    (Map<Seq<char>, Seq<char>>, Set<SignatureModel>, Seq<DeclModel>),
                    Seq<char>,
                >(m@),
            },
        decreases self,
    {
        match self {
            Declarations::Empty => Ok(
                (VariableTypingMap::new(), ProcedureTypingSet::new(), Declarations::Empty),
            ),
            Declarations::Sequence(other, declaration) => {
                assert(decls_model(*self).drop_last() =~= decls_model(**other));
                let (variable_typings, procedure_typings, declarations) = other.typecheck()?;
                let (variable_typings, procedure_typings, declaration) = declaration.typecheck(
                    &variable_typings,
                    &procedure_typings,
                )?;
                Ok(
                    (
                        variable_typings,
                        procedure_typings,
                        Declarations::Sequence(Box::new(declarations), declaration),
                    ),
                )
            },
        }
    }
}

impl Program {
    /// Checks the program; on success returns a copy in which every call is annotated.
    pub fn typecheck(&self) -> (r: Result<Program, String>)
        ensures
            match r {
                Ok(p) => check_program(program_model(*self)) == Ok::<ProgramModel, Seq<char>>(
                    program_model(p),
                ) && is_checked(program_model(p)),
                Err(m) => check_program(program_model(*self)) == Err::<ProgramModel, Seq<char>>(
                    m@,
                ),
            },
    {
        let Program(declarations, identifier, parameters, body) = self;
        let (mut variable_typings, procedure_typings, declarations) = declarations.typecheck()?;
        let (parameter_typings, _) = parameters.typecheck()?;
        variable_typings.extend(&parameter_typings);
        let body = body.typecheck(&variable_typings, &procedure_typings)?;
        let r = Program(declarations, identifier.clone(), parameters.clone(), body);
        proof {
            crate::laws::lemma_typecheck_idempotent(program_model(*self));
        }
        Ok(r)
    }
}

} // verus!
