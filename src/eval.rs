use vstd::prelude::*;

use crate::text::{concat2, owned, signature_text, write_signature};
use crate::typecheck::parameter_typing;
use crate::types::{
    clone_signature, cmd_model, decl_model, decls_model, expr_model, exprs_model, params_model,
    program_model, signature_model, vars_model, CmdModel, Command, DeclModel, Declaration,
    Declarations, ExprModel, Expression, Expressions, Identifier, Parameters, ParamsModel,
    Program, ProgramModel, Signature, SignatureModel, Value, Variables,
};

verus! {

pub type Address = usize;

/// The bound on loop iterations and on the depth of procedure calls that the
/// public entry points allow.
pub const STEP_LIMIT: u64 = 0xffff_ffff_ffff_ffff;

// ---------------------------------------------------------------------------
// Models of the run-time state.

/// The cells of a store, from address 0 on; an address past the end holds `default`.
pub struct StoreModel {
    pub cells: Seq<Value>,
    pub default: Value,
}

impl StoreModel {
    pub open spec fn read(self, a: nat) -> Value {
        if a < self.cells.len() {
            self.cells[a as int]
        } else {
            self.default
        }
    }

    /// Writing past the end first fills the gap with the default value.
    pub open spec fn write(self, a: nat, v: Value) -> StoreModel {
        if a < self.cells.len() {
            StoreModel { cells: self.cells.update(a as int, v), default: self.default }
        } else {
            StoreModel {
                cells: self.cells + Seq::new((a - self.cells.len()) as nat, |i: int| self.default)
                    + seq![v],
                default: self.default,
            }
        }
    }
}

/// A procedure value: its parameters, the environment it was declared in, and its body.
pub struct ProcModel {
    pub ins: ParamsModel,
    pub outs: ParamsModel,
    pub env: EnvModel,
    pub body: CmdModel,
}

/// Variables bound to addresses, and signatures bound to procedures.
pub struct EnvModel {
    pub vars: Map<Seq<char>, nat>,
    pub procs: Map<SignatureModel, ProcModel>,
}

// ---------------------------------------------------------------------------
// Messages.

pub open spec fn unknown_identifier_message(x: Seq<char>) -> Seq<char> {
    "unknown identifier "@ + x
}

pub open spec fn unknown_signature_message(s: SignatureModel) -> Seq<char> {
    "unknown signature "@ + signature_text(s.0, s.1.0, s.1.1)
}

pub open spec fn left_not_number_message() -> Seq<char> {
    "left value of the expression is not a number"@
}

pub open spec fn right_not_number_message() -> Seq<char> {
    "right value of the expression is not a number"@
}

pub open spec fn negate_message() -> Seq<char> {
    "can only negate numbers"@
}

pub open spec fn division_by_zero_message() -> Seq<char> {
    "division by 0"@
}

pub open spec fn overflow_message() -> Seq<char> {
    "arithmetic overflow"@
}

pub open spec fn not_annotated_message() -> Seq<char> {
    "call hasn't been annotated"@
}

pub open spec fn arity_message() -> Seq<char> {
    "address sequence size mismatch"@
}

pub open spec fn addresses_exhausted_message() -> Seq<char> {
    "address space exhausted"@
}

pub open spec fn step_limit_message() -> Seq<char> {
    "step limit exceeded"@
}

// ---------------------------------------------------------------------------
// Expressions.

/// An integer as a numeral, or an overflow error outside the range of `i32`.
pub open spec fn numeral(n: int) -> Result<Value, Seq<char>> {
    if i32::MIN <= n <= i32::MAX {
        Ok(Value::Numeral(n as i32))
    } else {
        Err(overflow_message())
    }
}

/// Integer division rounding toward zero.
pub open spec fn truncated_div(a: int, b: int) -> int {
    let q = abs(a) / abs(b);
    if (a < 0) != (b < 0) {
        -q
    } else {
        q
    }
}

pub open spec fn abs(a: int) -> int {
    if a < 0 {
        -a
    } else {
        a
    }
}

pub open spec fn truth(b: bool) -> Value {
    if b {
        Value::True
    } else {
        Value::False
    }
}

/// Evaluates both operands, left first, and requires two numerals.
pub open spec fn numerals_of(l: Result<Value, Seq<char>>, r: Result<Value, Seq<char>>) -> Result<
    (i32, i32),
    Seq<char>,
> {
    match l {
        Err(m) => Err(m),
        Ok(Value::Numeral(a)) => match r {
            Err(m) => Err(m),
            Ok(Value::Numeral(b)) => Ok((a, b)),
            Ok(_) => Err(right_not_number_message()),
        },
        Ok(_) => Err(left_not_number_message()),
    }
}

/// The value of an expression in a store, reading variables through `vars`.
pub open spec fn value_of(e: ExprModel, st: StoreModel, vars: Map<Seq<char>, nat>) -> Result<
    Value,
    Seq<char>,
>
    decreases e,
{
    match e {
        ExprModel::Value(v) => Ok(v),
        ExprModel::Variable(x) => if vars.contains_key(x) {
            Ok(st.read(vars[x]))
        } else {
            Err(unknown_identifier_message(x))
        },
        ExprModel::Sum(l, r) => match numerals_of(value_of(*l, st, vars), value_of(*r, st, vars)) {
            Err(m) => Err(m),
            Ok((a, b)) => numeral(a + b),
        },
        ExprModel::Difference(l, r) => match numerals_of(
            value_of(*l, st, vars),
            value_of(*r, st, vars),
        ) {
            Err(m) => Err(m),
            Ok((a, b)) => numeral(a - b),
        },
        ExprModel::Product(l, r) => match numerals_of(
            value_of(*l, st, vars),
            value_of(*r, st, vars),
        ) {
            Err(m) => Err(m),
            Ok((a, b)) => numeral(a * b),
        },
        ExprModel::Division(l, r) => match numerals_of(
            value_of(*l, st, vars),
            value_of(*r, st, vars),
        ) {
            Err(m) => Err(m),
            Ok((a, b)) => if b == 0 {
                Err(division_by_zero_message())
            } else {
                numeral(truncated_div(a as int, b as int))
            },
        },
        ExprModel::Negative(x) => match value_of(*x, st, vars) {
            Err(m) => Err(m),
            Ok(Value::Numeral(a)) => numeral(-a),
            Ok(_) => Err(negate_message()),
        },
        ExprModel::Equal(l, r) => match value_of(*l, st, vars) {
            Err(m) => Err(m),
            Ok(a) => match value_of(*r, st, vars) {
                Err(m) => Err(m),
                Ok(b) => Ok(truth(a == b)),
            },
        },
        ExprModel::LessThanOrEqual(l, r) => match numerals_of(
            value_of(*l, st, vars),
            value_of(*r, st, vars),
        ) {
            Err(m) => Err(m),
            Ok((a, b)) => Ok(truth(a <= b)),
        },
        ExprModel::And(l, r) => match value_of(*l, st, vars) {
            Err(m) => Err(m),
            Ok(Value::True) => match value_of(*r, st, vars) {
                Err(m) => Err(m),
                Ok(b) => Ok(truth(b == Value::True)),
            },
            Ok(_) => Ok(Value::False),
        },
        ExprModel::Or(l, r) => match value_of(*l, st, vars) {
            Err(m) => Err(m),
            Ok(Value::True) => Ok(Value::True),
            Ok(_) => match value_of(*r, st, vars) {
                Err(m) => Err(m),
                Ok(b) => Ok(truth(b == Value::True)),
            },
        },
        ExprModel::Not(x) => match value_of(*x, st, vars) {
            Err(m) => Err(m),
            Ok(a) => Ok(truth(a != Value::True)),
        },
    }
}

/// The values of a list of expressions, left to right, or the first error.
pub open spec fn values_of(es: Seq<ExprModel>, st: StoreModel, vars: Map<Seq<char>, nat>) -> Result<
    Seq<Value>,
    Seq<char>,
>
    decreases es.len(),
{
    if es.len() == 0 {
        Ok(Seq::empty())
    } else {
        match value_of(es[0], st, vars) {
            Err(m) => Err(m),
            Ok(v) => match values_of(es.drop_first(), st, vars) {
                Err(m) => Err(m),
                Ok(rest) => Ok(seq![v] + rest),
            },
        }
    }
}

/// The addresses bound to a list of variables, or the first unknown one.
pub open spec fn addresses_of(vs: Seq<Seq<char>>, vars: Map<Seq<char>, nat>) -> Result<
    Seq<nat>,
    Seq<char>,
>
    decreases vs.len(),
{
    if vs.len() == 0 {
        Ok(Seq::empty())
    } else if !vars.contains_key(vs[0]) {
        Err(unknown_identifier_message(vs[0]))
    } else {
        match addresses_of(vs.drop_first(), vars) {
            Err(m) => Err(m),
            Ok(rest) => Ok(seq![vars[vs[0]]] + rest),
        }
    }
}

// ---------------------------------------------------------------------------
// Commands.

/// Binds each parameter name to the address at the same position.
pub open spec fn bind_all(ps: ParamsModel, addrs: Seq<nat>, vars: Map<Seq<char>, nat>) -> Map<
    Seq<char>,
    nat,
>
    decreases ps.len(),
{
    if ps.len() == 0 || addrs.len() == 0 {
        vars
    } else {
        bind_all(ps.drop_last(), addrs.drop_last(), vars).insert(ps.last().0, addrs.last())
    }
}

/// Binds parameters to addresses; the two lists must have the same length.
pub open spec fn bind_params(ps: ParamsModel, addrs: Seq<nat>, vars: Map<Seq<char>, nat>) -> Result<
    Map<Seq<char>, nat>,
    Seq<char>,
> {
    if ps.len() != addrs.len() {
        Err(arity_message())
    } else {
        Ok(bind_all(ps, addrs, vars))
    }
}

/// Writes `vals[i]` at address `top + i`, in order.
pub open spec fn write_values(st: StoreModel, top: nat, vals: Seq<Value>) -> StoreModel
    decreases vals.len(),
{
    if vals.len() == 0 {
        st
    } else {
        write_values(st, top, vals.drop_last()).write((top + vals.len() - 1) as nat, vals.last())
    }
}

/// The consecutive addresses `top, top + 1, ..., top + n - 1`.
pub open spec fn fresh_addresses(top: nat, n: nat) -> Seq<nat> {
    Seq::new(n, |i: int| (top + i) as nat)
}

/// Runs a command and returns the final store with the first address that is still
/// unallocated. `top` is the first unallocated address on entry; every `var` and every
/// argument of a call takes the next address, so no address is handed out twice in one
/// run, also across the iterations of a loop. Each loop iteration and each procedure call
/// consumes one unit of `fuel`; when an iteration or a call finds none left, the run fails.
pub open spec fn run_command(
    c: CmdModel,
    st: StoreModel,
    env: EnvModel,
    top: nat,
    fuel: nat,
) -> Result<(StoreModel, nat), Seq<char>>
    decreases fuel, c,
{
    match c {
        CmdModel::Assign(x, e) => if !env.vars.contains_key(x) {
            Err(unknown_identifier_message(x))
        } else {
            match value_of(e, st, env.vars) {
                Err(m) => Err(m),
                Ok(v) => Ok((st.write(env.vars[x], v), top)),
            }
        },
        CmdModel::Var(x, _, body) => if top >= usize::MAX {
            Err(addresses_exhausted_message())
        } else {
            run_command(
                *body,
                st,
                EnvModel { vars: env.vars.insert(x, top), procs: env.procs },
                top + 1,
                fuel,
            )
        },
        CmdModel::Sequence(c1, c2) => match run_command(*c1, st, env, top, fuel) {
            Err(m) => Err(m),
            Ok((st1, top1)) => run_command(*c2, st1, env, top1, fuel),
        },
        CmdModel::IfElse(e, c1, c2) => match value_of(e, st, env.vars) {
            Err(m) => Err(m),
            Ok(v) => if v == Value::True {
                run_command(*c1, st, env, top, fuel)
            } else {
                run_command(*c2, st, env, top, fuel)
            },
        },
        CmdModel::If(e, c1) => match value_of(e, st, env.vars) {
            Err(m) => Err(m),
            Ok(v) => if v == Value::True {
                run_command(*c1, st, env, top, fuel)
            } else {
                Ok((st, top))
            },
        },
        CmdModel::While(e, body) => match value_of(e, st, env.vars) {
            Err(m) => Err(m),
            Ok(v) => if v != Value::True {
                Ok((st, top))
            } else if fuel == 0 {
                Err(step_limit_message())
            } else {
                match run_command(*body, st, env, top, (fuel - 1) as nat) {
                    Err(m) => Err(m),
                    Ok((st1, top1)) => run_command(c, st1, env, top1, (fuel - 1) as nat),
                }
            },
        },
        CmdModel::Call(_, es, vs, annotation) => match annotation {
            None => Err(not_annotated_message()),
            Some(sig) => match values_of(es, st, env.vars) {
                Err(m) => Err(m),
                Ok(vals) => if top + vals.len() > usize::MAX {
                    Err(addresses_exhausted_message())
                } else {
                    let st1 = write_values(st, top, vals);
                    match addresses_of(vs, env.vars) {
                        Err(m) => Err(m),
                        Ok(outs) => if !env.procs.contains_key(sig) {
                            Err(unknown_signature_message(sig))
                        } else if fuel == 0 {
                            Err(step_limit_message())
                        } else {
                            let p = env.procs[sig];
                            match bind_params(p.ins, fresh_addresses(top, vals.len()), p.env.vars) {
                                Err(m) => Err(m),
                                Ok(vars1) => match bind_params(p.outs, outs, vars1) {
                                    Err(m) => Err(m),
                                    Ok(vars2) => run_command(
                                        p.body,
                                        st1,
                                        EnvModel { vars: vars2, procs: p.env.procs },
                                        top + vals.len(),
                                        (fuel - 1) as nat,
                                    ),
                                },
                            }
                        },
                    }
                },
            },
        },
    }
}

// ---------------------------------------------------------------------------
// Declarations and programs.

pub open spec fn empty_env() -> EnvModel {
    EnvModel { vars: Map::empty(), procs: Map::empty() }
}

/// Declares one item: a variable takes the next address; a procedure captures the
/// environment as it stands and is bound under its signature.
pub open spec fn declare(d: DeclModel, env: EnvModel, top: nat) -> Result<(EnvModel, nat), Seq<char>> {
    match d {
        DeclModel::Variable(x, _) => if top >= usize::MAX {
            Err(addresses_exhausted_message())
        } else {
            Ok((EnvModel { vars: env.vars.insert(x, top), procs: env.procs }, top + 1))
        },
        DeclModel::Procedure(x, ins, outs, body) => match parameter_typing(ins) {
            Err(m) => Err(m),
            Ok((_, in_sorts)) => match parameter_typing(outs) {
                Err(m) => Err(m),
                Ok((_, out_sorts)) => Ok(
                    (
                        EnvModel {
                            vars: env.vars,
                            procs: env.procs.insert(
                                (x, (in_sorts, out_sorts)),
                                ProcModel { ins, outs, env, body },
                            ),
                        },
                        top,
                    ),
                ),
            },
        },
    }
}

/// Declares the items from first to last, starting from address 0.
pub open spec fn declare_all(ds: Seq<DeclModel>) -> Result<(EnvModel, nat), Seq<char>>
    decreases ds.len(),
{
    if ds.len() == 0 {
        Ok((empty_env(), 0))
    } else {
        match declare_all(ds.drop_last()) {
            Err(m) => Err(m),
            Ok((env, top)) => declare(ds.last(), env, top),
        }
    }
}

/// Runs a program on its inputs and returns what its parameters hold at the end.
pub open spec fn run_program(p: ProgramModel, inputs: Seq<Value>, fuel: nat) -> Result<
    Seq<Value>,
    Seq<char>,
> {
    match declare_all(p.decls) {
        Err(m) => Err(m),
        Ok((env, top)) => if top + inputs.len() > usize::MAX {
            Err(addresses_exhausted_message())
        } else {
            match bind_params(p.params, fresh_addresses(top, inputs.len()), env.vars) {
                Err(m) => Err(m),
                Ok(vars) => {
                    let st = write_values(
                        StoreModel { cells: Seq::empty(), default: Value::Numeral(0) },
                        top,
                        inputs,
                    );
                    match run_command(
                        p.body,
                        st,
                        EnvModel { vars, procs: env.procs },
                        top + inputs.len(),
                        fuel,
                    ) {
                        Err(m) => Err(m),
                        Ok((st2, _)) => Ok(
                            Seq::new(inputs.len(), |i: int| st2.read((top + i) as nat)),
                        ),
                    }
                },
            }
        },
    }
}

} // verus!

verus! {

// ---------------------------------------------------------------------------
// The store.

/// All mutable state of one run: a growable arena of cells indexed by address.
#[derive(Debug, PartialEq, Eq)]
pub struct Store {
    cells: Vec<Value>,
    default: Value,
}

impl View for Store {
    type V = StoreModel;

    closed spec fn view(&self) -> StoreModel {
        StoreModel { cells: self.cells@, default: self.default }
    }
}

impl Clone for Store {
    fn clone(&self) -> (r: Self)
        ensures
            r@ == self@,
    {
        let mut cells: Vec<Value> = Vec::new();
        let mut i: usize = 0;
        while i < self.cells.len()
            invariant
                i <= self.cells@.len(),
                cells@ == self.cells@.subrange(0, i as int),
            decreases self.cells@.len() - i,
        {
            cells.push(self.cells[i]);
            i = i + 1;
        }
        assert(cells@ =~= self.cells@);
        Store { cells, default: self.default }
    }
}

impl Store {
    /// A copy of the store with `value` at `address`.
    pub fn update(&self, address: Address, value: Value) -> (r: Store)
        ensures
            r@ == self@.write(address as nat, value),
    {
        let mut r = self.clone();
        if address < r.cells.len() {
            r.cells.set(address, value);
        } else {
            let ghost start = r.cells@;
            while r.cells.len() < address
                invariant
                    start.len() <= r.cells@.len() <= address,
                    r.cells@ =~= start + Seq::new(
                        (r.cells@.len() - start.len()) as nat,
                        |i: int| self.default,
                    ),
                    r.default == self.default,
                decreases address - r.cells@.len(),
            {
                r.cells.push(r.default);
            }
            r.cells.push(value);
        }
        assert(r.cells@ =~= self@.write(address as nat, value).cells);
        r
    }

    pub fn lookup(&self, address: &Address) -> (r: &Value)
        ensures
            *r == self@.read(*address as nat),
    {
        if *address < self.cells.len() {
            &self.cells[*address]
        } else {
            &self.default
        }
    }

    /// An empty store whose every cell holds `default`.
    pub fn init(default: Value) -> (r: Store)
        ensures
            r@ == (StoreModel { cells: Seq::empty(), default }),
    {
        Store { cells: Vec::new(), default }
    }
}

// ---------------------------------------------------------------------------
// Environments.

/// The address bound to each name; a later entry hides an earlier one.
pub open spec fn address_map(s: Seq<(Identifier, Address)>) -> Map<Seq<char>, nat>
    decreases s.len(),
{
    if s.len() == 0 {
        Map::empty()
    } else {
        address_map(s.drop_last()).insert(s.last().0@, s.last().1 as nat)
    }
}

/// Names bound to addresses.
#[derive(Debug)]
pub struct VariableEnvironment {
    identifiers_to_addresses: Vec<(Identifier, Address)>,
}

impl View for VariableEnvironment {
    type V = Map<Seq<char>, nat>;

    closed spec fn view(&self) -> Map<Seq<char>, nat> {
        address_map(self.identifiers_to_addresses@)
    }
}

impl Clone for VariableEnvironment {
    fn clone(&self) -> (r: Self)
        ensures
            r@ == self@,
    {
        let mut entries: Vec<(Identifier, Address)> = Vec::new();
        let mut i: usize = 0;
        while i < self.identifiers_to_addresses.len()
            invariant
                i <= self.identifiers_to_addresses@.len(),
                entries@ == self.identifiers_to_addresses@.subrange(0, i as int),
            decreases self.identifiers_to_addresses@.len() - i,
        {
            let (x, a) = &self.identifiers_to_addresses[i];
            entries.push((x.clone(), *a));
            i = i + 1;
        }
        assert(entries@ =~= self.identifiers_to_addresses@);
        VariableEnvironment { identifiers_to_addresses: entries }
    }
}

impl VariableEnvironment {
    /// A copy of the environment with `identifier` bound to `address`.
    pub fn update(&self, identifier: &Identifier, address: &Address) -> (r: VariableEnvironment)
        ensures
            r@ == self@.insert(identifier@, *address as nat),
    {
        let mut r = self.clone();
        let ghost before = r.identifiers_to_addresses@;
        r.identifiers_to_addresses.push((identifier.clone(), *address));
        assert(r.identifiers_to_addresses@.drop_last() =~= before);
        r
    }

    pub fn lookup(&self, identifier: &Identifier) -> (r: Result<Address, String>)
        ensures
            match r {
                Ok(a) => self@.contains_key(identifier@) && self@[identifier@] == a as nat,
                Err(m) => !self@.contains_key(identifier@) && m@ == unknown_identifier_message(
                    identifier@,
                ),
            },
    {
        let s = &self.identifiers_to_addresses;
        let mut i: usize = s.len();
        assert(s@.subrange(0, i as int) =~= s@);
        while i > 0
            invariant
                i <= s@.len(),
                address_map(s@.subrange(0, i as int)).contains_key(identifier@)
                    == self@.contains_key(identifier@),
                address_map(s@.subrange(0, i as int)).contains_key(identifier@) ==> address_map(
                    s@.subrange(0, i as int),
                )[identifier@] == self@[identifier@],
            decreases i,
        {
            assert(s@.subrange(0, i as int).drop_last() =~= s@.subrange(0, i - 1));
            if s[i - 1].0.0 == identifier.0 {
                return Ok(s[i - 1].1);
            }
            i = i - 1;
        }
        Err(concat2("unknown identifier ", identifier.0.as_str()))
    }

    pub fn init() -> (r: VariableEnvironment)
        ensures
            r@ == Map::<Seq<char>, nat>::empty(),
    {
        VariableEnvironment { identifiers_to_addresses: Vec::new() }
    }
}

/// A procedure together with the environment it was declared in.
pub struct Procedure {
    in_params: Parameters,
    out_params: Parameters,
    environment: Environment,
    body: Command,
}

/// Signatures bound to procedures.
pub struct ProcedureEnvironment {
    procedures: Vec<(Signature, Procedure)>,
}

pub type Environment = (VariableEnvironment, ProcedureEnvironment);

/// The model of a procedure, given the model of the procedures it captured.
pub closed spec fn procedure_model(p: Procedure, procs: Map<SignatureModel, ProcModel>) -> ProcModel {
    ProcModel {
        ins: params_model(p.in_params),
        outs: params_model(p.out_params),
        env: EnvModel { vars: p.environment.0@, procs },
        body: cmd_model(p.body),
    }
}

/// The bindings made by the first `n` entries; a later entry hides an earlier one.
pub closed spec fn procedures_model(pe: ProcedureEnvironment, n: nat) -> Map<SignatureModel, ProcModel>
    decreases pe, n,
{
    if n == 0 || n > pe.procedures@.len() {
        Map::empty()
    } else {
        let entry = pe.procedures@[n - 1];
        let inner = entry.1.environment.1;
        procedures_model(pe, (n - 1) as nat).insert(
            signature_model(entry.0),
            procedure_model(entry.1, procedures_model(inner, inner.procedures@.len())),
        )
    }
}

impl View for ProcedureEnvironment {
    type V = Map<SignatureModel, ProcModel>;

    closed spec fn view(&self) -> Map<SignatureModel, ProcModel> {
        procedures_model(*self, self.procedures@.len())
    }
}

impl View for Procedure {
    type V = ProcModel;

    closed spec fn view(&self) -> ProcModel {
        procedure_model(*self, self.environment.1@)
    }
}

pub open spec fn env_model(e: Environment) -> EnvModel {
    EnvModel { vars: e.0@, procs: e.1@ }
}

} // verus!

verus! {

/// One more entry adds one binding.
proof fn lemma_procedures_step(pe: ProcedureEnvironment, n: nat)
    requires
        0 < n <= pe.procedures@.len(),
    ensures
        procedures_model(pe, n) == procedures_model(pe, (n - 1) as nat).insert(
            signature_model(pe.procedures@[n - 1].0),
            pe.procedures@[n - 1].1@,
        ),
{
}

/// Two environments whose first `n` entries agree bind the same procedures.
proof fn lemma_procedures_agree(a: ProcedureEnvironment, b: ProcedureEnvironment, n: nat)
    requires
        n <= a.procedures@.len(),
        n <= b.procedures@.len(),
        forall|j: int|
            0 <= j < n ==> signature_model(a.procedures@[j].0) == signature_model(
                b.procedures@[j].0,
            ) && a.procedures@[j].1@ == b.procedures@[j].1@,
    ensures
        procedures_model(a, n) == procedures_model(b, n),
    decreases n,
{
    if n > 0 {
        lemma_procedures_agree(a, b, (n - 1) as nat);
        lemma_procedures_step(a, n);
        lemma_procedures_step(b, n);
    }
}

fn copy_procedure(p: &Procedure) -> (r: Procedure)
    ensures
        r@ == p@,
    decreases p,
{
    let environment = (p.environment.0.clone(), copy_procedures(&p.environment.1));
    Procedure {
        in_params: p.in_params.clone(),
        out_params: p.out_params.clone(),
        environment,
        body: p.body.clone(),
    }
}

fn copy_procedures(pe: &ProcedureEnvironment) -> (r: ProcedureEnvironment)
    ensures
        r@ == pe@,
    decreases pe,
{
    let mut r = ProcedureEnvironment { procedures: Vec::new() };
    let mut i: usize = 0;
    while i < pe.procedures.len()
        invariant
            i <= pe.procedures@.len(),
            r.procedures@.len() == i,
            forall|j: int|
                0 <= j < i ==> signature_model(r.procedures@[j].0) == signature_model(
                    pe.procedures@[j].0,
                ) && r.procedures@[j].1@ == pe.procedures@[j].1@,
        decreases pe.procedures@.len() - i,
    {
        let entry = &pe.procedures[i];
        r.procedures.push((clone_signature(&entry.0), copy_procedure(&entry.1)));
        i = i + 1;
    }
    proof {
        lemma_procedures_agree(r, *pe, i as nat);
    }
    r
}

impl Clone for Procedure {
    fn clone(&self) -> (r: Self)
        ensures
            r@ == self@,
    {
        copy_procedure(self)
    }
}

impl Clone for ProcedureEnvironment {
    fn clone(&self) -> (r: Self)
        ensures
            r@ == self@,
    {
        copy_procedures(self)
    }
}

impl ProcedureEnvironment {
    /// A copy of the environment with `procedure` bound to `signature`.
    pub fn update(&self, signature: &Signature, procedure: &Procedure) -> (r: ProcedureEnvironment)
        ensures
            r@ == self@.insert(signature_model(*signature), procedure@),
    {
        let mut r = copy_procedures(self);
        let ghost before = r;
        r.procedures.push((clone_signature(signature), copy_procedure(procedure)));
        proof {
            let n = before.procedures@.len();
            lemma_procedures_agree(r, before, n);
            lemma_procedures_step(r, n + 1);
        }
        r
    }

    /// The procedure bound to `signature`, if any.
    fn find(&self, signature: &Signature) -> (r: Option<&Procedure>)
        ensures
            match r {
                Some(p) => self@.contains_key(signature_model(*signature)) && p@ == self@[signature_model(*signature)],
                None => !self@.contains_key(signature_model(*signature)),
            },
    {
        let ghost k = signature_model(*signature);
        let mut i: usize = self.procedures.len();
        while i > 0
            invariant
                i <= self.procedures@.len(),
                k == signature_model(*signature),
                procedures_model(*self, i as nat).contains_key(k) == self@.contains_key(k),
                procedures_model(*self, i as nat).contains_key(k) ==> procedures_model(
                    *self,
                    i as nat,
                )[k] == self@[k],
            decreases i,
        {
            proof {
                lemma_procedures_step(*self, i as nat);
            }
            let entry = &self.procedures[i - 1];
            if crate::typecheck::same_signature(&entry.0, signature) {
                return Some(&entry.1);
            }
            i = i - 1;
        }
        None
    }

    pub fn lookup(&self, signature: &Signature) -> (r: Result<Procedure, String>)
        ensures
            match r {
                Ok(p) => self@.contains_key(signature_model(*signature)) && p@ == self@[signature_model(*signature)],
                Err(m) => !self@.contains_key(signature_model(*signature)) && m@
                    == unknown_signature_message(signature_model(*signature)),
            },
    {
        match self.find(signature) {
            Some(p) => Ok(copy_procedure(p)),
            None => {
                let written = write_signature(
                    signature.0.0.as_str(),
                    &signature.1.0,
                    &signature.1.1,
                );
                Err(concat2("unknown signature ", written.as_str()))
            },
        }
    }

    pub fn init() -> (r: ProcedureEnvironment)
        ensures
            r@ == Map::<SignatureModel, ProcModel>::empty(),
    {
        ProcedureEnvironment { procedures: Vec::new() }
    }
}

} // verus!

verus! {

// ---------------------------------------------------------------------------
// Evaluating expressions.

/// Addresses as natural numbers.
pub open spec fn address_seq(s: Seq<Address>) -> Seq<nat> {
    s.map_values(|a: Address| a as nat)
}

/// The two operands of a binary arithmetic or comparison expression.
spec fn numeric_operands(e: Expression) -> (Expression, Expression) {
    match e {
        Expression::Sum(l, r) => (*l, *r),
        Expression::Difference(l, r) => (*l, *r),
        Expression::Product(l, r) => (*l, *r),
        Expression::Division(l, r) => (*l, *r),
        Expression::LessThanOrEqual(l, r) => (*l, *r),
        _ => (e, e),
    }
}

/// Evaluates both operands of `e`, left first, and requires two numerals.
fn extract_numerals(store: &Store, environment: &VariableEnvironment, e: &Expression) -> (r: Result<
    (i32, i32),
    String,
>)
    requires
        e is Sum || e is Difference || e is Product || e is Division || e is LessThanOrEqual,
    ensures
        match r {
            Ok(p) => numerals_of(
                value_of(expr_model(numeric_operands(*e).0), store@, environment@),
                value_of(expr_model(numeric_operands(*e).1), store@, environment@),
            ) == Ok::<(i32, i32), Seq<char>>(p),
            Err(m) => numerals_of(
                value_of(expr_model(numeric_operands(*e).0), store@, environment@),
                value_of(expr_model(numeric_operands(*e).1), store@, environment@),
            ) == Err::<(i32, i32), Seq<char>>(m@),
        },
    decreases e, 0nat,
{
    let (left, right) = match e {
        Expression::Sum(l, r)
        | Expression::Difference(l, r)
        | Expression::Product(l, r)
        | Expression::Division(l, r)
        | Expression::LessThanOrEqual(l, r) => (l, r),
        _ => {
            return Ok((0, 0));
        },
    };
    if let Value::Numeral(left) = left.evaluate(store, environment)? {
        if let Value::Numeral(right) = right.evaluate(store, environment)? {
            Ok((left, right))
        } else {
            Err(owned("right value of the expression is not a number"))
        }
    } else {
        Err(owned("left value of the expression is not a number"))
    }
}

fn overflow<T>() -> (r: Result<T, String>)
    ensures
        r matches Err(m) && m@ == overflow_message(),
{
    Err(owned("arithmetic overflow"))
}

impl Expression {
    /// The value of the expression in `store`, reading variables through `environment`.
    pub fn evaluate(&self, store: &Store, environment: &VariableEnvironment) -> (r: Result<
        Value,
        String,
    >)
        ensures
            match r {
                Ok(v) => value_of(expr_model(*self), store@, environment@) == Ok::<Value, Seq<char>>(v),
                Err(m) => value_of(expr_model(*self), store@, environment@) == Err::<Value, Seq<char>>(
                    m@,
                ),
            },
        decreases self, 1nat,
    {
        match self {
            Expression::Value(val) => Ok(*val),
            Expression::Variable(identifier) => {
                let address = environment.lookup(identifier)?;
                Ok(*store.lookup(&address))
            },
            Expression::Sum(_, _) => {
                let (left, right) = extract_numerals(store, environment, self)?;
                match left.checked_add(right) {
                    Some(n) => Ok(Value::Numeral(n)),
                    None => overflow(),
                }
            },
            Expression::Difference(_, _) => {
                let (left, right) = extract_numerals(store, environment, self)?;
                match left.checked_sub(right) {
                    Some(n) => Ok(Value::Numeral(n)),
                    None => overflow(),
                }
            },
            Expression::Product(_, _) => {
                let (left, right) = extract_numerals(store, environment, self)?;
                match left.checked_mul(right) {
                    Some(n) => Ok(Value::Numeral(n)),
                    None => overflow(),
                }
            },
            Expression::Division(_, _) => {
                let (left, right) = extract_numerals(store, environment, self)?;
                if right == 0 {
                    return Err(owned("division by 0"));
                }
                match left.checked_div(right) {
                    Some(n) => Ok(Value::Numeral(n)),
                    None => overflow(),
                }
            },
            Expression::Negative(expr) => {
                if let Value::Numeral(num) = expr.evaluate(store, environment)? {
                    if num == i32::MIN {
                        overflow()
                    } else {
                        Ok(Value::Numeral(-num))
                    }
                } else {
                    Err(owned("can only negate numbers"))
                }
            },
            Expression::Equal(left, right) => {
                let left = left.evaluate(store, environment)?;
                let right = right.evaluate(store, environment)?;
                if left == right {
                    Ok(Value::True)
                } else {
                    Ok(Value::False)
                }
            },
            Expression::LessThanOrEqual(_, _) => {
                let (left, right) = extract_numerals(store, environment, self)?;
                if left <= right {
                    Ok(Value::True)
                } else {
                    Ok(Value::False)
                }
            },
            Expression::And(left, right) => {
                if let Value::True = left.evaluate(store, environment)? {
                    if let Value::True = right.evaluate(store, environment)? {
                        Ok(Value::True)
                    } else {
                        Ok(Value::False)
                    }
                } else {
                    Ok(Value::False)
                }
            },
            Expression::Or(left, right) => {
                if let Value::True = left.evaluate(store, environment)? {
                    Ok(Value::True)
                } else if let Value::True = right.evaluate(store, environment)? {
                    Ok(Value::True)
                } else {
                    Ok(Value::False)
                }
            },
            Expression::Not(expr) => {
                if let Value::True = expr.evaluate(store, environment)? {
                    Ok(Value::False)
                } else {
                    Ok(Value::True)
                }
            },
        }
    }

    /// The value of the expression in `store` under `environment`.
    pub fn eval(&self, store: &Store, environment: &Environment) -> (r: Result<Value, String>)
        ensures
            match r {
                Ok(v) => value_of(expr_model(*self), store@, environment.0@) == Ok::<Value, Seq<char>>(v),
                Err(m) => value_of(expr_model(*self), store@, environment.0@) == Err::<
                    Value,
                    Seq<char>,
                >(m@),
            },
    {
        self.evaluate(store, &environment.0)
    }
}

} // verus!

verus! {

impl Expressions {
    fn evaluate(&self, store: &Store, environment: &VariableEnvironment) -> (r: Result<
        Vec<Value>,
        String,
    >)
        ensures
            match r {
                Ok(v) => values_of(exprs_model(*self), store@, environment@) == Ok::<
                    Seq<Value>,
                    Seq<char>,
                >(v@),
                Err(m) => values_of(exprs_model(*self), store@, environment@) == Err::<
                    Seq<Value>,
                    Seq<char>,
                >(m@),
            },
        decreases self,
    {
        match self {
            Expressions::Empty => Ok(Vec::new()),
            Expressions::Sequence(first, rest) => {
                assert(exprs_model(*self).drop_first() =~= exprs_model(**rest));
                let value = first.evaluate(store, environment)?;
                let mut result = rest.evaluate(store, environment)?;
                let ghost tail = result@;
                result.insert(0, value);
                assert(result@ =~= seq![value] + tail);
                Ok(result)
            },
        }
    }

    /// The values of the expressions, left to right.
    pub fn eval(&self, store: &Store, environment: &Environment) -> (r: Result<Vec<Value>, String>)
        ensures
            match r {
                Ok(v) => values_of(exprs_model(*self), store@, environment.0@) == Ok::<
                    Seq<Value>,
                    Seq<char>,
                >(v@),
                Err(m) => values_of(exprs_model(*self), store@, environment.0@) == Err::<
                    Seq<Value>,
                    Seq<char>,
                >(m@),
            },
    {
        self.evaluate(store, &environment.0)
    }
}

impl Variables {
    fn addresses(&self, environment: &VariableEnvironment) -> (r: Result<Vec<Address>, String>)
        ensures
            match r {
                Ok(v) => addresses_of(vars_model(*self), environment@) == Ok::<Seq<nat>, Seq<char>>(
                    address_seq(v@),
                ),
                Err(m) => addresses_of(vars_model(*self), environment@) == Err::<
                    Seq<nat>,
                    Seq<char>,
                >(m@),
            },
        decreases self,
    {
        match self {
            Variables::Empty => {
                let v: Vec<Address> = Vec::new();
                assert(address_seq(v@) =~= Seq::<nat>::empty());
                Ok(v)
            },
            Variables::Sequence(first, rest) => {
                assert(vars_model(*self).drop_first() =~= vars_model(**rest));
                let address = environment.lookup(&first.0)?;
                let mut result = rest.addresses(environment)?;
                let ghost tail = result@;
                result.insert(0, address);
                assert(address_seq(result@) =~= seq![address as nat] + address_seq(tail));
                Ok(result)
            },
        }
    }

    /// The addresses that the variables are bound to, in order.
    pub fn eval(&self, environment: &Environment) -> (r: Result<Vec<Address>, String>)
        ensures
            match r {
                Ok(v) => addresses_of(vars_model(*self), environment.0@) == Ok::<
                    Seq<nat>,
                    Seq<char>,
                >(address_seq(v@)),
                Err(m) => addresses_of(vars_model(*self), environment.0@) == Err::<
                    Seq<nat>,
                    Seq<char>,
                >(m@),
            },
    {
        self.addresses(&environment.0)
    }
}

/// Binds the parameters to the first `n` addresses.
fn bind_prefix(
    parameters: &Parameters,
    address_sequence: &[Address],
    n: usize,
    environment: &VariableEnvironment,
) -> (r: Result<VariableEnvironment, String>)
    requires
        n <= address_sequence@.len(),
    ensures
        match r {
            Ok(e) => params_model(*parameters).len() == n && e@ == bind_all(
                params_model(*parameters),
                address_seq(address_sequence@.subrange(0, n as int)),
                environment@,
            ),
            Err(m) => params_model(*parameters).len() != n && m@ == arity_message(),
        },
    decreases parameters,
{
    match parameters {
        Parameters::Empty => if n == 0 {
            Ok(environment.clone())
        } else {
            Err(owned("address sequence size mismatch"))
        },
        Parameters::Sequence(others, variable, _) => {
            if n == 0 {
                return Err(owned("address sequence size mismatch"));
            }
            let inner = bind_prefix(others, address_sequence, n - 1, environment)?;
            proof {
                let addrs = address_seq(address_sequence@.subrange(0, n as int));
                assert(addrs.drop_last() =~= address_seq(address_sequence@.subrange(0, n - 1)));
                assert(params_model(*parameters).drop_last() =~= params_model(**others));
            }
            Ok(inner.update(&variable.0, &address_sequence[n - 1]))
        },
    }
}

impl Parameters {
    /// Binds each parameter to the address at the same position; the counts must agree.
    pub fn eval(&self, address_sequence: &[Address], environment: &VariableEnvironment) -> (r: Result<
        VariableEnvironment,
        String,
    >)
        ensures
            match r {
                Ok(e) => bind_params(params_model(*self), address_seq(address_sequence@), environment@)
                    == Ok::<Map<Seq<char>, nat>, Seq<char>>(e@),
                Err(m) => bind_params(
                    params_model(*self),
                    address_seq(address_sequence@),
                    environment@,
                ) == Err::<Map<Seq<char>, nat>, Seq<char>>(m@),
            },
    {
        assert(address_sequence@.subrange(0, address_sequence@.len() as int) =~= address_sequence@);
        bind_prefix(self, address_sequence, address_sequence.len(), environment)
    }
}

/// Calls a procedure: binds its parameters to the given addresses in its own
/// environment and runs its body.
pub open spec fn call_procedure(
    p: ProcModel,
    ins: Seq<nat>,
    outs: Seq<nat>,
    top: nat,
    st: StoreModel,
    fuel: nat,
) -> Result<(StoreModel, nat), Seq<char>> {
    match bind_params(p.ins, ins, p.env.vars) {
        Err(m) => Err(m),
        Ok(vars1) => match bind_params(p.outs, outs, vars1) {
            Err(m) => Err(m),
            Ok(vars2) => run_command(p.body, st, EnvModel { vars: vars2, procs: p.env.procs }, top, fuel),
        },
    }
}

impl Procedure {
    /// Runs the body with inputs bound to `address_sequence_in` and outputs bound to
    /// `address_sequence_out`, allocating from `top` on.
    fn call(
        &self,
        address_sequence_in: &[Address],
        address_sequence_out: &[Address],
        top: Address,
        store: &Store,
        fuel: u64,
    ) -> (r: Result<(Store, Address), String>)
        ensures
            match r {
                Ok((s, t)) => call_procedure(
                    self@,
                    address_seq(address_sequence_in@),
                    address_seq(address_sequence_out@),
                    top as nat,
                    store@,
                    fuel as nat,
                ) == Ok::<(StoreModel, nat), Seq<char>>((s@, t as nat)),
                Err(m) => call_procedure(
                    self@,
                    address_seq(address_sequence_in@),
                    address_seq(address_sequence_out@),
                    top as nat,
                    store@,
                    fuel as nat,
                ) == Err::<(StoreModel, nat), Seq<char>>(m@),
            },
        decreases fuel, 2nat,
    {
        let var = self.in_params.eval(address_sequence_in, &self.environment.0)?;
        let var = self.out_params.eval(address_sequence_out, &var)?;
        self.body.execute(store, &var, &self.environment.1, top, fuel)
    }
}

impl Command {
    fn execute(
        &self,
        store: &Store,
        variables: &VariableEnvironment,
        procedures: &ProcedureEnvironment,
        top: Address,
        fuel: u64,
    ) -> (r: Result<(Store, Address), String>)
        ensures
            match r {
                Ok((s, t)) => run_command(
                    cmd_model(*self),
                    store@,
                    EnvModel { vars: variables@, procs: procedures@ },
                    top as nat,
                    fuel as nat,
                ) == Ok::<(StoreModel, nat), Seq<char>>((s@, t as nat)),
                Err(m) => run_command(
                    cmd_model(*self),
                    store@,
                    EnvModel { vars: variables@, procs: procedures@ },
                    top as nat,
                    fuel as nat,
                ) == Err::<(StoreModel, nat), Seq<char>>(m@),
            },
        decreases fuel, 1nat, self,
    {
        let ghost env = EnvModel { vars: variables@, procs: procedures@ };
        match self {
            Command::Assign(identifier, expression) => {
                let address = variables.lookup(identifier)?;
                let value = expression.evaluate(store, variables)?;
                Ok((store.update(address, value), top))
            },
            Command::Var(identifier, _, command) => {
                if top == usize::MAX {
                    return Err(owned("address space exhausted"));
                }
                let inner = variables.update(identifier, &top);
                command.execute(store, &inner, procedures, top + 1, fuel)
            },
            Command::Sequence(first, second) => {
                let (store, top) = first.execute(store, variables, procedures, top, fuel)?;
                second.execute(&store, variables, procedures, top, fuel)
            },
            Command::IfElse(expression, if_branch, else_branch) => {
                if expression.evaluate(store, variables)? == Value::True {
                    if_branch.execute(store, variables, procedures, top, fuel)
                } else {
                    else_branch.execute(store, variables, procedures, top, fuel)
                }
            },
            Command::If(expression, if_branch) => {
                if expression.evaluate(store, variables)? == Value::True {
                    if_branch.execute(store, variables, procedures, top, fuel)
                } else {
                    Ok((store.clone(), top))
                }
            },
            Command::While(expression, body) => {
                let mut current = store.clone();
                let mut current_top = top;
                let mut remaining = fuel;
                loop
                    invariant
                        remaining <= fuel,
                        env == (EnvModel { vars: variables@, procs: procedures@ }),
                        cmd_model(*self) == CmdModel::While(
                            expr_model(*expression),
                            Box::new(cmd_model(**body)),
                        ),
                        run_command(
                            cmd_model(*self),
                            current@,
                            env,
                            current_top as nat,
                            remaining as nat,
                        ) == run_command(cmd_model(*self), store@, env, top as nat, fuel as nat),
                    decreases remaining,
                {
                    if expression.evaluate(&current, variables)? != Value::True {
                        return Ok((current, current_top));
                    }
                    if remaining == 0 {
                        return Err(owned("step limit exceeded"));
                    }
                    remaining = remaining - 1;
                    let (next, next_top) = body.execute(
                        &current,
                        variables,
                        procedures,
                        current_top,
                        remaining,
                    )?;
                    current = next;
                    current_top = next_top;
                }
            },
            Command::Call(_, expressions, variable_list, signature) => {
                let signature = match signature {
                    Some(s) => s,
                    None => {
                        return Err(owned("call hasn't been annotated"));
                    },
                };
                let vs = expressions.evaluate(store, variables)?;
                let n = vs.len();
                if top > usize::MAX - n {
                    return Err(owned("address space exhausted"));
                }
                let mut current = store.clone();
                let mut as1: Vec<Address> = Vec::new();
                let mut i: usize = 0;
                while i < n
                    invariant
                        n == vs@.len(),
                        top + n <= usize::MAX,
                        i <= n,
                        address_seq(as1@) == fresh_addresses(top as nat, i as nat),
                        current@ == write_values(store@, top as nat, vs@.subrange(0, i as int)),
                    decreases n - i,
                {
                    proof {
                        assert(vs@.subrange(0, i + 1).drop_last() =~= vs@.subrange(0, i as int));
                    }
                    let ghost before = as1@;
                    as1.push(top + i);
                    current = current.update(top + i, vs[i]);
                    assert(address_seq(as1@) =~= address_seq(before).push((top + i) as nat));
                    assert(fresh_addresses(top as nat, (i + 1) as nat) =~= fresh_addresses(
                        top as nat,
                        i as nat,
                    ).push((top + i) as nat));
                    i = i + 1;
                }
                assert(vs@.subrange(0, n as int) =~= vs@);
                let as2 = variable_list.addresses(variables)?;
                let procedure = match procedures.find(signature) {
                    Some(p) => p,
                    None => {
                        let written = write_signature(
                            signature.0.0.as_str(),
                            &signature.1.0,
                            &signature.1.1,
                        );
                        return Err(concat2("unknown signature ", written.as_str()));
                    },
                };
                if fuel == 0 {
                    return Err(owned("step limit exceeded"));
                }
                procedure.call(&as1, &as2, top + n, &current, fuel - 1)
            },
        }
    }

    /// Runs the command in `store` under `environment`, allocating fresh addresses from
    /// `top` on; returns the final store and the first address still unallocated.
    pub fn eval(&self, store: &Store, environment: &Environment, top: Address) -> (r: Result<
        (Store, Address),
        String,
    >)
        ensures
            match r {
                Ok((s, t)) => run_command(
                    cmd_model(*self),
                    store@,
                    env_model(*environment),
                    top as nat,
                    STEP_LIMIT as nat,
                ) == Ok::<(StoreModel, nat), Seq<char>>((s@, t as nat)),
                Err(m) => run_command(
                    cmd_model(*self),
                    store@,
                    env_model(*environment),
                    top as nat,
                    STEP_LIMIT as nat,
                ) == Err::<(StoreModel, nat), Seq<char>>(m@),
            },
    {
        self.execute(store, &environment.0, &environment.1, top, STEP_LIMIT)
    }
}

} // verus!

verus! {

impl Declaration {
    /// Declares the item in `environment`, with `top` the next free address.
    pub fn eval(&self, environment: &Environment, top: Address) -> (r: Result<
        (Environment, Address),
        String,
    >)
        ensures
            match r {
                Ok((e, t)) => declare(decl_model(*self), env_model(*environment), top as nat)
                    == Ok::<(EnvModel, nat), Seq<char>>((env_model(e), t as nat)),
                Err(m) => declare(decl_model(*self), env_model(*environment), top as nat) == Err::<
                    (EnvModel, nat),
                    Seq<char>,
                >(m@),
            },
    {
        match self {
            Declaration::Variable(identifier, _) => {
                if top == usize::MAX {
                    return Err(owned("address space exhausted"));
                }
                let environment = (environment.0.update(identifier, &top), environment.1.clone());
                Ok((environment, top + 1))
            },
            Declaration::Procedure(identifier, in_params, out_params, body) => {
                let procedure = Procedure {
                    in_params: in_params.clone(),
                    out_params: out_params.clone(),
                    environment: (environment.0.clone(), environment.1.clone()),
                    body: body.clone(),
                };
                let (_, in_sorts) = in_params.typecheck()?;
                let (_, out_sorts) = out_params.typecheck()?;
                let signature: Signature = (identifier.clone(), (in_sorts, out_sorts));
                let environment = (
                    environment.0.clone(),
                    environment.1.update(&signature, &procedure),
                );
                Ok((environment, top))
            },
        }
    }
}

impl Declarations {
    /// Declares the items from first to last, allocating addresses from 0 on.
    pub fn eval(&self) -> (r: Result<(Environment, Address), String>)
        ensures
            match r {
                Ok((e, t)) => declare_all(decls_model(*self)) == Ok::<(EnvModel, nat), Seq<char>>(
                    (env_model(e), t as nat),
                ),
                Err(m) => declare_all(decls_model(*self)) == Err::<(EnvModel, nat), Seq<char>>(m@),
            },
        decreases self,
    {
        match self {
            Declarations::Empty => {
                let environment = (VariableEnvironment::init(), ProcedureEnvironment::init());
                assert(env_model(environment) == empty_env());
                Ok((environment, 0))
            },
            Declarations::Sequence(other, declaration) => {
                assert(decls_model(*self).drop_last() =~= decls_model(**other));
                let (environment, top) = other.eval()?;
                declaration.eval(&environment, top)
            },
        }
    }
}

impl Program {
    /// Runs a program that passed type checking on `value_sequence` and returns the final
    /// values of its parameters. Each loop iteration and each procedure call spends one unit of a budget that starts
    /// at `limit`; the commands nested inside run on what is left.
    pub fn eval_with_limit(&self, value_sequence: &Vec<Value>, limit: u64) -> (r: Result<
        Vec<Value>,
        String,
    >)
        requires
            crate::typecheck::is_checked(program_model(*self)),
        ensures
            match r {
                Ok(v) => run_program(program_model(*self), value_sequence@, limit as nat) == Ok::<
                    Seq<Value>,
                    Seq<char>,
                >(v@),
                Err(m) => run_program(program_model(*self), value_sequence@, limit as nat) == Err::<
                    Seq<Value>,
                    Seq<char>,
                >(m@),
            },
    {
        let Program(declarations, _, parameters, body) = self;
        let (environment, top) = declarations.eval()?;
        let n = value_sequence.len();
        if top > usize::MAX - n {
            return Err(owned("address space exhausted"));
        }
        let mut argument_sequence: Vec<Address> = Vec::new();
        let mut store = Store::init(Value::Numeral(0));
        let ghost initial = store@;
        let mut i: usize = 0;
        while i < n
            invariant
                n == value_sequence@.len(),
                top + n <= usize::MAX,
                i <= n,
                address_seq(argument_sequence@) == fresh_addresses(top as nat, i as nat),
                store@ == write_values(initial, top as nat, value_sequence@.subrange(0, i as int)),
            decreases n - i,
        {
            proof {
                assert(value_sequence@.subrange(0, i + 1).drop_last() =~= value_sequence@.subrange(
                    0,
                    i as int,
                ));
            }
            let ghost before = argument_sequence@;
            argument_sequence.push(top + i);
            store = store.update(top + i, value_sequence[i]);
            assert(address_seq(argument_sequence@) =~= address_seq(before).push((top + i) as nat));
            assert(fresh_addresses(top as nat, (i + 1) as nat) =~= fresh_addresses(
                top as nat,
                i as nat,
            ).push((top + i) as nat));
            i = i + 1;
        }
        assert(value_sequence@.subrange(0, n as int) =~= value_sequence@);
        let var = parameters.eval(&argument_sequence, &environment.0)?;
        let (store, _) = body.execute(&store, &var, &environment.1, top + n, limit)?;
        let mut result: Vec<Value> = Vec::new();
        let mut j: usize = 0;
        while j < n
            invariant
                n == argument_sequence@.len(),
                j <= n,
                address_seq(argument_sequence@) == fresh_addresses(top as nat, n as nat),
                result@ == Seq::new(j as nat, |k: int| store@.read((top + k) as nat)),
            decreases n - j,
        {
            assert(address_seq(argument_sequence@)[j as int] == (top + j) as nat);
            result.push(*store.lookup(&argument_sequence[j]));
            assert(result@ =~= Seq::new((j + 1) as nat, |k: int| store@.read((top + k) as nat)));
            j = j + 1;
        }
        Ok(result)
    }

    /// Runs a program that passed type checking (the result of `typecheck`) on
    /// `value_sequence` and returns the final values of its parameters.
    pub fn eval(&self, value_sequence: Vec<Value>) -> (r: Result<Vec<Value>, String>)
        requires
            crate::typecheck::is_checked(program_model(*self)),
        ensures
            match r {
                Ok(v) => run_program(program_model(*self), value_sequence@, STEP_LIMIT as nat)
                    == Ok::<Seq<Value>, Seq<char>>(v@),
                Err(m) => run_program(program_model(*self), value_sequence@, STEP_LIMIT as nat)
                    == Err::<Seq<Value>, Seq<char>>(m@),
            },
    {
        self.eval_with_limit(&value_sequence, STEP_LIMIT)
    }
}

} // verus!

verus! {

impl Program {
    /// Type checks the program and runs the annotated program only if the check succeeds;
    /// a program that fails the check is never evaluated.
    pub fn run(&self, value_sequence: Vec<Value>) -> (r: Result<Vec<Value>, String>)
        ensures
            match crate::typecheck::check_program(program_model(*self)) {
                Err(m) => r matches Err(e) && e@ == m,
                Ok(annotated) => match r {
                    Ok(v) => run_program(annotated, value_sequence@, STEP_LIMIT as nat) == Ok::<
                        Seq<Value>,
                        Seq<char>,
                    >(v@),
                    Err(e) => run_program(annotated, value_sequence@, STEP_LIMIT as nat) == Err::<
                        Seq<Value>,
                        Seq<char>,
                    >(e@),
                },
            },
    {
        let annotated = self.typecheck()?;
        annotated.eval(value_sequence)
    }
}

} // verus!
