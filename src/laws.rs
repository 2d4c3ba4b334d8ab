use vstd::prelude::*;

use crate::eval::{
    addresses_of, bind_params, fresh_addresses, run_command, run_program, value_of, values_of,
    write_values, EnvModel, StoreModel, STEP_LIMIT,
};
use crate::typecheck::{
    check_command, check_declaration, check_declarations, check_program, is_checked,
    parameter_typing,
};
use crate::types::{program_model, CmdModel, DeclModel, ExprModel, Program, ProgramModel, SignatureModel, Value};

verus! {

/// Checking an annotated command again gives it back unchanged.
pub proof fn lemma_check_command_idempotent(
    c: CmdModel,
    vt: Map<Seq<char>, Seq<char>>,
    pt: Set<SignatureModel>,
)
    requires
        check_command(c, vt, pt) is Ok,
    ensures
        check_command(check_command(c, vt, pt)->Ok_0, vt, pt) == check_command(c, vt, pt),
    decreases c,
{
    match c {
        CmdModel::Var(x, s, body) => {
            lemma_check_command_idempotent(*body, vt.insert(x, s), pt);
        },
        CmdModel::Sequence(c1, c2) => {
            lemma_check_command_idempotent(*c1, vt, pt);
            lemma_check_command_idempotent(*c2, vt, pt);
        },
        CmdModel::IfElse(_, c1, c2) => {
            lemma_check_command_idempotent(*c1, vt, pt);
            lemma_check_command_idempotent(*c2, vt, pt);
        },
        CmdModel::If(_, c1) => {
            lemma_check_command_idempotent(*c1, vt, pt);
        },
        CmdModel::While(_, c1) => {
            lemma_check_command_idempotent(*c1, vt, pt);
        },
        _ => {},
    }
}

/// Checking an annotated declaration again gives it back, with the same context.
pub proof fn lemma_check_declaration_idempotent(
    d: DeclModel,
    vt: Map<Seq<char>, Seq<char>>,
    pt: Set<SignatureModel>,
)
    requires
        check_declaration(d, vt, pt) is Ok,
    ensures
        check_declaration(check_declaration(d, vt, pt)->Ok_0.2, vt, pt) == check_declaration(
            d,
            vt,
            pt,
        ),
{
    match d {
        DeclModel::Procedure(x, ins, outs, body) => {
            let (in_map, _) = parameter_typing(ins)->Ok_0;
            let (out_map, _) = parameter_typing(outs)->Ok_0;
            lemma_check_command_idempotent(
                body,
                vt.union_prefer_right(out_map.union_prefer_right(in_map)),
                pt,
            );
        },
        _ => {},
    }
}

/// Checking annotated declarations again gives them back, with the same context.
pub proof fn lemma_check_declarations_idempotent(ds: Seq<DeclModel>)
    requires
        check_declarations(ds) is Ok,
    ensures
        check_declarations(check_declarations(ds)->Ok_0.2) == check_declarations(ds),
    decreases ds.len(),
{
    if ds.len() > 0 {
        lemma_check_declarations_idempotent(ds.drop_last());
        let (vt, pt, done) = check_declarations(ds.drop_last())->Ok_0;
        lemma_check_declaration_idempotent(ds.last(), vt, pt);
        let annotated = check_declarations(ds)->Ok_0.2;
        assert(annotated.drop_last() =~= done);
        lemma_check_declarations_length(ds.drop_last());
    }
}

/// Checking keeps the number of declarations.
proof fn lemma_check_declarations_length(ds: Seq<DeclModel>)
    requires
        check_declarations(ds) is Ok,
    ensures
        check_declarations(ds)->Ok_0.2.len() == ds.len(),
    decreases ds.len(),
{
    if ds.len() > 0 {
        lemma_check_declarations_length(ds.drop_last());
    }
}

/// Type checking is idempotent: checking the annotated program that a successful check
/// returned succeeds again and returns that same program, call annotations included.
pub proof fn lemma_typecheck_idempotent(p: ProgramModel)
    requires
        check_program(p) is Ok,
    ensures
        check_program(check_program(p)->Ok_0) == check_program(p),
{
    lemma_check_declarations_idempotent(p.decls);
    let (vt, pt, _) = check_declarations(p.decls)->Ok_0;
    let (param_map, _) = parameter_typing(p.params)->Ok_0;
    lemma_check_command_idempotent(p.body, vt.union_prefer_right(param_map), pt);
}

/// A program that fails type checking is not a checked program, so `Program::eval`, which
/// requires one, can never be called on it; `Program::run` returns the checker's error.
pub proof fn lemma_failed_check_is_never_evaluated(p: ProgramModel)
    requires
        check_program(p) is Err,
    ensures
        !is_checked(p),
{
}

/// Evaluation is deterministic: the same program on the same inputs gives the same result.
pub proof fn lemma_eval_deterministic(p: Program, q: Program, inputs: Seq<Value>, again: Seq<Value>)
    requires
        program_model(p) == program_model(q),
        inputs == again,
    ensures
        run_program(program_model(p), inputs, STEP_LIMIT as nat) == run_program(
            program_model(q),
            again,
            STEP_LIMIT as nat,
        ),
{
}

/// Allocation only moves forward: a run hands back a first unallocated address no smaller
/// than the one it started from, so the next command never receives an address that an
/// earlier one was given.
pub proof fn lemma_allocation_moves_forward(
    c: CmdModel,
    st: StoreModel,
    env: EnvModel,
    top: nat,
    fuel: nat,
)
    requires
        run_command(c, st, env, top, fuel) is Ok,
    ensures
        run_command(c, st, env, top, fuel)->Ok_0.1 >= top,
    decreases fuel, c,
{
    match c {
        CmdModel::Var(x, _, body) => {
            lemma_allocation_moves_forward(
                *body,
                st,
                EnvModel { vars: env.vars.insert(x, top), procs: env.procs },
                top + 1,
                fuel,
            );
        },
        CmdModel::Sequence(c1, c2) => {
            lemma_allocation_moves_forward(*c1, st, env, top, fuel);
            let (st1, top1) = run_command(*c1, st, env, top, fuel)->Ok_0;
            lemma_allocation_moves_forward(*c2, st1, env, top1, fuel);
        },
        CmdModel::IfElse(e, c1, c2) => {
            if value_of(e, st, env.vars) == Ok::<Value, Seq<char>>(Value::True) {
                lemma_allocation_moves_forward(*c1, st, env, top, fuel);
            } else {
                lemma_allocation_moves_forward(*c2, st, env, top, fuel);
            }
        },
        CmdModel::If(e, c1) => {
            if value_of(e, st, env.vars) == Ok::<Value, Seq<char>>(Value::True) {
                lemma_allocation_moves_forward(*c1, st, env, top, fuel);
            }
        },
        CmdModel::While(e, body) => {
            if value_of(e, st, env.vars) == Ok::<Value, Seq<char>>(Value::True) && fuel > 0 {
                lemma_allocation_moves_forward(*body, st, env, top, (fuel - 1) as nat);
                let (st1, top1) = run_command(*body, st, env, top, (fuel - 1) as nat)->Ok_0;
                lemma_allocation_moves_forward(c, st1, env, top1, (fuel - 1) as nat);
            }
        },
        CmdModel::Call(_, es, vs, annotation) => {
            let sig = annotation->Some_0;
            let vals = values_of(es, st, env.vars)->Ok_0;
            let st1 = write_values(st, top, vals);
            let outs = addresses_of(vs, env.vars)->Ok_0;
            let p = env.procs[sig];
            let vars1 = bind_params(p.ins, fresh_addresses(top, vals.len()), p.env.vars)->Ok_0;
            let vars2 = bind_params(p.outs, outs, vars1)->Ok_0;
            lemma_allocation_moves_forward(
                p.body,
                st1,
                EnvModel { vars: vars2, procs: p.env.procs },
                top + vals.len(),
                (fuel - 1) as nat,
            );
        },
        _ => {},
    }
}

/// A loop whose condition does not hold on entry runs zero times and leaves the store
/// unchanged.
pub proof fn lemma_while_false_skips(
    e: ExprModel,
    body: CmdModel,
    st: StoreModel,
    env: EnvModel,
    top: nat,
    fuel: nat,
)
    requires
        value_of(e, st, env.vars) == Ok::<Value, Seq<char>>(Value::False),
    ensures
        run_command(CmdModel::While(e, Box::new(body)), st, env, top, fuel) == Ok::<
            (StoreModel, nat),
            Seq<char>,
        >((st, top)),
{
}

} // verus!
