//! General laws of the resolver, the environment chain and the evaluator.
//!
//! Each law is stated over the semantic model that the executable functions
//! are pinned to by their contracts, so what is proved here holds of every
//! run of the library.

use vstd::prelude::*;
use crate::ast::{Expr, Stmt};
use crate::lexer::s_scan;
use crate::env::{
    lemma_find_idx, s_assign, s_def_in, s_define, s_find, s_find_idx, s_get, s_push_env, wf_envs,
    env_wf_at, EnvM,
};
use crate::errors::{CtlM, ErrKindM, EvalOut, ExecOut};
use crate::interp::{
    s_bind_params, s_call_expr, s_call_function, s_eval, s_exec, s_exec_in, s_find_method,
    s_interpret, s_method_idx, s_render, s_while_stmt, s_initial, ClassM, FunM, StateM,
};
use crate::resolver::{s_mark_used_from, s_res_stmts, s_res_var, s_resolve_local, s_scope_idx, ResolverM};
use crate::value::{s_truthy, s_truthy_law_holds, s_val_eq, ValueM};

verus! {

/// Resolution is deterministic: over one and the same tree, two resolution
/// passes that start from equal states produce identical distance tables and
/// identical verdicts.  The executable resolver is pinned to `s_res_stmts` by
/// its contract, so this holds of every pair of runs.
pub proof fn lemma_resolution_deterministic(
    rs1: ResolverM,
    rs2: ResolverM,
    program: Seq<Stmt>,
    fuel: u64,
)
    requires
        rs1 == rs2,
    ensures
        s_res_stmts(rs1, program, fuel).0.locals == s_res_stmts(rs2, program, fuel).0.locals,
        s_res_stmts(rs1, program, fuel).1 == s_res_stmts(rs2, program, fuel).1,
{
}

/// Interpretation is deterministic: resolving and then interpreting the same
/// unmodified program twice from fresh global state — the same installed
/// distance table and the same clock reading — produces identical observable
/// output and the same verdict both times.
pub proof fn lemma_interpretation_idempotent(
    program: Seq<Stmt>,
    locals: Seq<(u64, usize)>,
    now: i64,
    fuel: u64,
)
    ensures
        ({
            let start = StateM { locals: locals, now: now, ..s_initial() };
            let (st1, out1) = s_interpret(start, program, fuel);
            let (st2, out2) = s_interpret(start, program, fuel);
            st1.output == st2.output && out1 == out2
        }),
{
}

/// A binding bound by `define` is what `get` then reads in that scope: the
/// latest definition wins, which is what makes an inner declaration shadow an
/// outer one while it is in scope.
pub proof fn lemma_define_then_get(envs: Seq<EnvM>, at: usize, name: Seq<char>, v: ValueM)
    requires
        at < envs.len(),
    ensures
        s_get(s_define(envs, at, name, v), at, name) == Some(v),
{
    lemma_find_after_put(envs[at as int].values, name, v);
}

/// A definition made in an inner scope is invisible to lookups that start at
/// an outer scope: after the inner scope is left, `get` at the outer scope
/// reads exactly what it read before, which is the other half of shadowing.
pub proof fn lemma_inner_define_invisible(
    envs: Seq<EnvM>,
    inner: usize,
    outer: usize,
    bound: Seq<char>,
    v: ValueM,
    name: Seq<char>,
)
    requires
        wf_envs(envs),
        outer < inner < envs.len(),
    ensures
        s_get(s_define(envs, inner, bound, v), outer, name) == s_get(envs, outer, name),
    decreases outer,
{
    let envs2 = s_define(envs, inner, bound, v);
    assert(envs2[outer as int] == envs[outer as int]);
    assert(env_wf_at(envs, outer as int));
    match envs[outer as int].enclosing {
        Some(p) => {
            if p < outer {
                lemma_inner_define_invisible(envs, inner, p, bound, v, name);
            }
        },
        None => {},
    }
}

/// Assignment through a shared scope is visible to every holder of that
/// scope: after `assign` succeeds starting from a scope, `get` from the same
/// scope reads the assigned value.  Closures capture their defining scope by
/// index, so a closure that mutates a captured variable is observed by every
/// other closure over the same scope.
pub proof fn lemma_assign_then_get(envs: Seq<EnvM>, at: usize, name: Seq<char>, v: ValueM)
    requires
        wf_envs(envs),
        at < envs.len(),
        s_assign(envs, at, name, v) is Some,
    ensures
        s_get(s_assign(envs, at, name, v)->0, at, name) == Some(v),
        forall|k: int|
            at < k < envs.len() ==> #[trigger] s_assign(envs, at, name, v)->0[k] == envs[k],
    decreases at,
{
    let envs2 = s_assign(envs, at, name, v)->0;
    if s_find(envs[at as int].values, name) is Some {
        lemma_find_after_put(envs[at as int].values, name, v);
    } else {
        assert(env_wf_at(envs, at as int));
        match envs[at as int].enclosing {
            Some(p) => {
                lemma_assign_then_get(envs, p, name, v);
                assert(envs2[at as int] == envs[at as int]);
            },
            None => {},
        }
    }
}

/// After recording `name` in a scope, the scope's lookup finds exactly the
/// recorded value.
proof fn lemma_find_after_put(
    values: Seq<(Seq<char>, ValueM)>,
    name: Seq<char>,
    v: ValueM,
)
    ensures
        s_find(s_def_in(values, name, v), name) == Some(v),
{
    lemma_find_idx(values, name);
    let i = s_find_idx(values, name);
    let values2 = s_def_in(values, name, v);
    if i >= 0 {
        crate::env::lemma_find_idx(values2, name);
        let i2 = s_find_idx(values2, name);
        assert(values2[i].0 == name);
        assert(forall|j: int| i < j < values2.len() ==> values2[j] == values[j]);
        assert(i2 == i);
    } else {
        crate::env::lemma_find_idx(values2, name);
        let i2 = s_find_idx(values2, name);
        assert(values2[values.len() as int].0 == name);
        assert(i2 == values.len());
    }
}

/// A `return` raised anywhere in a called function's body terminates exactly
/// that call: the call's outcome is a value (or a break or an error that was
/// already not a return), never a propagating return signal.
pub proof fn lemma_call_confines_return(st: StateM, fi: usize, args: Seq<ValueM>, fuel: u64)
    ensures
        forall|v: ValueM| #![auto] s_call_function(st, fi, args, fuel).1 != EvalOut::Ctl(
            CtlM::Return(v),
        ),
{
}

/// A `break` raised by a loop's body terminates exactly that loop, normally:
/// when an iteration's condition is truthy and the body raises `break`, the
/// whole `while` statement completes with no propagating signal.
pub proof fn lemma_while_catches_break(st: StateM, condition: Expr, body: Stmt, fuel: u64)
    requires
        fuel > 0,
        ({
            let (st1, c) = s_eval(st, condition, fuel);
            c matches EvalOut::Val(v) && s_truthy(v) && s_exec(st1, body, fuel).1 == ExecOut::Ctl(
                CtlM::Break,
            )
        }),
    ensures
        s_while_stmt(st, condition, body, fuel).1 == ExecOut::Done,
{
}



/// Lexing is deterministic: the token stream is a pure function of the
/// source text, so two scans of equal sources yield identical streams.  The
/// executable `scan_tokens` is pinned to `s_scan` by its contract, so this
/// holds of every pair of runs.
pub proof fn lemma_lexing_deterministic(source1: Seq<char>, source2: Seq<char>)
    requires
        source1 == source2,
    ensures
        s_scan(source1, 0, 0) == s_scan(source2, 0, 0),
{
}

/// A call rejects a callee that is neither a function nor a class before it
/// touches any argument: the state is exactly the state after evaluating the
/// callee, whatever the argument expressions are and whatever effects they
/// would have had.
pub proof fn lemma_noncallable_skips_arguments(
    st: StateM,
    callee: Expr,
    args: Seq<Expr>,
    fuel: u64,
)
    ensures
        ({
            let (st1, o) = s_eval(st, callee, fuel);
            forall|cv: ValueM| #![auto]
                o == EvalOut::Val(cv) && !(cv is Callable || cv is Class)
                    ==> s_call_expr(st, callee, args, fuel) == (
                    st1,
                    EvalOut::Ctl(CtlM::Error(ErrKindM::NotCallable(s_render(st1, cv)))),
                )
        }),
{
}

/// The positive half of return confinement: when a closure's body run raises
/// a return signal, at any nesting depth, the call's result is exactly the
/// carried value.
pub proof fn lemma_call_returns_value(
    st: StateM,
    fi: usize,
    args: Seq<ValueM>,
    fuel: u64,
    v: ValueM,
)
    requires
        fi < st.funs.len(),
        ({
            let f = st.funs[fi as int];
            &&& f is Custom
            &&& f->Custom_closure < st.envs.len()
            &&& args.len() == f->Custom_params.len()
            &&& ({
                let newenv = st.envs.len() as usize;
                let envs1 = s_push_env(st.envs, f->Custom_closure);
                let envs2 = s_bind_params(envs1, newenv, f->Custom_params, args);
                s_exec_in(
                    (StateM { envs: envs2, ..st }),
                    f->Custom_body,
                    newenv,
                    fuel,
                ).1 == ExecOut::Ctl(CtlM::Return(v))
            })
        }),
    ensures
        s_call_function(st, fi, args, fuel).1 == EvalOut::Val(v),
{
}

/// Method dispatch prefers the class's own table: when a class's own table
/// holds `name`, `find_method` yields that entry, even when an ancestor also
/// defines it — an override wins.
pub proof fn lemma_find_method_own(classes: Seq<ClassM>, c: usize, name: Seq<char>)
    requires
        c < classes.len(),
        s_method_idx(classes[c as int].methods, name) >= 0,
    ensures
        s_find_method(classes, c, name) == Some(
            classes[c as int].methods[s_method_idx(classes[c as int].methods, name)].1,
        ),
{
}

/// Inheritance: when a class's own table lacks `name`, `find_method` is the
/// superclass's `find_method`, so an inherited method is found transitively
/// along the chain.
pub proof fn lemma_find_method_inherited(classes: Seq<ClassM>, c: usize, sup: usize, name: Seq<char>)
    requires
        c < classes.len(),
        s_method_idx(classes[c as int].methods, name) < 0,
        classes[c as int].superclass == Some(sup),
        sup < c,
    ensures
        s_find_method(classes, c, name) == s_find_method(classes, sup, name),
{
}

/// Truthiness: `Null` and `false` are the only falsy values; in particular
/// both the number zero and the empty string are truthy.
pub proof fn lemma_truthiness()
    ensures
        s_truthy_law_holds(),
{
    assert forall|v: ValueM| #[trigger] s_truthy(v) <==> !(v == ValueM::Null || v
        == ValueM::Bool(false)) by {
        match v {
            ValueM::Null => {},
            ValueM::Bool(_) => {},
            _ => {},
        }
    }
}

/// Value equality: `nil` equals only `nil`, with no implicit coercion across
/// kinds, and equality of primitives is structural.
pub proof fn lemma_nil_equality(v: ValueM)
    ensures
        s_val_eq(ValueM::Null, ValueM::Null),
        s_val_eq(ValueM::Null, v) ==> v == ValueM::Null,
        s_val_eq(v, ValueM::Null) ==> v == ValueM::Null,
{
}

/// Reading a local variable inside its own initializer — declared in the
/// innermost scope but not yet defined — is rejected by the resolver, for
/// every name and every reference.
pub proof fn lemma_own_initializer_read_rejected(rs: ResolverM, name: Seq<char>, id: u64)
    requires
        rs.scopes.len() > 0,
        ({
            let j = s_scope_idx(rs.scopes.last(), name);
            j >= 0 && !rs.scopes.last()[j].1
        }),
    ensures
        s_res_var(rs, name, id) == (
            rs,
            Some(ErrKindM::InvalidContext("Can't read local variable in its own initializer"@)),
        ),
{
}


/// The positive half of the own-initializer rule: any other variable read
/// succeeds, marks the nearest binding used, and records the reference's
/// distance.
pub proof fn lemma_var_read_resolves(rs: ResolverM, name: Seq<char>, id: u64)
    requires
        !(rs.scopes.len() > 0 && ({
            let j = s_scope_idx(rs.scopes.last(), name);
            j >= 0 && !rs.scopes.last()[j].1
        })),
    ensures
        ({
            let marked = ResolverM {
                scopes: s_mark_used_from(rs.scopes, rs.scopes.len() as int, name),
                ..rs
            };
            s_res_var(rs, name, id) == (s_resolve_local(marked, name, id), None::<crate::errors::ErrKindM>)
        }),
{
}
} // verus!
