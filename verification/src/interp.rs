//! The tree-walking evaluator.
//!
//! Runtime functions, classes and instances live in arenas inside the
//! [`Interpreter`]; a value refers to them by index, so "the same object"
//! means "the same index".  Every evaluation step is specified against the
//! big-step semantic functions below ([`s_eval`], [`s_exec`] and friends): a
//! pure model over the interpreter's state view that pins down, for any fuel
//! budget, exactly which value, control signal or error comes out and exactly
//! how the state changes.  Evaluation carries an explicit fuel bound so it
//! provably terminates; a script that runs out of the driver's enormous
//! budget reports an out-of-fuel error.

use vstd::prelude::*;
use std::rc::Rc;
use crate::ast::{BinOp, Expr, LogOp, Stmt, UnOp};
use crate::env::{
    find_index, s_assign, s_def_in, s_define, s_find, s_get, s_get_at, s_push_env, undef_msg,
    wf_envs, EnvM, EnvStore,
};
use crate::errors::{
    eval_out, exec_out, ControlFlow, CtlM, ErrKindM, Error, ErrorKind, EvalOut, ExecOut,
    ResultExec, RuntimeControl,
};
use crate::value::{
    s_decimal, s_lit, s_num_text, s_truthy, s_val_eq, nat_text, num_text, Value, ValueM,
};

verus! {

/// The host-provided native functions the driver may install.  The set is
/// closed: each native's result is defined by [`s_native`].
#[derive(Debug, Clone, Copy)]
pub enum NativeKind {
    /// The wall-clock sampled by the driver, in seconds; see
    /// [`Interpreter::set_clock`].
    Clock,
}

/// A callable function value.
#[derive(Debug)]
pub enum Function {
    /// A host-provided function of fixed arity.
    Native { arity: usize, kind: NativeKind },
    /// A closure: parameter names, a body, the environment captured at the
    /// closure's textual definition site, and whether the closure is a class
    /// initializer.
    Custom {
        params: Rc<Vec<String>>,
        body: Rc<Vec<Stmt>>,
        closure: usize,
        is_initializer: bool,
    },
}

/// Model of a [`Function`].
#[verifier::ext_equal]
pub enum FunM {
    Native { arity: usize, kind: NativeKind },
    Custom { params: Seq<String>, body: Seq<Stmt>, closure: usize, is_initializer: bool },
}

impl View for Function {
    type V = FunM;

    open spec fn view(&self) -> FunM {
        match self {
            Function::Native { arity, kind } => FunM::Native { arity: *arity, kind: *kind },
            Function::Custom { params, body, closure, is_initializer } => FunM::Custom {
                params: params@,
                body: body@,
                closure: *closure,
                is_initializer: *is_initializer,
            },
        }
    }
}

/// A class: its name, at most one superclass, and a method table mapping
/// method names to function-arena indices.
#[derive(Debug)]
pub struct Class {
    pub name: String,
    pub superclass: Option<usize>,
    pub methods: Vec<(String, usize)>,
}

/// Model of a [`Class`].
#[verifier::ext_equal]
pub struct ClassM {
    pub name: Seq<char>,
    pub superclass: Option<usize>,
    pub methods: Seq<(Seq<char>, usize)>,
}

impl View for Class {
    type V = ClassM;

    open spec fn view(&self) -> ClassM {
        ClassM {
            name: self.name@,
            superclass: self.superclass,
            methods: self.methods@.map_values(|p: (String, usize)| (p.0@, p.1)),
        }
    }
}

/// An instance: a reference to its class and a mutable field table, created
/// empty.
#[derive(Debug)]
pub struct Instance {
    pub klass: usize,
    pub fields: Vec<(String, Value)>,
}

/// Model of an [`Instance`].
#[verifier::ext_equal]
pub struct InstM {
    pub klass: usize,
    pub fields: Seq<(Seq<char>, ValueM)>,
}

impl View for Instance {
    type V = InstM;

    open spec fn view(&self) -> InstM {
        InstM {
            klass: self.klass,
            fields: self.fields@.map_values(|p: (String, Value)| (p.0@, p.1@)),
        }
    }
}

/// The evaluator's whole runtime state.
pub struct Interpreter {
    /// The arena of scopes; index [`Interpreter::globals`] is the global one.
    pub envs: EnvStore,
    /// The arena of function values.
    pub funs: Vec<Function>,
    /// The arena of class values.
    pub classes: Vec<Class>,
    /// The arena of instances.
    pub instances: Vec<Instance>,
    /// The scope execution currently runs in.
    pub environment: usize,
    /// The global scope, retained so native registration and unresolved name
    /// lookups always target it.
    pub globals: usize,
    /// The resolution table: reference identity to binding distance.
    pub locals: Vec<(u64, usize)>,
    /// Everything `print` has emitted, one line per statement.
    pub output: Vec<String>,
    /// What the clock native returns; set by the driver.
    pub now: i64,
}

/// Model of the evaluator's state.
#[verifier::ext_equal]
pub struct StateM {
    pub envs: Seq<EnvM>,
    pub funs: Seq<FunM>,
    pub classes: Seq<ClassM>,
    pub instances: Seq<InstM>,
    pub environment: usize,
    pub globals: usize,
    pub locals: Seq<(u64, usize)>,
    pub output: Seq<Seq<char>>,
    pub now: i64,
}

impl View for Interpreter {
    type V = StateM;

    open spec fn view(&self) -> StateM {
        StateM {
            envs: self.envs@,
            funs: self.funs@.map_values(|f: Function| f@),
            classes: self.classes@.map_values(|c: Class| c@),
            instances: self.instances@.map_values(|i: Instance| i@),
            environment: self.environment,
            globals: self.globals,
            locals: self.locals@,
            output: self.output@.map_values(|s: String| s@),
            now: self.now,
        }
    }
}

/// What evaluation relies on and preserves: the scope chain is acyclic and
/// the current and global scope indices are live.
pub open spec fn st_wf(st: StateM) -> bool {
    &&& wf_envs(st.envs)
    &&& st.environment < st.envs.len()
    &&& st.globals < st.envs.len()
}

/// The fuel budget the driver-facing entry points give each statement.
pub const DEFAULT_FUEL: u64 = 0xffff_ffff_ffff_ffff;

// ---------------------------------------------------------------------------
// Small total helpers of the model.
// ---------------------------------------------------------------------------

/// The position of the latest distance recorded for reference `id`, or `-1`.
pub open spec fn s_local_idx(locals: Seq<(u64, usize)>, id: u64) -> int
    decreases locals.len(),
{
    if locals.len() == 0 {
        -1
    } else if locals.last().0 == id {
        locals.len() - 1
    } else {
        s_local_idx(locals.drop_last(), id)
    }
}

/// The distance the resolution table records for reference `id`, if any.
pub open spec fn s_lookup_local(locals: Seq<(u64, usize)>, id: u64) -> Option<usize> {
    let i = s_local_idx(locals, id);
    if i >= 0 {
        Some(locals[i].1)
    } else {
        None
    }
}

/// The position of the latest method entry named `name`, or `-1`.
pub open spec fn s_method_idx(methods: Seq<(Seq<char>, usize)>, name: Seq<char>) -> int
    decreases methods.len(),
{
    if methods.len() == 0 {
        -1
    } else if methods.last().0 == name {
        methods.len() - 1
    } else {
        s_method_idx(methods.drop_last(), name)
    }
}

/// `find_method`: the class's own table first, then the superclass chain;
/// `None` when the name is absent everywhere.
pub open spec fn s_find_method(classes: Seq<ClassM>, c: usize, name: Seq<char>) -> Option<usize>
    decreases c,
{
    if c < classes.len() {
        let i = s_method_idx(classes[c as int].methods, name);
        if i >= 0 {
            Some(classes[c as int].methods[i].1)
        } else {
            match classes[c as int].superclass {
                Some(s) => if s < c {
                    s_find_method(classes, s, name)
                } else {
                    None
                },
                None => None,
            }
        }
    } else {
        None
    }
}

/// The textual rendering of a value, used by `print` and by diagnostics.
pub open spec fn s_render(st: StateM, v: ValueM) -> Seq<char> {
    match v {
        ValueM::Number(n) => s_num_text(n),
        ValueM::Str(s) => s,
        ValueM::Bool(b) => if b {
            "true"@
        } else {
            "false"@
        },
        ValueM::Null => "null"@,
        ValueM::Callable(_) => "<fn>"@,
        ValueM::Class(c) => if c < st.classes.len() {
            st.classes[c as int].name
        } else {
            "<class>"@
        },
        ValueM::Instance(i) => if i < st.instances.len() && st.instances[i as int].klass
            < st.classes.len() {
            st.classes[st.instances[i as int].klass as int].name + " instance"@
        } else {
            "instance"@
        },
    }
}

/// Truncating 64-bit signed division of a nonzero divisor, with the one
/// overflowing quotient wrapped.
pub open spec fn s_idiv(l: i64, r: i64) -> i64 {
    if l == i64::MIN && r == -1 {
        i64::MIN
    } else {
        let lm = if l < 0 {
            -(l as int)
        } else {
            l as int
        };
        let rm = if r < 0 {
            -(r as int)
        } else {
            r as int
        };
        let q = lm / rm;
        if (l < 0) != (r < 0) {
            (-q) as i64
        } else {
            q as i64
        }
    }
}

/// What a binary operator yields on two operand values.  Arithmetic wraps on
/// 64-bit overflow; `+` also concatenates two strings; comparisons demand two
/// numbers; `==`/`!=` use [`s_val_eq`] with no coercion.
pub open spec fn s_binop(op: BinOp, l: ValueM, r: ValueM) -> EvalOut {
    match op {
        BinOp::Add => match (l, r) {
            (ValueM::Number(a), ValueM::Number(b)) => EvalOut::Val(
                ValueM::Number(a.wrapping_add(b)),
            ),
            (ValueM::Str(a), ValueM::Str(b)) => EvalOut::Val(ValueM::Str(a + b)),
            _ => EvalOut::Ctl(
                CtlM::Error(
                    ErrKindM::WrongValueType("Operands must be two numbers or two strings."@),
                ),
            ),
        },
        BinOp::Sub => match (l, r) {
            (ValueM::Number(a), ValueM::Number(b)) => EvalOut::Val(
                ValueM::Number(a.wrapping_sub(b)),
            ),
            _ => EvalOut::Ctl(
                CtlM::Error(ErrKindM::WrongValueType("Both operands must be a number."@)),
            ),
        },
        BinOp::Mul => match (l, r) {
            (ValueM::Number(a), ValueM::Number(b)) => EvalOut::Val(
                ValueM::Number(a.wrapping_mul(b)),
            ),
            _ => EvalOut::Ctl(
                CtlM::Error(ErrKindM::WrongValueType("Both operands must be a number."@)),
            ),
        },
        BinOp::Div => match (l, r) {
            (ValueM::Number(a), ValueM::Number(b)) => if b == 0 {
                EvalOut::Ctl(CtlM::Error(ErrKindM::WrongValueType("Division by zero."@)))
            } else {
                EvalOut::Val(ValueM::Number(s_idiv(a, b)))
            },
            _ => EvalOut::Ctl(
                CtlM::Error(ErrKindM::WrongValueType("Both operands must be a number."@)),
            ),
        },
        BinOp::Gt => match (l, r) {
            (ValueM::Number(a), ValueM::Number(b)) => EvalOut::Val(ValueM::Bool(a > b)),
            _ => EvalOut::Ctl(
                CtlM::Error(ErrKindM::WrongValueType("Both operands must be a number."@)),
            ),
        },
        BinOp::Ge => match (l, r) {
            (ValueM::Number(a), ValueM::Number(b)) => EvalOut::Val(ValueM::Bool(a >= b)),
            _ => EvalOut::Ctl(
                CtlM::Error(ErrKindM::WrongValueType("Both operands must be a number."@)),
            ),
        },
        BinOp::Lt => match (l, r) {
            (ValueM::Number(a), ValueM::Number(b)) => EvalOut::Val(ValueM::Bool(a < b)),
            _ => EvalOut::Ctl(
                CtlM::Error(ErrKindM::WrongValueType("Both operands must be a number."@)),
            ),
        },
        BinOp::Le => match (l, r) {
            (ValueM::Number(a), ValueM::Number(b)) => EvalOut::Val(ValueM::Bool(a <= b)),
            _ => EvalOut::Ctl(
                CtlM::Error(ErrKindM::WrongValueType("Both operands must be a number."@)),
            ),
        },
        BinOp::Eq => EvalOut::Val(ValueM::Bool(s_val_eq(l, r))),
        BinOp::Ne => EvalOut::Val(ValueM::Bool(!s_val_eq(l, r))),
    }
}

/// What a unary operator yields on an operand value.
pub open spec fn s_unop(op: UnOp, v: ValueM) -> EvalOut {
    match op {
        UnOp::Neg => match v {
            ValueM::Number(n) => EvalOut::Val(ValueM::Number(i64::wrapping_sub(0, n))),
            _ => EvalOut::Ctl(
                CtlM::Error(ErrKindM::WrongValueType("Operand must be a number."@)),
            ),
        },
        UnOp::Not => EvalOut::Val(ValueM::Bool(!s_truthy(v))),
    }
}

/// What a native call yields; every native is a pure function of the state.
pub open spec fn s_native(st: StateM, kind: NativeKind) -> ValueM {
    match kind {
        NativeKind::Clock => ValueM::Number(st.now),
    }
}

/// The arity of a function value.
pub open spec fn s_arity(f: FunM) -> usize {
    match f {
        FunM::Native { arity, .. } => arity,
        FunM::Custom { params, .. } => params.len() as usize,
    }
}

/// The text of an arity-mismatch report.
pub open spec fn arity_msg(expected: int, got: int) -> Seq<char> {
    "Expected "@ + s_decimal(expected) + " arguments but got "@ + s_decimal(got) + "."@
}

/// The text of an undefined-property report.
pub open spec fn undef_prop_msg(name: Seq<char>) -> Seq<char> {
    "Undefined property '"@ + name + "'."@
}

/// The text of the internal report for an arena index that is out of range,
/// which a run that starts from a fresh interpreter never produces.
pub open spec fn dangling_msg() -> Seq<char> {
    "internal: dangling reference"@
}

/// The state after binding `"this"` to instance `inst` in a fresh scope
/// around method `m`'s closure scope, together with the bound method's index;
/// `None` when `m` is not a live closure (then the state is unchanged).
pub open spec fn s_bind(st: StateM, m: usize, inst: usize) -> (StateM, Option<usize>) {
    if m < st.funs.len() {
        match st.funs[m as int] {
            FunM::Custom { params, body, closure, is_initializer } => if closure < st.envs.len() {
                let newenv = st.envs.len() as usize;
                let envs1 = s_push_env(st.envs, closure);
                let envs2 = s_define(envs1, newenv, "this"@, ValueM::Instance(inst));
                let fidx = st.funs.len() as usize;
                let funs2 = st.funs.push(
                    FunM::Custom { params, body, closure: newenv, is_initializer },
                );
                (StateM { envs: envs2, funs: funs2, ..st }, Some(fidx))
            } else {
                (st, None)
            },
            FunM::Native { .. } => (st, None),
        }
    } else {
        (st, None)
    }
}

/// Reading a property off instance `i`: its own fields first; on a miss, the
/// class's method table produces a freshly bound method; absence everywhere
/// is an undefined-property error.
pub open spec fn s_instance_get(st: StateM, i: usize, name: Seq<char>) -> (StateM, EvalOut) {
    if i < st.instances.len() {
        match s_find(st.instances[i as int].fields, name) {
            Some(v) => (st, EvalOut::Val(v)),
            None => {
                let k = st.instances[i as int].klass;
                match s_find_method(st.classes, k, name) {
                    Some(m) => {
                        let (st2, bound) = s_bind(st, m, i);
                        match bound {
                            Some(fi) => (st2, EvalOut::Val(ValueM::Callable(fi))),
                            None => (
                                st2,
                                EvalOut::Ctl(
                                    CtlM::Error(ErrKindM::InvalidContext("Bind returned None"@)),
                                ),
                            ),
                        }
                    },
                    None => (
                        st,
                        EvalOut::Ctl(CtlM::Error(ErrKindM::UndefinedVar(undef_prop_msg(name)))),
                    ),
                }
            },
        }
    } else {
        (st, EvalOut::Ctl(CtlM::Error(ErrKindM::InvalidContext(dangling_msg()))))
    }
}

/// Writing a field of instance `i`.
pub open spec fn s_instance_set(st: StateM, i: usize, name: Seq<char>, v: ValueM) -> (
    StateM,
    EvalOut,
) {
    if i < st.instances.len() {
        let inst = st.instances[i as int];
        let inst2 = InstM { klass: inst.klass, fields: s_def_in(inst.fields, name, v) };
        (StateM { instances: st.instances.update(i as int, inst2), ..st }, EvalOut::Val(v))
    } else {
        (st, EvalOut::Ctl(CtlM::Error(ErrKindM::InvalidContext(dangling_msg()))))
    }
}

/// Reading a variable: a recorded distance indexes the scope chain; an
/// unrecorded reference falls back to the global scope by name.
pub open spec fn s_variable(st: StateM, name: Seq<char>, id: u64) -> EvalOut {
    match s_lookup_local(st.locals, id) {
        Some(d) => match s_get_at(st.envs, st.environment, d, name) {
            Some(v) => EvalOut::Val(v),
            None => EvalOut::Ctl(CtlM::Error(ErrKindM::UndefinedVar(undef_msg(name)))),
        },
        None => match s_get(st.envs, st.globals, name) {
            Some(v) => EvalOut::Val(v),
            None => EvalOut::Ctl(CtlM::Error(ErrKindM::UndefinedVar(undef_msg(name)))),
        },
    }
}

/// The state after binding the parameters to the arguments, in order, in
/// scope `env`.
pub open spec fn s_bind_params(
    envs: Seq<EnvM>,
    env: usize,
    params: Seq<String>,
    args: Seq<ValueM>,
) -> Seq<EnvM>
    decreases params.len(),
{
    if params.len() == 0 || args.len() == 0 {
        envs
    } else {
        s_bind_params(
            s_define(envs, env, params[0]@, args[0]),
            env,
            params.drop_first(),
            args.drop_first(),
        )
    }
}

/// The result of building a class's method table.
pub enum MethodsOut {
    Built { funs: Seq<FunM>, table: Seq<(Seq<char>, usize)> },
    Failed { funs: Seq<FunM>, ctl: CtlM },
}

/// Builds the method table of a class declaration: each method becomes a
/// closure over `env` (the scope holding `super` when there is a superclass),
/// flagged as an initializer exactly when it is named `init`.  A non-function
/// among the methods is an unexpected-statement error.
pub open spec fn s_class_methods(funs: Seq<FunM>, methods: Seq<Stmt>, env: usize) -> MethodsOut
    decreases methods.len(),
{
    if methods.len() == 0 {
        MethodsOut::Built { funs, table: Seq::empty() }
    } else {
        match methods[0] {
            Stmt::Function { name, params, body } => {
                let idx = funs.len() as usize;
                let funs1 = funs.push(
                    FunM::Custom {
                        params: params@,
                        body: body@,
                        closure: env,
                        is_initializer: name@ == "init"@,
                    },
                );
                match s_class_methods(funs1, methods.drop_first(), env) {
                    MethodsOut::Built { funs: funs2, table } => MethodsOut::Built {
                        funs: funs2,
                        table: seq![(name@, idx)] + table,
                    },
                    MethodsOut::Failed { funs: funs2, ctl } => MethodsOut::Failed { funs: funs2, ctl },
                }
            },
            _ => MethodsOut::Failed {
                funs,
                ctl: CtlM::Error(ErrKindM::UnexpectedStmt("Should be a function"@)),
            },
        }
    }
}


/// The out-of-fuel outcome of an expression.
pub open spec fn oof_val() -> EvalOut {
    EvalOut::Ctl(CtlM::Error(ErrKindM::OutOfFuel))
}

/// The out-of-fuel outcome of a statement.
pub open spec fn oof_done() -> ExecOut {
    ExecOut::Ctl(CtlM::Error(ErrKindM::OutOfFuel))
}

/// The outcome of evaluating a list of expressions left to right.
pub enum ListOut {
    Vals(Seq<ValueM>),
    Ctl(CtlM),
}

// ---------------------------------------------------------------------------
// The big-step semantics.  The functions below are mutually recursive; the
// lexicographic measure is (fuel, rank, list length): a dispatcher hands its
// helpers one fuel unit less, a helper calls the dispatchers at the same fuel
// but strictly lower rank, and list walkers shrink their list.
// ---------------------------------------------------------------------------

/// The meaning of evaluating expression `e` in state `st`.
pub open spec fn s_eval(st: StateM, e: Expr, fuel: u64) -> (StateM, EvalOut)
    decreases fuel, 0int, 0int,
{
    match e {
        Expr::Literal { value } => (st, EvalOut::Val(s_lit(value@))),
        Expr::Grouping { expression } => if fuel == 0 {
            (st, oof_val())
        } else {
            s_eval(st, *expression, (fuel - 1) as u64)
        },
        Expr::Unary { operator, right } => if fuel == 0 {
            (st, oof_val())
        } else {
            s_unary(st, operator, *right, (fuel - 1) as u64)
        },
        Expr::Binary { left, operator, right } => if fuel == 0 {
            (st, oof_val())
        } else {
            s_binary(st, *left, operator, *right, (fuel - 1) as u64)
        },
        Expr::Logical { left, operator, right } => if fuel == 0 {
            (st, oof_val())
        } else {
            s_logical(st, *left, operator, *right, (fuel - 1) as u64)
        },
        Expr::Variable { name, id } => (st, s_variable(st, name@, id)),
        Expr::Assign { name, id, value } => if fuel == 0 {
            (st, oof_val())
        } else {
            s_assign_expr(st, name@, id, *value, (fuel - 1) as u64)
        },
        Expr::Call { callee, arguments } => if fuel == 0 {
            (st, oof_val())
        } else {
            s_call_expr(st, *callee, arguments@, (fuel - 1) as u64)
        },
        Expr::Get { object, name } => if fuel == 0 {
            (st, oof_val())
        } else {
            s_get_expr(st, *object, name@, (fuel - 1) as u64)
        },
        Expr::SetProp { object, name, value } => if fuel == 0 {
            (st, oof_val())
        } else {
            s_set_expr(st, *object, name@, *value, (fuel - 1) as u64)
        },
        Expr::This { id } => (st, s_variable(st, "this"@, id)),
        Expr::Super { id, method } => s_super_expr(st, id, method@),
        Expr::Lambda { params, body } => s_lambda(st, params@, body@),
        Expr::Comma { left, right } => if fuel == 0 {
            (st, oof_val())
        } else {
            s_comma(st, *left, *right, (fuel - 1) as u64)
        },
    }
}

/// Unary operator application: evaluate the operand, then apply.
pub open spec fn s_unary(st: StateM, op: UnOp, right: Expr, fuel: u64) -> (StateM, EvalOut)
    decreases fuel, 1int, 0int,
{
    let (st1, o) = s_eval(st, right, fuel);
    match o {
        EvalOut::Ctl(c) => (st1, EvalOut::Ctl(c)),
        EvalOut::Val(v) => (st1, s_unop(op, v)),
    }
}

/// Binary operator application: left operand, right operand, then apply.
pub open spec fn s_binary(st: StateM, left: Expr, op: BinOp, right: Expr, fuel: u64) -> (
    StateM,
    EvalOut,
)
    decreases fuel, 1int, 0int,
{
    let (st1, o1) = s_eval(st, left, fuel);
    match o1 {
        EvalOut::Ctl(c) => (st1, EvalOut::Ctl(c)),
        EvalOut::Val(l) => {
            let (st2, o2) = s_eval(st1, right, fuel);
            match o2 {
                EvalOut::Ctl(c) => (st2, EvalOut::Ctl(c)),
                EvalOut::Val(r) => (st2, s_binop(op, l, r)),
            }
        },
    }
}

/// Short-circuiting logic: the left operand settles the result when its
/// truthiness already decides it, and is then returned unchanged.
pub open spec fn s_logical(st: StateM, left: Expr, op: LogOp, right: Expr, fuel: u64) -> (
    StateM,
    EvalOut,
)
    decreases fuel, 1int, 0int,
{
    let (st1, o1) = s_eval(st, left, fuel);
    match o1 {
        EvalOut::Ctl(c) => (st1, EvalOut::Ctl(c)),
        EvalOut::Val(l) => match op {
            LogOp::Or => if s_truthy(l) {
                (st1, EvalOut::Val(l))
            } else {
                s_eval(st1, right, fuel)
            },
            LogOp::And => if !s_truthy(l) {
                (st1, EvalOut::Val(l))
            } else {
                s_eval(st1, right, fuel)
            },
        },
    }
}

/// Assignment: evaluate the value, then write through the recorded distance,
/// or to the global scope when no distance is recorded.  The assigned value
/// is the expression's result.
pub open spec fn s_assign_expr(
    st: StateM,
    name: Seq<char>,
    id: u64,
    value: Expr,
    fuel: u64,
) -> (StateM, EvalOut)
    decreases fuel, 1int, 0int,
{
    let (st1, o) = s_eval(st, value, fuel);
    match o {
        EvalOut::Ctl(c) => (st1, EvalOut::Ctl(c)),
        EvalOut::Val(v) => match s_lookup_local(st1.locals, id) {
            Some(d) => match crate::env::s_assign_at(st1.envs, st1.environment, d, name, v) {
                Some(envs2) => ((StateM { envs: envs2, ..st1 }), EvalOut::Val(v)),
                None => (st1, EvalOut::Ctl(CtlM::Error(ErrKindM::UndefinedVar(undef_msg(name))))),
            },
            None => match s_assign(st1.envs, st1.globals, name, v) {
                Some(envs2) => ((StateM { envs: envs2, ..st1 }), EvalOut::Val(v)),
                None => (st1, EvalOut::Ctl(CtlM::Error(ErrKindM::UndefinedVar(undef_msg(name))))),
            },
        },
    }
}

/// The comma operator: evaluate and discard the left operand, then the right.
pub open spec fn s_comma(st: StateM, left: Expr, right: Expr, fuel: u64) -> (StateM, EvalOut)
    decreases fuel, 1int, 0int,
{
    let (st1, o) = s_eval(st, left, fuel);
    match o {
        EvalOut::Ctl(c) => (st1, EvalOut::Ctl(c)),
        EvalOut::Val(_) => s_eval(st1, right, fuel),
    }
}

/// Property read: evaluate the object, which must be an instance.
pub open spec fn s_get_expr(st: StateM, object: Expr, name: Seq<char>, fuel: u64) -> (
    StateM,
    EvalOut,
)
    decreases fuel, 1int, 0int,
{
    let (st1, o) = s_eval(st, object, fuel);
    match o {
        EvalOut::Ctl(c) => (st1, EvalOut::Ctl(c)),
        EvalOut::Val(v) => match v {
            ValueM::Instance(i) => s_instance_get(st1, i, name),
            _ => (
                st1,
                EvalOut::Ctl(
                    CtlM::Error(ErrKindM::UnexpectedExpr("Only instances have properties"@)),
                ),
            ),
        },
    }
}

/// Property write: evaluate the object, which must be an instance, then the
/// value, then store it in the instance's own field table.
pub open spec fn s_set_expr(
    st: StateM,
    object: Expr,
    name: Seq<char>,
    value: Expr,
    fuel: u64,
) -> (StateM, EvalOut)
    decreases fuel, 1int, 0int,
{
    let (st1, o) = s_eval(st, object, fuel);
    match o {
        EvalOut::Ctl(c) => (st1, EvalOut::Ctl(c)),
        EvalOut::Val(ov) => match ov {
            ValueM::Instance(i) => {
                let (st2, o2) = s_eval(st1, value, fuel);
                match o2 {
                    EvalOut::Ctl(c) => (st2, EvalOut::Ctl(c)),
                    EvalOut::Val(v) => s_instance_set(st2, i, name, v),
                }
            },
            _ => (
                st1,
                EvalOut::Ctl(CtlM::Error(ErrKindM::UnexpectedExpr("Only instances have fields"@))),
            ),
        },
    }
}

/// `super.method`: the enclosing class's superclass sits at the recorded
/// distance under the name `super`, the receiver one scope nearer under
/// `this`; the method is looked up on the superclass and bound to the
/// receiver.
pub open spec fn s_super_expr(st: StateM, id: u64, method: Seq<char>) -> (StateM, EvalOut) {
    match s_lookup_local(st.locals, id) {
        None => (st, EvalOut::Ctl(CtlM::Error(ErrKindM::UndefinedVar("super not resolved"@)))),
        Some(d) => match s_get_at(st.envs, st.environment, d, "super"@) {
            None => (st, EvalOut::Ctl(CtlM::Error(ErrKindM::UndefinedVar(undef_msg("super"@))))),
            Some(sv) => match sv {
                ValueM::Class(c) => if d == 0 {
                    (
                        st,
                        EvalOut::Ctl(
                            CtlM::Error(
                                ErrKindM::UndefinedVar("Expected 'this' to be an instance"@),
                            ),
                        ),
                    )
                } else {
                    match s_get_at(st.envs, st.environment, (d - 1) as usize, "this"@) {
                        None => (
                            st,
                            EvalOut::Ctl(CtlM::Error(ErrKindM::UndefinedVar(undef_msg("this"@)))),
                        ),
                        Some(tv) => match tv {
                            ValueM::Instance(inst) => match s_find_method(st.classes, c, method) {
                                Some(m) => {
                                    let (st2, bound) = s_bind(st, m, inst);
                                    match bound {
                                        Some(fi) => (st2, EvalOut::Val(ValueM::Callable(fi))),
                                        None => (
                                            st2,
                                            EvalOut::Ctl(
                                                CtlM::Error(
                                                    ErrKindM::InvalidContext("Bind returned None"@),
                                                ),
                                            ),
                                        ),
                                    }
                                },
                                None => (
                                    st,
                                    EvalOut::Ctl(CtlM::Error(ErrKindM::UndefinedVar(method))),
                                ),
                            },
                            _ => (
                                st,
                                EvalOut::Ctl(
                                    CtlM::Error(
                                        ErrKindM::UndefinedVar(
                                            "Expected 'this' to be an instance"@,
                                        ),
                                    ),
                                ),
                            ),
                        },
                    }
                },
                _ => (
                    st,
                    EvalOut::Ctl(CtlM::Error(ErrKindM::WrongValueType("Superclass is not a class"@))),
                ),
            },
        },
    }
}

/// A function literal: a closure over the current scope.
pub open spec fn s_lambda(st: StateM, params: Seq<String>, body: Seq<Stmt>) -> (StateM, EvalOut) {
    let fidx = st.funs.len() as usize;
    (
        (StateM {
            funs: st.funs.push(
                FunM::Custom { params, body, closure: st.environment, is_initializer: false },
            ),
            ..st
        }),
        EvalOut::Val(ValueM::Callable(fidx)),
    )
}

/// Evaluating a call's arguments, left to right.
pub open spec fn s_eval_list(st: StateM, args: Seq<Expr>, fuel: u64) -> (StateM, ListOut)
    decreases fuel, 1int, args.len(),
{
    if args.len() == 0 {
        (st, ListOut::Vals(Seq::empty()))
    } else {
        let (st1, o) = s_eval(st, args[0], fuel);
        match o {
            EvalOut::Ctl(c) => (st1, ListOut::Ctl(c)),
            EvalOut::Val(v) => {
                let (st2, rest) = s_eval_list(st1, args.drop_first(), fuel);
                match rest {
                    ListOut::Ctl(c) => (st2, ListOut::Ctl(c)),
                    ListOut::Vals(vs) => (st2, ListOut::Vals(seq![v] + vs)),
                }
            },
        }
    }
}

/// A call: evaluate the callee; a value that is neither a function nor a
/// class is rejected right there, before any argument is touched; otherwise
/// the arguments are evaluated left to right and the callee invoked.
pub open spec fn s_call_expr(st: StateM, callee: Expr, args: Seq<Expr>, fuel: u64) -> (
    StateM,
    EvalOut,
)
    decreases fuel, 6int, 0int,
{
    let (st1, o) = s_eval(st, callee, fuel);
    match o {
        EvalOut::Ctl(c) => (st1, EvalOut::Ctl(c)),
        EvalOut::Val(cv) => if !(cv is Callable || cv is Class) {
            (st1, EvalOut::Ctl(CtlM::Error(ErrKindM::NotCallable(s_render(st1, cv)))))
        } else {
            let (st2, lo) = s_eval_list(st1, args, fuel);
            match lo {
                ListOut::Ctl(c) => (st2, EvalOut::Ctl(c)),
                ListOut::Vals(vs) => s_call_value(st2, cv, vs, fuel),
            }
        },
    }
}

/// Invoking a value: only functions and classes are callable, and the
/// argument count must match the callee's arity.
pub open spec fn s_call_value(st: StateM, callee: ValueM, args: Seq<ValueM>, fuel: u64) -> (
    StateM,
    EvalOut,
)
    decreases fuel, 5int, 0int,
{
    match callee {
        ValueM::Callable(fi) => if fi < st.funs.len() {
            let ar = s_arity(st.funs[fi as int]);
            if args.len() != ar {
                (
                    st,
                    EvalOut::Ctl(
                        CtlM::Error(
                            ErrKindM::WrongValueType(arity_msg(ar as int, args.len() as int)),
                        ),
                    ),
                )
            } else {
                match st.funs[fi as int] {
                    FunM::Native { kind, .. } => (st, EvalOut::Val(s_native(st, kind))),
                    FunM::Custom { .. } => s_call_function(st, fi, args, fuel),
                }
            }
        } else {
            (st, EvalOut::Ctl(CtlM::Error(ErrKindM::InvalidContext(dangling_msg()))))
        },
        ValueM::Class(ci) => s_call_class(st, ci, args, fuel),
        _ => (st, EvalOut::Ctl(CtlM::Error(ErrKindM::NotCallable(s_render(st, callee))))),
    }
}

/// Instantiating a class: a fresh empty instance; when an `init` method
/// exists anywhere on the chain it is bound to the instance and run with the
/// arguments; the call's result is the instance regardless of what `init`
/// returns.  The class's arity is its `init`'s arity, or zero.
pub open spec fn s_call_class(st: StateM, ci: usize, args: Seq<ValueM>, fuel: u64) -> (
    StateM,
    EvalOut,
)
    decreases fuel, 4int, 0int,
{
    if ci < st.classes.len() {
        let initm = s_find_method(st.classes, ci, "init"@);
        let ar: int = match initm {
            Some(m) => if m < st.funs.len() {
                s_arity(st.funs[m as int]) as int
            } else {
                0
            },
            None => 0,
        };
        if args.len() != ar {
            (
                st,
                EvalOut::Ctl(
                    CtlM::Error(ErrKindM::WrongValueType(arity_msg(ar, args.len() as int))),
                ),
            )
        } else {
            let inst = st.instances.len() as usize;
            let st1 = StateM {
                instances: st.instances.push(InstM { klass: ci, fields: Seq::empty() }),
                ..st
            };
            match initm {
                None => (st1, EvalOut::Val(ValueM::Instance(inst))),
                Some(m) => {
                    let (st2, bound) = s_bind(st1, m, inst);
                    match bound {
                        None => (st2, EvalOut::Val(ValueM::Instance(inst))),
                        Some(bfi) => {
                            let (st3, o) = s_call_function(st2, bfi, args, fuel);
                            match o {
                                EvalOut::Ctl(c) => (st3, EvalOut::Ctl(c)),
                                EvalOut::Val(_) => (st3, EvalOut::Val(ValueM::Instance(inst))),
                            }
                        },
                    }
                },
            }
        }
    } else {
        (st, EvalOut::Ctl(CtlM::Error(ErrKindM::InvalidContext(dangling_msg()))))
    }
}

/// Calling a closure: a fresh scope under the captured one, parameters bound
/// to arguments in order, the body run there, and the caller's scope restored
/// on every exit.  A `return` signal anywhere in the body becomes the call's
/// result; completing normally yields `Null`.
pub open spec fn s_call_function(st: StateM, fi: usize, args: Seq<ValueM>, fuel: u64) -> (
    StateM,
    EvalOut,
)
    decreases fuel, 3int, 0int,
{
    if fi < st.funs.len() {
        match st.funs[fi as int] {
            FunM::Custom { params, body, closure, .. } => if closure < st.envs.len()
                && args.len() == params.len() {
                let newenv = st.envs.len() as usize;
                let envs1 = s_push_env(st.envs, closure);
                let envs2 = s_bind_params(envs1, newenv, params, args);
                let st1 = StateM { envs: envs2, ..st };
                let (st2, o) = s_exec_in(st1, body, newenv, fuel);
                match o {
                    ExecOut::Done => (st2, EvalOut::Val(ValueM::Null)),
                    ExecOut::Ctl(CtlM::Return(v)) => (st2, EvalOut::Val(v)),
                    ExecOut::Ctl(c) => (st2, EvalOut::Ctl(c)),
                }
            } else {
                (st, EvalOut::Ctl(CtlM::Error(ErrKindM::InvalidContext(dangling_msg()))))
            },
            FunM::Native { .. } => (
                st,
                EvalOut::Ctl(CtlM::Error(ErrKindM::InvalidContext(dangling_msg()))),
            ),
        }
    } else {
        (st, EvalOut::Ctl(CtlM::Error(ErrKindM::InvalidContext(dangling_msg()))))
    }
}

/// Statements run with `env` as the current scope, the previous scope
/// restored on every exit, normal or not.
pub open spec fn s_exec_in(st: StateM, statements: Seq<Stmt>, env: usize, fuel: u64) -> (
    StateM,
    ExecOut,
)
    decreases fuel, 2int, 0int,
{
    let st1 = StateM { environment: env, ..st };
    let (st2, o) = s_exec_seq(st1, statements, fuel);
    ((StateM { environment: st.environment, ..st2 }), o)
}

/// The meaning of executing statement `s` in state `st`.
pub open spec fn s_exec(st: StateM, s: Stmt, fuel: u64) -> (StateM, ExecOut)
    decreases fuel, 0int, 0int,
{
    match s {
        Stmt::Expression { expression } => if fuel == 0 {
            (st, oof_done())
        } else {
            s_expr_stmt(st, expression, (fuel - 1) as u64)
        },
        Stmt::Print { expression } => if fuel == 0 {
            (st, oof_done())
        } else {
            s_print_stmt(st, expression, (fuel - 1) as u64)
        },
        Stmt::Var { name, initializer } => if fuel == 0 {
            (st, oof_done())
        } else {
            s_var_stmt(st, name@, initializer, (fuel - 1) as u64)
        },
        Stmt::Function { name, params, body } => s_function_stmt(st, name@, params@, body@),
        Stmt::Return { value } => if fuel == 0 {
            (st, oof_done())
        } else {
            s_return_stmt(st, value, (fuel - 1) as u64)
        },
        Stmt::Break => (st, ExecOut::Ctl(CtlM::Break)),
        Stmt::Block { statements } => if fuel == 0 {
            (st, oof_done())
        } else {
            s_exec_block(st, statements@, (fuel - 1) as u64)
        },
        Stmt::If { condition, then_branch, else_branch } => if fuel == 0 {
            (st, oof_done())
        } else {
            s_if_stmt(st, condition, *then_branch, else_branch, (fuel - 1) as u64)
        },
        Stmt::While { condition, body } => if fuel == 0 {
            (st, oof_done())
        } else {
            s_while_stmt(st, condition, *body, (fuel - 1) as u64)
        },
        Stmt::Class { name, superclass, methods } => if fuel == 0 {
            (st, oof_done())
        } else {
            s_class_stmt(st, name@, superclass, methods@, (fuel - 1) as u64)
        },
    }
}

/// An expression statement: evaluate and discard.
pub open spec fn s_expr_stmt(st: StateM, e: Expr, fuel: u64) -> (StateM, ExecOut)
    decreases fuel, 1int, 0int,
{
    let (st1, o) = s_eval(st, e, fuel);
    match o {
        EvalOut::Ctl(c) => (st1, ExecOut::Ctl(c)),
        EvalOut::Val(_) => (st1, ExecOut::Done),
    }
}

/// `print`: evaluate and emit the value's rendering.
pub open spec fn s_print_stmt(st: StateM, e: Expr, fuel: u64) -> (StateM, ExecOut)
    decreases fuel, 1int, 0int,
{
    let (st1, o) = s_eval(st, e, fuel);
    match o {
        EvalOut::Ctl(c) => (st1, ExecOut::Ctl(c)),
        EvalOut::Val(v) => (
            (StateM { output: st1.output.push(s_render(st1, v)), ..st1 }),
            ExecOut::Done,
        ),
    }
}

/// A variable declaration: the initializer's value, or `Null`, bound in the
/// current scope.
pub open spec fn s_var_stmt(st: StateM, name: Seq<char>, initializer: Option<Expr>, fuel: u64) -> (
    StateM,
    ExecOut,
)
    decreases fuel, 1int, 0int,
{
    match initializer {
        Some(e) => {
            let (st1, o) = s_eval(st, e, fuel);
            match o {
                EvalOut::Ctl(c) => (st1, ExecOut::Ctl(c)),
                EvalOut::Val(v) => (
                    (StateM { envs: s_define(st1.envs, st1.environment, name, v), ..st1 }),
                    ExecOut::Done,
                ),
            }
        },
        None => (
            (StateM {
                envs: s_define(st.envs, st.environment, name, ValueM::Null),
                ..st
            }),
            ExecOut::Done,
        ),
    }
}

/// A function declaration: a closure over the current scope, bound under the
/// function's name in the current scope.
pub open spec fn s_function_stmt(
    st: StateM,
    name: Seq<char>,
    params: Seq<String>,
    body: Seq<Stmt>,
) -> (StateM, ExecOut) {
    let fidx = st.funs.len() as usize;
    let funs2 = st.funs.push(
        FunM::Custom { params, body, closure: st.environment, is_initializer: false },
    );
    (
        (StateM {
            funs: funs2,
            envs: s_define(st.envs, st.environment, name, ValueM::Callable(fidx)),
            ..st
        }),
        ExecOut::Done,
    )
}

/// `return`: the value, or `Null`, raised as a return signal.
pub open spec fn s_return_stmt(st: StateM, value: Option<Expr>, fuel: u64) -> (StateM, ExecOut)
    decreases fuel, 1int, 0int,
{
    match value {
        Some(e) => {
            let (st1, o) = s_eval(st, e, fuel);
            match o {
                EvalOut::Ctl(c) => (st1, ExecOut::Ctl(c)),
                EvalOut::Val(v) => (st1, ExecOut::Ctl(CtlM::Return(v))),
            }
        },
        None => (st, ExecOut::Ctl(CtlM::Return(ValueM::Null))),
    }
}

/// A block: its statements run in a fresh child scope, and the previous scope
/// is restored on every exit, normal or not.
pub open spec fn s_exec_block(st: StateM, statements: Seq<Stmt>, fuel: u64) -> (StateM, ExecOut)
    decreases fuel, 3int, 0int,
{
    let newenv = st.envs.len() as usize;
    let st1 = StateM { envs: s_push_env(st.envs, st.environment), ..st };
    s_exec_in(st1, statements, newenv, fuel)
}

/// `if`: the condition's truthiness picks the branch.
pub open spec fn s_if_stmt(
    st: StateM,
    condition: Expr,
    then_branch: Stmt,
    else_branch: Option<Box<Stmt>>,
    fuel: u64,
) -> (StateM, ExecOut)
    decreases fuel, 1int, 0int,
{
    let (st1, o) = s_eval(st, condition, fuel);
    match o {
        EvalOut::Ctl(c) => (st1, ExecOut::Ctl(c)),
        EvalOut::Val(v) => if s_truthy(v) {
            s_exec(st1, then_branch, fuel)
        } else {
            match else_branch {
                Some(eb) => s_exec(st1, *eb, fuel),
                None => (st1, ExecOut::Done),
            }
        },
    }
}

/// `while`: the condition is re-evaluated before each iteration; a `break`
/// raised by the body ends the loop normally; anything else propagates.
pub open spec fn s_while_stmt(st: StateM, condition: Expr, body: Stmt, fuel: u64) -> (
    StateM,
    ExecOut,
)
    decreases fuel, 1int, 0int,
{
    if fuel == 0 {
        (st, oof_done())
    } else {
        let (st1, o) = s_eval(st, condition, fuel);
        match o {
            EvalOut::Ctl(c) => (st1, ExecOut::Ctl(c)),
            EvalOut::Val(v) => if !s_truthy(v) {
                (st1, ExecOut::Done)
            } else {
                let (st2, o2) = s_exec(st1, body, fuel);
                match o2 {
                    ExecOut::Done => s_while_stmt(st2, condition, body, (fuel - 1) as u64),
                    ExecOut::Ctl(CtlM::Break) => (st2, ExecOut::Done),
                    ExecOut::Ctl(c) => (st2, ExecOut::Ctl(c)),
                }
            },
        }
    }
}

/// The class declaration after its superclass expression, if any, has been
/// settled: pre-declare the name as `Null`, open the `super` scope when there
/// is a superclass, build the method table, construct the class, and assign
/// it to the pre-declared name.
pub open spec fn s_class_decl(
    st: StateM,
    name: Seq<char>,
    superclass: Option<usize>,
    methods: Seq<Stmt>,
) -> (StateM, ExecOut) {
    let envs1 = s_define(st.envs, st.environment, name, ValueM::Null);
    let pair = match superclass {
        Some(c) => {
            let ne = envs1.len() as usize;
            (ne, s_define(s_push_env(envs1, st.environment), ne, "super"@, ValueM::Class(c)))
        },
        None => (st.environment, envs1),
    };
    match s_class_methods(st.funs, methods, pair.0) {
        MethodsOut::Failed { funs, ctl } => ((StateM { envs: pair.1, funs, ..st }), ExecOut::Ctl(ctl)),
        MethodsOut::Built { funs, table } => {
            let ci = st.classes.len() as usize;
            let classes2 = st.classes.push(ClassM { name, superclass, methods: table });
            match s_assign(pair.1, st.environment, name, ValueM::Class(ci)) {
                Some(envs3) => (
                    (StateM { envs: envs3, funs, classes: classes2, ..st }),
                    ExecOut::Done,
                ),
                None => (
                    (StateM { envs: pair.1, funs, classes: classes2, ..st }),
                    ExecOut::Ctl(CtlM::Error(ErrKindM::UndefinedVar(undef_msg(name)))),
                ),
            }
        },
    }
}

/// A class declaration: evaluate the optional superclass expression, which
/// must yield a class, then declare as [`s_class_decl`].
pub open spec fn s_class_stmt(
    st: StateM,
    name: Seq<char>,
    superclass: Option<Box<Expr>>,
    methods: Seq<Stmt>,
    fuel: u64,
) -> (StateM, ExecOut)
    decreases fuel, 1int, 0int,
{
    match superclass {
        Some(se) => {
            let (st1, o) = s_eval(st, *se, fuel);
            match o {
                EvalOut::Ctl(c) => (st1, ExecOut::Ctl(c)),
                EvalOut::Val(sv) => match sv {
                    ValueM::Class(c) => s_class_decl(st1, name, Some(c), methods),
                    _ => (
                        st1,
                        ExecOut::Ctl(
                            CtlM::Error(ErrKindM::UnexpectedExpr("Superclass must be a class."@)),
                        ),
                    ),
                },
            }
        },
        None => s_class_decl(st, name, None, methods),
    }
}

/// Statements in order, stopping at the first signal or error.
pub open spec fn s_exec_seq(st: StateM, statements: Seq<Stmt>, fuel: u64) -> (StateM, ExecOut)
    decreases fuel, 1int, statements.len(),
{
    if statements.len() == 0 {
        (st, ExecOut::Done)
    } else {
        let (st1, o) = s_exec(st, statements[0], fuel);
        match o {
            ExecOut::Ctl(c) => (st1, ExecOut::Ctl(c)),
            ExecOut::Done => s_exec_seq(st1, statements.drop_first(), fuel),
        }
    }
}

/// The meaning of interpreting a program: statements in order, each with a
/// fresh fuel budget, halting at the first genuine error.  A stray signal is
/// discarded, as the resolver rejects the programs that could raise one.
pub open spec fn s_interpret(st: StateM, statements: Seq<Stmt>, fuel: u64) -> (
    StateM,
    Option<ErrKindM>,
)
    decreases statements.len(),
{
    if statements.len() == 0 {
        (st, None)
    } else {
        let (st1, o) = s_exec(st, statements[0], fuel);
        match o {
            ExecOut::Ctl(CtlM::Error(e)) => (st1, Some(e)),
            _ => s_interpret(st1, statements.drop_first(), fuel),
        }
    }
}


// ---------------------------------------------------------------------------
// Executable helpers.
// ---------------------------------------------------------------------------

/// When position `i` holds the latest entry for `id`, [`s_local_idx`] yields
/// `i`.
proof fn lemma_local_idx_is(locals: Seq<(u64, usize)>, id: u64, i: int)
    requires
        0 <= i < locals.len(),
        locals[i].0 == id,
        forall|j: int| i < j < locals.len() ==> locals[j].0 != id,
    ensures
        s_local_idx(locals, id) == i,
    decreases locals.len(),
{
    if i + 1 < locals.len() {
        assert(locals.drop_last()[i] == locals[i]);
        lemma_local_idx_is(locals.drop_last(), id, i);
    }
}

/// When no entry records `id`, [`s_local_idx`] yields `-1`.
proof fn lemma_local_idx_none(locals: Seq<(u64, usize)>, id: u64)
    requires
        forall|j: int| 0 <= j < locals.len() ==> locals[j].0 != id,
    ensures
        s_local_idx(locals, id) == -1,
    decreases locals.len(),
{
    if locals.len() > 0 {
        lemma_local_idx_none(locals.drop_last(), id);
    }
}

/// The recorded distance for reference `id`, scanning the table from the end:
/// the executable counterpart of [`s_lookup_local`].
fn locals_find(locals: &Vec<(u64, usize)>, id: u64) -> (r: Option<usize>)
    ensures
        r == s_lookup_local(locals@, id),
{
    let mut i = locals.len();
    loop
        invariant
            i <= locals@.len(),
            forall|j: int| i <= j < locals@.len() ==> locals@[j].0 != id,
        decreases i,
    {
        if i == 0 {
            proof {
                lemma_local_idx_none(locals@, id);
            }
            return None;
        }
        i = i - 1;
        if locals[i].0 == id {
            proof {
                lemma_local_idx_is(locals@, id, i as int);
            }
            return Some(locals[i].1);
        }
    }
}

/// When position `i` holds the latest method entry for `name`,
/// [`s_method_idx`] yields `i`.
proof fn lemma_method_idx_is(methods: Seq<(Seq<char>, usize)>, name: Seq<char>, i: int)
    requires
        0 <= i < methods.len(),
        methods[i].0 == name,
        forall|j: int| i < j < methods.len() ==> methods[j].0 != name,
    ensures
        s_method_idx(methods, name) == i,
    decreases methods.len(),
{
    if i + 1 < methods.len() {
        assert(methods.drop_last()[i] == methods[i]);
        lemma_method_idx_is(methods.drop_last(), name, i);
    }
}

/// When no entry bears `name`, [`s_method_idx`] yields `-1`.
proof fn lemma_method_idx_none(methods: Seq<(Seq<char>, usize)>, name: Seq<char>)
    requires
        forall|j: int| 0 <= j < methods.len() ==> methods[j].0 != name,
    ensures
        s_method_idx(methods, name) == -1,
    decreases methods.len(),
{
    if methods.len() > 0 {
        lemma_method_idx_none(methods.drop_last(), name);
    }
}

/// The latest method entry for `name`, scanning from the end: the executable
/// counterpart of [`s_method_idx`].
fn method_find(methods: &Vec<(String, usize)>, name: &String) -> (r: Option<usize>)
    ensures
        ({
            let m = methods@.map_values(|p: (String, usize)| (p.0@, p.1));
            match r {
                Some(f) => s_method_idx(m, name@) >= 0 && m[s_method_idx(m, name@)].1 == f,
                None => s_method_idx(m, name@) == -1,
            }
        }),
{
    let ghost m = methods@.map_values(|p: (String, usize)| (p.0@, p.1));
    let mut i = methods.len();
    loop
        invariant
            i <= methods@.len(),
            m == methods@.map_values(|p: (String, usize)| (p.0@, p.1)),
            m.len() == methods@.len(),
            forall|j: int| i <= j < m.len() ==> m[j].0 != name@,
        decreases i,
    {
        if i == 0 {
            proof {
                lemma_method_idx_none(m, name@);
            }
            return None;
        }
        i = i - 1;
        proof {
            assert(m[i as int] == (methods@[i as int].0@, methods@[i as int].1));
        }
        if methods[i].0.eq(name) {
            proof {
                lemma_method_idx_is(m, name@, i as int);
            }
            return Some(methods[i].1);
        }
    }
}

/// The text of an undefined-property report.
fn undef_prop_message(name: &String) -> (r: String)
    ensures
        r@ == undef_prop_msg(name@),
{
    let mut s = String::from_str("Undefined property '");
    s.append(name.as_str());
    s.append("'.");
    s
}

/// The text of an arity-mismatch report.
fn arity_message(expected: usize, got: usize) -> (r: String)
    ensures
        r@ == arity_msg(expected as int, got as int),
{
    let mut s = String::from_str("Expected ");
    let e = nat_text(expected as u64);
    s.append(e.as_str());
    s.append(" arguments but got ");
    let g = nat_text(got as u64);
    s.append(g.as_str());
    s.append(".");
    s
}

/// The internal report for an arena index that is out of range.
fn dangling_error() -> (r: ControlFlow)
    ensures
        r@ == CtlM::Error(ErrKindM::InvalidContext(dangling_msg())),
{
    Error::invalid_context(String::from_str("internal: dangling reference"))
}

/// Truncating division, exactly [`s_idiv`].
fn idiv(l: i64, r: i64) -> (res: i64)
    requires
        r != 0,
    ensures
        res == s_idiv(l, r),
{
    if l == i64::MIN && r == -1 {
        i64::MIN
    } else {
        let lm: u64 = if l < 0 {
            if l == i64::MIN {
                9223372036854775808u64
            } else {
                (-l) as u64
            }
        } else {
            l as u64
        };
        let rm: u64 = if r < 0 {
            if r == i64::MIN {
                9223372036854775808u64
            } else {
                (-r) as u64
            }
        } else {
            r as u64
        };
        let q = lm / rm;
        proof {
            assert(lm as int / rm as int <= lm as int) by (nonlinear_arith)
                requires
                    rm >= 1,
                    lm >= 0,
            ;
        }
        if (l < 0) != (r < 0) {
            if q == 9223372036854775808u64 {
                i64::MIN
            } else {
                -(q as i64)
            }
        } else {
            proof {
                if l < 0 && lm == 9223372036854775808u64 {
                    assert(rm >= 2);
                    assert(lm as int / rm as int <= lm as int / 2) by (nonlinear_arith)
                        requires
                            rm >= 2,
                            lm >= 0,
                    ;
                }
            }
            q as i64
        }
    }
}

/// A binary operator applied to two settled operands, exactly [`s_binop`].
fn binop(op: BinOp, l: Value, r: Value) -> (res: ResultExec<Value>)
    ensures
        eval_out(res) == s_binop(op, l@, r@),
{
    match op {
        BinOp::Add => match (l, r) {
            (Value::Number(a), Value::Number(b)) => Ok(Value::Number(a.wrapping_add(b))),
            (Value::Str(a), Value::Str(b)) => Ok(Value::Str(a.concat(b.as_str()))),
            _ => Err(
                Error::wrong_value_type(
                    String::from_str("Operands must be two numbers or two strings."),
                ),
            ),
        },
        BinOp::Sub => match (l, r) {
            (Value::Number(a), Value::Number(b)) => Ok(Value::Number(a.wrapping_sub(b))),
            _ => Err(
                Error::wrong_value_type(String::from_str("Both operands must be a number.")),
            ),
        },
        BinOp::Mul => match (l, r) {
            (Value::Number(a), Value::Number(b)) => Ok(Value::Number(a.wrapping_mul(b))),
            _ => Err(
                Error::wrong_value_type(String::from_str("Both operands must be a number.")),
            ),
        },
        BinOp::Div => match (l, r) {
            (Value::Number(a), Value::Number(b)) => if b == 0 {
                Err(Error::wrong_value_type(String::from_str("Division by zero.")))
            } else {
                Ok(Value::Number(idiv(a, b)))
            },
            _ => Err(
                Error::wrong_value_type(String::from_str("Both operands must be a number.")),
            ),
        },
        BinOp::Gt => match (l, r) {
            (Value::Number(a), Value::Number(b)) => Ok(Value::Bool(a > b)),
            _ => Err(
                Error::wrong_value_type(String::from_str("Both operands must be a number.")),
            ),
        },
        BinOp::Ge => match (l, r) {
            (Value::Number(a), Value::Number(b)) => Ok(Value::Bool(a >= b)),
            _ => Err(
                Error::wrong_value_type(String::from_str("Both operands must be a number.")),
            ),
        },
        BinOp::Lt => match (l, r) {
            (Value::Number(a), Value::Number(b)) => Ok(Value::Bool(a < b)),
            _ => Err(
                Error::wrong_value_type(String::from_str("Both operands must be a number.")),
            ),
        },
        BinOp::Le => match (l, r) {
            (Value::Number(a), Value::Number(b)) => Ok(Value::Bool(a <= b)),
            _ => Err(
                Error::wrong_value_type(String::from_str("Both operands must be a number.")),
            ),
        },
        BinOp::Eq => Ok(Value::Bool(l.is_equal(&r))),
        BinOp::Ne => Ok(Value::Bool(!l.is_equal(&r))),
    }
}

/// A unary operator applied to a settled operand, exactly [`s_unop`].
fn unop(op: UnOp, v: Value) -> (res: ResultExec<Value>)
    ensures
        eval_out(res) == s_unop(op, v@),
{
    match op {
        UnOp::Neg => match v {
            Value::Number(n) => Ok(Value::Number(0i64.wrapping_sub(n))),
            _ => Err(Error::wrong_value_type(String::from_str("Operand must be a number."))),
        },
        UnOp::Not => Ok(Value::Bool(!v.is_truthy())),
    }
}

/// The state after installing a native function `name` into the global scope.
pub open spec fn s_set_global_fn(st: StateM, name: Seq<char>, arity: usize, kind: NativeKind) -> StateM {
    let fidx = st.funs.len() as usize;
    StateM {
        funs: st.funs.push(FunM::Native { arity, kind }),
        envs: s_define(st.envs, st.globals, name, ValueM::Callable(fidx)),
        ..st
    }
}

/// The state a fresh interpreter starts from: one empty global scope, empty
/// arenas, no resolution table, no output, and the clock at zero.
pub open spec fn s_initial() -> StateM {
    StateM {
        envs: seq![EnvM { values: Seq::empty(), enclosing: None }],
        funs: Seq::empty(),
        classes: Seq::empty(),
        instances: Seq::empty(),
        environment: 0,
        globals: 0,
        locals: Seq::empty(),
        output: Seq::empty(),
        now: 0,
    }
}

impl Interpreter {
    /// A fresh interpreter: the current scope is the global scope, and both
    /// arenas and the resolution table are empty.
    pub fn new() -> (r: Interpreter)
        ensures
            r@ == s_initial(),
            st_wf(r@),
    {
        let mut envs = EnvStore::new();
        let g = envs.push_root();
        let it = Interpreter {
            envs,
            funs: Vec::new(),
            classes: Vec::new(),
            instances: Vec::new(),
            environment: g,
            globals: g,
            locals: Vec::new(),
            output: Vec::new(),
            now: 0,
        };
        proof {
            assert(it@ =~~= s_initial());
        }
        it
    }

    /// Sets what the clock native returns; the driver samples the wall clock
    /// once per run and hands the reading in here as a plain value.
    pub fn set_clock(&mut self, now: i64)
        ensures
            final(self)@ == (StateM { now: now, ..old(self)@ }),
    {
        self.now = now;
        proof {
            assert(self@ =~~= (StateM { now: now, ..old(self)@ }));
        }
    }

    /// Records the binding distance the resolver computed for reference `id`.
    pub fn resolve(&mut self, id: u64, depth: usize)
        ensures
            final(self)@ == (StateM { locals: old(self)@.locals.push((id, depth)), ..old(self)@ }),
    {
        self.locals.push((id, depth));
        proof {
            assert(self@ =~~= (StateM { locals: old(self)@.locals.push((id, depth)), ..old(self)@ }));
        }
    }

    /// Installs a native function into the global scope, as the standard
    /// library injector does before interpretation begins.
    pub fn set_global_fn(&mut self, name: &str, arity: usize, kind: NativeKind)
        requires
            st_wf(old(self)@),
        ensures
            final(self)@ == s_set_global_fn(old(self)@, name@, arity, kind),
            st_wf(final(self)@),
    {
        let fidx = self.funs.len();
        self.funs.push(Function::Native { arity, kind });
        let n = String::from_str(name);
        self.envs.define(self.globals, &n, Value::Callable(fidx));
        proof {
            assert(self@ =~~= s_set_global_fn(old(self)@, name@, arity, kind));
        }
    }

    /// The textual rendering of a value, exactly [`s_render`].
    fn render(&self, v: &Value) -> (r: String)
        ensures
            r@ == s_render(self@, v@),
    {
        match v {
            Value::Number(n) => num_text(*n),
            Value::Str(s) => s.clone(),
            Value::Bool(b) => if *b {
                String::from_str("true")
            } else {
                String::from_str("false")
            },
            Value::Null => String::from_str("null"),
            Value::Callable(_) => String::from_str("<fn>"),
            Value::Class(c) => if *c < self.classes.len() {
                self.classes[*c].name.clone()
            } else {
                String::from_str("<class>")
            },
            Value::Instance(i) => if *i < self.instances.len() && self.instances[*i].klass
                < self.classes.len() {
                let mut s = self.classes[self.instances[*i].klass].name.clone();
                s.append(" instance");
                s
            } else {
                String::from_str("instance")
            },
        }
    }

    /// A variable read, exactly [`s_variable`]: by distance when one is
    /// recorded, by name in the global scope otherwise.
    fn look_up_var(&self, name: &String, id: u64) -> (r: ResultExec<Value>)
        requires
            st_wf(self@),
        ensures
            eval_out(r) == s_variable(self@, name@, id),
    {
        match locals_find(&self.locals, id) {
            Some(distance) => self.envs.get_at(self.environment, distance, name),
            None => self.envs.get(self.globals, name),
        }
    }

    /// Method search through the superclass chain, exactly [`s_find_method`].
    fn find_method(&self, c: usize, name: &String) -> (r: Option<usize>)
        ensures
            r == s_find_method(self@.classes, c, name@),
    {
        let mut cur = c;
        loop
            invariant
                s_find_method(self@.classes, c, name@) == s_find_method(self@.classes, cur, name@),
            decreases cur,
        {
            if cur >= self.classes.len() {
                return None;
            }
            match method_find(&self.classes[cur].methods, name) {
                Some(f) => {
                    return Some(f);
                },
                None => {
                    match self.classes[cur].superclass {
                        Some(sup) => {
                            if sup < cur {
                                cur = sup;
                            } else {
                                return None;
                            }
                        },
                        None => {
                            return None;
                        },
                    }
                },
            }
        }
    }

    /// Binds `"this"` to an instance in a fresh scope around a method's
    /// closure, exactly [`s_bind`].
    fn bind_method(&mut self, m: usize, inst: usize) -> (r: Option<usize>)
        requires
            st_wf(old(self)@),
        ensures
            ({
                let (st2, bound) = s_bind(old(self)@, m, inst);
                &&& final(self)@ == st2
                &&& r == bound
                &&& st_wf(st2)
                &&& old(self)@.envs.len() <= st2.envs.len()
            }),
    {
        if m >= self.funs.len() {
            return None;
        }
        let info = match &self.funs[m] {
            Function::Custom { params, body, closure, is_initializer } => Some(
                (Rc::clone(params), Rc::clone(body), *closure, *is_initializer),
            ),
            Function::Native { .. } => None,
        };
        match info {
            Some((params, body, closure, is_initializer)) => {
                if closure < self.envs.envs.len() {
                    let newenv = self.envs.from(closure);
                    let tname = String::from_str("this");
                    self.envs.define(newenv, &tname, Value::Instance(inst));
                    let fidx = self.funs.len();
                    self.funs.push(
                        Function::Custom { params, body, closure: newenv, is_initializer },
                    );
                    proof {
                        let (st2, bound) = s_bind(old(self)@, m, inst);
                        assert(self@ =~~= st2);
                    }
                    Some(fidx)
                } else {
                    None
                }
            },
            None => None,
        }
    }

    /// A property read off an instance, exactly [`s_instance_get`].
    fn instance_get(&mut self, i: usize, name: &String) -> (r: ResultExec<Value>)
        requires
            st_wf(old(self)@),
        ensures
            ({
                let (st2, o) = s_instance_get(old(self)@, i, name@);
                &&& final(self)@ == st2
                &&& eval_out(r) == o
                &&& st_wf(st2)
                &&& old(self)@.envs.len() <= st2.envs.len()
            }),
    {
        if i >= self.instances.len() {
            return Err(dangling_error());
        }
        match find_index(&self.instances[i].fields, name) {
            Some(j) => {
                proof {
                    assert(self@.instances[i as int].fields == self.instances@[i as int]@.fields);
                }
                Ok(self.instances[i].fields[j].1.clone())
            },
            None => {
                let k = self.instances[i].klass;
                match self.find_method(k, name) {
                    Some(m) => match self.bind_method(m, i) {
                        Some(f) => Ok(Value::Callable(f)),
                        None => Err(
                            Error::invalid_context(String::from_str("Bind returned None")),
                        ),
                    },
                    None => Err(Error::undefined_var(undef_prop_message(name))),
                }
            },
        }
    }

    /// A field write on an instance, exactly [`s_instance_set`]; the result is
    /// the stored value.
    fn instance_set(&mut self, i: usize, name: &String, value: Value) -> (r: ResultExec<Value>)
        requires
            st_wf(old(self)@),
        ensures
            ({
                let (st2, o) = s_instance_set(old(self)@, i, name@, value@);
                &&& final(self)@ == st2
                &&& eval_out(r) == o
                &&& st_wf(st2)
                &&& old(self)@.envs.len() <= st2.envs.len()
            }),
    {
        if i >= self.instances.len() {
            return Err(dangling_error());
        }
        let found = find_index(&self.instances[i].fields, name);
        match found {
            Some(j) => {
                self.instances[i].fields[j] = (name.clone(), value.clone());
                proof {
                    crate::env::lemma_find_idx(old(self)@.instances[i as int].fields, name@);
                    assert(self@.instances[i as int].fields =~= s_def_in(
                        old(self)@.instances[i as int].fields,
                        name@,
                        value@,
                    ));
                    let (st2, o) = s_instance_set(old(self)@, i, name@, value@);
                    assert(self@ =~~= st2);
                }
                Ok(value)
            },
            None => {
                self.instances[i].fields.push((name.clone(), value.clone()));
                proof {
                    crate::env::lemma_find_idx(old(self)@.instances[i as int].fields, name@);
                    assert(self@.instances[i as int].fields =~= s_def_in(
                        old(self)@.instances[i as int].fields,
                        name@,
                        value@,
                    ));
                    let (st2, o) = s_instance_set(old(self)@, i, name@, value@);
                    assert(self@ =~~= st2);
                }
                Ok(value)
            },
        }
    }
}


impl Interpreter {
    /// What a native call returns, exactly [`s_native`].
    fn native_result(&self, kind: NativeKind) -> (v: Value)
        ensures
            v@ == s_native(self@, kind),
    {
        match kind {
            NativeKind::Clock => Value::Number(self.now),
        }
    }

    /// The arity of the function at `fi`, exactly [`s_arity`].
    fn arity_of(&self, fi: usize) -> (r: usize)
        requires
            fi < self@.funs.len(),
        ensures
            r == s_arity(self@.funs[fi as int]),
    {
        match &self.funs[fi] {
            Function::Native { arity, .. } => *arity,
            Function::Custom { params, .. } => params.len(),
        }
    }

    /// Evaluates expression `e`, exactly [`s_eval`].
    pub fn evaluate(&mut self, e: &Expr, fuel: u64) -> (r: ResultExec<Value>)
        requires
            st_wf(old(self)@),
        ensures
            ({
                let (st2, o) = s_eval(old(self)@, *e, fuel);
                &&& final(self)@ == st2
                &&& eval_out(r) == o
                &&& st_wf(st2)
                &&& old(self)@.envs.len() <= st2.envs.len()
            }),
        decreases fuel, 0int, 0int,
    {
        match e {
            Expr::Literal { value } => Ok(Value::from(value)),
            Expr::Grouping { expression } => if fuel == 0 {
                Err(Error::out_of_fuel())
            } else {
                self.evaluate(&**expression, fuel - 1)
            },
            Expr::Unary { operator, right } => if fuel == 0 {
                Err(Error::out_of_fuel())
            } else {
                self.visit_unary_expr(*operator, &**right, fuel - 1)
            },
            Expr::Binary { left, operator, right } => if fuel == 0 {
                Err(Error::out_of_fuel())
            } else {
                self.visit_binary_expr(&**left, *operator, &**right, fuel - 1)
            },
            Expr::Logical { left, operator, right } => if fuel == 0 {
                Err(Error::out_of_fuel())
            } else {
                self.visit_logical_expr(&**left, *operator, &**right, fuel - 1)
            },
            Expr::Variable { name, id } => self.look_up_var(name, *id),
            Expr::Assign { name, id, value } => if fuel == 0 {
                Err(Error::out_of_fuel())
            } else {
                self.visit_assign_expr(name, *id, &**value, fuel - 1)
            },
            Expr::Call { callee, arguments } => if fuel == 0 {
                Err(Error::out_of_fuel())
            } else {
                self.visit_call_expr(&**callee, arguments, fuel - 1)
            },
            Expr::Get { object, name } => if fuel == 0 {
                Err(Error::out_of_fuel())
            } else {
                self.visit_get_expr(&**object, name, fuel - 1)
            },
            Expr::SetProp { object, name, value } => if fuel == 0 {
                Err(Error::out_of_fuel())
            } else {
                self.visit_set_expr(&**object, name, &**value, fuel - 1)
            },
            Expr::This { id } => {
                let tname = String::from_str("this");
                self.look_up_var(&tname, *id)
            },
            Expr::Super { id, method } => self.visit_super_expr(*id, method),
            Expr::Lambda { params, body } => self.visit_lambda_expr(params, body),
            Expr::Comma { left, right } => if fuel == 0 {
                Err(Error::out_of_fuel())
            } else {
                self.visit_comma_expr(&**left, &**right, fuel - 1)
            },
        }
    }

    /// Unary operators, exactly [`s_unary`].
    fn visit_unary_expr(&mut self, operator: UnOp, right: &Expr, fuel: u64) -> (r: ResultExec<
        Value,
    >)
        requires
            st_wf(old(self)@),
        ensures
            ({
                let (st2, o) = s_unary(old(self)@, operator, *right, fuel);
                &&& final(self)@ == st2
                &&& eval_out(r) == o
                &&& st_wf(st2)
                &&& old(self)@.envs.len() <= st2.envs.len()
            }),
        decreases fuel, 1int, 0int,
    {
        let v = match self.evaluate(right, fuel) {
            Ok(v) => v,
            Err(c) => {
                return Err(c);
            },
        };
        unop(operator, v)
    }

    /// Binary operators, exactly [`s_binary`].
    fn visit_binary_expr(&mut self, left: &Expr, operator: BinOp, right: &Expr, fuel: u64) -> (r:
        ResultExec<Value>)
        requires
            st_wf(old(self)@),
        ensures
            ({
                let (st2, o) = s_binary(old(self)@, *left, operator, *right, fuel);
                &&& final(self)@ == st2
                &&& eval_out(r) == o
                &&& st_wf(st2)
                &&& old(self)@.envs.len() <= st2.envs.len()
            }),
        decreases fuel, 1int, 0int,
    {
        let l = match self.evaluate(left, fuel) {
            Ok(v) => v,
            Err(c) => {
                return Err(c);
            },
        };
        let rv = match self.evaluate(right, fuel) {
            Ok(v) => v,
            Err(c) => {
                return Err(c);
            },
        };
        binop(operator, l, rv)
    }

    /// Short-circuiting logic, exactly [`s_logical`].
    fn visit_logical_expr(&mut self, left: &Expr, operator: LogOp, right: &Expr, fuel: u64) -> (r:
        ResultExec<Value>)
        requires
            st_wf(old(self)@),
        ensures
            ({
                let (st2, o) = s_logical(old(self)@, *left, operator, *right, fuel);
                &&& final(self)@ == st2
                &&& eval_out(r) == o
                &&& st_wf(st2)
                &&& old(self)@.envs.len() <= st2.envs.len()
            }),
        decreases fuel, 1int, 0int,
    {
        let l = match self.evaluate(left, fuel) {
            Ok(v) => v,
            Err(c) => {
                return Err(c);
            },
        };
        match operator {
            LogOp::Or => if l.is_truthy() {
                Ok(l)
            } else {
                self.evaluate(right, fuel)
            },
            LogOp::And => if !l.is_truthy() {
                Ok(l)
            } else {
                self.evaluate(right, fuel)
            },
        }
    }

    /// Assignment, exactly [`s_assign_expr`].
    fn visit_assign_expr(&mut self, name: &String, id: u64, value: &Expr, fuel: u64) -> (r:
        ResultExec<Value>)
        requires
            st_wf(old(self)@),
        ensures
            ({
                let (st2, o) = s_assign_expr(old(self)@, name@, id, *value, fuel);
                &&& final(self)@ == st2
                &&& eval_out(r) == o
                &&& st_wf(st2)
                &&& old(self)@.envs.len() <= st2.envs.len()
            }),
        decreases fuel, 1int, 0int,
    {
        let v = match self.evaluate(value, fuel) {
            Ok(v) => v,
            Err(c) => {
                return Err(c);
            },
        };
        match locals_find(&self.locals, id) {
            Some(d) => match self.envs.assign_at(self.environment, d, name, v.clone()) {
                Ok(_) => Ok(v),
                Err(c) => Err(c),
            },
            None => match self.envs.assign(self.globals, name, v.clone()) {
                Ok(_) => Ok(v),
                Err(c) => Err(c),
            },
        }
    }

    /// The comma operator, exactly [`s_comma`].
    fn visit_comma_expr(&mut self, left: &Expr, right: &Expr, fuel: u64) -> (r: ResultExec<Value>)
        requires
            st_wf(old(self)@),
        ensures
            ({
                let (st2, o) = s_comma(old(self)@, *left, *right, fuel);
                &&& final(self)@ == st2
                &&& eval_out(r) == o
                &&& st_wf(st2)
                &&& old(self)@.envs.len() <= st2.envs.len()
            }),
        decreases fuel, 1int, 0int,
    {
        match self.evaluate(left, fuel) {
            Ok(_) => self.evaluate(right, fuel),
            Err(c) => Err(c),
        }
    }

    /// Property reads, exactly [`s_get_expr`].
    fn visit_get_expr(&mut self, object: &Expr, name: &String, fuel: u64) -> (r: ResultExec<Value>)
        requires
            st_wf(old(self)@),
        ensures
            ({
                let (st2, o) = s_get_expr(old(self)@, *object, name@, fuel);
                &&& final(self)@ == st2
                &&& eval_out(r) == o
                &&& st_wf(st2)
                &&& old(self)@.envs.len() <= st2.envs.len()
            }),
        decreases fuel, 1int, 0int,
    {
        let ov = match self.evaluate(object, fuel) {
            Ok(v) => v,
            Err(c) => {
                return Err(c);
            },
        };
        match ov {
            Value::Instance(i) => self.instance_get(i, name),
            _ => Err(
                Error::unexpected_expr(String::from_str("Only instances have properties")),
            ),
        }
    }

    /// Property writes, exactly [`s_set_expr`].
    fn visit_set_expr(&mut self, object: &Expr, name: &String, value: &Expr, fuel: u64) -> (r:
        ResultExec<Value>)
        requires
            st_wf(old(self)@),
        ensures
            ({
                let (st2, o) = s_set_expr(old(self)@, *object, name@, *value, fuel);
                &&& final(self)@ == st2
                &&& eval_out(r) == o
                &&& st_wf(st2)
                &&& old(self)@.envs.len() <= st2.envs.len()
            }),
        decreases fuel, 1int, 0int,
    {
        let ov = match self.evaluate(object, fuel) {
            Ok(v) => v,
            Err(c) => {
                return Err(c);
            },
        };
        match ov {
            Value::Instance(i) => {
                let v = match self.evaluate(value, fuel) {
                    Ok(v) => v,
                    Err(c) => {
                        return Err(c);
                    },
                };
                self.instance_set(i, name, v)
            },
            _ => Err(Error::unexpected_expr(String::from_str("Only instances have fields"))),
        }
    }

    /// `super.method`, exactly [`s_super_expr`].
    fn visit_super_expr(&mut self, id: u64, method: &String) -> (r: ResultExec<Value>)
        requires
            st_wf(old(self)@),
        ensures
            ({
                let (st2, o) = s_super_expr(old(self)@, id, method@);
                &&& final(self)@ == st2
                &&& eval_out(r) == o
                &&& st_wf(st2)
                &&& old(self)@.envs.len() <= st2.envs.len()
            }),
    {
        let d = match locals_find(&self.locals, id) {
            Some(d) => d,
            None => {
                return Err(Error::undefined_var(String::from_str("super not resolved")));
            },
        };
        let sname = String::from_str("super");
        let sv = match self.envs.get_at(self.environment, d, &sname) {
            Ok(v) => v,
            Err(c) => {
                return Err(c);
            },
        };
        let c = match sv {
            Value::Class(c) => c,
            _ => {
                return Err(
                    Error::wrong_value_type(String::from_str("Superclass is not a class")),
                );
            },
        };
        if d == 0 {
            return Err(
                Error::undefined_var(String::from_str("Expected 'this' to be an instance")),
            );
        }
        let tname = String::from_str("this");
        let tv = match self.envs.get_at(self.environment, d - 1, &tname) {
            Ok(v) => v,
            Err(c) => {
                return Err(c);
            },
        };
        let inst = match tv {
            Value::Instance(i) => i,
            _ => {
                return Err(
                    Error::undefined_var(String::from_str("Expected 'this' to be an instance")),
                );
            },
        };
        match self.find_method(c, method) {
            Some(m) => match self.bind_method(m, inst) {
                Some(f) => Ok(Value::Callable(f)),
                None => Err(Error::invalid_context(String::from_str("Bind returned None"))),
            },
            None => Err(Error::undefined_var(method.clone())),
        }
    }

    /// A function literal, exactly [`s_lambda`].
    fn visit_lambda_expr(&mut self, params: &Rc<Vec<String>>, body: &Rc<Vec<Stmt>>) -> (r:
        ResultExec<Value>)
        requires
            st_wf(old(self)@),
        ensures
            ({
                let (st2, o) = s_lambda(old(self)@, params@, body@);
                &&& final(self)@ == st2
                &&& eval_out(r) == o
                &&& st_wf(st2)
                &&& old(self)@.envs.len() <= st2.envs.len()
            }),
    {
        let fidx = self.funs.len();
        self.funs.push(
            Function::Custom {
                params: Rc::clone(params),
                body: Rc::clone(body),
                closure: self.environment,
                is_initializer: false,
            },
        );
        proof {
            let (st2, o) = s_lambda(old(self)@, params@, body@);
            assert(self@ =~~= st2);
        }
        Ok(Value::Callable(fidx))
    }

    /// A call's arguments, left to right, exactly [`s_eval_list`] on the tail
    /// of the list from `from` on.
    fn eval_args(&mut self, arguments: &Vec<Expr>, from: usize, fuel: u64) -> (r: ResultExec<
        Vec<Value>,
    >)
        requires
            st_wf(old(self)@),
            from <= arguments.len(),
        ensures
            ({
                let (st2, lo) = s_eval_list(old(self)@, arguments@.skip(from as int), fuel);
                &&& final(self)@ == st2
                &&& st_wf(st2)
                &&& old(self)@.envs.len() <= st2.envs.len()
                &&& (match r {
                    Ok(vs) => lo == ListOut::Vals(vs@.map_values(|v: Value| v@)),
                    Err(c) => lo == ListOut::Ctl(c@),
                })
            }),
        decreases fuel, 1int, arguments@.len() - from,
    {
        if from == arguments.len() {
            let empty: Vec<Value> = Vec::new();
            proof {
                assert(arguments@.skip(from as int) =~= Seq::<Expr>::empty());
                assert(empty@.map_values(|v: Value| v@) =~= Seq::<ValueM>::empty());
            }
            return Ok(empty);
        }
        proof {
            assert(arguments@.skip(from as int)[0] == arguments@[from as int]);
            assert(arguments@.skip(from as int).drop_first() =~= arguments@.skip(
                from as int + 1,
            ));
        }
        let v = match self.evaluate(&arguments[from], fuel) {
            Ok(v) => v,
            Err(c) => {
                return Err(c);
            },
        };
        let mut rest = match self.eval_args(arguments, from + 1, fuel) {
            Ok(vs) => vs,
            Err(c) => {
                return Err(c);
            },
        };
        let ghost restm = rest@.map_values(|v: Value| v@);
        rest.insert(0, v);
        proof {
            assert(rest@.map_values(|v: Value| v@) =~= seq![v@] + restm);
        }
        Ok(rest)
    }

    /// A call expression, exactly [`s_call_expr`].
    fn visit_call_expr(&mut self, callee: &Expr, arguments: &Vec<Expr>, fuel: u64) -> (r:
        ResultExec<Value>)
        requires
            st_wf(old(self)@),
        ensures
            ({
                let (st2, o) = s_call_expr(old(self)@, *callee, arguments@, fuel);
                &&& final(self)@ == st2
                &&& eval_out(r) == o
                &&& st_wf(st2)
                &&& old(self)@.envs.len() <= st2.envs.len()
            }),
        decreases fuel, 6int, 0int,
    {
        let cv = match self.evaluate(callee, fuel) {
            Ok(v) => v,
            Err(c) => {
                return Err(c);
            },
        };
        if !matches!(cv, Value::Callable(_) | Value::Class(_)) {
            let txt = self.render(&cv);
            return Err(Error::not_callable(txt));
        }
        proof {
            assert(arguments@.skip(0) =~= arguments@);
        }
        let args = match self.eval_args(arguments, 0, fuel) {
            Ok(vs) => vs,
            Err(c) => {
                return Err(c);
            },
        };
        self.call_value(cv, args, fuel)
    }

    /// Invoking a settled callee on settled arguments, exactly
    /// [`s_call_value`].
    fn call_value(&mut self, callee: Value, args: Vec<Value>, fuel: u64) -> (r: ResultExec<Value>)
        requires
            st_wf(old(self)@),
        ensures
            ({
                let (st2, o) = s_call_value(
                    old(self)@,
                    callee@,
                    args@.map_values(|v: Value| v@),
                    fuel,
                );
                &&& final(self)@ == st2
                &&& eval_out(r) == o
                &&& st_wf(st2)
                &&& old(self)@.envs.len() <= st2.envs.len()
            }),
        decreases fuel, 5int, 0int,
    {
        match callee {
            Value::Callable(fi) => {
                if fi < self.funs.len() {
                    let ar = self.arity_of(fi);
                    if args.len() != ar {
                        Err(Error::wrong_value_type(arity_message(ar, args.len())))
                    } else {
                        let kind_opt = match &self.funs[fi] {
                            Function::Native { kind, .. } => Some(*kind),
                            Function::Custom { .. } => None,
                        };
                        match kind_opt {
                            Some(k) => Ok(self.native_result(k)),
                            None => self.call_function(fi, args, fuel),
                        }
                    }
                } else {
                    Err(dangling_error())
                }
            },
            Value::Class(ci) => self.call_class(ci, args, fuel),
            _ => {
                let txt = self.render(&callee);
                Err(Error::not_callable(txt))
            },
        }
    }

    /// Instantiating a class, exactly [`s_call_class`].
    fn call_class(&mut self, ci: usize, args: Vec<Value>, fuel: u64) -> (r: ResultExec<Value>)
        requires
            st_wf(old(self)@),
        ensures
            ({
                let (st2, o) = s_call_class(
                    old(self)@,
                    ci,
                    args@.map_values(|v: Value| v@),
                    fuel,
                );
                &&& final(self)@ == st2
                &&& eval_out(r) == o
                &&& st_wf(st2)
                &&& old(self)@.envs.len() <= st2.envs.len()
            }),
        decreases fuel, 4int, 0int,
    {
        if ci >= self.classes.len() {
            return Err(dangling_error());
        }
        let iname = String::from_str("init");
        let initm = self.find_method(ci, &iname);
        let ar: usize = match initm {
            Some(m) => if m < self.funs.len() {
                self.arity_of(m)
            } else {
                0
            },
            None => 0,
        };
        if args.len() != ar {
            return Err(Error::wrong_value_type(arity_message(ar, args.len())));
        }
        let inst = self.instances.len();
        self.instances.push(Instance { klass: ci, fields: Vec::new() });
        proof {
            assert(self@ =~~= (StateM {
                instances: old(self)@.instances.push(
                    InstM { klass: ci, fields: Seq::empty() },
                ),
                ..old(self)@
            }));
        }
        match initm {
            None => Ok(Value::Instance(inst)),
            Some(m) => match self.bind_method(m, inst) {
                None => Ok(Value::Instance(inst)),
                Some(bfi) => match self.call_function(bfi, args, fuel) {
                    Ok(_) => Ok(Value::Instance(inst)),
                    Err(c) => Err(c),
                },
            },
        }
    }

    /// Calling a closure, exactly [`s_call_function`].
    fn call_function(&mut self, fi: usize, args: Vec<Value>, fuel: u64) -> (r: ResultExec<Value>)
        requires
            st_wf(old(self)@),
        ensures
            ({
                let (st2, o) = s_call_function(
                    old(self)@,
                    fi,
                    args@.map_values(|v: Value| v@),
                    fuel,
                );
                &&& final(self)@ == st2
                &&& eval_out(r) == o
                &&& st_wf(st2)
                &&& old(self)@.envs.len() <= st2.envs.len()
            }),
        decreases fuel, 3int, 0int,
    {
        if fi >= self.funs.len() {
            return Err(dangling_error());
        }
        let info = match &self.funs[fi] {
            Function::Custom { params, body, closure, .. } => Some(
                (Rc::clone(params), Rc::clone(body), *closure),
            ),
            Function::Native { .. } => None,
        };
        match info {
            None => Err(dangling_error()),
            Some((params, body, closure)) => {
                if closure < self.envs.envs.len() && args.len() == params.len() {
                    let newenv = self.envs.from(closure);
                    self.bind_params(newenv, &params, &args);
                    let o = self.execute_block(&*body, newenv, fuel);
                    match o {
                        Ok(_) => Ok(Value::Null),
                        Err(ControlFlow::Runtime(RuntimeControl::Return(v))) => Ok(v),
                        Err(c) => Err(c),
                    }
                } else {
                    Err(dangling_error())
                }
            },
        }
    }

    /// Binds the parameters to the arguments, in order, in scope `env`,
    /// exactly [`s_bind_params`].
    fn bind_params(&mut self, env: usize, params: &Rc<Vec<String>>, args: &Vec<Value>)
        requires
            st_wf(old(self)@),
            env < old(self)@.envs.len(),
            args@.len() == params@.len(),
        ensures
            final(self)@ == (StateM {
                envs: s_bind_params(
                    old(self)@.envs,
                    env,
                    params@,
                    args@.map_values(|v: Value| v@),
                ),
                ..old(self)@
            }),
            st_wf(final(self)@),
            final(self)@.envs.len() == old(self)@.envs.len(),
    {
        let ghost argsm = args@.map_values(|v: Value| v@);
        let ps: &Vec<String> = &**params;
        let n = ps.len();
        proof {
            assert(params@.skip(0) =~= params@);
            assert(argsm.skip(0) =~= argsm);
        }
        let mut i: usize = 0;
        while i < n
            invariant
                st_wf(self@),
                env < self@.envs.len(),
                n == params@.len(),
                ps@ == params@,
                argsm == args@.map_values(|v: Value| v@),
                argsm.len() == n,
                args@.len() == n,
                i <= n,
                self@ == (StateM { envs: self@.envs, ..old(self)@ }),
                self@.envs.len() == old(self)@.envs.len(),
                s_bind_params(old(self)@.envs, env, params@, argsm) == s_bind_params(
                    self@.envs,
                    env,
                    params@.skip(i as int),
                    argsm.skip(i as int),
                ),
            decreases n - i,
        {
            proof {
                assert(params@.skip(i as int)[0] == params@[i as int]);
                assert(argsm.skip(i as int)[0] == argsm[i as int]);
                assert(params@.skip(i as int).drop_first() =~= params@.skip(i as int + 1));
                assert(argsm.skip(i as int).drop_first() =~= argsm.skip(i as int + 1));
            }
            self.envs.define(env, &ps[i], args[i].clone());
            i = i + 1;
        }
        proof {
            assert(params@.skip(n as int) =~= Seq::<String>::empty());
            assert(argsm.skip(n as int) =~= Seq::<ValueM>::empty());
            assert(self@ =~~= (StateM {
                envs: s_bind_params(old(self)@.envs, env, params@, argsm),
                ..old(self)@
            }));
        }
    }

    /// Statements run with `env` as the current scope and the previous scope
    /// restored on every exit, exactly [`s_exec_in`].
    pub fn execute_block(&mut self, statements: &Vec<Stmt>, env: usize, fuel: u64) -> (r:
        ResultExec<()>)
        requires
            st_wf(old(self)@),
            env < old(self)@.envs.len(),
        ensures
            ({
                let (st2, o) = s_exec_in(old(self)@, statements@, env, fuel);
                &&& final(self)@ == st2
                &&& exec_out(r) == o
                &&& st_wf(st2)
                &&& old(self)@.envs.len() <= st2.envs.len()
            }),
        decreases fuel, 2int, 0int,
    {
        let prev = self.environment;
        self.environment = env;
        proof {
            assert(self@ =~~= (StateM { environment: env, ..old(self)@ }));
        }
        let r = self.execute_seq(statements, 0, fuel);
        self.environment = prev;
        proof {
            assert(statements@.skip(0) =~= statements@);
            let (st2, o) = s_exec_in(old(self)@, statements@, env, fuel);
            assert(self@ =~~= st2);
        }
        r
    }

    /// A run of statements, first signal or error wins, exactly
    /// [`s_exec_seq`] on the tail of the list from `from` on.
    fn execute_seq(&mut self, statements: &Vec<Stmt>, from: usize, fuel: u64) -> (r: ResultExec<
        (),
    >)
        requires
            st_wf(old(self)@),
            from <= statements.len(),
        ensures
            ({
                let (st2, o) = s_exec_seq(old(self)@, statements@.skip(from as int), fuel);
                &&& final(self)@ == st2
                &&& exec_out(r) == o
                &&& st_wf(st2)
                &&& old(self)@.envs.len() <= st2.envs.len()
            }),
        decreases fuel, 1int, statements@.len() - from,
    {
        if from == statements.len() {
            proof {
                assert(statements@.skip(from as int) =~= Seq::<Stmt>::empty());
            }
            return Ok(());
        }
        proof {
            assert(statements@.skip(from as int)[0] == statements@[from as int]);
            assert(statements@.skip(from as int).drop_first() =~= statements@.skip(
                from as int + 1,
            ));
        }
        match self.execute(&statements[from], fuel) {
            Err(c) => Err(c),
            Ok(_) => self.execute_seq(statements, from + 1, fuel),
        }
    }

    /// Executes statement `s`, exactly [`s_exec`].
    pub fn execute(&mut self, s: &Stmt, fuel: u64) -> (r: ResultExec<()>)
        requires
            st_wf(old(self)@),
        ensures
            ({
                let (st2, o) = s_exec(old(self)@, *s, fuel);
                &&& final(self)@ == st2
                &&& exec_out(r) == o
                &&& st_wf(st2)
                &&& old(self)@.envs.len() <= st2.envs.len()
            }),
        decreases fuel, 0int, 0int,
    {
        match s {
            Stmt::Expression { expression } => if fuel == 0 {
                Err(Error::out_of_fuel())
            } else {
                self.visit_expr_stmt(expression, fuel - 1)
            },
            Stmt::Print { expression } => if fuel == 0 {
                Err(Error::out_of_fuel())
            } else {
                self.visit_print_stmt(expression, fuel - 1)
            },
            Stmt::Var { name, initializer } => if fuel == 0 {
                Err(Error::out_of_fuel())
            } else {
                self.visit_var_stmt(name, initializer, fuel - 1)
            },
            Stmt::Function { name, params, body } => self.visit_function_stmt(name, params, body),
            Stmt::Return { value } => if fuel == 0 {
                Err(Error::out_of_fuel())
            } else {
                self.visit_return_stmt(value, fuel - 1)
            },
            Stmt::Break => Err(ControlFlow::break_flow()),
            Stmt::Block { statements } => if fuel == 0 {
                Err(Error::out_of_fuel())
            } else {
                self.visit_block_stmt(statements, fuel - 1)
            },
            Stmt::If { condition, then_branch, else_branch } => if fuel == 0 {
                Err(Error::out_of_fuel())
            } else {
                self.visit_if_stmt(condition, &**then_branch, else_branch, fuel - 1)
            },
            Stmt::While { condition, body } => if fuel == 0 {
                Err(Error::out_of_fuel())
            } else {
                self.visit_while_stmt(condition, &**body, fuel - 1)
            },
            Stmt::Class { name, superclass, methods } => if fuel == 0 {
                Err(Error::out_of_fuel())
            } else {
                self.visit_class_stmt(name, superclass, methods, fuel - 1)
            },
        }
    }

    /// An expression statement, exactly [`s_expr_stmt`].
    fn visit_expr_stmt(&mut self, expression: &Expr, fuel: u64) -> (r: ResultExec<()>)
        requires
            st_wf(old(self)@),
        ensures
            ({
                let (st2, o) = s_expr_stmt(old(self)@, *expression, fuel);
                &&& final(self)@ == st2
                &&& exec_out(r) == o
                &&& st_wf(st2)
                &&& old(self)@.envs.len() <= st2.envs.len()
            }),
        decreases fuel, 1int, 0int,
    {
        match self.evaluate(expression, fuel) {
            Ok(_) => Ok(()),
            Err(c) => Err(c),
        }
    }

    /// `print`, exactly [`s_print_stmt`].
    fn visit_print_stmt(&mut self, expression: &Expr, fuel: u64) -> (r: ResultExec<()>)
        requires
            st_wf(old(self)@),
        ensures
            ({
                let (st2, o) = s_print_stmt(old(self)@, *expression, fuel);
                &&& final(self)@ == st2
                &&& exec_out(r) == o
                &&& st_wf(st2)
                &&& old(self)@.envs.len() <= st2.envs.len()
            }),
        decreases fuel, 1int, 0int,
    {
        let v = match self.evaluate(expression, fuel) {
            Ok(v) => v,
            Err(c) => {
                return Err(c);
            },
        };
        let ghost mid = self@;
        let txt = self.render(&v);
        self.output.push(txt);
        proof {
            assert(self@ =~~= (StateM { output: mid.output.push(s_render(mid, v@)), ..mid }));
        }
        Ok(())
    }

    /// A variable declaration, exactly [`s_var_stmt`].
    fn visit_var_stmt(&mut self, name: &String, initializer: &Option<Expr>, fuel: u64) -> (r:
        ResultExec<()>)
        requires
            st_wf(old(self)@),
        ensures
            ({
                let (st2, o) = s_var_stmt(old(self)@, name@, *initializer, fuel);
                &&& final(self)@ == st2
                &&& exec_out(r) == o
                &&& st_wf(st2)
                &&& old(self)@.envs.len() <= st2.envs.len()
            }),
        decreases fuel, 1int, 0int,
    {
        let v = match initializer {
            Some(e) => match self.evaluate(e, fuel) {
                Ok(v) => v,
                Err(c) => {
                    return Err(c);
                },
            },
            None => Value::Null,
        };
        let ghost mid = self@;
        self.envs.define(self.environment, name, v.clone());
        proof {
            assert(self@ =~~= (StateM {
                envs: s_define(mid.envs, mid.environment, name@, v@),
                ..mid
            }));
        }
        Ok(())
    }

    /// A function declaration, exactly [`s_function_stmt`].
    fn visit_function_stmt(
        &mut self,
        name: &String,
        params: &Rc<Vec<String>>,
        body: &Rc<Vec<Stmt>>,
    ) -> (r: ResultExec<()>)
        requires
            st_wf(old(self)@),
        ensures
            ({
                let (st2, o) = s_function_stmt(old(self)@, name@, params@, body@);
                &&& final(self)@ == st2
                &&& exec_out(r) == o
                &&& st_wf(st2)
                &&& old(self)@.envs.len() <= st2.envs.len()
            }),
    {
        let fidx = self.funs.len();
        self.funs.push(
            Function::Custom {
                params: Rc::clone(params),
                body: Rc::clone(body),
                closure: self.environment,
                is_initializer: false,
            },
        );
        self.envs.define(self.environment, name, Value::Callable(fidx));
        proof {
            let (st2, o) = s_function_stmt(old(self)@, name@, params@, body@);
            assert(self@ =~~= st2);
        }
        Ok(())
    }

    /// `return`, exactly [`s_return_stmt`].
    fn visit_return_stmt(&mut self, value: &Option<Expr>, fuel: u64) -> (r: ResultExec<()>)
        requires
            st_wf(old(self)@),
        ensures
            ({
                let (st2, o) = s_return_stmt(old(self)@, *value, fuel);
                &&& final(self)@ == st2
                &&& exec_out(r) == o
                &&& st_wf(st2)
                &&& old(self)@.envs.len() <= st2.envs.len()
            }),
        decreases fuel, 1int, 0int,
    {
        let v = match value {
            Some(e) => match self.evaluate(e, fuel) {
                Ok(v) => v,
                Err(c) => {
                    return Err(c);
                },
            },
            None => Value::Null,
        };
        Err(ControlFlow::return_(v))
    }

    /// A block, exactly [`s_exec_block`]: a fresh child scope for the
    /// statements, the previous scope restored afterwards.
    fn visit_block_stmt(&mut self, statements: &Vec<Stmt>, fuel: u64) -> (r: ResultExec<()>)
        requires
            st_wf(old(self)@),
        ensures
            ({
                let (st2, o) = s_exec_block(old(self)@, statements@, fuel);
                &&& final(self)@ == st2
                &&& exec_out(r) == o
                &&& st_wf(st2)
                &&& old(self)@.envs.len() <= st2.envs.len()
            }),
        decreases fuel, 3int, 0int,
    {
        let newenv = self.envs.from(self.environment);
        proof {
            assert(self@ =~~= (StateM {
                envs: s_push_env(old(self)@.envs, old(self)@.environment),
                ..old(self)@
            }));
        }
        self.execute_block(statements, newenv, fuel)
    }

    /// `if`, exactly [`s_if_stmt`].
    fn visit_if_stmt(
        &mut self,
        condition: &Expr,
        then_branch: &Stmt,
        else_branch: &Option<Box<Stmt>>,
        fuel: u64,
    ) -> (r: ResultExec<()>)
        requires
            st_wf(old(self)@),
        ensures
            ({
                let (st2, o) = s_if_stmt(old(self)@, *condition, *then_branch, *else_branch, fuel);
                &&& final(self)@ == st2
                &&& exec_out(r) == o
                &&& st_wf(st2)
                &&& old(self)@.envs.len() <= st2.envs.len()
            }),
        decreases fuel, 1int, 0int,
    {
        let c = match self.evaluate(condition, fuel) {
            Ok(v) => v,
            Err(c) => {
                return Err(c);
            },
        };
        if c.is_truthy() {
            self.execute(then_branch, fuel)
        } else {
            match else_branch {
                Some(eb) => self.execute(&**eb, fuel),
                None => Ok(()),
            }
        }
    }

    /// `while`, exactly [`s_while_stmt`]: the body's `break` ends the loop
    /// normally; anything else propagates.
    fn visit_while_stmt(&mut self, condition: &Expr, body: &Stmt, fuel: u64) -> (r: ResultExec<()>)
        requires
            st_wf(old(self)@),
        ensures
            ({
                let (st2, o) = s_while_stmt(old(self)@, *condition, *body, fuel);
                &&& final(self)@ == st2
                &&& exec_out(r) == o
                &&& st_wf(st2)
                &&& old(self)@.envs.len() <= st2.envs.len()
            }),
        decreases fuel, 1int, 0int,
    {
        if fuel == 0 {
            return Err(Error::out_of_fuel());
        }
        let c = match self.evaluate(condition, fuel) {
            Ok(v) => v,
            Err(c) => {
                return Err(c);
            },
        };
        if !c.is_truthy() {
            return Ok(());
        }
        match self.execute(body, fuel) {
            Ok(_) => self.visit_while_stmt(condition, body, fuel - 1),
            Err(ControlFlow::Runtime(RuntimeControl::Break)) => Ok(()),
            Err(c) => Err(c),
        }
    }

    /// A class declaration, exactly [`s_class_stmt`].
    fn visit_class_stmt(
        &mut self,
        name: &String,
        superclass: &Option<Box<Expr>>,
        methods: &Vec<Stmt>,
        fuel: u64,
    ) -> (r: ResultExec<()>)
        requires
            st_wf(old(self)@),
        ensures
            ({
                let (st2, o) = s_class_stmt(old(self)@, name@, *superclass, methods@, fuel);
                &&& final(self)@ == st2
                &&& exec_out(r) == o
                &&& st_wf(st2)
                &&& old(self)@.envs.len() <= st2.envs.len()
            }),
        decreases fuel, 1int, 0int,
    {
        let sup: Option<usize> = match superclass {
            Some(se) => {
                let sv = match self.evaluate(&**se, fuel) {
                    Ok(v) => v,
                    Err(c) => {
                        return Err(c);
                    },
                };
                match sv {
                    Value::Class(c) => Some(c),
                    _ => {
                        return Err(
                            Error::unexpected_expr(
                                String::from_str("Superclass must be a class."),
                            ),
                        );
                    },
                }
            },
            None => None,
        };
        self.class_decl(name, sup, methods)
    }

    /// The declaration proper, exactly [`s_class_decl`].
    fn class_decl(&mut self, name: &String, superclass: Option<usize>, methods: &Vec<Stmt>) -> (r:
        ResultExec<()>)
        requires
            st_wf(old(self)@),
        ensures
            ({
                let (st2, o) = s_class_decl(old(self)@, name@, superclass, methods@);
                &&& final(self)@ == st2
                &&& exec_out(r) == o
                &&& st_wf(st2)
                &&& old(self)@.envs.len() <= st2.envs.len()
            }),
    {
        self.envs.define(self.environment, name, Value::Null);
        let env_m: usize = match superclass {
            Some(c) => {
                let ne = self.envs.from(self.environment);
                let sname = String::from_str("super");
                self.envs.define(ne, &sname, Value::Class(c));
                ne
            },
            None => self.environment,
        };
        let ghost pair = ({
            let envs1 = s_define(old(self)@.envs, old(self)@.environment, name@, ValueM::Null);
            match superclass {
                Some(c) => (
                    envs1.len() as usize,
                    s_define(
                        s_push_env(envs1, old(self)@.environment),
                        envs1.len() as usize,
                        "super"@,
                        ValueM::Class(c),
                    ),
                ),
                None => (old(self)@.environment, envs1),
            }
        });
        proof {
            assert(env_m == pair.0);
            assert(self@ =~~= (StateM { envs: pair.1, ..old(self)@ }));
        }
        let table = match self.class_methods(methods, 0, env_m) {
            Ok(t) => t,
            Err(c) => {
                proof {
                    assert(methods@.skip(0) =~= methods@);
                }
                return Err(c);
            },
        };
        proof {
            assert(methods@.skip(0) =~= methods@);
        }
        let ci = self.classes.len();
        self.classes.push(Class { name: name.clone(), superclass, methods: table });
        match self.envs.assign(self.environment, name, Value::Class(ci)) {
            Ok(_) => {
                proof {
                    let (st2, o) = s_class_decl(old(self)@, name@, superclass, methods@);
                    assert(self@ =~~= st2);
                }
                Ok(())
            },
            Err(c) => {
                proof {
                    let (st2, o) = s_class_decl(old(self)@, name@, superclass, methods@);
                    assert(self@ =~~= st2);
                }
                Err(c)
            },
        }
    }

    /// The method table of a class declaration, exactly [`s_class_methods`]
    /// on the tail of the list from `from` on.
    fn class_methods(&mut self, methods: &Vec<Stmt>, from: usize, env_m: usize) -> (r: ResultExec<
        Vec<(String, usize)>,
    >)
        requires
            st_wf(old(self)@),
            from <= methods.len(),
        ensures
            ({
                let mo = s_class_methods(old(self)@.funs, methods@.skip(from as int), env_m);
                &&& (match r {
                    Ok(table) => mo matches MethodsOut::Built { funs, table: t }
                        && final(self)@ == (StateM { funs: funs, ..old(self)@ }) && table@.map_values(
                        |p: (String, usize)| (p.0@, p.1),
                    ) == t,
                    Err(c) => mo matches MethodsOut::Failed { funs, ctl } && final(self)@
                        == (StateM { funs: funs, ..old(self)@ }) && c@ == ctl,
                })
                &&& st_wf(final(self)@)
            }),
        decreases methods@.len() - from,
    {
        if from == methods.len() {
            let empty: Vec<(String, usize)> = Vec::new();
            proof {
                assert(methods@.skip(from as int) =~= Seq::<Stmt>::empty());
                assert(empty@.map_values(|p: (String, usize)| (p.0@, p.1)) =~= Seq::<
                    (Seq<char>, usize),
                >::empty());
                assert(self@ =~~= (StateM { funs: old(self)@.funs, ..old(self)@ }));
            }
            return Ok(empty);
        }
        proof {
            assert(methods@.skip(from as int)[0] == methods@[from as int]);
            assert(methods@.skip(from as int).drop_first() =~= methods@.skip(from as int + 1));
        }
        let info = match &methods[from] {
            Stmt::Function { name, params, body } => Some(
                (name.clone(), Rc::clone(params), Rc::clone(body)),
            ),
            _ => None,
        };
        match info {
            None => {
                proof {
                    assert(self@ =~~= (StateM { funs: old(self)@.funs, ..old(self)@ }));
                }
                Err(Error::unexpected_stmt(String::from_str("Should be a function")))
            },
            Some((mname, params, body)) => {
                let idx = self.funs.len();
                let iname = String::from_str("init");
                let is_init = mname.eq(&iname);
                let ghost mnamev = mname@;
                let ghost pv = params@;
                let ghost bv = body@;
                self.funs.push(
                    Function::Custom { params, body, closure: env_m, is_initializer: is_init },
                );
                proof {
                    assert(self@.funs =~= old(self)@.funs.push(
                        FunM::Custom {
                            params: pv,
                            body: bv,
                            closure: env_m,
                            is_initializer: (mnamev == "init"@),
                        },
                    ));
                    assert(self@ =~~= (StateM { funs: self@.funs, ..old(self)@ }));
                }
                let mut table = match self.class_methods(methods, from + 1, env_m) {
                    Ok(t) => t,
                    Err(c) => {
                        proof {
                            assert(self@ =~~= (StateM { funs: self@.funs, ..old(self)@ }));
                        }
                        return Err(c);
                    },
                };
                let ghost tm = table@.map_values(|p: (String, usize)| (p.0@, p.1));
                table.insert(0, (mname, idx));
                proof {
                    assert(table@.map_values(|p: (String, usize)| (p.0@, p.1)) =~= seq![
                        (mnamev, idx),
                    ] + tm);
                    assert(self@ =~~= (StateM { funs: self@.funs, ..old(self)@ }));
                }
                Ok(table)
            },
        }
    }

    /// Interprets a program: statements in order, each with the driver's full
    /// fuel budget, halting at the first genuine error; exactly
    /// [`s_interpret`].
    pub fn interpret(&mut self, statements: &Vec<Stmt>) -> (r: Result<(), Error>)
        requires
            st_wf(old(self)@),
        ensures
            ({
                let (st2, out) = s_interpret(old(self)@, statements@, DEFAULT_FUEL);
                &&& final(self)@ == st2
                &&& (match r {
                    Ok(_) => out is None,
                    Err(e) => out == Some(e@),
                })
                &&& st_wf(st2)
            }),
    {
        proof {
            assert(statements@.skip(0) =~= statements@);
        }
        self.interpret_from(statements, 0)
    }

    /// The tail of [`Interpreter::interpret`] from statement `from` on.
    fn interpret_from(&mut self, statements: &Vec<Stmt>, from: usize) -> (r: Result<(), Error>)
        requires
            st_wf(old(self)@),
            from <= statements.len(),
        ensures
            ({
                let (st2, out) = s_interpret(
                    old(self)@,
                    statements@.skip(from as int),
                    DEFAULT_FUEL,
                );
                &&& final(self)@ == st2
                &&& (match r {
                    Ok(_) => out is None,
                    Err(e) => out == Some(e@),
                })
                &&& st_wf(st2)
            }),
        decreases statements@.len() - from,
    {
        if from == statements.len() {
            proof {
                assert(statements@.skip(from as int) =~= Seq::<Stmt>::empty());
            }
            return Ok(());
        }
        proof {
            assert(statements@.skip(from as int)[0] == statements@[from as int]);
            assert(statements@.skip(from as int).drop_first() =~= statements@.skip(
                from as int + 1,
            ));
        }
        match self.execute(&statements[from], DEFAULT_FUEL) {
            Err(ControlFlow::Error(e)) => Err(e),
            _ => self.interpret_from(statements, from + 1),
        }
    }
}

impl Interpreter {
    /// Installs the resolver's distance table, entry by entry, as the driver
    /// does between resolution and interpretation.
    pub fn install_resolution(&mut self, locals: &Vec<(u64, usize)>)
        ensures
            final(self)@ == (StateM { locals: old(self)@.locals + locals@, ..old(self)@ }),
    {
        proof {
            assert(old(self)@.locals + locals@.take(0) =~= old(self)@.locals);
            assert(self@ =~~= (StateM {
                locals: old(self)@.locals + locals@.take(0),
                ..old(self)@
            }));
        }
        let mut i: usize = 0;
        while i < locals.len()
            invariant
                i <= locals@.len(),
                self@ == (StateM {
                    locals: old(self)@.locals + locals@.take(i as int),
                    ..old(self)@
                }),
            decreases locals@.len() - i,
        {
            let pair = locals[i];
            self.resolve(pair.0, pair.1);
            proof {
                assert(old(self)@.locals + locals@.take(i as int + 1) =~= (old(self)@.locals
                    + locals@.take(i as int)).push(locals@[i as int]));
                assert(self@ =~~= (StateM {
                    locals: old(self)@.locals + locals@.take(i as int + 1),
                    ..old(self)@
                }));
            }
            i = i + 1;
        }
        proof {
            assert(locals@.take(locals@.len() as int) =~= locals@);
            assert(self@ =~~= (StateM { locals: old(self)@.locals + locals@, ..old(self)@ }));
        }
    }
}

} // verus!
