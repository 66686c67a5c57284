//! The static resolver: a single pre-pass over the syntax tree that computes,
//! for every variable, `this` and `super` reference, the number of lexical
//! scopes to traverse to reach its declaration, and rejects a fixed set of
//! scoping errors before anything runs.
//!
//! The resolver mirrors, over a stack of scope maps, exactly the block and
//! function nesting the evaluator later reproduces with real scopes, so the
//! distances it records index the runtime chain correctly by construction.
//! Every step is specified against the pure functions below ([`s_res_expr`],
//! [`s_res_stmt`] and friends) over a view of the resolver's state, so the
//! table it produces is pinned down exactly — and in particular is the same
//! on every run over an unchanged tree.

use vstd::prelude::*;
use std::rc::Rc;
use crate::ast::{Expr, Stmt};
use crate::errors::{CtlM, ErrKindM, Error, ErrorKind, ControlFlow, ResultExec};
use crate::interp::DEFAULT_FUEL;

verus! {

/// What kind of function body resolution currently sits in.
#[derive(Debug, Clone, Copy, PartialEq, Eq, Structural)]
pub enum FunctionType {
    /// Top-level code, outside any function.
    Outside,
    Function,
    Initializer,
    Method,
}

/// Whether resolution currently sits inside a class body.
#[derive(Debug, Clone, Copy, PartialEq, Eq, Structural)]
pub enum ClassType {
    Outside,
    InClass,
}

/// One scope entry: the name, whether its initializer has finished
/// (`declared` but not yet `defined` means "inside its own initializer"), and
/// whether the name has been read.
type ScopeEntry = (String, bool, bool);

/// The resolver: a stack of scope maps, the context flags, and the distance
/// table it builds.
pub struct Resolver {
    pub scopes: Vec<Vec<ScopeEntry>>,
    pub current_function: FunctionType,
    pub current_class: ClassType,
    pub in_loop: bool,
    /// The resolution table: reference identity to binding distance.
    pub locals: Vec<(u64, usize)>,
}

/// Model of one scope map.
type ScopeM = Seq<(Seq<char>, bool, bool)>;

/// Model of the resolver's state.
#[verifier::ext_equal]
pub struct ResolverM {
    pub scopes: Seq<ScopeM>,
    pub current_function: FunctionType,
    pub current_class: ClassType,
    pub in_loop: bool,
    pub locals: Seq<(u64, usize)>,
}

impl View for Resolver {
    type V = ResolverM;

    open spec fn view(&self) -> ResolverM {
        ResolverM {
            scopes: self.scopes@.map_values(
                |sc: Vec<ScopeEntry>| sc@.map_values(|e: ScopeEntry| (e.0@, e.1, e.2)),
            ),
            current_function: self.current_function,
            current_class: self.current_class,
            in_loop: self.in_loop,
            locals: self.locals@,
        }
    }
}

/// The outcome of one resolution step: the new state and the first error, if
/// any.
pub type ResOut = (ResolverM, Option<ErrKindM>);

// ---------------------------------------------------------------------------
// Total helpers of the model.
// ---------------------------------------------------------------------------

/// The position of `name` in one scope map, or `-1`.
pub open spec fn s_scope_idx(scope: ScopeM, name: Seq<char>) -> int
    decreases scope.len(),
{
    if scope.len() == 0 {
        -1
    } else if scope.last().0 == name {
        scope.len() - 1
    } else {
        s_scope_idx(scope.drop_last(), name)
    }
}

/// One scope map after recording `name` with the given flags: the existing
/// entry is replaced in place, or a new one appended.
pub open spec fn s_scope_put(scope: ScopeM, name: Seq<char>, defined: bool, used: bool) -> ScopeM {
    let i = s_scope_idx(scope, name);
    if i >= 0 {
        scope.update(i, (name, defined, used))
    } else {
        scope.push((name, defined, used))
    }
}

/// `declare(name)`: present but not yet initialized, in the innermost scope;
/// a no-op at top level.
pub open spec fn s_declare(rs: ResolverM, name: Seq<char>) -> ResolverM {
    if rs.scopes.len() == 0 {
        rs
    } else {
        ResolverM {
            scopes: rs.scopes.update(
                rs.scopes.len() - 1,
                s_scope_put(rs.scopes.last(), name, false, false),
            ),
            ..rs
        }
    }
}

/// `define(name)`: fully initialized, in the innermost scope; a no-op at top
/// level.
pub open spec fn s_define_name(rs: ResolverM, name: Seq<char>) -> ResolverM {
    if rs.scopes.len() == 0 {
        rs
    } else {
        ResolverM {
            scopes: rs.scopes.update(
                rs.scopes.len() - 1,
                s_scope_put(rs.scopes.last(), name, true, false),
            ),
            ..rs
        }
    }
}

/// A fresh innermost scope.
pub open spec fn s_begin_scope(rs: ResolverM) -> ResolverM {
    ResolverM { scopes: rs.scopes.push(Seq::empty()), ..rs }
}

/// The distance from the innermost scope to the nearest of the `n` innermost
/// scopes that contains `name`, if any.
pub open spec fn s_dist_from(scopes: Seq<ScopeM>, n: int, name: Seq<char>) -> Option<usize>
    decreases n,
{
    if n <= 0 || n > scopes.len() {
        None
    } else if s_scope_idx(scopes[n - 1], name) >= 0 {
        Some((scopes.len() - n) as usize)
    } else {
        s_dist_from(scopes, n - 1, name)
    }
}

/// The scope stack after marking the nearest binding of `name` among the `n`
/// innermost scopes as used.
pub open spec fn s_mark_used_from(scopes: Seq<ScopeM>, n: int, name: Seq<char>) -> Seq<ScopeM>
    decreases n,
{
    if n <= 0 || n > scopes.len() {
        scopes
    } else {
        let sc = scopes[n - 1];
        let j = s_scope_idx(sc, name);
        if j >= 0 {
            scopes.update(n - 1, sc.update(j, (sc[j].0, sc[j].1, true)))
        } else {
            s_mark_used_from(scopes, n - 1, name)
        }
    }
}

/// Records the binding distance for reference `id` when some scope holds
/// `name`; a reference that reaches no scope is left for the global
/// environment at run time.
pub open spec fn s_resolve_local(rs: ResolverM, name: Seq<char>, id: u64) -> ResolverM {
    match s_dist_from(rs.scopes, rs.scopes.len() as int, name) {
        Some(d) => ResolverM { locals: rs.locals.push((id, d)), ..rs },
        None => rs,
    }
}

/// The first declared-but-never-used name in a scope, the synthetic `this`
/// and `super` bindings excepted.
pub open spec fn s_first_unused(scope: ScopeM, from: int) -> Option<Seq<char>>
    decreases scope.len() - from,
{
    if from < 0 || from >= scope.len() {
        None
    } else if scope[from].1 && !scope[from].2 && scope[from].0 != "this"@ && scope[from].0
        != "super"@ {
        Some(scope[from].0)
    } else {
        s_first_unused(scope, from + 1)
    }
}

/// Leaving a scope: the innermost scope is popped, and a name that was
/// declared and never used is reported.
pub open spec fn s_end_scope(rs: ResolverM) -> ResOut {
    if rs.scopes.len() == 0 {
        (rs, None)
    } else {
        let sc = rs.scopes.last();
        let rs1 = ResolverM { scopes: rs.scopes.drop_last(), ..rs };
        match s_first_unused(sc, 0) {
            Some(n) => (rs1, Some(ErrKindM::UnusedVariable(n))),
            None => (rs1, None),
        }
    }
}

/// A variable read: reading a name inside its own initializer is a static
/// error; otherwise the nearest binding is marked used and the reference's
/// distance recorded.
pub open spec fn s_res_var(rs: ResolverM, name: Seq<char>, id: u64) -> ResOut {
    if rs.scopes.len() > 0 && ({
        let j = s_scope_idx(rs.scopes.last(), name);
        j >= 0 && !rs.scopes.last()[j].1
    }) {
        (
            rs,
            Some(ErrKindM::InvalidContext("Can't read local variable in its own initializer"@)),
        )
    } else {
        let rs1 = ResolverM {
            scopes: s_mark_used_from(rs.scopes, rs.scopes.len() as int, name),
            ..rs
        };
        (s_resolve_local(rs1, name, id), None)
    }
}

/// The scope map of a function body's parameters: each declared and defined,
/// in order.
pub open spec fn s_bind_param_names(rs: ResolverM, params: Seq<String>) -> ResolverM
    decreases params.len(),
{
    if params.len() == 0 {
        rs
    } else {
        s_bind_param_names(s_define_name(s_declare(rs, params[0]@), params[0]@), params.drop_first())
    }
}

/// The out-of-fuel outcome.
pub open spec fn res_oof() -> Option<ErrKindM> {
    Some(ErrKindM::OutOfFuel)
}

// ---------------------------------------------------------------------------
// The resolver's semantics: one pass, first error wins.  The measure is
// (fuel, rank, list length), exactly as in the evaluator.
// ---------------------------------------------------------------------------

/// Resolution of one expression.
pub open spec fn s_res_expr(rs: ResolverM, e: Expr, fuel: u64) -> ResOut
    decreases fuel, 0int, 0int,
{
    match e {
        Expr::Literal { .. } => (rs, None),
        Expr::Grouping { expression } => if fuel == 0 {
            (rs, res_oof())
        } else {
            s_res_expr(rs, *expression, (fuel - 1) as u64)
        },
        Expr::Unary { right, .. } => if fuel == 0 {
            (rs, res_oof())
        } else {
            s_res_expr(rs, *right, (fuel - 1) as u64)
        },
        Expr::Binary { left, right, .. } => if fuel == 0 {
            (rs, res_oof())
        } else {
            let (rs1, e1) = s_res_expr(rs, *left, (fuel - 1) as u64);
            if e1 is Some {
                (rs1, e1)
            } else {
                s_res_expr(rs1, *right, (fuel - 1) as u64)
            }
        },
        Expr::Logical { left, right, .. } => if fuel == 0 {
            (rs, res_oof())
        } else {
            let (rs1, e1) = s_res_expr(rs, *left, (fuel - 1) as u64);
            if e1 is Some {
                (rs1, e1)
            } else {
                s_res_expr(rs1, *right, (fuel - 1) as u64)
            }
        },
        Expr::Variable { name, id } => s_res_var(rs, name@, id),
        Expr::Assign { name, id, value } => if fuel == 0 {
            (rs, res_oof())
        } else {
            let (rs1, e1) = s_res_expr(rs, *value, (fuel - 1) as u64);
            if e1 is Some {
                (rs1, e1)
            } else {
                (s_resolve_local(rs1, name@, id), None)
            }
        },
        Expr::Call { callee, arguments } => if fuel == 0 {
            (rs, res_oof())
        } else {
            let (rs1, e1) = s_res_expr(rs, *callee, (fuel - 1) as u64);
            if e1 is Some {
                (rs1, e1)
            } else {
                s_res_exprs(rs1, arguments@, (fuel - 1) as u64)
            }
        },
        Expr::Get { object, .. } => if fuel == 0 {
            (rs, res_oof())
        } else {
            s_res_expr(rs, *object, (fuel - 1) as u64)
        },
        Expr::SetProp { object, value, .. } => if fuel == 0 {
            (rs, res_oof())
        } else {
            let (rs1, e1) = s_res_expr(rs, *value, (fuel - 1) as u64);
            if e1 is Some {
                (rs1, e1)
            } else {
                s_res_expr(rs1, *object, (fuel - 1) as u64)
            }
        },
        Expr::This { id } => if rs.current_class == ClassType::Outside {
            (rs, Some(ErrKindM::InvalidContext("Can't use 'this' outside of a class."@)))
        } else {
            (s_resolve_local(rs, "this"@, id), None)
        },
        Expr::Super { id, .. } => (s_resolve_local(rs, "super"@, id), None),
        Expr::Lambda { params, body } => if fuel == 0 {
            (rs, res_oof())
        } else {
            s_res_function(rs, params@, body@, FunctionType::Function, (fuel - 1) as u64)
        },
        Expr::Comma { left, right } => if fuel == 0 {
            (rs, res_oof())
        } else {
            let (rs1, e1) = s_res_expr(rs, *left, (fuel - 1) as u64);
            if e1 is Some {
                (rs1, e1)
            } else {
                s_res_expr(rs1, *right, (fuel - 1) as u64)
            }
        },
    }
}

/// Resolution of a list of expressions, first error wins.
pub open spec fn s_res_exprs(rs: ResolverM, es: Seq<Expr>, fuel: u64) -> ResOut
    decreases fuel, 1int, es.len(),
{
    if es.len() == 0 {
        (rs, None)
    } else {
        let (rs1, e1) = s_res_expr(rs, es[0], fuel);
        if e1 is Some {
            (rs1, e1)
        } else {
            s_res_exprs(rs1, es.drop_first(), fuel)
        }
    }
}

/// Resolution of one statement.
pub open spec fn s_res_stmt(rs: ResolverM, s: Stmt, fuel: u64) -> ResOut
    decreases fuel, 0int, 0int,
{
    match s {
        Stmt::Expression { expression } => if fuel == 0 {
            (rs, res_oof())
        } else {
            s_res_expr(rs, expression, (fuel - 1) as u64)
        },
        Stmt::Print { expression } => if fuel == 0 {
            (rs, res_oof())
        } else {
            s_res_expr(rs, expression, (fuel - 1) as u64)
        },
        Stmt::Var { name, initializer } => if fuel == 0 {
            (rs, res_oof())
        } else {
            let rs1 = s_declare(rs, name@);
            match initializer {
                Some(init) => {
                    let (rs2, e1) = s_res_expr(rs1, init, (fuel - 1) as u64);
                    if e1 is Some {
                        (rs2, e1)
                    } else {
                        (s_define_name(rs2, name@), None)
                    }
                },
                None => (s_define_name(rs1, name@), None),
            }
        },
        Stmt::Function { name, params, body } => if fuel == 0 {
            (rs, res_oof())
        } else {
            let rs1 = s_define_name(s_declare(rs, name@), name@);
            s_res_function(rs1, params@, body@, FunctionType::Function, (fuel - 1) as u64)
        },
        Stmt::Return { value } => if fuel == 0 {
            (rs, res_oof())
        } else {
            if rs.current_function == FunctionType::Outside {
                (rs, Some(ErrKindM::UnexpectedStmt("return statement outside of function"@)))
            } else {
                match value {
                    Some(v) => if rs.current_function == FunctionType::Initializer {
                        (
                            rs,
                            Some(
                                ErrKindM::UnexpectedStmt(
                                    "Can't return a value from an initializer."@,
                                ),
                            ),
                        )
                    } else {
                        s_res_expr(rs, v, (fuel - 1) as u64)
                    },
                    None => (rs, None),
                }
            }
        },
        Stmt::Break => if rs.in_loop {
            (rs, None)
        } else {
            (rs, Some(ErrKindM::UnexpectedStmt("break statement outside of loop"@)))
        },
        Stmt::Block { statements } => if fuel == 0 {
            (rs, res_oof())
        } else {
            let (rs1, e1) = s_res_stmts(s_begin_scope(rs), statements@, (fuel - 1) as u64);
            if e1 is Some {
                (rs1, e1)
            } else {
                s_end_scope(rs1)
            }
        },
        Stmt::If { condition, then_branch, else_branch } => if fuel == 0 {
            (rs, res_oof())
        } else {
            let (rs1, e1) = s_res_expr(rs, condition, (fuel - 1) as u64);
            if e1 is Some {
                (rs1, e1)
            } else {
                let (rs2, e2) = s_res_stmt(rs1, *then_branch, (fuel - 1) as u64);
                if e2 is Some {
                    (rs2, e2)
                } else {
                    match else_branch {
                        Some(eb) => s_res_stmt(rs2, *eb, (fuel - 1) as u64),
                        None => (rs2, None),
                    }
                }
            }
        },
        Stmt::While { condition, body } => if fuel == 0 {
            (rs, res_oof())
        } else {
            let (rs1, e1) = s_res_expr(rs, condition, (fuel - 1) as u64);
            if e1 is Some {
                (rs1, e1)
            } else {
                let was = rs1.in_loop;
                let (rs2, e2) = s_res_stmt(
                    ResolverM { in_loop: true, ..rs1 },
                    *body,
                    (fuel - 1) as u64,
                );
                if e2 is Some {
                    (rs2, e2)
                } else {
                    ((ResolverM { in_loop: was, ..rs2 }), None)
                }
            }
        },
        Stmt::Class { name, superclass, methods } => if fuel == 0 {
            (rs, res_oof())
        } else {
            s_res_class(rs, name@, superclass, methods@, (fuel - 1) as u64)
        },
    }
}

/// Resolution of a list of statements, first error wins.
pub open spec fn s_res_stmts(rs: ResolverM, ss: Seq<Stmt>, fuel: u64) -> ResOut
    decreases fuel, 1int, ss.len(),
{
    if ss.len() == 0 {
        (rs, None)
    } else {
        let (rs1, e1) = s_res_stmt(rs, ss[0], fuel);
        if e1 is Some {
            (rs1, e1)
        } else {
            s_res_stmts(rs1, ss.drop_first(), fuel)
        }
    }
}

/// Resolution of a function body: a fresh scope holding the parameters, the
/// body resolved inside it with the context set to `ftype` and no enclosing
/// loop, then the scope closed and the context restored.
pub open spec fn s_res_function(
    rs: ResolverM,
    params: Seq<String>,
    body: Seq<Stmt>,
    ftype: FunctionType,
    fuel: u64,
) -> ResOut
    decreases fuel, 2int, 0int,
{
    let cf = rs.current_function;
    let wl = rs.in_loop;
    let rs1 = ResolverM { current_function: ftype, in_loop: false, ..rs };
    let rs2 = s_bind_param_names(s_begin_scope(rs1), params);
    let (rs3, e1) = s_res_stmts(rs2, body, fuel);
    if e1 is Some {
        (rs3, e1)
    } else {
        let (rs4, e2) = s_end_scope(rs3);
        if e2 is Some {
            (rs4, e2)
        } else {
            ((ResolverM { current_function: cf, in_loop: wl, ..rs4 }), None)
        }
    }
}

/// Resolution of a class's methods: each must be a function declaration, and
/// one literally named `init` resolves as an initializer.
pub open spec fn s_res_methods(rs: ResolverM, methods: Seq<Stmt>, fuel: u64) -> ResOut
    decreases fuel, 3int, methods.len(),
{
    if methods.len() == 0 {
        (rs, None)
    } else {
        match methods[0] {
            Stmt::Function { name, params, body } => {
                let ftype = if name@ == "init"@ {
                    FunctionType::Initializer
                } else {
                    FunctionType::Method
                };
                let (rs1, e1) = s_res_function(rs, params@, body@, ftype, fuel);
                if e1 is Some {
                    (rs1, e1)
                } else {
                    s_res_methods(rs1, methods.drop_first(), fuel)
                }
            },
            _ => (rs, Some(ErrKindM::UnexpectedStmt("Should be a function"@))),
        }
    }
}

/// The part of a class declaration after its superclass is settled: the
/// synthetic `super` scope (when a superclass exists) and `this` scope around
/// the methods, closed again in order, with the class context restored.
pub open spec fn s_res_class_body(
    rs: ResolverM,
    enclosing: ClassType,
    has_super: bool,
    methods: Seq<Stmt>,
    fuel: u64,
) -> ResOut
    decreases fuel, 4int, 0int,
{
    let rs1 = ResolverM {
        scopes: s_begin_scope(rs).scopes.update(
            s_begin_scope(rs).scopes.len() - 1,
            s_scope_put(Seq::empty(), "this"@, true, false),
        ),
        ..rs
    };
    let (rs2, e1) = s_res_methods(rs1, methods, fuel);
    if e1 is Some {
        (rs2, e1)
    } else {
        let (rs3, e2) = s_end_scope(rs2);
        if e2 is Some {
            (rs3, e2)
        } else {
            if has_super {
                let (rs4, e3) = s_end_scope(rs3);
                if e3 is Some {
                    (rs4, e3)
                } else {
                    ((ResolverM { current_class: enclosing, ..rs4 }), None)
                }
            } else {
                ((ResolverM { current_class: enclosing, ..rs3 }), None)
            }
        }
    }
}

/// Resolution of a class declaration: the name declared and defined, a
/// superclass that must be a variable and must not be the class itself, and
/// the methods resolved inside the synthetic scopes.
pub open spec fn s_res_class(
    rs: ResolverM,
    name: Seq<char>,
    superclass: Option<Box<Expr>>,
    methods: Seq<Stmt>,
    fuel: u64,
) -> ResOut
    decreases fuel, 5int, 0int,
{
    let enclosing = rs.current_class;
    let rs1 = ResolverM { current_class: ClassType::InClass, ..rs };
    let rs2 = s_define_name(s_declare(rs1, name), name);
    match superclass {
        Some(se) => match *se {
            Expr::Variable { name: sname, id: _ } => if sname@ == name {
                (rs2, Some(ErrKindM::UnexpectedExpr("A class can't inherit from itself."@)))
            } else {
                let (rs3, e1) = s_res_expr(rs2, *se, fuel);
                if e1 is Some {
                    (rs3, e1)
                } else {
                    let rs4 = ResolverM {
                        scopes: s_begin_scope(rs3).scopes.update(
                            s_begin_scope(rs3).scopes.len() - 1,
                            s_scope_put(Seq::empty(), "super"@, true, false),
                        ),
                        ..rs3
                    };
                    s_res_class_body(rs4, enclosing, true, methods, fuel)
                }
            },
            _ => (
                rs2,
                Some(ErrKindM::UnexpectedExpr("Superclass declaration should be a variable"@)),
            ),
        },
        None => s_res_class_body(rs2, enclosing, false, methods, fuel),
    }
}


// ---------------------------------------------------------------------------
// Executable resolver.
// ---------------------------------------------------------------------------

/// Relates a resolution step's result to the model's outcome.
pub open spec fn res_match(r: ResultExec<()>, e: Option<ErrKindM>) -> bool {
    match r {
        Ok(_) => e is None,
        Err(c) => e matches Some(k) && c@ == CtlM::Error(k),
    }
}

/// When position `i` holds the latest entry for `name`, [`s_scope_idx`]
/// yields `i`.
proof fn lemma_scope_idx_is(scope: ScopeM, name: Seq<char>, i: int)
    requires
        0 <= i < scope.len(),
        scope[i].0 == name,
        forall|j: int| i < j < scope.len() ==> scope[j].0 != name,
    ensures
        s_scope_idx(scope, name) == i,
    decreases scope.len(),
{
    if i + 1 < scope.len() {
        assert(scope.drop_last()[i] == scope[i]);
        lemma_scope_idx_is(scope.drop_last(), name, i);
    }
}

/// When no entry bears `name`, [`s_scope_idx`] yields `-1`.
proof fn lemma_scope_idx_none(scope: ScopeM, name: Seq<char>)
    requires
        forall|j: int| 0 <= j < scope.len() ==> scope[j].0 != name,
    ensures
        s_scope_idx(scope, name) == -1,
    decreases scope.len(),
{
    if scope.len() > 0 {
        lemma_scope_idx_none(scope.drop_last(), name);
    }
}

/// The view of one executable scope map.
pub open spec fn scope_view(sc: Seq<ScopeEntry>) -> ScopeM {
    sc.map_values(|e: ScopeEntry| (e.0@, e.1, e.2))
}

/// The latest entry for `name` in one scope map, scanning from the end: the
/// executable counterpart of [`s_scope_idx`].
fn scope_find(scope: &Vec<ScopeEntry>, name: &String) -> (r: Option<usize>)
    ensures
        ({
            let m = scope_view(scope@);
            match r {
                Some(i) => i < scope@.len() && s_scope_idx(m, name@) == i as int,
                None => s_scope_idx(m, name@) == -1,
            }
        }),
{
    let ghost m = scope_view(scope@);
    let mut i = scope.len();
    loop
        invariant
            i <= scope@.len(),
            m == scope_view(scope@),
            m.len() == scope@.len(),
            forall|j: int| i <= j < m.len() ==> m[j].0 != name@,
        decreases i,
    {
        if i == 0 {
            proof {
                lemma_scope_idx_none(m, name@);
            }
            return None;
        }
        i = i - 1;
        proof {
            assert(m[i as int] == (scope@[i as int].0@, scope@[i as int].1, scope@[i as int].2));
        }
        if scope[i].0.eq(name) {
            proof {
                lemma_scope_idx_is(m, name@, i as int);
            }
            return Some(i);
        }
    }
}

/// Records `name` with the given flags in one scope map, exactly
/// [`s_scope_put`].
fn scope_put_vec(scope: &mut Vec<ScopeEntry>, name: &String, defined: bool, used: bool)
    ensures
        scope_view(final(scope)@) == s_scope_put(scope_view(old(scope)@), name@, defined, used),
{
    let found = scope_find(scope, name);
    match found {
        Some(i) => {
            scope[i] = (name.clone(), defined, used);
            proof {
                assert(scope_view(scope@) =~= s_scope_put(
                    scope_view(old(scope)@),
                    name@,
                    defined,
                    used,
                ));
            }
        },
        None => {
            scope.push((name.clone(), defined, used));
            proof {
                assert(scope_view(scope@) =~= s_scope_put(
                    scope_view(old(scope)@),
                    name@,
                    defined,
                    used,
                ));
            }
        },
    }
}

/// The first declared-and-never-used name in a popped scope, exactly
/// [`s_first_unused`].
fn first_unused(scope: &Vec<ScopeEntry>) -> (r: Option<usize>)
    ensures
        ({
            let m = scope_view(scope@);
            match r {
                Some(j) => j < scope@.len() && s_first_unused(m, 0) == Some(m[j as int].0),
                None => s_first_unused(m, 0) is None,
            }
        }),
{
    let ghost m = scope_view(scope@);
    let tname = String::from_str("this");
    let sname = String::from_str("super");
    let mut j: usize = 0;
    loop
        invariant
            j <= scope@.len(),
            m == scope_view(scope@),
            m.len() == scope@.len(),
            tname@ == "this"@,
            sname@ == "super"@,
            s_first_unused(m, 0) == s_first_unused(m, j as int),
        decreases scope@.len() - j,
    {
        if j == scope.len() {
            return None;
        }
        proof {
            assert(m[j as int] == (scope@[j as int].0@, scope@[j as int].1, scope@[j as int].2));
        }
        if scope[j].1 && !scope[j].2 && !scope[j].0.eq(&tname) && !scope[j].0.eq(&sname) {
            return Some(j);
        }
        j = j + 1;
    }
}

impl Resolver {
    /// A fresh resolver: no scopes, top-level context, an empty table.
    pub fn new() -> (r: Resolver)
        ensures
            r@ == (ResolverM {
                scopes: Seq::empty(),
                current_function: FunctionType::Outside,
                current_class: ClassType::Outside,
                in_loop: false,
                locals: Seq::empty(),
            }),
    {
        let rv = Resolver {
            scopes: Vec::new(),
            current_function: FunctionType::Outside,
            current_class: ClassType::Outside,
            in_loop: false,
            locals: Vec::new(),
        };
        proof {
            assert(rv@ =~~= (ResolverM {
                scopes: Seq::empty(),
                current_function: FunctionType::Outside,
                current_class: ClassType::Outside,
                in_loop: false,
                locals: Seq::empty(),
            }));
        }
        rv
    }

    /// Opens a scope, exactly [`s_begin_scope`].
    fn begin_scope(&mut self)
        ensures
            final(self)@ == s_begin_scope(old(self)@),
            final(self)@.scopes.len() == old(self)@.scopes.len() + 1,
            final(self)@.scopes.last() == Seq::<(Seq<char>, bool, bool)>::empty(),
    {
        self.scopes.push(Vec::new());
        proof {
            assert(self@ =~~= s_begin_scope(old(self)@));
            assert(self@.scopes.last() =~= Seq::<(Seq<char>, bool, bool)>::empty());
        }
    }

    /// Leaves a scope, exactly [`s_end_scope`]; a declared-and-never-used
    /// name is a static error.
    fn end_scope(&mut self) -> (r: ResultExec<()>)
        ensures
            ({
                let (rs2, e) = s_end_scope(old(self)@);
                &&& final(self)@ == rs2
                &&& res_match(r, e)
            }),
    {
        if self.scopes.len() == 0 {
            proof {
                assert(self@ =~~= s_end_scope(old(self)@).0);
            }
            return Ok(());
        }
        let sc = self.scopes.pop().unwrap();
        proof {
            assert(self@ =~~= (ResolverM { scopes: old(self)@.scopes.drop_last(), ..old(self)@ }));
            assert(scope_view(sc@) == old(self)@.scopes.last());
        }
        match first_unused(&sc) {
            Some(j) => Err(Error::unused_variable(sc[j].0.clone())),
            None => Ok(()),
        }
    }

    /// `declare(name)`, exactly [`s_declare`].
    fn declare(&mut self, name: &String)
        ensures
            final(self)@ == s_declare(old(self)@, name@),
    {
        if self.scopes.len() == 0 {
            proof {
                assert(self@ =~~= s_declare(old(self)@, name@));
            }
            return;
        }
        let last = self.scopes.len() - 1;
        scope_put_vec(&mut self.scopes[last], name, false, false);
        proof {
            assert(self@ =~~= s_declare(old(self)@, name@));
        }
    }

    /// `define(name)`, exactly [`s_define_name`].
    fn define(&mut self, name: &String)
        ensures
            final(self)@ == s_define_name(old(self)@, name@),
    {
        if self.scopes.len() == 0 {
            proof {
                assert(self@ =~~= s_define_name(old(self)@, name@));
            }
            return;
        }
        let last = self.scopes.len() - 1;
        scope_put_vec(&mut self.scopes[last], name, true, false);
        proof {
            assert(self@ =~~= s_define_name(old(self)@, name@));
        }
    }

    /// The distance to the nearest scope containing `name`, exactly
    /// [`s_dist_from`] over the whole stack.
    fn find_distance(&self, name: &String) -> (r: Option<usize>)
        ensures
            r == s_dist_from(self@.scopes, self@.scopes.len() as int, name@),
    {
        let mut n = self.scopes.len();
        loop
            invariant
                n <= self.scopes.len(),
                s_dist_from(self@.scopes, self@.scopes.len() as int, name@) == s_dist_from(
                    self@.scopes,
                    n as int,
                    name@,
                ),
            decreases n,
        {
            if n == 0 {
                return None;
            }
            match scope_find(&self.scopes[n - 1], name) {
                Some(_) => {
                    proof {
                        assert(self@.scopes[n - 1] == scope_view(self.scopes@[n - 1]@));
                    }
                    return Some(self.scopes.len() - n);
                },
                None => {
                    proof {
                        assert(self@.scopes[n - 1] == scope_view(self.scopes@[n - 1]@));
                    }
                    n = n - 1;
                },
            }
        }
    }

    /// Marks the nearest binding of `name` as used, exactly
    /// [`s_mark_used_from`] over the whole stack.
    fn mark_used(&mut self, name: &String)
        ensures
            final(self)@ == (ResolverM {
                scopes: s_mark_used_from(
                    old(self)@.scopes,
                    old(self)@.scopes.len() as int,
                    name@,
                ),
                ..old(self)@
            }),
    {
        let mut n = self.scopes.len();
        loop
            invariant
                n <= self.scopes.len(),
                self@ == old(self)@,
                s_mark_used_from(old(self)@.scopes, old(self)@.scopes.len() as int, name@)
                    == s_mark_used_from(self@.scopes, n as int, name@),
            decreases n,
        {
            if n == 0 {
                proof {
                    assert(self@ =~~= (ResolverM {
                        scopes: s_mark_used_from(
                            old(self)@.scopes,
                            old(self)@.scopes.len() as int,
                            name@,
                        ),
                        ..old(self)@
                    }));
                }
                return;
            }
            let found = scope_find(&self.scopes[n - 1], name);
            proof {
                assert(self@.scopes[n - 1] == scope_view(self.scopes@[n - 1]@));
            }
            match found {
                Some(j) => {
                    let nm = self.scopes[n - 1][j].0.clone();
                    let df = self.scopes[n - 1][j].1;
                    self.scopes[n - 1][j] = (nm, df, true);
                    proof {
                        let prev = old(self)@;
                        let sc = s_mark_used_from(prev.scopes, prev.scopes.len() as int, name@);
                        assert(self@.scopes[n - 1] =~= sc[n - 1]);
                        assert(self@.scopes =~= sc);
                        assert(self@ =~~= (ResolverM { scopes: sc, ..prev }));
                    }
                    return;
                },
                None => {
                    n = n - 1;
                },
            }
        }
    }

    /// Records the distance for reference `id`, exactly [`s_resolve_local`].
    fn resolve_local(&mut self, name: &String, id: u64)
        ensures
            final(self)@ == s_resolve_local(old(self)@, name@, id),
    {
        match self.find_distance(name) {
            Some(d) => {
                self.locals.push((id, d));
                proof {
                    assert(self@ =~~= s_resolve_local(old(self)@, name@, id));
                }
            },
            None => {
                proof {
                    assert(self@ =~~= s_resolve_local(old(self)@, name@, id));
                }
            },
        }
    }

    /// A variable read, exactly [`s_res_var`]: reading a local inside its own
    /// initializer is a static error.
    fn visit_var_expr(&mut self, name: &String, id: u64) -> (r: ResultExec<()>)
        ensures
            ({
                let (rs2, e) = s_res_var(old(self)@, name@, id);
                &&& final(self)@ == rs2
                &&& res_match(r, e)
            }),
    {
        if self.scopes.len() > 0 {
            let last = self.scopes.len() - 1;
            let found = scope_find(&self.scopes[last], name);
            proof {
                assert(self@.scopes.last() == scope_view(self.scopes@[last as int]@));
            }
            match found {
                Some(j) => {
                    if !self.scopes[last][j].1 {
                        return Err(
                            Error::invalid_context(
                                String::from_str(
                                    "Can't read local variable in its own initializer",
                                ),
                            ),
                        );
                    }
                },
                None => {},
            }
        }
        self.mark_used(name);
        self.resolve_local(name, id);
        Ok(())
    }
}

impl Resolver {
    /// Installs a synthetic binding (`this` or `super`) in a freshly opened
    /// scope.
    fn put_synthetic(&mut self, name: &String)
        requires
            old(self)@.scopes.len() > 0,
            old(self)@.scopes.last() == Seq::<(Seq<char>, bool, bool)>::empty(),
        ensures
            final(self)@ == (ResolverM {
                scopes: old(self)@.scopes.update(
                    old(self)@.scopes.len() - 1,
                    s_scope_put(Seq::empty(), name@, true, false),
                ),
                ..old(self)@
            }),
    {
        let last = self.scopes.len() - 1;
        scope_put_vec(&mut self.scopes[last], name, true, false);
        proof {
            assert(self@ =~~= (ResolverM {
                scopes: old(self)@.scopes.update(
                    old(self)@.scopes.len() - 1,
                    s_scope_put(Seq::empty(), name@, true, false),
                ),
                ..old(self)@
            }));
        }
    }

    /// Resolution of one expression, exactly [`s_res_expr`].
    pub fn resolve_expr(&mut self, e: &Expr, fuel: u64) -> (r: ResultExec<()>)
        ensures
            ({
                let (rs2, er) = s_res_expr(old(self)@, *e, fuel);
                &&& final(self)@ == rs2
                &&& res_match(r, er)
            }),
        decreases fuel, 0int, 0int,
    {
        match e {
            Expr::Literal { .. } => Ok(()),
            Expr::Grouping { expression } => if fuel == 0 {
                Err(Error::out_of_fuel())
            } else {
                self.resolve_expr(&**expression, fuel - 1)
            },
            Expr::Unary { right, .. } => if fuel == 0 {
                Err(Error::out_of_fuel())
            } else {
                self.resolve_expr(&**right, fuel - 1)
            },
            Expr::Binary { left, right, .. } => if fuel == 0 {
                Err(Error::out_of_fuel())
            } else {
                match self.resolve_expr(&**left, fuel - 1) {
                    Err(c) => Err(c),
                    Ok(_) => self.resolve_expr(&**right, fuel - 1),
                }
            },
            Expr::Logical { left, right, .. } => if fuel == 0 {
                Err(Error::out_of_fuel())
            } else {
                match self.resolve_expr(&**left, fuel - 1) {
                    Err(c) => Err(c),
                    Ok(_) => self.resolve_expr(&**right, fuel - 1),
                }
            },
            Expr::Variable { name, id } => self.visit_var_expr(name, *id),
            Expr::Assign { name, id, value } => if fuel == 0 {
                Err(Error::out_of_fuel())
            } else {
                match self.resolve_expr(&**value, fuel - 1) {
                    Err(c) => Err(c),
                    Ok(_) => {
                        self.resolve_local(name, *id);
                        Ok(())
                    },
                }
            },
            Expr::Call { callee, arguments } => if fuel == 0 {
                Err(Error::out_of_fuel())
            } else {
                match self.resolve_expr(&**callee, fuel - 1) {
                    Err(c) => Err(c),
                    Ok(_) => {
                        proof {
                            assert(arguments@.skip(0) =~= arguments@);
                        }
                        self.resolve_exprs(arguments, 0, fuel - 1)
                    },
                }
            },
            Expr::Get { object, .. } => if fuel == 0 {
                Err(Error::out_of_fuel())
            } else {
                self.resolve_expr(&**object, fuel - 1)
            },
            Expr::SetProp { object, value, .. } => if fuel == 0 {
                Err(Error::out_of_fuel())
            } else {
                match self.resolve_expr(&**value, fuel - 1) {
                    Err(c) => Err(c),
                    Ok(_) => self.resolve_expr(&**object, fuel - 1),
                }
            },
            Expr::This { id } => {
                if matches!(self.current_class, ClassType::Outside) {
                    Err(
                        Error::invalid_context(
                            String::from_str("Can't use 'this' outside of a class."),
                        ),
                    )
                } else {
                    let tname = String::from_str("this");
                    self.resolve_local(&tname, *id);
                    Ok(())
                }
            },
            Expr::Super { id, .. } => {
                let sname = String::from_str("super");
                self.resolve_local(&sname, *id);
                Ok(())
            },
            Expr::Lambda { params, body } => if fuel == 0 {
                Err(Error::out_of_fuel())
            } else {
                self.resolve_function(params, body, FunctionType::Function, fuel - 1)
            },
            Expr::Comma { left, right } => if fuel == 0 {
                Err(Error::out_of_fuel())
            } else {
                match self.resolve_expr(&**left, fuel - 1) {
                    Err(c) => Err(c),
                    Ok(_) => self.resolve_expr(&**right, fuel - 1),
                }
            },
        }
    }

    /// Resolution of a list of expressions, exactly [`s_res_exprs`] on the
    /// tail from `from` on.
    fn resolve_exprs(&mut self, es: &Vec<Expr>, from: usize, fuel: u64) -> (r: ResultExec<()>)
        requires
            from <= es.len(),
        ensures
            ({
                let (rs2, er) = s_res_exprs(old(self)@, es@.skip(from as int), fuel);
                &&& final(self)@ == rs2
                &&& res_match(r, er)
            }),
        decreases fuel, 1int, es@.len() - from,
    {
        if from == es.len() {
            proof {
                assert(es@.skip(from as int) =~= Seq::<Expr>::empty());
            }
            return Ok(());
        }
        proof {
            assert(es@.skip(from as int)[0] == es@[from as int]);
            assert(es@.skip(from as int).drop_first() =~= es@.skip(from as int + 1));
        }
        match self.resolve_expr(&es[from], fuel) {
            Err(c) => Err(c),
            Ok(_) => self.resolve_exprs(es, from + 1, fuel),
        }
    }

    /// Resolution of one statement, exactly [`s_res_stmt`].
    #[verifier::rlimit(100)]
    pub fn resolve_stmt(&mut self, s: &Stmt, fuel: u64) -> (r: ResultExec<()>)
        ensures
            ({
                let (rs2, er) = s_res_stmt(old(self)@, *s, fuel);
                &&& final(self)@ == rs2
                &&& res_match(r, er)
            }),
        decreases fuel, 0int, 0int,
    {
        match s {
            Stmt::Expression { expression } => if fuel == 0 {
                Err(Error::out_of_fuel())
            } else {
                self.resolve_expr(expression, fuel - 1)
            },
            Stmt::Print { expression } => if fuel == 0 {
                Err(Error::out_of_fuel())
            } else {
                self.resolve_expr(expression, fuel - 1)
            },
            Stmt::Var { name, initializer } => if fuel == 0 {
                Err(Error::out_of_fuel())
            } else {
                self.declare(name);
                match initializer {
                    Some(init) => match self.resolve_expr(init, fuel - 1) {
                        Err(c) => Err(c),
                        Ok(_) => {
                            self.define(name);
                            Ok(())
                        },
                    },
                    None => {
                        self.define(name);
                        Ok(())
                    },
                }
            },
            Stmt::Function { name, params, body } => if fuel == 0 {
                Err(Error::out_of_fuel())
            } else {
                self.declare(name);
                self.define(name);
                self.resolve_function(params, body, FunctionType::Function, fuel - 1)
            },
            Stmt::Return { value } => if fuel == 0 {
                Err(Error::out_of_fuel())
            } else {
                if matches!(self.current_function, FunctionType::Outside) {
                    Err(
                        Error::unexpected_stmt(
                            String::from_str("return statement outside of function"),
                        ),
                    )
                } else {
                    match value {
                        Some(v) => if matches!(self.current_function, FunctionType::Initializer) {
                            Err(
                                Error::unexpected_stmt(
                                    String::from_str("Can't return a value from an initializer."),
                                ),
                            )
                        } else {
                            self.resolve_expr(v, fuel - 1)
                        },
                        None => Ok(()),
                    }
                }
            },
            Stmt::Break => if self.in_loop {
                Ok(())
            } else {
                Err(Error::unexpected_stmt(String::from_str("break statement outside of loop")))
            },
            Stmt::Block { statements } => if fuel == 0 {
                Err(Error::out_of_fuel())
            } else {
                self.begin_scope();
                proof {
                    assert(statements@.skip(0) =~= statements@);
                }
                match self.resolve_stmts_from(statements, 0, fuel - 1) {
                    Err(c) => Err(c),
                    Ok(_) => self.end_scope(),
                }
            },
            Stmt::If { condition, then_branch, else_branch } => if fuel == 0 {
                Err(Error::out_of_fuel())
            } else {
                match self.resolve_expr(condition, fuel - 1) {
                    Err(c) => Err(c),
                    Ok(_) => match self.resolve_stmt(&**then_branch, fuel - 1) {
                        Err(c) => Err(c),
                        Ok(_) => match else_branch {
                            Some(eb) => self.resolve_stmt(&**eb, fuel - 1),
                            None => Ok(()),
                        },
                    },
                }
            },
            Stmt::While { condition, body } => if fuel == 0 {
                Err(Error::out_of_fuel())
            } else {
                match self.resolve_expr(condition, fuel - 1) {
                    Err(c) => Err(c),
                    Ok(_) => {
                        let was = self.in_loop;
                        self.in_loop = true;
                        proof {
                            let ghost mid = self@;
                            assert(mid =~~= (ResolverM { in_loop: true, ..mid }));
                        }
                        match self.resolve_stmt(&**body, fuel - 1) {
                            Err(c) => Err(c),
                            Ok(_) => {
                                self.in_loop = was;
                                proof {
                                    let (rs2, er) = s_res_stmt(old(self)@, *s, fuel);
                                    assert(self@ =~~= rs2);
                                }
                                Ok(())
                            },
                        }
                    },
                }
            },
            Stmt::Class { name, superclass, methods } => if fuel == 0 {
                Err(Error::out_of_fuel())
            } else {
                self.visit_class_stmt(name, superclass, methods, fuel - 1)
            },
        }
    }

    /// Resolution of a list of statements, exactly [`s_res_stmts`] on the
    /// tail from `from` on.
    fn resolve_stmts_from(&mut self, statements: &Vec<Stmt>, from: usize, fuel: u64) -> (r:
        ResultExec<()>)
        requires
            from <= statements.len(),
        ensures
            ({
                let (rs2, er) = s_res_stmts(old(self)@, statements@.skip(from as int), fuel);
                &&& final(self)@ == rs2
                &&& res_match(r, er)
            }),
        decreases fuel, 1int, statements@.len() - from,
    {
        if from == statements.len() {
            proof {
                assert(statements@.skip(from as int) =~= Seq::<Stmt>::empty());
            }
            return Ok(());
        }
        proof {
            assert(statements@.skip(from as int)[0] == statements@[from as int]);
            assert(statements@.skip(from as int).drop_first() =~= statements@.skip(
                from as int + 1,
            ));
        }
        match self.resolve_stmt(&statements[from], fuel) {
            Err(c) => Err(c),
            Ok(_) => self.resolve_stmts_from(statements, from + 1, fuel),
        }
    }

    /// Resolution of a function body, exactly [`s_res_function`].
    fn resolve_function(
        &mut self,
        params: &Rc<Vec<String>>,
        body: &Rc<Vec<Stmt>>,
        ftype: FunctionType,
        fuel: u64,
    ) -> (r: ResultExec<()>)
        ensures
            ({
                let (rs2, er) = s_res_function(old(self)@, params@, body@, ftype, fuel);
                &&& final(self)@ == rs2
                &&& res_match(r, er)
            }),
        decreases fuel, 2int, 0int,
    {
        let cf = self.current_function;
        let wl = self.in_loop;
        self.current_function = ftype;
        self.in_loop = false;
        self.begin_scope();
        let ghost started = self@;
        let ps: &Vec<String> = &**params;
        let n = ps.len();
        proof {
            assert(params@.skip(0) =~= params@);
        }
        let mut i: usize = 0;
        while i < n
            invariant
                i <= n,
                n == params@.len(),
                ps@ == params@,
                s_bind_param_names(started, params@) == s_bind_param_names(
                    self@,
                    params@.skip(i as int),
                ),
            decreases n - i,
        {
            proof {
                assert(params@.skip(i as int)[0] == params@[i as int]);
                assert(params@.skip(i as int).drop_first() =~= params@.skip(i as int + 1));
            }
            self.declare(&ps[i]);
            self.define(&ps[i]);
            i = i + 1;
        }
        proof {
            assert(params@.skip(n as int) =~= Seq::<String>::empty());
        }
        proof {
            assert(body@.skip(0) =~= body@);
        }
        match self.resolve_stmts_from(&**body, 0, fuel) {
            Err(c) => Err(c),
            Ok(_) => match self.end_scope() {
                Err(c) => Err(c),
                Ok(_) => {
                    self.current_function = cf;
                    self.in_loop = wl;
                    proof {
                        let (rs2, er) = s_res_function(old(self)@, params@, body@, ftype, fuel);
                        assert(self@ =~~= rs2);
                    }
                    Ok(())
                },
            },
        }
    }

    /// Resolution of a class's methods, exactly [`s_res_methods`] on the tail
    /// from `from` on.
    fn resolve_methods(&mut self, methods: &Vec<Stmt>, from: usize, fuel: u64) -> (r: ResultExec<
        (),
    >)
        requires
            from <= methods.len(),
        ensures
            ({
                let (rs2, er) = s_res_methods(old(self)@, methods@.skip(from as int), fuel);
                &&& final(self)@ == rs2
                &&& res_match(r, er)
            }),
        decreases fuel, 3int, methods@.len() - from,
    {
        if from == methods.len() {
            proof {
                assert(methods@.skip(from as int) =~= Seq::<Stmt>::empty());
            }
            return Ok(());
        }
        proof {
            assert(methods@.skip(from as int)[0] == methods@[from as int]);
            assert(methods@.skip(from as int).drop_first() =~= methods@.skip(from as int + 1));
        }
        let info = match &methods[from] {
            Stmt::Function { name, params, body } => Some(
                (name.clone(), Rc::clone(params), Rc::clone(body)),
            ),
            _ => None,
        };
        match info {
            None => Err(Error::unexpected_stmt(String::from_str("Should be a function"))),
            Some((mname, params, body)) => {
                let iname = String::from_str("init");
                let ftype = if mname.eq(&iname) {
                    FunctionType::Initializer
                } else {
                    FunctionType::Method
                };
                match self.resolve_function(&params, &body, ftype, fuel) {
                    Err(c) => Err(c),
                    Ok(_) => self.resolve_methods(methods, from + 1, fuel),
                }
            },
        }
    }

    /// The scopes and methods of a class declaration after its superclass is
    /// settled, exactly [`s_res_class_body`].
    #[verifier::rlimit(60)]
    fn res_class_body(
        &mut self,
        enclosing: ClassType,
        has_super: bool,
        methods: &Vec<Stmt>,
        fuel: u64,
    ) -> (r: ResultExec<()>)
        ensures
            ({
                let (rs2, er) = s_res_class_body(old(self)@, enclosing, has_super, methods@, fuel);
                &&& final(self)@ == rs2
                &&& res_match(r, er)
            }),
        decreases fuel, 4int, 0int,
    {
        self.begin_scope();
        let tname = String::from_str("this");
        self.put_synthetic(&tname);
        proof {
            assert(methods@.skip(0) =~= methods@);
        }
        match self.resolve_methods(methods, 0, fuel) {
            Err(c) => Err(c),
            Ok(_) => match self.end_scope() {
                Err(c) => Err(c),
                Ok(_) => {
                    if has_super {
                        match self.end_scope() {
                            Err(c) => Err(c),
                            Ok(_) => {
                                self.current_class = enclosing;
                                proof {
                                    let (rs2, er) = s_res_class_body(
                                        old(self)@,
                                        enclosing,
                                        has_super,
                                        methods@,
                                        fuel,
                                    );
                                    assert(self@ =~~= rs2);
                                }
                                Ok(())
                            },
                        }
                    } else {
                        self.current_class = enclosing;
                        proof {
                            let (rs2, er) = s_res_class_body(
                                old(self)@,
                                enclosing,
                                has_super,
                                methods@,
                                fuel,
                            );
                            assert(self@ =~~= rs2);
                        }
                        Ok(())
                    }
                },
            },
        }
    }

    /// Resolution of a class declaration, exactly [`s_res_class`].
    #[verifier::rlimit(60)]
    fn visit_class_stmt(
        &mut self,
        name: &String,
        superclass: &Option<Box<Expr>>,
        methods: &Vec<Stmt>,
        fuel: u64,
    ) -> (r: ResultExec<()>)
        ensures
            ({
                let (rs2, er) = s_res_class(old(self)@, name@, *superclass, methods@, fuel);
                &&& final(self)@ == rs2
                &&& res_match(r, er)
            }),
        decreases fuel, 5int, 0int,
    {
        let enclosing = self.current_class;
        self.current_class = ClassType::InClass;
        self.declare(name);
        self.define(name);
        match superclass {
            Some(se) => {
                let is_var = match &**se {
                    Expr::Variable { name: sname, .. } => {
                        if sname.eq(name) {
                            return Err(
                                Error::unexpected_expr(
                                    String::from_str("A class can't inherit from itself."),
                                ),
                            );
                        }
                        true
                    },
                    _ => false,
                };
                if !is_var {
                    return Err(
                        Error::unexpected_expr(
                            String::from_str("Superclass declaration should be a variable"),
                        ),
                    );
                }
                match self.resolve_expr(&**se, fuel) {
                    Err(c) => Err(c),
                    Ok(_) => {
                        self.begin_scope();
                        let sname2 = String::from_str("super");
                        self.put_synthetic(&sname2);
                        self.res_class_body(enclosing, true, methods, fuel)
                    },
                }
            },
            None => self.res_class_body(enclosing, false, methods, fuel),
        }
    }

    /// Resolves a whole program, to be run exactly once before it is
    /// interpreted, exactly [`s_res_stmts`] under the driver's fuel budget;
    /// the first structural error halts the pass.
    pub fn resolve_stmts(&mut self, statements: &Vec<Stmt>) -> (r: Result<(), Error>)
        ensures
            ({
                let (rs2, er) = s_res_stmts(old(self)@, statements@, DEFAULT_FUEL);
                &&& final(self)@ == rs2
                &&& (match r {
                    Ok(_) => er is None,
                    Err(e) => er == Some(e@),
                })
            }),
    {
        proof {
            assert(statements@.skip(0) =~= statements@);
        }
        match self.resolve_stmts_from(statements, 0, DEFAULT_FUEL) {
            Ok(_) => Ok(()),
            Err(ControlFlow::Error(e)) => Err(e),
            Err(ControlFlow::Runtime(_)) => {
                proof {
                    assert(false);
                }
                Err(Error::new(ErrorKind::OutOfFuel))
            },
        }
    }
}
} // verus!
