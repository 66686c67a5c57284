//! Semantic core of a tree-walking interpreter for a small dynamically-typed,
//! lexically-scoped scripting language with closures, first-class functions and
//! single-inheritance classes.
//!
//! The crate is organised leaf to root: runtime values, the environment chain
//! (an arena of scopes addressed by index), the static resolver that computes
//! binding distances, and the evaluator that executes the syntax tree against
//! the environment chain.  Each executable piece is specified against a
//! mathematical model: a big-step semantic function over views of the runtime
//! state, so that what the evaluator computes is pinned down exactly.

mod token;
mod lexer;
mod ast;
mod errors;
mod interp;
mod resolver;
mod session;
mod laws;
mod printer;
mod parser;
mod value;
mod env;

pub use token::{Literal, Token, TokenType};
pub use lexer::{CharClass, Lexer, Scanner};
pub use printer::TreePrinter;
pub use parser::{parse_expr, parse_program, parse_program_from, ParseError, Parser};
pub use ast::{BinOp, Expr, LogOp, Stmt, UnOp};
pub use errors::{ControlFlow, CtlM, ErrKindM, Error, ErrorKind, EvalOut, ExecOut, ResultExec, RuntimeControl};
pub use value::{Value, ValueM};
pub use env::{EnvM, EnvStore, Environment};
pub use interp::{Class, Function, Instance, Interpreter, NativeKind, StateM, DEFAULT_FUEL};
pub use resolver::{ClassType, FunctionType, Resolver, ResolverM};
pub use session::{had_error, reset, Session};
pub use laws::{lemma_assign_then_get, lemma_call_confines_return, lemma_call_returns_value, lemma_noncallable_skips_arguments, lemma_define_then_get, lemma_find_method_inherited, lemma_find_method_own, lemma_inner_define_invisible, lemma_interpretation_idempotent, lemma_lexing_deterministic, lemma_nil_equality, lemma_own_initializer_read_rejected, lemma_resolution_deterministic, lemma_truthiness, lemma_var_read_resolves, lemma_while_catches_break};
