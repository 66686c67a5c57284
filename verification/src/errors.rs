//! The control-flow and error signalling protocol.
//!
//! Every statement or expression execution either produces a value, a genuine
//! runtime error, or one of two non-local control signals (`break` and
//! `return`).  All three travel through one result channel, tagged distinctly
//! so a signal is never mistaken for a user-visible failure: `while` catches
//! `Break`, a function call catches `Return`, and everything else propagates.

use vstd::prelude::*;
use crate::value::{Value, ValueM};

verus! {

/// The classes of failure the resolver and the evaluator can report.
/// Static errors (scoping mistakes) and runtime errors (bad values at
/// execution time) share this one taxonomy; each variant carries a short
/// human-readable description.
#[derive(Debug)]
pub enum ErrorKind {
    UnrecognizedExpr(String),
    UnrecognizedStmt(String),
    UnrecognizedOpt(String),
    UnexpectedExpr(String),
    UnexpectedStmt(String),
    UnexpectedOpt(String),
    WrongValueType(String),
    NotCallable(String),
    UnusedVariable(String),
    InvalidContext(String),
    UndefinedVar(String),
    /// The evaluation budget ran out.  Evaluation carries an explicit fuel
    /// bound so that it provably terminates; the driver passes a bound so
    /// large that a script would run for ages before reaching it.
    OutOfFuel,
}

/// Mathematical model of an [`ErrorKind`]: the same tags over character
/// sequences.
pub enum ErrKindM {
    UnrecognizedExpr(Seq<char>),
    UnrecognizedStmt(Seq<char>),
    UnrecognizedOpt(Seq<char>),
    UnexpectedExpr(Seq<char>),
    UnexpectedStmt(Seq<char>),
    UnexpectedOpt(Seq<char>),
    WrongValueType(Seq<char>),
    NotCallable(Seq<char>),
    UnusedVariable(Seq<char>),
    InvalidContext(Seq<char>),
    UndefinedVar(Seq<char>),
    OutOfFuel,
}

/// An error, as reported to the driver.
#[derive(Debug)]
pub struct Error {
    pub kind: ErrorKind,
}

impl View for ErrorKind {
    type V = ErrKindM;

    open spec fn view(&self) -> ErrKindM {
        match self {
            ErrorKind::UnrecognizedExpr(s) => ErrKindM::UnrecognizedExpr(s@),
            ErrorKind::UnrecognizedStmt(s) => ErrKindM::UnrecognizedStmt(s@),
            ErrorKind::UnrecognizedOpt(s) => ErrKindM::UnrecognizedOpt(s@),
            ErrorKind::UnexpectedExpr(s) => ErrKindM::UnexpectedExpr(s@),
            ErrorKind::UnexpectedStmt(s) => ErrKindM::UnexpectedStmt(s@),
            ErrorKind::UnexpectedOpt(s) => ErrKindM::UnexpectedOpt(s@),
            ErrorKind::WrongValueType(s) => ErrKindM::WrongValueType(s@),
            ErrorKind::NotCallable(s) => ErrKindM::NotCallable(s@),
            ErrorKind::UnusedVariable(s) => ErrKindM::UnusedVariable(s@),
            ErrorKind::InvalidContext(s) => ErrKindM::InvalidContext(s@),
            ErrorKind::UndefinedVar(s) => ErrKindM::UndefinedVar(s@),
            ErrorKind::OutOfFuel => ErrKindM::OutOfFuel,
        }
    }
}

impl View for Error {
    type V = ErrKindM;

    open spec fn view(&self) -> ErrKindM {
        self.kind@
    }
}

/// The two non-local control transfers of the language.
#[derive(Debug)]
pub enum RuntimeControl {
    Break,
    Return(Value),
}

/// What propagates out of a statement or expression that did not finish
/// normally: either a genuine error or a control signal.
#[derive(Debug)]
pub enum ControlFlow {
    Error(Error),
    Runtime(RuntimeControl),
}

/// Model of a propagating [`ControlFlow`].
pub enum CtlM {
    Error(ErrKindM),
    Break,
    Return(ValueM),
}

impl View for ControlFlow {
    type V = CtlM;

    open spec fn view(&self) -> CtlM {
        match self {
            ControlFlow::Error(e) => CtlM::Error(e@),
            ControlFlow::Runtime(RuntimeControl::Break) => CtlM::Break,
            ControlFlow::Runtime(RuntimeControl::Return(v)) => CtlM::Return(v@),
        }
    }
}

/// Every execution step returns through this channel.
pub type ResultExec<T> = Result<T, ControlFlow>;

/// Model of the outcome of evaluating an expression.
pub enum EvalOut {
    Val(ValueM),
    Ctl(CtlM),
}

/// Model of the outcome of executing a statement.
pub enum ExecOut {
    Done,
    Ctl(CtlM),
}

/// The model an expression-evaluation result denotes.
pub open spec fn eval_out(r: ResultExec<Value>) -> EvalOut {
    match r {
        Ok(v) => EvalOut::Val(v@),
        Err(c) => EvalOut::Ctl(c@),
    }
}

/// The model a statement-execution result denotes.
pub open spec fn exec_out(r: ResultExec<()>) -> ExecOut {
    match r {
        Ok(_) => ExecOut::Done,
        Err(c) => ExecOut::Ctl(c@),
    }
}

impl Error {
    pub fn new(kind: ErrorKind) -> (r: Error)
        ensures
            r@ == kind@,
    {
        Error { kind }
    }

    pub fn unexpected_expr(desc: String) -> (r: ControlFlow)
        ensures
            r@ == CtlM::Error(ErrKindM::UnexpectedExpr(desc@)),
    {
        ControlFlow::Error(Error { kind: ErrorKind::UnexpectedExpr(desc) })
    }

    pub fn unexpected_stmt(desc: String) -> (r: ControlFlow)
        ensures
            r@ == CtlM::Error(ErrKindM::UnexpectedStmt(desc@)),
    {
        ControlFlow::Error(Error { kind: ErrorKind::UnexpectedStmt(desc) })
    }

    pub fn wrong_value_type(msg: String) -> (r: ControlFlow)
        ensures
            r@ == CtlM::Error(ErrKindM::WrongValueType(msg@)),
    {
        ControlFlow::Error(Error { kind: ErrorKind::WrongValueType(msg) })
    }

    pub fn not_callable(name: String) -> (r: ControlFlow)
        ensures
            r@ == CtlM::Error(ErrKindM::NotCallable(name@)),
    {
        ControlFlow::Error(Error { kind: ErrorKind::NotCallable(name) })
    }

    pub fn unused_variable(name: String) -> (r: ControlFlow)
        ensures
            r@ == CtlM::Error(ErrKindM::UnusedVariable(name@)),
    {
        ControlFlow::Error(Error { kind: ErrorKind::UnusedVariable(name) })
    }

    pub fn invalid_context(msg: String) -> (r: ControlFlow)
        ensures
            r@ == CtlM::Error(ErrKindM::InvalidContext(msg@)),
    {
        ControlFlow::Error(Error { kind: ErrorKind::InvalidContext(msg) })
    }

    pub fn undefined_var(desc: String) -> (r: ControlFlow)
        ensures
            r@ == CtlM::Error(ErrKindM::UndefinedVar(desc@)),
    {
        ControlFlow::Error(Error { kind: ErrorKind::UndefinedVar(desc) })
    }

    pub fn out_of_fuel() -> (r: ControlFlow)
        ensures
            r@ == CtlM::Error(ErrKindM::OutOfFuel),
    {
        ControlFlow::Error(Error { kind: ErrorKind::OutOfFuel })
    }

    /// A short text for each kind of failure, for the driver's diagnostics.
    pub fn describe(&self) -> String {
        match &self.kind {
            ErrorKind::UnrecognizedExpr(s) => join_msg("Unrecognized expression: ", s),
            ErrorKind::UnrecognizedStmt(s) => join_msg("Unrecognized statement: ", s),
            ErrorKind::UnrecognizedOpt(s) => join_msg("Unrecognized optional construct: ", s),
            ErrorKind::UnexpectedExpr(s) => join_msg("Unexpected expression: ", s),
            ErrorKind::UnexpectedStmt(s) => join_msg("Unexpected statement: ", s),
            ErrorKind::UnexpectedOpt(s) => join_msg("Unexpected optional construct: ", s),
            ErrorKind::WrongValueType(s) => join_msg("Wrong value type: ", s),
            ErrorKind::NotCallable(s) => join_msg("Not callable: ", s),
            ErrorKind::UnusedVariable(s) => join_msg("Variable is declared but never used: ", s),
            ErrorKind::InvalidContext(s) => join_msg("Invalid context: ", s),
            ErrorKind::UndefinedVar(s) => join_msg("Undefined variable: ", s),
            ErrorKind::OutOfFuel => String::from_str("Evaluation budget exhausted"),
        }
    }
}

/// Concatenation of a fixed prefix and a detail message.
fn join_msg(prefix: &str, detail: &String) -> (r: String)
    ensures
        r@ == prefix@ + detail@,
{
    let mut s = String::from_str(prefix);
    s.append(detail.as_str());
    s
}

impl ControlFlow {
    pub fn break_flow() -> (r: Self)
        ensures
            r@ == CtlM::Break,
    {
        ControlFlow::Runtime(RuntimeControl::Break)
    }

    pub fn return_(value: Value) -> (r: Self)
        ensures
            r@ == CtlM::Return(value@),
    {
        ControlFlow::Runtime(RuntimeControl::Return(value))
    }
}

} // verus!
