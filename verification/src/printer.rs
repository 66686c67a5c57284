//! A plain-text rendering of the syntax tree, for debugging and diagnostics.
//!
//! The rendering is a parenthesized prefix form, one node per line, indented
//! two spaces per nesting level.  Rendering carries a fuel bound like every
//! recursive walk in this crate; the driver's budget is far beyond any real
//! tree's depth.

use vstd::prelude::*;
use crate::ast::{BinOp, Expr, LogOp, Stmt, UnOp};
use crate::interp::DEFAULT_FUEL;
use crate::value::num_text;

verus! {

/// The indentation text of a nesting level: two spaces per level.
pub open spec fn s_indent(level: nat) -> Seq<char>
    decreases level,
{
    if level == 0 {
        Seq::empty()
    } else {
        s_indent((level - 1) as nat) + "  "@
    }
}

/// Renders syntax trees as indented text.
pub struct TreePrinter {
    pub indent_level: usize,
}

impl TreePrinter {
    /// A printer at the top nesting level.
    pub fn new() -> (r: TreePrinter)
        ensures
            r.indent_level == 0,
    {
        TreePrinter { indent_level: 0 }
    }

    /// The indentation of the current level, exactly [`s_indent`].
    pub fn indent(&self) -> (r: String)
        ensures
            r@ == s_indent(self.indent_level as nat),
    {
        let mut out = String::new();
        let mut i: usize = 0;
        while i < self.indent_level
            invariant
                i <= self.indent_level,
                out@ == s_indent(i as nat),
            decreases self.indent_level - i,
        {
            out.append("  ");
            i = i + 1;
        }
        out
    }

    /// The rendering of one expression.
    pub fn print(&mut self, expr: &Expr) -> String {
        self.visit_expr(expr, DEFAULT_FUEL)
    }

    /// The rendering of one statement.
    pub fn print_stmt(&mut self, stmt: &Stmt) -> String {
        self.visit_stmt(stmt, DEFAULT_FUEL)
    }

    /// The rendering of a whole program.
    pub fn print_program(&mut self, program: &Vec<Stmt>) -> String {
        let mut out = String::new();
        let mut i: usize = 0;
        while i < program.len()
            invariant
                i <= program.len(),
            decreases program.len() - i,
        {
            let line = self.visit_stmt(&program[i], DEFAULT_FUEL);
            out.append(line.as_str());
            i = i + 1;
        }
        out
    }

    fn line(&self, text: &str) -> String {
        let mut out = self.indent();
        out.append(text);
        out.append("\n");
        out
    }

    fn nested_expr(&mut self, e: &Expr, fuel: u64) -> (r: String)
        decreases fuel, 1int,
    {
        if self.indent_level < usize::MAX {
            self.indent_level = self.indent_level + 1;
        }
        let out = self.visit_expr(e, fuel);
        if self.indent_level > 0 {
            self.indent_level = self.indent_level - 1;
        }
        out
    }

    fn nested_stmt(&mut self, s: &Stmt, fuel: u64) -> (r: String)
        decreases fuel, 1int,
    {
        if self.indent_level < usize::MAX {
            self.indent_level = self.indent_level + 1;
        }
        let out = self.visit_stmt(s, fuel);
        if self.indent_level > 0 {
            self.indent_level = self.indent_level - 1;
        }
        out
    }

    /// The rendering of one expression node and its children.
    pub fn visit_expr(&mut self, e: &Expr, fuel: u64) -> (r: String)
        decreases fuel, 0int,
    {
        if fuel == 0 {
            return self.line("...");
        }
        match e {
            Expr::Literal { value } => {
                let mut out = self.indent();
                out.append("Literal: ");
                match value {
                    crate::token::Literal::Str(s) => {
                        out.append("\"");
                        out.append(s.as_str());
                        out.append("\"");
                    },
                    crate::token::Literal::Number(n) => {
                        let t = num_text(*n);
                        out.append(t.as_str());
                    },
                    crate::token::Literal::Bool(b) => {
                        if *b {
                            out.append("true");
                        } else {
                            out.append("false");
                        }
                    },
                    crate::token::Literal::Null => out.append("nil"),
                }
                out.append("\n");
                out
            },
            Expr::Grouping { expression } => {
                let mut out = self.line("Grouping");
                let inner = self.nested_expr(&**expression, fuel - 1);
                out.append(inner.as_str());
                out
            },
            Expr::Unary { operator, right } => {
                let mut out = self.line(
                    match operator {
                        UnOp::Neg => "Unary -",
                        UnOp::Not => "Unary !",
                    },
                );
                let inner = self.nested_expr(&**right, fuel - 1);
                out.append(inner.as_str());
                out
            },
            Expr::Binary { left, operator, right } => {
                let mut out = self.line(
                    match operator {
                        BinOp::Add => "Binary +",
                        BinOp::Sub => "Binary -",
                        BinOp::Mul => "Binary *",
                        BinOp::Div => "Binary /",
                        BinOp::Gt => "Binary >",
                        BinOp::Ge => "Binary >=",
                        BinOp::Lt => "Binary <",
                        BinOp::Le => "Binary <=",
                        BinOp::Eq => "Binary ==",
                        BinOp::Ne => "Binary !=",
                    },
                );
                let l = self.nested_expr(&**left, fuel - 1);
                out.append(l.as_str());
                let rr = self.nested_expr(&**right, fuel - 1);
                out.append(rr.as_str());
                out
            },
            Expr::Logical { left, operator, right } => {
                let mut out = self.line(
                    match operator {
                        LogOp::And => "Logical and",
                        LogOp::Or => "Logical or",
                    },
                );
                let l = self.nested_expr(&**left, fuel - 1);
                out.append(l.as_str());
                let rr = self.nested_expr(&**right, fuel - 1);
                out.append(rr.as_str());
                out
            },
            Expr::Variable { name, .. } => {
                let mut out = self.indent();
                out.append("Variable: ");
                out.append(name.as_str());
                out.append("\n");
                out
            },
            Expr::Assign { name, value, .. } => {
                let mut out = self.indent();
                out.append("Assign: ");
                out.append(name.as_str());
                out.append("\n");
                let v = self.nested_expr(&**value, fuel - 1);
                out.append(v.as_str());
                out
            },
            Expr::Call { callee, arguments } => {
                let mut out = self.line("Call");
                let c = self.nested_expr(&**callee, fuel - 1);
                out.append(c.as_str());
                let mut i: usize = 0;
                while i < arguments.len()
                    invariant
                        i <= arguments.len(),
                        fuel >= 1,
                    decreases arguments.len() - i,
                {
                    let a = self.nested_expr(&arguments[i], fuel - 1);
                    out.append(a.as_str());
                    i = i + 1;
                }
                out
            },
            Expr::Get { object, name } => {
                let mut out = self.indent();
                out.append("Get: ");
                out.append(name.as_str());
                out.append("\n");
                let o = self.nested_expr(&**object, fuel - 1);
                out.append(o.as_str());
                out
            },
            Expr::SetProp { object, name, value } => {
                let mut out = self.indent();
                out.append("Set: ");
                out.append(name.as_str());
                out.append("\n");
                let o = self.nested_expr(&**object, fuel - 1);
                out.append(o.as_str());
                let v = self.nested_expr(&**value, fuel - 1);
                out.append(v.as_str());
                out
            },
            Expr::This { .. } => self.line("This"),
            Expr::Super { method, .. } => {
                let mut out = self.indent();
                out.append("Super: ");
                out.append(method.as_str());
                out.append("\n");
                out
            },
            Expr::Lambda { params, body } => {
                let mut out = self.indent();
                out.append("Lambda (");
                let ps: &Vec<String> = &**params;
                let mut i: usize = 0;
                while i < ps.len()
                    invariant
                        i <= ps.len(),
                    decreases ps.len() - i,
                {
                    if i > 0 {
                        out.append(" ");
                    }
                    out.append(ps[i].as_str());
                    i = i + 1;
                }
                out.append(")\n");
                let bs: &Vec<Stmt> = &**body;
                let mut j: usize = 0;
                while j < bs.len()
                    invariant
                        j <= bs.len(),
                        fuel >= 1,
                    decreases bs.len() - j,
                {
                    let b = self.nested_stmt(&bs[j], fuel - 1);
                    out.append(b.as_str());
                    j = j + 1;
                }
                out
            },
            Expr::Comma { left, right } => {
                let mut out = self.line("Comma");
                let l = self.nested_expr(&**left, fuel - 1);
                out.append(l.as_str());
                let rr = self.nested_expr(&**right, fuel - 1);
                out.append(rr.as_str());
                out
            },
        }
    }

    /// The rendering of one statement node and its children.
    pub fn visit_stmt(&mut self, s: &Stmt, fuel: u64) -> (r: String)
        decreases fuel, 0int,
    {
        if fuel == 0 {
            return self.line("...");
        }
        match s {
            Stmt::Expression { expression } => {
                let mut out = self.line("Expression");
                let e = self.nested_expr(expression, fuel - 1);
                out.append(e.as_str());
                out
            },
            Stmt::Print { expression } => {
                let mut out = self.line("Print");
                let e = self.nested_expr(expression, fuel - 1);
                out.append(e.as_str());
                out
            },
            Stmt::Var { name, initializer } => {
                let mut out = self.indent();
                out.append("Var: ");
                out.append(name.as_str());
                out.append("\n");
                match initializer {
                    Some(e) => {
                        let i = self.nested_expr(e, fuel - 1);
                        out.append(i.as_str());
                    },
                    None => {},
                }
                out
            },
            Stmt::Function { name, params, body } => {
                let mut out = self.indent();
                out.append("Function: ");
                out.append(name.as_str());
                out.append("\n");
                let ps: &Vec<String> = &**params;
                let mut i: usize = 0;
                while i < ps.len()
                    invariant
                        i <= ps.len(),
                    decreases ps.len() - i,
                {
                    i = i + 1;
                }
                let bs: &Vec<Stmt> = &**body;
                let mut j: usize = 0;
                while j < bs.len()
                    invariant
                        j <= bs.len(),
                        fuel >= 1,
                    decreases bs.len() - j,
                {
                    let b = self.nested_stmt(&bs[j], fuel - 1);
                    out.append(b.as_str());
                    j = j + 1;
                }
                out
            },
            Stmt::Return { value } => {
                let mut out = self.line("Return");
                match value {
                    Some(e) => {
                        let v = self.nested_expr(e, fuel - 1);
                        out.append(v.as_str());
                    },
                    None => {},
                }
                out
            },
            Stmt::Block { statements } => {
                let mut out = self.line("Block");
                let mut i: usize = 0;
                while i < statements.len()
                    invariant
                        i <= statements.len(),
                        fuel >= 1,
                    decreases statements.len() - i,
                {
                    let b = self.nested_stmt(&statements[i], fuel - 1);
                    out.append(b.as_str());
                    i = i + 1;
                }
                out
            },
            Stmt::If { condition, then_branch, else_branch } => {
                let mut out = self.line("If");
                let c = self.nested_expr(condition, fuel - 1);
                out.append(c.as_str());
                let t = self.nested_stmt(&**then_branch, fuel - 1);
                out.append(t.as_str());
                match else_branch {
                    Some(eb) => {
                        let e = self.nested_stmt(&**eb, fuel - 1);
                        out.append(e.as_str());
                    },
                    None => {},
                }
                out
            },
            Stmt::While { condition, body } => {
                let mut out = self.line("While");
                let c = self.nested_expr(condition, fuel - 1);
                out.append(c.as_str());
                let b = self.nested_stmt(&**body, fuel - 1);
                out.append(b.as_str());
                out
            },
            Stmt::Break => self.line("Break"),
            Stmt::Class { name, superclass, methods } => {
                let mut out = self.indent();
                out.append("Class: ");
                out.append(name.as_str());
                out.append("\n");
                match superclass {
                    Some(se) => {
                        let s2 = self.nested_expr(&**se, fuel - 1);
                        out.append(s2.as_str());
                    },
                    None => {},
                }
                let mut i: usize = 0;
                while i < methods.len()
                    invariant
                        i <= methods.len(),
                        fuel >= 1,
                    decreases methods.len() - i,
                {
                    let m = self.nested_stmt(&methods[i], fuel - 1);
                    out.append(m.as_str());
                    i = i + 1;
                }
                out
            },
        }
    }
}

} // verus!
