//! The recursive-descent parser: a token stream to a syntax tree.
//!
//! Each variable, `this` and `super` reference node receives a fresh identity
//! from the parser's counter, which is what the resolver keys its distance
//! table on.  Parsing, like every recursive walk in this crate, carries a
//! fuel bound; its contracts state cursor progress, which also bounds every
//! operator loop.  The first syntax error halts the parse.

use vstd::prelude::*;
use std::rc::Rc;
use crate::ast::{BinOp, Expr, LogOp, Stmt, UnOp};
use crate::token::{Literal, Token, TokenType};
use crate::interp::DEFAULT_FUEL;

verus! {

/// A syntax error: the offending token's line and a description.
#[derive(Debug)]
pub struct ParseError {
    pub line: usize,
    pub message: String,
}

impl ParseError {
    /// A syntax error at the given line.
    pub fn parse_error(line: usize, message: String) -> (r: ParseError)
        ensures
            r.line == line,
            r.message@ == message@,
    {
        ParseError { line, message }
    }
}

/// The parser: the token stream, a cursor, and the counter that hands out
/// reference identities.
pub struct Parser<'a> {
    pub tokens: &'a Vec<Token>,
    pub current: usize,
    pub next_id: u64,
}

/// The cursor stays within the stream and never moves backwards.
pub open spec fn advanced(p0: Parser, p1: Parser) -> bool {
    &&& p1.tokens == p0.tokens
    &&& p0.current <= p1.current
    &&& p1.current <= p1.tokens@.len()
}

pub type PResult<T> = Result<T, ParseError>;

impl<'a> Parser<'a> {
    /// A parser at the start of the stream.
    pub fn new(tokens: &'a Vec<Token>) -> (r: Parser<'a>)
        ensures
            r.tokens == tokens,
            r.current == 0,
    {
        Parser { tokens, current: 0, next_id: 0 }
    }

    /// The kind of the next token; `EOF` past the end.
    fn peek(&self) -> (r: TokenType)
        requires
            self.current <= self.tokens@.len(),
    {
        if self.current < self.tokens.len() {
            self.tokens[self.current].token_type
        } else {
            TokenType::EOF
        }
    }

    /// The line of the next token, for diagnostics.
    fn line(&self) -> (r: usize)
        requires
            self.current <= self.tokens@.len(),
    {
        if self.current < self.tokens.len() {
            self.tokens[self.current].line
        } else {
            0
        }
    }

    /// Whether the next token has the given kind.
    fn check(&self, token_type: TokenType) -> (r: bool)
        requires
            self.current <= self.tokens@.len(),
    {
        matches!(self.peek(), t if t == token_type)
    }

    /// Consumes and returns the next token.
    fn advance(&mut self) -> (r: Token)
        requires
            old(self).current <= old(self).tokens@.len(),
        ensures
            advanced(*old(self), *final(self)),
            final(self).next_id == old(self).next_id,
            old(self).current < old(self).tokens@.len() ==> final(self).current == old(
                self,
            ).current + 1,
            old(self).current >= old(self).tokens@.len() ==> final(self).current == old(
                self,
            ).current,
    {
        if self.current < self.tokens.len() {
            let t = self.tokens[self.current].clone();
            self.current = self.current + 1;
            t
        } else {
            Token { token_type: TokenType::EOF, literal: None, line: 0 }
        }
    }

    /// Consumes the next token exactly when it has the given kind.
    fn accept(&mut self, token_type: TokenType) -> (r: bool)
        requires
            old(self).current <= old(self).tokens@.len(),
        ensures
            advanced(*old(self), *final(self)),
            final(self).next_id == old(self).next_id,
            r ==> final(self).current == old(self).current + 1,
            !r ==> final(self).current == old(self).current,
    {
        if self.check(token_type) && self.current < self.tokens.len() {
            self.current = self.current + 1;
            true
        } else {
            false
        }
    }

    /// Demands the next token to have the given kind and consumes it.
    fn consume(&mut self, token_type: TokenType, message: &str) -> (r: PResult<Token>)
        requires
            old(self).current <= old(self).tokens@.len(),
        ensures
            advanced(*old(self), *final(self)),
            final(self).next_id == old(self).next_id,
    {
        if self.check(token_type) {
            Ok(self.advance())
        } else {
            Err(ParseError::parse_error(self.line(), String::from_str(message)))
        }
    }

    /// A fresh reference identity.
    fn fresh_id(&mut self) -> (r: u64)
        ensures
            final(self).tokens == old(self).tokens,
            final(self).current == old(self).current,
    {
        let id = self.next_id;
        if self.next_id < u64::MAX {
            self.next_id = self.next_id + 1;
        }
        id
    }

    /// The identifier name carried by a just-consumed token.
    fn name_of(&self, t: &Token) -> (r: PResult<String>)
    {
        match &t.literal {
            Some(Literal::Str(s)) => Ok(s.clone()),
            _ => Err(
                ParseError::parse_error(t.line, String::from_str("Expect an identifier name.")),
            ),
        }
    }

    /// Parses a whole program: declarations until the end of the stream.
    pub fn parse(&mut self) -> (r: PResult<Vec<Stmt>>)
        requires
            old(self).current <= old(self).tokens@.len(),
        ensures
            advanced(*old(self), *final(self)),
    {
        let mut statements: Vec<Stmt> = Vec::new();
        loop
            invariant
                self.current <= self.tokens@.len(),
                self.tokens == old(self).tokens,
                old(self).current <= self.current,
            decreases self.tokens@.len() - self.current,
        {
            if self.check(TokenType::EOF) || self.current >= self.tokens.len() {
                return Ok(statements);
            }
            let before = self.current;
            match self.declaration(DEFAULT_FUEL) {
                Ok(s) => statements.push(s),
                Err(e) => {
                    return Err(e);
                },
            }
            if self.current == before {
                // A declaration that consumed nothing would loop forever.
                return Err(
                    ParseError::parse_error(self.line(), String::from_str("Expect a declaration.")),
                );
            }
        }
    }

    /// One declaration: a class, a function, a variable, or a statement.
    fn declaration(&mut self, fuel: u64) -> (r: PResult<Stmt>)
        requires
            old(self).current <= old(self).tokens@.len(),
        ensures
            advanced(*old(self), *final(self)),
        decreases fuel,
    {
        if fuel == 0 {
            return Err(ParseError::parse_error(self.line(), String::from_str("Too deeply nested.")));
        }
        if self.accept(TokenType::CLASS) {
            self.class_declaration(fuel - 1)
        } else if self.accept(TokenType::FUN) {
            self.fun_declaration(fuel - 1)
        } else if self.accept(TokenType::VAR) {
            self.var_declaration(fuel - 1)
        } else {
            self.statement(fuel - 1)
        }
    }

    /// A class declaration, after its `class` keyword.
    fn class_declaration(&mut self, fuel: u64) -> (r: PResult<Stmt>)
        requires
            old(self).current <= old(self).tokens@.len(),
        ensures
            advanced(*old(self), *final(self)),
        decreases fuel,
    {
        if fuel == 0 {
            return Err(ParseError::parse_error(self.line(), String::from_str("Too deeply nested.")));
        }
        let name_tok = match self.consume(TokenType::IDENTIFIER, "Expect class name.") {
            Ok(t) => t,
            Err(e) => {
                return Err(e);
            },
        };
        let name = match self.name_of(&name_tok) {
            Ok(n) => n,
            Err(e) => {
                return Err(e);
            },
        };
        let superclass: Option<Box<Expr>> = if self.accept(TokenType::LESS) {
            let sup_tok = match self.consume(TokenType::IDENTIFIER, "Expect superclass name.") {
                Ok(t) => t,
                Err(e) => {
                    return Err(e);
                },
            };
            let sup_name = match self.name_of(&sup_tok) {
                Ok(n) => n,
                Err(e) => {
                    return Err(e);
                },
            };
            let id = self.fresh_id();
            Some(Box::new(Expr::Variable { name: sup_name, id }))
        } else {
            None
        };
        match self.consume(TokenType::LEFT_BRACE, "Expect '{' before class body.") {
            Ok(_) => {},
            Err(e) => {
                return Err(e);
            },
        }
        let mut methods: Vec<Stmt> = Vec::new();
        loop
            invariant
                self.current <= self.tokens@.len(),
                self.tokens == old(self).tokens,
                old(self).current <= self.current,
                fuel >= 1,
            decreases self.tokens@.len() - self.current,
        {
            if self.check(TokenType::RIGHT_BRACE) || self.current >= self.tokens.len() {
                break;
            }
            let before = self.current;
            match self.fun_declaration(fuel - 1) {
                Ok(m) => methods.push(m),
                Err(e) => {
                    return Err(e);
                },
            }
            if self.current == before {
                return Err(
                    ParseError::parse_error(self.line(), String::from_str("Expect a method.")),
                );
            }
        }
        match self.consume(TokenType::RIGHT_BRACE, "Expect '}' after class body.") {
            Ok(_) => {},
            Err(e) => {
                return Err(e);
            },
        }
        Ok(Stmt::Class { name, superclass, methods })
    }

    /// A function declaration, after its `fun` keyword (or inside a class
    /// body).
    fn fun_declaration(&mut self, fuel: u64) -> (r: PResult<Stmt>)
        requires
            old(self).current <= old(self).tokens@.len(),
        ensures
            advanced(*old(self), *final(self)),
        decreases fuel,
    {
        if fuel == 0 {
            return Err(ParseError::parse_error(self.line(), String::from_str("Too deeply nested.")));
        }
        let name_tok = match self.consume(TokenType::IDENTIFIER, "Expect function name.") {
            Ok(t) => t,
            Err(e) => {
                return Err(e);
            },
        };
        let name = match self.name_of(&name_tok) {
            Ok(n) => n,
            Err(e) => {
                return Err(e);
            },
        };
        let params = match self.parameters(fuel - 1) {
            Ok(p) => p,
            Err(e) => {
                return Err(e);
            },
        };
        match self.consume(TokenType::LEFT_BRACE, "Expect '{' before function body.") {
            Ok(_) => {},
            Err(e) => {
                return Err(e);
            },
        }
        let body = match self.block(fuel - 1) {
            Ok(b) => b,
            Err(e) => {
                return Err(e);
            },
        };
        Ok(Stmt::Function { name, params: Rc::new(params), body: Rc::new(body) })
    }

    /// A parenthesized parameter-name list.
    fn parameters(&mut self, fuel: u64) -> (r: PResult<Vec<String>>)
        requires
            old(self).current <= old(self).tokens@.len(),
        ensures
            advanced(*old(self), *final(self)),
        decreases fuel,
    {
        if fuel == 0 {
            return Err(ParseError::parse_error(self.line(), String::from_str("Too deeply nested.")));
        }
        match self.consume(TokenType::LEFT_PAREN, "Expect '(' after function name.") {
            Ok(_) => {},
            Err(e) => {
                return Err(e);
            },
        }
        let mut params: Vec<String> = Vec::new();
        if !self.check(TokenType::RIGHT_PAREN) {
            loop
                invariant
                    self.current <= self.tokens@.len(),
                    self.tokens == old(self).tokens,
                    old(self).current <= self.current,
                decreases self.tokens@.len() - self.current,
            {
                let p_tok = match self.consume(TokenType::IDENTIFIER, "Expect parameter name.") {
                    Ok(t) => t,
                    Err(e) => {
                        return Err(e);
                    },
                };
                let p = match self.name_of(&p_tok) {
                    Ok(n) => n,
                    Err(e) => {
                        return Err(e);
                    },
                };
                params.push(p);
                if !self.accept(TokenType::COMMA) {
                    break;
                }
            }
        }
        match self.consume(TokenType::RIGHT_PAREN, "Expect ')' after parameters.") {
            Ok(_) => {},
            Err(e) => {
                return Err(e);
            },
        }
        Ok(params)
    }

    /// A variable declaration, after its `var` keyword.
    fn var_declaration(&mut self, fuel: u64) -> (r: PResult<Stmt>)
        requires
            old(self).current <= old(self).tokens@.len(),
        ensures
            advanced(*old(self), *final(self)),
        decreases fuel,
    {
        if fuel == 0 {
            return Err(ParseError::parse_error(self.line(), String::from_str("Too deeply nested.")));
        }
        let name_tok = match self.consume(TokenType::IDENTIFIER, "Expect variable name.") {
            Ok(t) => t,
            Err(e) => {
                return Err(e);
            },
        };
        let name = match self.name_of(&name_tok) {
            Ok(n) => n,
            Err(e) => {
                return Err(e);
            },
        };
        let initializer: Option<Expr> = if self.accept(TokenType::EQUAL) {
            match self.assignment(fuel - 1) {
                Ok(e) => Some(e),
                Err(e) => {
                    return Err(e);
                },
            }
        } else {
            None
        };
        match self.consume(TokenType::SEMICOLON, "Expect ';' after variable declaration.") {
            Ok(_) => Ok(Stmt::Var { name, initializer }),
            Err(e) => Err(e),
        }
    }

    /// One statement.
    fn statement(&mut self, fuel: u64) -> (r: PResult<Stmt>)
        requires
            old(self).current <= old(self).tokens@.len(),
        ensures
            advanced(*old(self), *final(self)),
        decreases fuel,
    {
        if fuel == 0 {
            return Err(ParseError::parse_error(self.line(), String::from_str("Too deeply nested.")));
        }
        if self.accept(TokenType::PRINT) {
            let value = match self.expression(fuel - 1) {
                Ok(e) => e,
                Err(e) => {
                    return Err(e);
                },
            };
            match self.consume(TokenType::SEMICOLON, "Expect ';' after value.") {
                Ok(_) => Ok(Stmt::Print { expression: value }),
                Err(e) => Err(e),
            }
        } else if self.accept(TokenType::RETURN) {
            let value: Option<Expr> = if self.check(TokenType::SEMICOLON) {
                None
            } else {
                match self.expression(fuel - 1) {
                    Ok(e) => Some(e),
                    Err(e) => {
                        return Err(e);
                    },
                }
            };
            match self.consume(TokenType::SEMICOLON, "Expect ';' after return value.") {
                Ok(_) => Ok(Stmt::Return { value }),
                Err(e) => Err(e),
            }
        } else if self.accept(TokenType::BREAK) {
            match self.consume(TokenType::SEMICOLON, "Expect ';' after 'break'.") {
                Ok(_) => Ok(Stmt::Break),
                Err(e) => Err(e),
            }
        } else if self.accept(TokenType::WHILE) {
            self.while_stmt(fuel - 1)
        } else if self.accept(TokenType::FOR) {
            self.for_stmt(fuel - 1)
        } else if self.accept(TokenType::IF) {
            self.if_stmt(fuel - 1)
        } else if self.accept(TokenType::LEFT_BRACE) {
            match self.block(fuel - 1) {
                Ok(statements) => Ok(Stmt::Block { statements }),
                Err(e) => Err(e),
            }
        } else {
            let value = match self.expression(fuel - 1) {
                Ok(e) => e,
                Err(e) => {
                    return Err(e);
                },
            };
            match self.consume(TokenType::SEMICOLON, "Expect ';' after expression.") {
                Ok(_) => Ok(Stmt::Expression { expression: value }),
                Err(e) => Err(e),
            }
        }
    }

    /// A `while` statement, after its keyword.
    fn while_stmt(&mut self, fuel: u64) -> (r: PResult<Stmt>)
        requires
            old(self).current <= old(self).tokens@.len(),
        ensures
            advanced(*old(self), *final(self)),
        decreases fuel,
    {
        if fuel == 0 {
            return Err(ParseError::parse_error(self.line(), String::from_str("Too deeply nested.")));
        }
        match self.consume(TokenType::LEFT_PAREN, "Expect '(' after 'while'.") {
            Ok(_) => {},
            Err(e) => {
                return Err(e);
            },
        }
        let condition = match self.expression(fuel - 1) {
            Ok(e) => e,
            Err(e) => {
                return Err(e);
            },
        };
        match self.consume(TokenType::RIGHT_PAREN, "Expect ')' after condition.") {
            Ok(_) => {},
            Err(e) => {
                return Err(e);
            },
        }
        let body = match self.statement(fuel - 1) {
            Ok(s) => s,
            Err(e) => {
                return Err(e);
            },
        };
        Ok(Stmt::While { condition, body: Box::new(body) })
    }

    /// A `for` statement, desugared to a block holding the initializer and a
    /// `while` whose body ends with the increment.
    fn for_stmt(&mut self, fuel: u64) -> (r: PResult<Stmt>)
        requires
            old(self).current <= old(self).tokens@.len(),
        ensures
            advanced(*old(self), *final(self)),
        decreases fuel,
    {
        if fuel == 0 {
            return Err(ParseError::parse_error(self.line(), String::from_str("Too deeply nested.")));
        }
        match self.consume(TokenType::LEFT_PAREN, "Expect '(' after 'for'.") {
            Ok(_) => {},
            Err(e) => {
                return Err(e);
            },
        }
        let initializer: Option<Stmt> = if self.accept(TokenType::SEMICOLON) {
            None
        } else if self.accept(TokenType::VAR) {
            match self.var_declaration(fuel - 1) {
                Ok(s) => Some(s),
                Err(e) => {
                    return Err(e);
                },
            }
        } else {
            let e0 = match self.expression(fuel - 1) {
                Ok(e) => e,
                Err(e) => {
                    return Err(e);
                },
            };
            match self.consume(TokenType::SEMICOLON, "Expect ';' after loop initializer.") {
                Ok(_) => {},
                Err(e) => {
                    return Err(e);
                },
            }
            Some(Stmt::Expression { expression: e0 })
        };
        let condition: Expr = if self.check(TokenType::SEMICOLON) {
            Expr::Literal { value: Literal::Bool(true) }
        } else {
            match self.expression(fuel - 1) {
                Ok(e) => e,
                Err(e) => {
                    return Err(e);
                },
            }
        };
        match self.consume(TokenType::SEMICOLON, "Expect ';' after loop condition.") {
            Ok(_) => {},
            Err(e) => {
                return Err(e);
            },
        }
        let increment: Option<Expr> = if self.check(TokenType::RIGHT_PAREN) {
            None
        } else {
            match self.expression(fuel - 1) {
                Ok(e) => Some(e),
                Err(e) => {
                    return Err(e);
                },
            }
        };
        match self.consume(TokenType::RIGHT_PAREN, "Expect ')' after for clauses.") {
            Ok(_) => {},
            Err(e) => {
                return Err(e);
            },
        }
        let body = match self.statement(fuel - 1) {
            Ok(s) => s,
            Err(e) => {
                return Err(e);
            },
        };
        let looped: Stmt = match increment {
            Some(inc) => {
                let mut stmts: Vec<Stmt> = Vec::new();
                stmts.push(body);
                stmts.push(Stmt::Expression { expression: inc });
                Stmt::Block { statements: stmts }
            },
            None => body,
        };
        let whiled = Stmt::While { condition, body: Box::new(looped) };
        match initializer {
            Some(init) => {
                let mut stmts: Vec<Stmt> = Vec::new();
                stmts.push(init);
                stmts.push(whiled);
                Ok(Stmt::Block { statements: stmts })
            },
            None => Ok(whiled),
        }
    }

    /// An `if` statement, after its keyword.
    fn if_stmt(&mut self, fuel: u64) -> (r: PResult<Stmt>)
        requires
            old(self).current <= old(self).tokens@.len(),
        ensures
            advanced(*old(self), *final(self)),
        decreases fuel,
    {
        if fuel == 0 {
            return Err(ParseError::parse_error(self.line(), String::from_str("Too deeply nested.")));
        }
        match self.consume(TokenType::LEFT_PAREN, "Expect '(' after 'if'.") {
            Ok(_) => {},
            Err(e) => {
                return Err(e);
            },
        }
        let condition = match self.expression(fuel - 1) {
            Ok(e) => e,
            Err(e) => {
                return Err(e);
            },
        };
        match self.consume(TokenType::RIGHT_PAREN, "Expect ')' after if condition.") {
            Ok(_) => {},
            Err(e) => {
                return Err(e);
            },
        }
        let then_branch = match self.statement(fuel - 1) {
            Ok(s) => s,
            Err(e) => {
                return Err(e);
            },
        };
        let else_branch: Option<Box<Stmt>> = if self.accept(TokenType::ELSE) {
            match self.statement(fuel - 1) {
                Ok(s) => Some(Box::new(s)),
                Err(e) => {
                    return Err(e);
                },
            }
        } else {
            None
        };
        Ok(Stmt::If { condition, then_branch: Box::new(then_branch), else_branch })
    }

    /// A brace-delimited statement list, after its opening brace.
    fn block(&mut self, fuel: u64) -> (r: PResult<Vec<Stmt>>)
        requires
            old(self).current <= old(self).tokens@.len(),
        ensures
            advanced(*old(self), *final(self)),
        decreases fuel,
    {
        if fuel == 0 {
            return Err(ParseError::parse_error(self.line(), String::from_str("Too deeply nested.")));
        }
        let mut statements: Vec<Stmt> = Vec::new();
        loop
            invariant
                self.current <= self.tokens@.len(),
                self.tokens == old(self).tokens,
                old(self).current <= self.current,
                fuel >= 1,
            decreases self.tokens@.len() - self.current,
        {
            if self.check(TokenType::RIGHT_BRACE) || self.current >= self.tokens.len() {
                break;
            }
            let before = self.current;
            match self.declaration(fuel - 1) {
                Ok(s) => statements.push(s),
                Err(e) => {
                    return Err(e);
                },
            }
            if self.current == before {
                return Err(
                    ParseError::parse_error(self.line(), String::from_str("Expect a declaration.")),
                );
            }
        }
        match self.consume(TokenType::RIGHT_BRACE, "Expect '}' after block.") {
            Ok(_) => Ok(statements),
            Err(e) => Err(e),
        }
    }

    /// One expression: the comma operator has the loosest binding.
    pub fn expression(&mut self, fuel: u64) -> (r: PResult<Expr>)
        requires
            old(self).current <= old(self).tokens@.len(),
        ensures
            advanced(*old(self), *final(self)),
        decreases fuel,
    {
        if fuel == 0 {
            return Err(ParseError::parse_error(self.line(), String::from_str("Too deeply nested.")));
        }
        let mut expr = match self.assignment(fuel - 1) {
            Ok(e) => e,
            Err(e) => {
                return Err(e);
            },
        };
        loop
            invariant
                self.current <= self.tokens@.len(),
                self.tokens == old(self).tokens,
                old(self).current <= self.current,
                fuel >= 1,
            decreases self.tokens@.len() - self.current,
        {
            if !self.accept(TokenType::COMMA) {
                return Ok(expr);
            }
            let right = match self.assignment(fuel - 1) {
                Ok(e) => e,
                Err(e) => {
                    return Err(e);
                },
            };
            expr = Expr::Comma { left: Box::new(expr), right: Box::new(right) };
        }
    }

    /// Assignment, right-associative: a variable or property target.
    fn assignment(&mut self, fuel: u64) -> (r: PResult<Expr>)
        requires
            old(self).current <= old(self).tokens@.len(),
        ensures
            advanced(*old(self), *final(self)),
        decreases fuel,
    {
        if fuel == 0 {
            return Err(ParseError::parse_error(self.line(), String::from_str("Too deeply nested.")));
        }
        let expr = match self.or_expr(fuel - 1) {
            Ok(e) => e,
            Err(e) => {
                return Err(e);
            },
        };
        if self.accept(TokenType::EQUAL) {
            let line = self.line();
            let value = match self.assignment(fuel - 1) {
                Ok(e) => e,
                Err(e) => {
                    return Err(e);
                },
            };
            match expr {
                Expr::Variable { name, .. } => {
                    let id = self.fresh_id();
                    Ok(Expr::Assign { name, id, value: Box::new(value) })
                },
                Expr::Get { object, name } => Ok(
                    Expr::SetProp { object, name, value: Box::new(value) },
                ),
                _ => Err(
                    ParseError::parse_error(line, String::from_str("Invalid assignment target.")),
                ),
            }
        } else {
            Ok(expr)
        }
    }

    /// Short-circuiting `or`.
    fn or_expr(&mut self, fuel: u64) -> (r: PResult<Expr>)
        requires
            old(self).current <= old(self).tokens@.len(),
        ensures
            advanced(*old(self), *final(self)),
        decreases fuel,
    {
        if fuel == 0 {
            return Err(ParseError::parse_error(self.line(), String::from_str("Too deeply nested.")));
        }
        let mut expr = match self.and_expr(fuel - 1) {
            Ok(e) => e,
            Err(e) => {
                return Err(e);
            },
        };
        loop
            invariant
                self.current <= self.tokens@.len(),
                self.tokens == old(self).tokens,
                old(self).current <= self.current,
                fuel >= 1,
            decreases self.tokens@.len() - self.current,
        {
            if !self.accept(TokenType::OR) {
                return Ok(expr);
            }
            let right = match self.and_expr(fuel - 1) {
                Ok(e) => e,
                Err(e) => {
                    return Err(e);
                },
            };
            expr = Expr::Logical {
                left: Box::new(expr),
                operator: LogOp::Or,
                right: Box::new(right),
            };
        }
    }

    /// Short-circuiting `and`.
    fn and_expr(&mut self, fuel: u64) -> (r: PResult<Expr>)
        requires
            old(self).current <= old(self).tokens@.len(),
        ensures
            advanced(*old(self), *final(self)),
        decreases fuel,
    {
        if fuel == 0 {
            return Err(ParseError::parse_error(self.line(), String::from_str("Too deeply nested.")));
        }
        let mut expr = match self.equality(fuel - 1) {
            Ok(e) => e,
            Err(e) => {
                return Err(e);
            },
        };
        loop
            invariant
                self.current <= self.tokens@.len(),
                self.tokens == old(self).tokens,
                old(self).current <= self.current,
                fuel >= 1,
            decreases self.tokens@.len() - self.current,
        {
            if !self.accept(TokenType::AND) {
                return Ok(expr);
            }
            let right = match self.equality(fuel - 1) {
                Ok(e) => e,
                Err(e) => {
                    return Err(e);
                },
            };
            expr = Expr::Logical {
                left: Box::new(expr),
                operator: LogOp::And,
                right: Box::new(right),
            };
        }
    }

    /// `==` and `!=`.
    fn equality(&mut self, fuel: u64) -> (r: PResult<Expr>)
        requires
            old(self).current <= old(self).tokens@.len(),
        ensures
            advanced(*old(self), *final(self)),
        decreases fuel,
    {
        if fuel == 0 {
            return Err(ParseError::parse_error(self.line(), String::from_str("Too deeply nested.")));
        }
        let mut expr = match self.comparison(fuel - 1) {
            Ok(e) => e,
            Err(e) => {
                return Err(e);
            },
        };
        loop
            invariant
                self.current <= self.tokens@.len(),
                self.tokens == old(self).tokens,
                old(self).current <= self.current,
                fuel >= 1,
            decreases self.tokens@.len() - self.current,
        {
            let op: BinOp = if self.accept(TokenType::EQUAL_EQUAL) {
                BinOp::Eq
            } else if self.accept(TokenType::BANG_EQUAL) {
                BinOp::Ne
            } else {
                return Ok(expr);
            };
            let right = match self.comparison(fuel - 1) {
                Ok(e) => e,
                Err(e) => {
                    return Err(e);
                },
            };
            expr = Expr::Binary { left: Box::new(expr), operator: op, right: Box::new(right) };
        }
    }

    /// `>`, `>=`, `<` and `<=`.
    fn comparison(&mut self, fuel: u64) -> (r: PResult<Expr>)
        requires
            old(self).current <= old(self).tokens@.len(),
        ensures
            advanced(*old(self), *final(self)),
        decreases fuel,
    {
        if fuel == 0 {
            return Err(ParseError::parse_error(self.line(), String::from_str("Too deeply nested.")));
        }
        let mut expr = match self.term(fuel - 1) {
            Ok(e) => e,
            Err(e) => {
                return Err(e);
            },
        };
        loop
            invariant
                self.current <= self.tokens@.len(),
                self.tokens == old(self).tokens,
                old(self).current <= self.current,
                fuel >= 1,
            decreases self.tokens@.len() - self.current,
        {
            let op: BinOp = if self.accept(TokenType::GREATER) {
                BinOp::Gt
            } else if self.accept(TokenType::GREATER_EQUAL) {
                BinOp::Ge
            } else if self.accept(TokenType::LESS) {
                BinOp::Lt
            } else if self.accept(TokenType::LESS_EQUAL) {
                BinOp::Le
            } else {
                return Ok(expr);
            };
            let right = match self.term(fuel - 1) {
                Ok(e) => e,
                Err(e) => {
                    return Err(e);
                },
            };
            expr = Expr::Binary { left: Box::new(expr), operator: op, right: Box::new(right) };
        }
    }

    /// `+` and `-`.
    fn term(&mut self, fuel: u64) -> (r: PResult<Expr>)
        requires
            old(self).current <= old(self).tokens@.len(),
        ensures
            advanced(*old(self), *final(self)),
        decreases fuel,
    {
        if fuel == 0 {
            return Err(ParseError::parse_error(self.line(), String::from_str("Too deeply nested.")));
        }
        let mut expr = match self.factor(fuel - 1) {
            Ok(e) => e,
            Err(e) => {
                return Err(e);
            },
        };
        loop
            invariant
                self.current <= self.tokens@.len(),
                self.tokens == old(self).tokens,
                old(self).current <= self.current,
                fuel >= 1,
            decreases self.tokens@.len() - self.current,
        {
            let op: BinOp = if self.accept(TokenType::PLUS) {
                BinOp::Add
            } else if self.accept(TokenType::MINUS) {
                BinOp::Sub
            } else {
                return Ok(expr);
            };
            let right = match self.factor(fuel - 1) {
                Ok(e) => e,
                Err(e) => {
                    return Err(e);
                },
            };
            expr = Expr::Binary { left: Box::new(expr), operator: op, right: Box::new(right) };
        }
    }

    /// `*` and `/`.
    fn factor(&mut self, fuel: u64) -> (r: PResult<Expr>)
        requires
            old(self).current <= old(self).tokens@.len(),
        ensures
            advanced(*old(self), *final(self)),
        decreases fuel,
    {
        if fuel == 0 {
            return Err(ParseError::parse_error(self.line(), String::from_str("Too deeply nested.")));
        }
        let mut expr = match self.unary(fuel - 1) {
            Ok(e) => e,
            Err(e) => {
                return Err(e);
            },
        };
        loop
            invariant
                self.current <= self.tokens@.len(),
                self.tokens == old(self).tokens,
                old(self).current <= self.current,
                fuel >= 1,
            decreases self.tokens@.len() - self.current,
        {
            let op: BinOp = if self.accept(TokenType::STAR) {
                BinOp::Mul
            } else if self.accept(TokenType::SLASH) {
                BinOp::Div
            } else {
                return Ok(expr);
            };
            let right = match self.unary(fuel - 1) {
                Ok(e) => e,
                Err(e) => {
                    return Err(e);
                },
            };
            expr = Expr::Binary { left: Box::new(expr), operator: op, right: Box::new(right) };
        }
    }

    /// Unary `-` and `!`.
    fn unary(&mut self, fuel: u64) -> (r: PResult<Expr>)
        requires
            old(self).current <= old(self).tokens@.len(),
        ensures
            advanced(*old(self), *final(self)),
        decreases fuel,
    {
        if fuel == 0 {
            return Err(ParseError::parse_error(self.line(), String::from_str("Too deeply nested.")));
        }
        if self.accept(TokenType::MINUS) {
            match self.unary(fuel - 1) {
                Ok(right) => Ok(Expr::Unary { operator: UnOp::Neg, right: Box::new(right) }),
                Err(e) => Err(e),
            }
        } else if self.accept(TokenType::BANG) {
            match self.unary(fuel - 1) {
                Ok(right) => Ok(Expr::Unary { operator: UnOp::Not, right: Box::new(right) }),
                Err(e) => Err(e),
            }
        } else {
            self.call_expr(fuel - 1)
        }
    }

    /// Calls and property accesses, left-associative.
    fn call_expr(&mut self, fuel: u64) -> (r: PResult<Expr>)
        requires
            old(self).current <= old(self).tokens@.len(),
        ensures
            advanced(*old(self), *final(self)),
        decreases fuel,
    {
        if fuel == 0 {
            return Err(ParseError::parse_error(self.line(), String::from_str("Too deeply nested.")));
        }
        let mut expr = match self.primary(fuel - 1) {
            Ok(e) => e,
            Err(e) => {
                return Err(e);
            },
        };
        loop
            invariant
                self.current <= self.tokens@.len(),
                self.tokens == old(self).tokens,
                old(self).current <= self.current,
                fuel >= 1,
            decreases self.tokens@.len() - self.current,
        {
            if self.accept(TokenType::LEFT_PAREN) {
                let arguments = match self.arguments(fuel - 1) {
                    Ok(a) => a,
                    Err(e) => {
                        return Err(e);
                    },
                };
                match self.consume(TokenType::RIGHT_PAREN, "Expect ')' after arguments.") {
                    Ok(_) => {},
                    Err(e) => {
                        return Err(e);
                    },
                }
                expr = Expr::Call { callee: Box::new(expr), arguments };
            } else if self.accept(TokenType::DOT) {
                let name_tok = match self.consume(
                    TokenType::IDENTIFIER,
                    "Expect property name after '.'.",
                ) {
                    Ok(t) => t,
                    Err(e) => {
                        return Err(e);
                    },
                };
                let name = match self.name_of(&name_tok) {
                    Ok(n) => n,
                    Err(e) => {
                        return Err(e);
                    },
                };
                expr = Expr::Get { object: Box::new(expr), name };
            } else {
                return Ok(expr);
            }
        }
    }

    /// A call's argument list (between the parentheses).
    fn arguments(&mut self, fuel: u64) -> (r: PResult<Vec<Expr>>)
        requires
            old(self).current <= old(self).tokens@.len(),
        ensures
            advanced(*old(self), *final(self)),
        decreases fuel,
    {
        if fuel == 0 {
            return Err(ParseError::parse_error(self.line(), String::from_str("Too deeply nested.")));
        }
        let mut arguments: Vec<Expr> = Vec::new();
        if self.check(TokenType::RIGHT_PAREN) {
            return Ok(arguments);
        }
        loop
            invariant
                self.current <= self.tokens@.len(),
                self.tokens == old(self).tokens,
                old(self).current <= self.current,
                fuel >= 1,
            decreases self.tokens@.len() - self.current,
        {
            let before = self.current;
            let a = match self.assignment(fuel - 1) {
                Ok(a) => a,
                Err(e) => {
                    return Err(e);
                },
            };
            arguments.push(a);
            if !self.accept(TokenType::COMMA) {
                return Ok(arguments);
            }
            if self.current == before {
                return Err(
                    ParseError::parse_error(self.line(), String::from_str("Expect an argument.")),
                );
            }
        }
    }

    /// Literals, identifiers, `this`, `super`, groupings and function
    /// literals.
    fn primary(&mut self, fuel: u64) -> (r: PResult<Expr>)
        requires
            old(self).current <= old(self).tokens@.len(),
        ensures
            advanced(*old(self), *final(self)),
        decreases fuel,
    {
        if fuel == 0 {
            return Err(ParseError::parse_error(self.line(), String::from_str("Too deeply nested.")));
        }
        if self.accept(TokenType::FALSE) {
            Ok(Expr::Literal { value: Literal::Bool(false) })
        } else if self.accept(TokenType::TRUE) {
            Ok(Expr::Literal { value: Literal::Bool(true) })
        } else if self.accept(TokenType::NIL) {
            Ok(Expr::Literal { value: Literal::Null })
        } else if self.accept(TokenType::THIS) {
            let id = self.fresh_id();
            Ok(Expr::This { id })
        } else if self.accept(TokenType::SUPER) {
            match self.consume(TokenType::DOT, "Expect '.' after 'super'.") {
                Ok(_) => {},
                Err(e) => {
                    return Err(e);
                },
            }
            let m_tok = match self.consume(TokenType::IDENTIFIER, "Expect superclass method name.") {
                Ok(t) => t,
                Err(e) => {
                    return Err(e);
                },
            };
            let method = match self.name_of(&m_tok) {
                Ok(n) => n,
                Err(e) => {
                    return Err(e);
                },
            };
            let id = self.fresh_id();
            Ok(Expr::Super { id, method })
        } else if self.accept(TokenType::FUN) {
            let params = match self.parameters(fuel - 1) {
                Ok(p) => p,
                Err(e) => {
                    return Err(e);
                },
            };
            match self.consume(TokenType::LEFT_BRACE, "Expect '{' before function body.") {
                Ok(_) => {},
                Err(e) => {
                    return Err(e);
                },
            }
            let body = match self.block(fuel - 1) {
                Ok(b) => b,
                Err(e) => {
                    return Err(e);
                },
            };
            Ok(Expr::Lambda { params: Rc::new(params), body: Rc::new(body) })
        } else if self.accept(TokenType::LEFT_PAREN) {
            let inner = match self.expression(fuel - 1) {
                Ok(e) => e,
                Err(e) => {
                    return Err(e);
                },
            };
            match self.consume(TokenType::RIGHT_PAREN, "Expect ')' after expression.") {
                Ok(_) => Ok(Expr::Grouping { expression: Box::new(inner) }),
                Err(e) => Err(e),
            }
        } else if self.check(TokenType::NUMBER) || self.check(TokenType::STRING) {
            let t = self.advance();
            match t.literal {
                Some(l) => Ok(Expr::Literal { value: l }),
                None => Err(
                    ParseError::parse_error(t.line, String::from_str("Expect a literal value.")),
                ),
            }
        } else if self.check(TokenType::IDENTIFIER) {
            let t = self.advance();
            match t.literal {
                Some(Literal::Str(name)) => {
                    let id = self.fresh_id();
                    Ok(Expr::Variable { name, id })
                },
                _ => Err(
                    ParseError::parse_error(t.line, String::from_str("Expect an identifier name.")),
                ),
            }
        } else {
            Err(ParseError::parse_error(self.line(), String::from_str("Expect expression.")))
        }
    }
}

/// Parses a whole program.
pub fn parse_program(tokens: &Vec<Token>) -> (r: Result<Vec<Stmt>, ParseError>) {
    let mut parser = Parser::new(tokens);
    parser.parse()
}

/// Parses a whole program handing out reference identities from `first_id`
/// on, and returns the next unused identity with the tree.  An interactive
/// driver that keeps one interpreter alive threads this counter through its
/// lines, so references from different lines never share an identity.
pub fn parse_program_from(tokens: &Vec<Token>, first_id: u64) -> (r: Result<
    (Vec<Stmt>, u64),
    ParseError,
>) {
    let mut parser = Parser::new(tokens);
    parser.next_id = first_id;
    match parser.parse() {
        Ok(program) => Ok((program, parser.next_id)),
        Err(e) => Err(e),
    }
}

/// Parses a single expression, for callers that take expressions alone.
pub fn parse_expr(tokens: &Vec<Token>) -> (r: Result<Expr, ParseError>) {
    let mut parser = Parser::new(tokens);
    parser.expression(DEFAULT_FUEL)
}

} // verus!
