//! Tokens, as the lexer produces them and the parser consumes them.

use vstd::prelude::*;

verus! {

/// The kind of a token.
#[allow(non_camel_case_types)]
#[derive(Debug, Clone, Copy, PartialEq, Eq, Structural)]
pub enum TokenType {
    // Single-character tokens.
    LEFT_PAREN,
    RIGHT_PAREN,
    LEFT_BRACE,
    RIGHT_BRACE,
    COMMA,
    DOT,
    MINUS,
    PLUS,
    SEMICOLON,
    SLASH,
    STAR,
    // One or two character tokens.
    BANG,
    BANG_EQUAL,
    EQUAL,
    EQUAL_EQUAL,
    GREATER,
    GREATER_EQUAL,
    LESS,
    LESS_EQUAL,
    // Literals.
    IDENTIFIER,
    STRING,
    NUMBER,
    // Keywords.
    AND,
    BREAK,
    CLASS,
    ELSE,
    FALSE,
    FUN,
    FOR,
    IF,
    NIL,
    OR,
    PRINT,
    RETURN,
    SUPER,
    THIS,
    TRUE,
    VAR,
    WHILE,
    EOF,
    INVALID,
}

/// A literal value carried by a token or a literal expression node.
#[derive(Debug)]
pub enum Literal {
    Str(String),
    Number(i64),
    Bool(bool),
    Null,
}

/// Model of a [`Literal`].
pub enum LiteralM {
    Str(Seq<char>),
    Number(i64),
    Bool(bool),
    Null,
}

impl View for Literal {
    type V = LiteralM;

    open spec fn view(&self) -> LiteralM {
        match self {
            Literal::Str(s) => LiteralM::Str(s@),
            Literal::Number(n) => LiteralM::Number(*n),
            Literal::Bool(b) => LiteralM::Bool(*b),
            Literal::Null => LiteralM::Null,
        }
    }
}

impl Clone for Literal {
    /// A clone is the same literal.
    fn clone(&self) -> (r: Self)
        ensures
            r == *self,
    {
        match self {
            Literal::Str(s) => Literal::Str(s.clone()),
            Literal::Number(n) => Literal::Number(*n),
            Literal::Bool(b) => Literal::Bool(*b),
            Literal::Null => Literal::Null,
        }
    }
}

/// One token: its kind, the literal it carries (identifier names and string
/// literals included), and the source line it started on.
#[derive(Debug)]
pub struct Token {
    pub token_type: TokenType,
    pub literal: Option<Literal>,
    pub line: usize,
}

/// Model of a [`Token`].
pub struct TokenM {
    pub token_type: TokenType,
    pub literal: Option<LiteralM>,
    pub line: usize,
}

impl View for Token {
    type V = TokenM;

    open spec fn view(&self) -> TokenM {
        TokenM {
            token_type: self.token_type,
            literal: match self.literal {
                Some(l) => Some(l@),
                None => None,
            },
            line: self.line,
        }
    }
}

impl Clone for Token {
    /// A clone is the same token.
    fn clone(&self) -> (r: Self)
        ensures
            r == *self,
    {
        Token {
            token_type: self.token_type,
            literal: match &self.literal {
                Some(l) => Some(l.clone()),
                None => None,
            },
            line: self.line,
        }
    }
}

impl Token {
    /// The text a token renders to: the carried identifier or literal, or
    /// nothing.
    pub fn text(&self) -> (r: String)
        ensures
            r@ == token_text(self@),
    {
        if matches!(self.token_type, TokenType::THIS) {
            return String::from_str("this");
        }
        if matches!(self.token_type, TokenType::SUPER) {
            return String::from_str("super");
        }
        match &self.literal {
            Some(Literal::Str(s)) => s.clone(),
            Some(Literal::Number(n)) => crate::value::num_text(*n),
            Some(Literal::Bool(b)) => if *b {
                String::from_str("true")
            } else {
                String::from_str("false")
            },
            Some(Literal::Null) => String::from_str("null"),
            None => String::new(),
        }
    }
}

/// The text a token renders to.
pub open spec fn token_text(t: TokenM) -> Seq<char> {
    if t.token_type == TokenType::THIS {
        "this"@
    } else if t.token_type == TokenType::SUPER {
        "super"@
    } else {
        match t.literal {
            Some(LiteralM::Str(s)) => s,
            Some(LiteralM::Number(n)) => crate::value::s_num_text(n),
            Some(LiteralM::Bool(b)) => if b {
                "true"@
            } else {
                "false"@
            },
            Some(LiteralM::Null) => "null"@,
            None => Seq::empty(),
        }
    }
}

} // verus!
