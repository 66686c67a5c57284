//! The lexer: source text to a token stream.
//!
//! A [`Scanner`] owns the character buffer and a cursor with exact contracts;
//! the [`Lexer`] implements the token grammar on top of it.  Number literals
//! hold 64-bit integers: a literal with a fractional part, or one too large
//! for the value range, becomes an `INVALID` token rather than a mangled
//! value.

use vstd::prelude::*;
use vstd::std_specs::iter::IteratorSpec;
use crate::token::{Literal, LiteralM, Token, TokenM, TokenType};

verus! {

/// Whether a character is an ASCII decimal digit.
pub open spec fn is_digit_char(c: char) -> bool {
    48 <= c as int && c as int <= 57
}

/// Whether a character may start an identifier.
pub open spec fn is_alpha_char(c: char) -> bool {
    (97 <= c as int && c as int <= 122) || (65 <= c as int && c as int <= 90) || c as int == 95
}

/// Whether a character may continue an identifier.
pub open spec fn is_alnum_char(c: char) -> bool {
    is_alpha_char(c) || is_digit_char(c)
}

/// The classes of characters the scanner can consume runs of.
#[derive(Debug, Clone, Copy)]
pub enum CharClass {
    /// An ASCII decimal digit.
    Digit,
    /// An identifier character: a letter, a digit or an underscore.
    Alnum,
    /// Any character but the given one.
    NotChar(char),
}

/// Whether a character falls in a class.
pub open spec fn class_holds(k: CharClass, c: char) -> bool {
    match k {
        CharClass::Digit => is_digit_char(c),
        CharClass::Alnum => is_alnum_char(c),
        CharClass::NotChar(x) => c != x,
    }
}

/// The end of the run of class-`k` characters that starts at `i`: the first
/// position at or after `i` whose character leaves the class, or the end of
/// the buffer.
pub open spec fn s_run_end(chars: Seq<char>, i: int, k: CharClass) -> int
    decreases chars.len() - i,
{
    if i < 0 || i >= chars.len() {
        chars.len() as int
    } else if !class_holds(k, chars[i]) {
        i
    } else {
        s_run_end(chars, i + 1, k)
    }
}

/// A position bounded by in-class characters below and an out-of-class (or
/// end) boundary is exactly the run's end.
proof fn lemma_run_end_is(chars: Seq<char>, i: int, j: int, k: CharClass)
    requires
        0 <= i <= j <= chars.len(),
        forall|m: int| i <= m < j ==> class_holds(k, #[trigger] chars[m]),
        j < chars.len() ==> !class_holds(k, chars[j]),
    ensures
        s_run_end(chars, i, k) == j,
    decreases j - i,
{
    if i < j {
        lemma_run_end_is(chars, i + 1, j, k);
    }
}

/// Character-level iteration: the buffer, a cursor, and the current line.
pub struct Scanner {
    pub chars: Vec<char>,
    pub current: usize,
    pub line: usize,
}

impl Scanner {
    /// A scanner over the characters of `source`, at the start.
    pub fn new(source: &str) -> (r: Scanner)
        ensures
            r.chars@ == source@,
            r.current == 0,
            r.line == 0,
            r.current <= r.chars@.len(),
    {
        let mut chars: Vec<char> = Vec::new();
        let mut it = source.chars();
        proof {
            broadcast use vstd::string::axiom_spec_iter;

            assert(it.remaining() == source@);
            assert(chars@ + it.remaining() =~= source@);
        }
        loop
            invariant
                it.obeys_prophetic_iter_laws(),
                it.decrease() is Some,
                chars@ + it.remaining() == source@,
            decreases it.decrease()->0,
        {
            match it.next() {
                Some(c) => {
                    chars.push(c);
                    proof {
                        assert(chars@ + it.remaining() =~= source@);
                    }
                },
                None => {
                    proof {
                        assert(chars@ =~= source@);
                    }
                    return Scanner { chars, current: 0, line: 0 };
                },
            }
        }
    }

    /// Consumes and returns the next character, if any.
    pub fn next(&mut self) -> (r: Option<char>)
        ensures
            final(self).chars == old(self).chars,
            final(self).line == old(self).line,
            old(self).current < old(self).chars@.len() ==> r == Some(
                old(self).chars@[old(self).current as int],
            ) && final(self).current == old(self).current + 1,
            old(self).current >= old(self).chars@.len() ==> r is None && final(self).current
                == old(self).current,
    {
        if self.current < self.chars.len() {
            let c = self.chars[self.current];
            self.current = self.current + 1;
            Some(c)
        } else {
            None
        }
    }

    /// The next character without consuming it.
    pub fn peek(&self) -> (r: Option<char>)
        ensures
            self.current < self.chars@.len() ==> r == Some(self.chars@[self.current as int]),
            self.current >= self.chars@.len() ==> r is None,
    {
        if self.current < self.chars.len() {
            Some(self.chars[self.current])
        } else {
            None
        }
    }

    /// Consumes the next character exactly when it equals `x`.
    pub fn consume_if(&mut self, x: char) -> (r: bool)
        ensures
            final(self).chars == old(self).chars,
            final(self).line == old(self).line,
            r == (old(self).current < old(self).chars@.len() && old(self).chars@[old(
                self,
            ).current as int] == x),
            r ==> final(self).current == old(self).current + 1,
            !r ==> final(self).current == old(self).current,
    {
        if self.current < self.chars.len() {
            if self.chars[self.current] == x {
                self.current = self.current + 1;
                return true;
            }
        }
        false
    }

    /// Consumes the longest run of characters in class `k` and returns them:
    /// every consumed character is in the class, and the cursor stops at the
    /// first character that is not (or at the end).
    pub fn consume_while(&mut self, k: CharClass) -> (r: Vec<char>)
        requires
            old(self).current <= old(self).chars@.len(),
        ensures
            final(self).chars == old(self).chars,
            final(self).line == old(self).line,
            old(self).current <= final(self).current <= final(self).chars@.len(),
            r@ == old(self).chars@.subrange(old(self).current as int, final(self).current as int),
            forall|i: int|
                old(self).current <= i < final(self).current ==> class_holds(
                    k,
                    #[trigger] old(self).chars@[i],
                ),
            final(self).current < final(self).chars@.len() ==> !class_holds(
                k,
                final(self).chars@[final(self).current as int],
            ),
            final(self).current as int == s_run_end(old(self).chars@, old(self).current as int, k),
    {
        let mut out: Vec<char> = Vec::new();
        loop
            invariant
                self.chars == old(self).chars,
                self.line == old(self).line,
                old(self).current <= self.current <= self.chars@.len(),
                out@ == old(self).chars@.subrange(old(self).current as int, self.current as int),
                forall|i: int|
                    old(self).current <= i < self.current ==> class_holds(
                        k,
                        #[trigger] old(self).chars@[i],
                    ),
            decreases self.chars@.len() - self.current,
        {
            if self.current >= self.chars.len() {
                proof {
                    lemma_run_end_is(self.chars@, old(self).current as int, self.current as int, k);
                }
                return out;
            }
            let c = self.chars[self.current];
            let holds = match k {
                CharClass::Digit => '0' <= c && c <= '9',
                CharClass::Alnum => ('a' <= c && c <= 'z') || ('A' <= c && c <= 'Z') || c == '_'
                    || ('0' <= c && c <= '9'),
                CharClass::NotChar(x) => c != x,
            };
            if !holds {
                proof {
                    lemma_run_end_is(self.chars@, old(self).current as int, self.current as int, k);
                }
                return out;
            }
            self.current = self.current + 1;
            out.push(c);
            proof {
                assert(out@ =~= old(self).chars@.subrange(
                    old(self).current as int,
                    self.current as int,
                ));
            }
        }
    }
}

/// The keyword a bare identifier spells, if any.
pub open spec fn s_keyword(s: Seq<char>) -> TokenType {
    if s == "and"@ {
        TokenType::AND
    } else if s == "break"@ {
        TokenType::BREAK
    } else if s == "class"@ {
        TokenType::CLASS
    } else if s == "else"@ {
        TokenType::ELSE
    } else if s == "false"@ {
        TokenType::FALSE
    } else if s == "for"@ {
        TokenType::FOR
    } else if s == "fun"@ {
        TokenType::FUN
    } else if s == "if"@ {
        TokenType::IF
    } else if s == "nil"@ {
        TokenType::NIL
    } else if s == "or"@ {
        TokenType::OR
    } else if s == "print"@ {
        TokenType::PRINT
    } else if s == "return"@ {
        TokenType::RETURN
    } else if s == "super"@ {
        TokenType::SUPER
    } else if s == "this"@ {
        TokenType::THIS
    } else if s == "true"@ {
        TokenType::TRUE
    } else if s == "var"@ {
        TokenType::VAR
    } else if s == "while"@ {
        TokenType::WHILE
    } else {
        TokenType::IDENTIFIER
    }
}

/// The keyword table, exactly [`s_keyword`].
fn keyword_type(s: &String) -> (r: TokenType)
    ensures
        r == s_keyword(s@),
{
    if s.eq(&String::from_str("and")) {
        TokenType::AND
    } else if s.eq(&String::from_str("break")) {
        TokenType::BREAK
    } else if s.eq(&String::from_str("class")) {
        TokenType::CLASS
    } else if s.eq(&String::from_str("else")) {
        TokenType::ELSE
    } else if s.eq(&String::from_str("false")) {
        TokenType::FALSE
    } else if s.eq(&String::from_str("for")) {
        TokenType::FOR
    } else if s.eq(&String::from_str("fun")) {
        TokenType::FUN
    } else if s.eq(&String::from_str("if")) {
        TokenType::IF
    } else if s.eq(&String::from_str("nil")) {
        TokenType::NIL
    } else if s.eq(&String::from_str("or")) {
        TokenType::OR
    } else if s.eq(&String::from_str("print")) {
        TokenType::PRINT
    } else if s.eq(&String::from_str("return")) {
        TokenType::RETURN
    } else if s.eq(&String::from_str("super")) {
        TokenType::SUPER
    } else if s.eq(&String::from_str("this")) {
        TokenType::THIS
    } else if s.eq(&String::from_str("true")) {
        TokenType::TRUE
    } else if s.eq(&String::from_str("var")) {
        TokenType::VAR
    } else if s.eq(&String::from_str("while")) {
        TokenType::WHILE
    } else {
        TokenType::IDENTIFIER
    }
}

/// The value of the digit run `digits` from position `from` on, accumulated
/// left to right onto `acc`; `None` when the value leaves the number range.
pub open spec fn s_digits_value_from(digits: Seq<char>, from: int, acc: i64) -> Option<i64>
    decreases digits.len() - from,
{
    if from < 0 || from >= digits.len() {
        Some(acc)
    } else {
        let d = digits[from] as int - '0' as int;
        if acc * 10 + d <= i64::MAX {
            s_digits_value_from(digits, from + 1, (acc * 10 + d) as i64)
        } else {
            None
        }
    }
}

/// The decimal value of a digit run, when it fits a 64-bit signed integer.
pub open spec fn s_digits_value(digits: Seq<char>) -> Option<i64> {
    s_digits_value_from(digits, 0, 0)
}

/// The decimal value of a digit run, exactly [`s_digits_value`]; `None` when
/// the value overflows the number range.
fn digits_value(digits: &Vec<char>) -> (r: Option<i64>)
    requires
        forall|i: int| 0 <= i < digits@.len() ==> is_digit_char(#[trigger] digits@[i]),
    ensures
        r == s_digits_value(digits@),
{
    let mut acc: i64 = 0;
    let mut i: usize = 0;
    loop
        invariant
            i <= digits@.len(),
            forall|j: int| 0 <= j < digits@.len() ==> is_digit_char(#[trigger] digits@[j]),
            acc >= 0,
            s_digits_value(digits@) == s_digits_value_from(digits@, i as int, acc),
        decreases digits@.len() - i,
    {
        if i == digits.len() {
            return Some(acc);
        }
        let c = digits[i];
        let d: u32 = (c as u32) - ('0' as u32);
        if acc > (i64::MAX - (d as i64)) / 10 {
            return None;
        }
        acc = acc * 10 + (d as i64);
        i = i + 1;
    }
}



// ---------------------------------------------------------------------------
// The token-level model: the token stream is a pure function of the source.
// ---------------------------------------------------------------------------

/// A line counter bump, saturating at the top.
pub open spec fn s_bump_line(line: usize) -> usize {
    if line < usize::MAX {
        (line + 1) as usize
    } else {
        line
    }
}

/// A comment-nesting bump, saturating at the top.
pub open spec fn s_bump_depth(depth: usize) -> usize {
    if depth < usize::MAX {
        (depth + 1) as usize
    } else {
        depth
    }
}

/// The line counter after passing over `cs`, bumped once per newline.
pub open spec fn s_line_seq(line: usize, cs: Seq<char>) -> usize
    decreases cs.len(),
{
    if cs.len() == 0 {
        line
    } else if cs[0] == '\n' {
        s_line_seq(s_bump_line(line), cs.drop_first())
    } else {
        s_line_seq(line, cs.drop_first())
    }
}

/// A token without a carried literal.
pub open spec fn s_bare_tok(token_type: TokenType, line: usize) -> TokenM {
    TokenM { token_type, literal: None, line }
}

/// The cursor and line after skipping a multi-line comment that is already
/// `depth` levels deep at position `i`; `/*` nests, `*/` closes, and an
/// unterminated comment runs to the end of the buffer.
pub open spec fn s_mlc(chars: Seq<char>, i: int, line: usize, depth: usize) -> (int, usize)
    decreases chars.len() - i,
{
    if i < 0 || i >= chars.len() {
        (chars.len() as int, line)
    } else {
        let c = chars[i];
        if c == '/' {
            if i + 1 < chars.len() && chars[i + 1] == '*' {
                s_mlc(chars, i + 2, line, s_bump_depth(depth))
            } else {
                s_mlc(chars, i + 1, line, depth)
            }
        } else if c == '*' {
            if i + 1 < chars.len() && chars[i + 1] == '/' {
                if depth <= 1 {
                    (i + 2, line)
                } else {
                    s_mlc(chars, i + 2, line, (depth - 1) as usize)
                }
            } else {
                s_mlc(chars, i + 1, line, depth)
            }
        } else if c == '\n' {
            s_mlc(chars, i + 1, s_bump_line(line), depth)
        } else {
            s_mlc(chars, i + 1, line, depth)
        }
    }
}

/// The number token that starts with the already-consumed digit `first` and
/// continues at `i`, and the cursor after it.
pub open spec fn s_number_token(chars: Seq<char>, i: int, line: usize, first: char) -> (
    int,
    TokenM,
) {
    let d_end = s_run_end(chars, i, CharClass::Digit);
    let digits = seq![first] + chars.subrange(i, d_end);
    let plain = match s_digits_value(digits) {
        Some(v) => TokenM { token_type: TokenType::NUMBER, literal: Some(LiteralM::Number(v)), line },
        None => s_bare_tok(TokenType::INVALID, line),
    };
    if d_end < chars.len() && chars[d_end] == '.' {
        let f_end = s_run_end(chars, d_end + 1, CharClass::Digit);
        if f_end > d_end + 1 {
            (f_end, s_bare_tok(TokenType::INVALID, line))
        } else {
            (d_end + 1, plain)
        }
    } else {
        (d_end, plain)
    }
}

/// The keyword or identifier token that starts with the already-consumed
/// character `first` and continues at `i`, and the cursor after it.
pub open spec fn s_ident_token(chars: Seq<char>, i: int, line: usize, first: char) -> (
    int,
    TokenM,
) {
    let e = s_run_end(chars, i, CharClass::Alnum);
    let ident = seq![first] + chars.subrange(i, e);
    let tt = s_keyword(ident);
    (
        e,
        TokenM {
            token_type: tt,
            literal: if tt == TokenType::IDENTIFIER {
                Some(LiteralM::Str(ident))
            } else {
                None
            },
            line,
        },
    )
}

/// The string token whose opening quote was just consumed, the cursor after
/// its closing quote, and the line counter advanced over its newlines.
pub open spec fn s_string_token(chars: Seq<char>, i: int, line: usize) -> (int, usize, TokenM) {
    let e = s_run_end(chars, i, CharClass::NotChar('"'));
    let line2 = s_line_seq(line, chars.subrange(i, e));
    let j = if e < chars.len() {
        e + 1
    } else {
        e
    };
    (
        j,
        line2,
        TokenM {
            token_type: TokenType::STRING,
            literal: Some(LiteralM::Str(chars.subrange(i, e))),
            line: line2,
        },
    )
}

/// One scanning step: the already-consumed character `ch` sat just before
/// position `i`; yields the cursor and line after the step and the token it
/// produced, if any.
pub open spec fn s_match_token(chars: Seq<char>, i: int, line: usize, ch: char) -> (
    int,
    usize,
    Option<TokenM>,
) {
    if ch == '(' {
        (i, line, Some(s_bare_tok(TokenType::LEFT_PAREN, line)))
    } else if ch == ')' {
        (i, line, Some(s_bare_tok(TokenType::RIGHT_PAREN, line)))
    } else if ch == '{' {
        (i, line, Some(s_bare_tok(TokenType::LEFT_BRACE, line)))
    } else if ch == '}' {
        (i, line, Some(s_bare_tok(TokenType::RIGHT_BRACE, line)))
    } else if ch == ',' {
        (i, line, Some(s_bare_tok(TokenType::COMMA, line)))
    } else if ch == '.' {
        (i, line, Some(s_bare_tok(TokenType::DOT, line)))
    } else if ch == '-' {
        (i, line, Some(s_bare_tok(TokenType::MINUS, line)))
    } else if ch == '+' {
        (i, line, Some(s_bare_tok(TokenType::PLUS, line)))
    } else if ch == ';' {
        (i, line, Some(s_bare_tok(TokenType::SEMICOLON, line)))
    } else if ch == '*' {
        (i, line, Some(s_bare_tok(TokenType::STAR, line)))
    } else if ch == '!' {
        if i < chars.len() && chars[i] == '=' {
            (i + 1, line, Some(s_bare_tok(TokenType::BANG_EQUAL, line)))
        } else {
            (i, line, Some(s_bare_tok(TokenType::BANG, line)))
        }
    } else if ch == '=' {
        if i < chars.len() && chars[i] == '=' {
            (i + 1, line, Some(s_bare_tok(TokenType::EQUAL_EQUAL, line)))
        } else {
            (i, line, Some(s_bare_tok(TokenType::EQUAL, line)))
        }
    } else if ch == '<' {
        if i < chars.len() && chars[i] == '=' {
            (i + 1, line, Some(s_bare_tok(TokenType::LESS_EQUAL, line)))
        } else {
            (i, line, Some(s_bare_tok(TokenType::LESS, line)))
        }
    } else if ch == '>' {
        if i < chars.len() && chars[i] == '=' {
            (i + 1, line, Some(s_bare_tok(TokenType::GREATER_EQUAL, line)))
        } else {
            (i, line, Some(s_bare_tok(TokenType::GREATER, line)))
        }
    } else if ch == '/' {
        if i < chars.len() && chars[i] == '/' {
            (s_run_end(chars, i + 1, CharClass::NotChar('\n')), line, None)
        } else if i < chars.len() && chars[i] == '*' {
            let r = s_mlc(chars, i + 1, line, 1);
            (r.0, r.1, None)
        } else {
            (i, line, Some(s_bare_tok(TokenType::SLASH, line)))
        }
    } else if ch == ' ' || ch == '\r' || ch == '\t' {
        (i, line, None)
    } else if ch == '\n' {
        (i, s_bump_line(line), None)
    } else if ch == '"' {
        let r = s_string_token(chars, i, line);
        (r.0, r.1, Some(r.2))
    } else if is_digit_char(ch) {
        let r = s_number_token(chars, i, line, ch);
        (r.0, line, Some(r.1))
    } else if is_alpha_char(ch) {
        let r = s_ident_token(chars, i, line, ch);
        (r.0, line, Some(r.1))
    } else {
        (i, line, Some(s_bare_tok(TokenType::INVALID, line)))
    }
}

/// The token stream of the buffer from position `i` on: scanning is a pure
/// function of the source text, so one source always lexes to one stream.
pub open spec fn s_scan(chars: Seq<char>, i: int, line: usize) -> Seq<TokenM>
    decreases chars.len() - i,
{
    if i < 0 || i >= chars.len() {
        Seq::empty()
    } else {
        let step = s_match_token(chars, i + 1, line, chars[i]);
        let j0 = if step.0 > chars.len() {
            chars.len() as int
        } else {
            step.0
        };
        let j = if j0 > i {
            j0
        } else {
            i + 1
        };
        match step.2 {
            Some(t) => seq![t] + s_scan(chars, j, step.1),
            None => s_scan(chars, j, step.1),
        }
    }
}

/// Relies on std's `FromIterator<char> for String`: collecting a sequence of
/// characters yields the string of exactly those characters.
#[verifier::external_body]
fn string_from_chars(v: &Vec<char>) -> (r: String)
    ensures
        r@ == v@,
{
    v.iter().collect()
}

/// Token-level scanning over a [`Scanner`].
pub struct Lexer {
    pub iter: Scanner,
}

impl Lexer {
    /// A lexer over `source`, at the start.
    pub fn new(source: &str) -> (r: Lexer)
        ensures
            r.iter.chars@ == source@,
            r.iter.current == 0,
            r.iter.line == 0,
    {
        Lexer { iter: Scanner::new(source) }
    }

    /// Scans the whole source into its token stream, exactly [`s_scan`]: the
    /// stream is a pure function of the source text.  Whitespace and comments
    /// yield no token; an unrecognizable character, a number too large for
    /// the value range, or one with a fractional part yields an `INVALID`
    /// token.
    pub fn scan_tokens(&mut self) -> (r: Vec<Token>)
        requires
            old(self).iter.current <= old(self).iter.chars@.len(),
        ensures
            final(self).iter.chars == old(self).iter.chars,
            final(self).iter.current == final(self).iter.chars@.len(),
            r@.map_values(|t: Token| t@) == s_scan(
                old(self).iter.chars@,
                old(self).iter.current as int,
                old(self).iter.line,
            ),
    {
        let mut tokens: Vec<Token> = Vec::new();
        loop
            invariant
                self.iter.chars == old(self).iter.chars,
                self.iter.current <= self.iter.chars@.len(),
                tokens@.map_values(|t: Token| t@) + s_scan(
                    self.iter.chars@,
                    self.iter.current as int,
                    self.iter.line,
                ) == s_scan(
                    old(self).iter.chars@,
                    old(self).iter.current as int,
                    old(self).iter.line,
                ),
            decreases self.iter.chars@.len() - self.iter.current,
        {
            let ghost pre = self.iter;
            let ch = match self.iter.next() {
                Some(ch) => ch,
                None => {
                    proof {
                        assert(tokens@.map_values(|t: Token| t@) =~= tokens@.map_values(
                            |t: Token| t@,
                        ) + s_scan(
                            self.iter.chars@,
                            self.iter.current as int,
                            self.iter.line,
                        ));
                    }
                    return tokens;
                },
            };
            let ghost acc = tokens@.map_values(|t: Token| t@);
            match self.match_token(ch) {
                Some(t) => {
                    let ghost tv = t@;
                    tokens.push(t);
                    proof {
                        assert(tokens@.map_values(|t2: Token| t2@) =~= acc.push(tv));
                        assert(acc.push(tv) + s_scan(
                            self.iter.chars@,
                            self.iter.current as int,
                            self.iter.line,
                        ) =~= acc + (seq![tv] + s_scan(
                            self.iter.chars@,
                            self.iter.current as int,
                            self.iter.line,
                        )));
                    }
                },
                None => {},
            }
        }
    }

    /// One token (or none, for whitespace and comments), starting from the
    /// already-consumed character `ch`, exactly [`s_match_token`].
    fn match_token(&mut self, ch: char) -> (r: Option<Token>)
        requires
            old(self).iter.current <= old(self).iter.chars@.len(),
        ensures
            final(self).iter.chars == old(self).iter.chars,
            old(self).iter.current <= final(self).iter.current <= final(self).iter.chars@.len(),
            ({
                let (j, l2, t) = s_match_token(
                    old(self).iter.chars@,
                    old(self).iter.current as int,
                    old(self).iter.line,
                    ch,
                );
                &&& final(self).iter.current as int == j
                &&& final(self).iter.line == l2
                &&& (match r {
                    Some(tok) => t == Some(tok@),
                    None => t is None,
                })
            }),
    {
        match ch {
            '(' => self.create_token(TokenType::LEFT_PAREN, None),
            ')' => self.create_token(TokenType::RIGHT_PAREN, None),
            '{' => self.create_token(TokenType::LEFT_BRACE, None),
            '}' => self.create_token(TokenType::RIGHT_BRACE, None),
            ',' => self.create_token(TokenType::COMMA, None),
            '.' => self.create_token(TokenType::DOT, None),
            '-' => self.create_token(TokenType::MINUS, None),
            '+' => self.create_token(TokenType::PLUS, None),
            ';' => self.create_token(TokenType::SEMICOLON, None),
            '*' => self.create_token(TokenType::STAR, None),
            '!' => {
                let token_type = self.either('=', TokenType::BANG_EQUAL, TokenType::BANG);
                proof {
                    assert(self.iter.current <= self.iter.chars@.len());
                }
                self.create_token(token_type, None)
            },
            '=' => {
                let token_type = self.either('=', TokenType::EQUAL_EQUAL, TokenType::EQUAL);
                self.create_token(token_type, None)
            },
            '<' => {
                let token_type = self.either('=', TokenType::LESS_EQUAL, TokenType::LESS);
                self.create_token(token_type, None)
            },
            '>' => {
                let token_type = self.either('=', TokenType::GREATER_EQUAL, TokenType::GREATER);
                self.create_token(token_type, None)
            },
            '/' => {
                if self.iter.consume_if('/') {
                    self.iter.consume_while(CharClass::NotChar('\n'));
                    None
                } else if self.iter.consume_if('*') {
                    self.multi_line_comment();
                    None
                } else {
                    self.create_token(TokenType::SLASH, None)
                }
            },
            ' ' | '\r' | '\t' => None,
            '\n' => {
                self.advance_line();
                None
            },
            '"' => {
                proof {
                    assert(self.iter.current <= self.iter.chars@.len());
                }
                let ghost line0 = self.iter.line;
                let chars = self.iter.consume_while(CharClass::NotChar('"'));
                let ghost cur1 = self.iter.current;
                proof {
                    assert(chars@.skip(0) =~= chars@);
                }
                let mut i: usize = 0;
                while i < chars.len()
                    invariant
                        self.iter.chars == old(self).iter.chars,
                        old(self).iter.current <= self.iter.current <= self.iter.chars@.len(),
                        self.iter.current == cur1,
                        i <= chars@.len(),
                        s_line_seq(line0, chars@) == s_line_seq(
                            self.iter.line,
                            chars@.skip(i as int),
                        ),
                    decreases chars@.len() - i,
                {
                    proof {
                        assert(chars@.skip(i as int)[0] == chars@[i as int]);
                        assert(chars@.skip(i as int).drop_first() =~= chars@.skip(i as int + 1));
                    }
                    if chars[i] == '\n' {
                        self.advance_line();
                    }
                    i = i + 1;
                }
                proof {
                    assert(chars@.skip(chars@.len() as int) =~= Seq::<char>::empty());
                }
                self.iter.consume_if('"');
                let value = string_from_chars(&chars);
                self.create_token(TokenType::STRING, Some(Literal::Str(value)))
            },
            _ => {
                if '0' <= ch && ch <= '9' {
                    self.numbers(ch)
                } else if ('a' <= ch && ch <= 'z') || ('A' <= ch && ch <= 'Z') || ch == '_' {
                    self.identifiers(ch)
                } else {
                    self.create_token(TokenType::INVALID, None)
                }
            },
        }
    }

    /// A token of the given kind at the current line.
    fn create_token(&self, token_type: TokenType, literal: Option<Literal>) -> (r: Option<Token>)
        ensures
            r matches Some(t) && t.token_type == token_type && t.line == self.iter.line
                && t.literal == literal,
    {
        Some(Token { token_type, literal, line: self.iter.line })
    }

    /// `matched` when the next character is `to_match` (consuming it),
    /// `unmatched` otherwise.
    fn either(&mut self, to_match: char, matched: TokenType, unmatched: TokenType) -> (r:
        TokenType)
        ensures
            final(self).iter.chars == old(self).iter.chars,
            final(self).iter.line == old(self).iter.line,
            ({
                let advanced = old(self).iter.current < old(self).iter.chars@.len() && old(
                    self,
                ).iter.chars@[old(self).iter.current as int] == to_match;
                &&& r == if advanced {
                    matched
                } else {
                    unmatched
                }
                &&& final(self).iter.current == if advanced {
                    old(self).iter.current + 1
                } else {
                    old(self).iter.current as int
                }
            }),
    {
        if self.iter.consume_if(to_match) {
            matched
        } else {
            unmatched
        }
    }

    /// Advances the line counter, exactly [`s_bump_line`].
    fn advance_line(&mut self)
        ensures
            final(self).iter.chars == old(self).iter.chars,
            final(self).iter.current == old(self).iter.current,
            final(self).iter.line == s_bump_line(old(self).iter.line),
    {
        if self.iter.line < usize::MAX {
            self.iter.line = self.iter.line + 1;
        }
    }

    /// Skips a multi-line comment, `/*` and `*/` nesting, exactly [`s_mlc`].
    fn multi_line_comment(&mut self)
        requires
            old(self).iter.current <= old(self).iter.chars@.len(),
        ensures
            final(self).iter.chars == old(self).iter.chars,
            old(self).iter.current <= final(self).iter.current <= final(self).iter.chars@.len(),
            (final(self).iter.current as int, final(self).iter.line) == s_mlc(
                old(self).iter.chars@,
                old(self).iter.current as int,
                old(self).iter.line,
                1,
            ),
    {
        let mut depth: usize = 1;
        loop
            invariant
                self.iter.chars == old(self).iter.chars,
                old(self).iter.current <= self.iter.current <= self.iter.chars@.len(),
                depth >= 1,
                s_mlc(
                    old(self).iter.chars@,
                    old(self).iter.current as int,
                    old(self).iter.line,
                    1,
                ) == s_mlc(self.iter.chars@, self.iter.current as int, self.iter.line, depth),
            decreases self.iter.chars@.len() - self.iter.current,
        {
            let c = match self.iter.next() {
                Some(c) => c,
                None => {
                    return;
                },
            };
            if c == '/' {
                if self.iter.consume_if('*') {
                    if depth < usize::MAX {
                        depth = depth + 1;
                    }
                }
            } else if c == '*' {
                if self.iter.consume_if('/') {
                    depth = depth - 1;
                    if depth == 0 {
                        return;
                    }
                }
            } else if c == '\n' {
                self.advance_line();
            }
        }
    }

    /// A number literal, starting from its already-consumed first digit,
    /// exactly [`s_number_token`]: a `NUMBER` token with the literal's
    /// decimal value, or `INVALID` when the literal has a fractional part or
    /// leaves the value range.
    fn numbers(&mut self, first_ch: char) -> (r: Option<Token>)
        requires
            old(self).iter.current <= old(self).iter.chars@.len(),
            is_digit_char(first_ch),
        ensures
            final(self).iter.chars == old(self).iter.chars,
            old(self).iter.current <= final(self).iter.current <= final(self).iter.chars@.len(),
            ({
                let (j, t) = s_number_token(
                    old(self).iter.chars@,
                    old(self).iter.current as int,
                    old(self).iter.line,
                    first_ch,
                );
                &&& final(self).iter.current as int == j
                &&& final(self).iter.line == old(self).iter.line
                &&& r matches Some(tok) && tok@ == t
            }),
    {
        let mut digits: Vec<char> = Vec::new();
        digits.push(first_ch);
        let more = self.iter.consume_while(CharClass::Digit);
        proof {
            assert(digits@ =~= seq![first_ch] + more@.take(0));
        }
        let mut j: usize = 0;
        while j < more.len()
            invariant
                j <= more@.len(),
                digits@ == seq![first_ch] + more@.take(j as int),
                forall|i: int| 0 <= i < more@.len() ==> is_digit_char(#[trigger] more@[i]),
                forall|i: int| 0 <= i < digits@.len() ==> is_digit_char(#[trigger] digits@[i]),
            decreases more@.len() - j,
        {
            digits.push(more[j]);
            j = j + 1;
            proof {
                assert(digits@ =~= seq![first_ch] + more@.take(j as int));
            }
        }
        proof {
            assert(more@.take(more@.len() as int) =~= more@);
            assert(digits@ =~= seq![first_ch] + more@);
        }
        let mut fractional = false;
        if self.iter.consume_if('.') {
            let frac = self.iter.consume_while(CharClass::Digit);
            if frac.len() > 0 {
                fractional = true;
            }
        }
        if fractional {
            return self.create_token(TokenType::INVALID, None);
        }
        match digits_value(&digits) {
            Some(v) => self.create_token(TokenType::NUMBER, Some(Literal::Number(v))),
            None => self.create_token(TokenType::INVALID, None),
        }
    }

    /// A keyword or identifier, starting from its already-consumed first
    /// character, exactly [`s_ident_token`]: the keyword's own token kind, or
    /// an `IDENTIFIER` token carrying its name.
    fn identifiers(&mut self, first_ch: char) -> (r: Option<Token>)
        requires
            old(self).iter.current <= old(self).iter.chars@.len(),
        ensures
            final(self).iter.chars == old(self).iter.chars,
            old(self).iter.current <= final(self).iter.current <= final(self).iter.chars@.len(),
            ({
                let (j, t) = s_ident_token(
                    old(self).iter.chars@,
                    old(self).iter.current as int,
                    old(self).iter.line,
                    first_ch,
                );
                &&& final(self).iter.current as int == j
                &&& final(self).iter.line == old(self).iter.line
                &&& r matches Some(tok) && tok@ == t
            }),
    {
        let mut ident: Vec<char> = Vec::new();
        ident.push(first_ch);
        let more = self.iter.consume_while(CharClass::Alnum);
        let ghost cur2 = self.iter.current;
        proof {
            assert(ident@ =~= seq![first_ch] + more@.take(0));
        }
        let mut j: usize = 0;
        while j < more.len()
            invariant
                j <= more@.len(),
                ident@ == seq![first_ch] + more@.take(j as int),
                self.iter.chars == old(self).iter.chars,
                self.iter.current == cur2,
                more@ == old(self).iter.chars@.subrange(old(self).iter.current as int, cur2 as int),
                old(self).iter.current <= cur2 <= self.iter.chars@.len(),
            decreases more@.len() - j,
        {
            ident.push(more[j]);
            j = j + 1;
            proof {
                assert(ident@ =~= seq![first_ch] + more@.take(j as int));
            }
        }
        proof {
            assert(more@.take(more@.len() as int) =~= more@);
            assert(ident@ =~= seq![first_ch] + more@);
        }
        let name = string_from_chars(&ident);
        let token_type = keyword_type(&name);
        if matches!(token_type, TokenType::IDENTIFIER) {
            self.create_token(token_type, Some(Literal::Str(name)))
        } else {
            self.create_token(token_type, None)
        }
    }
}
} // verus!
