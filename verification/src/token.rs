use std::sync::Arc;
use vstd::prelude::*;

verus! {

/// A named source file: its name and its text.
#[derive(Debug, PartialEq, Eq, Hash)]
pub struct SourceFile {
    pub name: String,
    pub text: String,
}

/// `Arc::clone`: another pointer to the same source file.
#[verifier::external_body]
fn clone_source(a: &Arc<SourceFile>) -> (r: Arc<SourceFile>)
    ensures
        r == *a,
{
    Arc::clone(a)
}

/// A range of positions in a source file. `start` is inclusive and `end`
/// is exclusive.
#[derive(Debug, PartialEq, Eq, Hash)]
pub struct Span {
    pub source: Arc<SourceFile>,
    pub start: usize,
    pub end: usize,
}

impl Clone for Span {
    fn clone(&self) -> (r: Span)
        ensures
            r == *self,
    {
        Span { source: clone_source(&self.source), start: self.start, end: self.end }
    }
}

/// The smallest span of `a`'s file that covers both arguments.
pub open spec fn span_join(a: Span, b: Span) -> Span {
    Span {
        source: a.source,
        start: if a.start <= b.start { a.start } else { b.start },
        end: if a.end >= b.end { a.end } else { b.end },
    }
}

/// Joining spans of one file does not depend on their order.
pub proof fn law_span_join_commutes(a: Span, b: Span)
    requires
        a.source == b.source,
    ensures
        span_join(a, b) == span_join(b, a),
{
}

/// Joining spans of one file does not depend on how joins are grouped.
pub proof fn law_span_join_associates(a: Span, b: Span, c: Span)
    requires
        a.source == b.source,
        b.source == c.source,
    ensures
        span_join(span_join(a, b), c) == span_join(a, span_join(b, c)),
{
}

/// The join of two spans covers both, is the smallest span that does, and
/// lies in the same file.
pub proof fn law_span_join_covers(a: Span, b: Span)
    ensures
        span_join(a, b).source == a.source,
        span_join(a, b).start <= a.start,
        span_join(a, b).start <= b.start,
        span_join(a, b).end >= a.end,
        span_join(a, b).end >= b.end,
        span_join(a, b).start == a.start || span_join(a, b).start == b.start,
        span_join(a, b).end == a.end || span_join(a, b).end == b.end,
        span_join(a, a) == a,
{
}

/// `a + b` joins two spans of the same file: the result starts where the
/// earlier one starts and ends where the later one ends.
impl core::ops::Add for Span {
    type Output = Span;

    fn add(self, rhs: Span) -> (r: Span) {
        let start = if self.start <= rhs.start { self.start } else { rhs.start };
        let end = if self.end >= rhs.end { self.end } else { rhs.end };
        Span { source: self.source, start, end }
    }
}

impl vstd::std_specs::ops::AddSpecImpl for Span {
    open spec fn obeys_add_spec() -> bool {
        true
    }

    /// Spans of different files cannot be joined.
    open spec fn add_req(self, rhs: Span) -> bool {
        self.source == rhs.source
    }

    open spec fn add_spec(self, rhs: Span) -> Span {
        span_join(self, rhs)
    }
}

/// Token kind
#[derive(Debug, Clone, Copy, PartialEq, Eq, Structural)]
pub enum TokenKind {
    Use,
    For,
    While,
    In,
    Let,
    Struct,
    Enum,
    If,
    Else,
    Return,
    Continue,
    Break,
    As,
    Fn,
    Pub,
    Mut,
    Comma,
    Dot,
    Lbrace,
    Rbrace,
    Lparen,
    Rparen,
    Lbracket,
    Rbracket,
    PlusEq,
    MinusEq,
    StarEq,
    SlashEq,
    PercentEq,
    AmpEq,
    BarEq,
    CaretEq,
    Plus,
    Minus,
    Star,
    Slash,
    Percent,
    Caret,
    Ampersand,
    Bang,
    Bar,
    Eq,
    Ge,
    Le,
    Gt,
    Lt,
    Colon,
    Semi,
    DoubleEq,
    DoubleBar,
    DoubleAmp,
    BangEq,
    Arrow,
    Number,
    String,
    Id,
    Bool,
}

/// A token: its kind, where it stands, and its text.
#[derive(Debug, PartialEq, Eq)]
pub struct Token {
    pub span: Span,
    pub kind: TokenKind,
    pub lexeme: String,
}

impl Token {
    /// Creates a new token.
    pub fn new(span: Span, kind: TokenKind, lexeme: String) -> (r: Token)
        ensures
            r.span == span,
            r.kind == kind,
            r.lexeme == lexeme,
    {
        Token { span, kind, lexeme }
    }
}

impl Clone for Token {
    fn clone(&self) -> (r: Token)
        ensures
            r == *self,
    {
        Token { span: self.span.clone(), kind: self.kind, lexeme: self.lexeme.clone() }
    }
}

} // verus!
