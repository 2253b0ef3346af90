use vstd::prelude::*;
use crate::token::{Span, TokenKind};

verus! {

/// Why parsing stopped. Spans are positions in the parsed source.
#[derive(Debug, PartialEq, Eq)]
pub enum ParseError {
    /// A token of another kind than the one the grammar needs here.
    /// `prev` is the span of the token before it.
    UnexpectedToken { got: TokenKind, expected: TokenKind, span: Span, prev: Span },
    /// A token that cannot start an expression.
    UnexpectedExprToken { got: TokenKind, span: Span },
    /// A token that cannot start a top-level item.
    UnexpectedItemToken { got: TokenKind, span: Span },
    /// The input ended; `span` is that of the last token.
    UnexpectedEof { span: Span },
    /// A statement that needs a semicolon has none.
    ExpectedSemicolon { span: Span },
    /// A `Bool` token whose text is neither `true` nor `false`
    /// (a broken token stream: the lexer never yields one).
    InvalidBoolLiteral { span: Span },
    /// A prefix `&`: the unary grammar accepts the token but has no
    /// operator for it.
    UnsupportedUnaryOp { span: Span },
}

} // verus!
