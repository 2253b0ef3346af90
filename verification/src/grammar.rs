//! The grammar as spec functions over the token sequence.
//!
//! Each function reads the tokens from position `p` on and gives either the
//! tree it recognises together with the position after it, or the error at
//! which the parser stops. The executable parser is proved to compute
//! exactly these functions.
//!
//! A recursive call at a position computed by an earlier call is guarded by
//! `p < q`: every function that succeeds consumes at least one token (the
//! executable parser proves it), so the guards always hold; they only let
//! the recursion be seen to terminate.

use vstd::prelude::*;
use crate::ast::{SBlock, SExpr, SExprKind, SField, SHint, SItem, SItemKind, SModule, SParam, SStmt, SStmtKind, SStruct, SEnum, SFunction, SUse, SUseKind, SVariant, Lit, BinOp, UnOp, Publicity};
use crate::errors::ParseError;
use crate::token::{span_join, Span, Token, TokenKind};

verus! {

/// What a grammar function gives: a value and the position after it.
pub type PRes<A> = Result<(A, int), ParseError>;

/// The token at `p` exists and has kind `k`.
pub open spec fn at(ts: Seq<Token>, p: int, k: TokenKind) -> bool {
    0 <= p < ts.len() && ts[p].kind == k
}

/// The error for a token needed at `p` that is not there.
pub open spec fn eof(ts: Seq<Token>, p: int) -> ParseError {
    ParseError::UnexpectedEof { span: ts[p - 1].span }
}

/// Span of the token before `p`: the last one consumed.
pub open spec fn prev_span(ts: Seq<Token>, p: int) -> Span {
    ts[p - 1].span
}

/// Consumes a token of kind `k`.
pub open spec fn sp_expect(ts: Seq<Token>, p: int, k: TokenKind) -> Result<int, ParseError> {
    if 0 <= p < ts.len() {
        if ts[p].kind == k {
            Ok(p + 1)
        } else {
            Err(ParseError::UnexpectedToken {
                got: ts[p].kind,
                expected: k,
                span: ts[p].span,
                prev: ts[p - 1].span,
            })
        }
    } else {
        Err(eof(ts, p))
    }
}


/// Consumes the closing token of a list whose items gave `items`.
pub open spec fn close_list<A>(ts: Seq<Token>, items: PRes<Seq<A>>, close: TokenKind) -> PRes<Seq<A>> {
    match items {
        Err(e) => Err(e),
        Ok((xs, q1)) => match sp_expect(ts, q1, close) {
            Err(e) => Err(e),
            Ok(q2) => Ok((xs, q2)),
        },
    }
}

/// `xs` put in front of the items that `r` gives.
pub open spec fn prepend<A>(xs: Seq<A>, r: PRes<Seq<A>>) -> PRes<Seq<A>> {
    match r {
        Err(e) => Err(e),
        Ok((ys, q)) => Ok((xs + ys, q)),
    }
}

/// The slash that joins two names of a use path.
pub open spec fn slash_join(a: Seq<char>, b: Seq<char>) -> Seq<char> {
    a + seq!['/'] + b
}

// ---------------------------------------------------------------------------
// Type hints
// ---------------------------------------------------------------------------

pub open spec fn sp_type_hint(ts: Seq<Token>, p: int) -> PRes<SHint>
    decreases ts.len() - p, 5int,
{
    if at(ts, p, TokenKind::Fn) {
        sp_fn_type_hint(ts, p)
    } else {
        sp_id_type_hint(ts, p)
    }
}

pub open spec fn sp_id_type_hint(ts: Seq<Token>, p: int) -> PRes<SHint>
    decreases ts.len() - p, 4int,
{
    if !(0 <= p < ts.len()) {
        Err(eof(ts, p))
    } else {
        let start = ts[p].span;
        let id = ts[p].lexeme;
        let q = p + 1;
        if at(ts, q, TokenKind::Dot) {
            match sp_expect(ts, q + 1, TokenKind::Id) {
                Err(e) => Err(e),
                Ok(q2) => match sp_generic_args(ts, q2) {
                    Err(e) => Err(e),
                    Ok((args, q3)) => Ok((
                        SHint::Module {
                            span: span_join(start, prev_span(ts, q3)),
                            module: id,
                            name: ts[q + 1].lexeme,
                            args,
                        },
                        q3,
                    )),
                },
            }
        } else {
            match sp_generic_args(ts, q) {
                Err(e) => Err(e),
                Ok((args, q3)) => Ok((
                    SHint::Local { span: span_join(start, prev_span(ts, q3)), name: id, args },
                    q3,
                )),
            }
        }
    }
}

pub open spec fn sp_generic_args(ts: Seq<Token>, p: int) -> PRes<Seq<SHint>>
    decreases ts.len() - p, 3int,
{
    if at(ts, p, TokenKind::Lt) {
        sp_hint_list(ts, p, TokenKind::Lt, TokenKind::Gt)
    } else {
        Ok((Seq::empty(), p))
    }
}

/// `open hint, hint, .. close`, a trailing comma allowed.
pub open spec fn sp_hint_list(ts: Seq<Token>, p: int, open: TokenKind, close: TokenKind) -> PRes<Seq<SHint>>
    decreases ts.len() - p, 2int,
{
    match sp_expect(ts, p, open) {
        Err(e) => Err(e),
        Ok(q) => {
            let items = if at(ts, q, close) {
                Ok((Seq::empty(), q))
            } else {
                sp_hint_items(ts, q, close)
            };
            close_list(ts, items, close)
        }
    }
}

pub open spec fn sp_hint_items(ts: Seq<Token>, q: int, close: TokenKind) -> PRes<Seq<SHint>>
    decreases ts.len() - q, 6int,
{
    match sp_type_hint(ts, q) {
        Err(e) => Err(e),
        Ok((x, q1)) => if at(ts, q1, TokenKind::Comma) {
            if at(ts, q1 + 1, close) {
                Ok((seq![x], q1 + 1))
            } else if q <= q1 {
                match sp_hint_items(ts, q1 + 1, close) {
                    Err(e) => Err(e),
                    Ok((xs, q2)) => Ok((seq![x] + xs, q2)),
                }
            } else {
                Err(eof(ts, q))
            }
        } else {
            Ok((seq![x], q1))
        },
    }
}

pub open spec fn sp_fn_type_hint(ts: Seq<Token>, p: int) -> PRes<SHint>
    decreases ts.len() - p, 4int,
{
    if !(0 <= p < ts.len()) {
        Err(eof(ts, p))
    } else {
        let start = ts[p].span;
        match sp_hint_list(ts, p + 1, TokenKind::Lparen, TokenKind::Rparen) {
            Err(e) => Err(e),
            Ok((params, q1)) => if p < q1 <= ts.len() {
                let ret = if at(ts, q1, TokenKind::Arrow) {
                    sp_type_hint(ts, q1 + 1)
                } else {
                    sp_type_hint(ts, q1)
                };
                match ret {
                    Err(e) => Err(e),
                    Ok((r, q2)) => Ok((
                        SHint::Function {
                            span: span_join(start, prev_span(ts, q2)),
                            params,
                            ret: Box::new(r),
                        },
                        q2,
                    )),
                }
            } else {
                Err(eof(ts, p))
            },
        }
    }
}

// ---------------------------------------------------------------------------
// Identifier lists
// ---------------------------------------------------------------------------

/// `open id, id, .. close`, a trailing comma allowed.
pub open spec fn sp_id_list(ts: Seq<Token>, p: int, open: TokenKind, close: TokenKind) -> PRes<Seq<String>> {
    match sp_expect(ts, p, open) {
        Err(e) => Err(e),
        Ok(q) => {
            let items = if at(ts, q, close) {
                Ok((Seq::empty(), q))
            } else {
                sp_id_items(ts, q, close)
            };
            close_list(ts, items, close)
        }
    }
}

pub open spec fn sp_id_items(ts: Seq<Token>, q: int, close: TokenKind) -> PRes<Seq<String>>
    decreases ts.len() - q,
{
    if at(ts, q, TokenKind::Id) {
        let x = ts[q].lexeme;
        let q1 = q + 1;
        if at(ts, q1, TokenKind::Comma) {
            if at(ts, q1 + 1, close) {
                Ok((seq![x], q1 + 1))
            } else {
                match sp_id_items(ts, q1 + 1, close) {
                    Err(e) => Err(e),
                    Ok((xs, q2)) => Ok((seq![x] + xs, q2)),
                }
            }
        } else {
            Ok((seq![x], q1))
        }
    } else {
        match sp_expect(ts, q, TokenKind::Id) {
            Err(e) => Err(e),
            Ok(_) => Err(eof(ts, q)),
        }
    }
}

/// `id, id, ..` with no brackets and no trailing comma.
pub open spec fn sp_id_seq(ts: Seq<Token>, q: int) -> PRes<Seq<String>>
    decreases ts.len() - q,
{
    if at(ts, q, TokenKind::Id) {
        let x = ts[q].lexeme;
        if at(ts, q + 1, TokenKind::Comma) {
            match sp_id_seq(ts, q + 2) {
                Err(e) => Err(e),
                Ok((xs, q2)) => Ok((seq![x] + xs, q2)),
            }
        } else {
            Ok((seq![x], q + 1))
        }
    } else {
        match sp_expect(ts, q, TokenKind::Id) {
            Err(e) => Err(e),
            Ok(_) => Err(eof(ts, q)),
        }
    }
}

pub open spec fn sp_generic_params(ts: Seq<Token>, p: int) -> PRes<Seq<String>> {
    if at(ts, p, TokenKind::Lt) {
        sp_id_list(ts, p, TokenKind::Lt, TokenKind::Gt)
    } else {
        Ok((Seq::empty(), p))
    }
}


// ---------------------------------------------------------------------------
// Expressions
// ---------------------------------------------------------------------------

/// An infix operator: a binary operation or assignment.
#[derive(Debug, Clone, Copy, PartialEq, Eq, Structural)]
pub enum Infix {
    Bin(BinOp),
    Assign,
}

/// The operator that token kind `k` stands for at precedence level `level`,
/// if any. Levels, from the tightest: 0 factor, 1 term, 2 comparison,
/// 3 equality, 4 `&`, 5 `^`, 6 `|`, 7 `&&`, 8 `||`, 9 assignment.
pub open spec fn level_infix(level: nat, k: TokenKind) -> Option<Infix> {
    if level == 0 {
        match k {
            TokenKind::Star => Some(Infix::Bin(BinOp::Mul)),
            TokenKind::Slash => Some(Infix::Bin(BinOp::Div)),
            TokenKind::Percent => Some(Infix::Bin(BinOp::Mod)),
            _ => None,
        }
    } else if level == 1 {
        match k {
            TokenKind::Plus => Some(Infix::Bin(BinOp::Add)),
            TokenKind::Minus => Some(Infix::Bin(BinOp::Sub)),
            _ => None,
        }
    } else if level == 2 {
        match k {
            TokenKind::Ge => Some(Infix::Bin(BinOp::Ge)),
            TokenKind::Gt => Some(Infix::Bin(BinOp::Gt)),
            TokenKind::Le => Some(Infix::Bin(BinOp::Le)),
            TokenKind::Lt => Some(Infix::Bin(BinOp::Lt)),
            _ => None,
        }
    } else if level == 3 {
        match k {
            TokenKind::DoubleEq => Some(Infix::Bin(BinOp::Eq)),
            TokenKind::BangEq => Some(Infix::Bin(BinOp::Ne)),
            _ => None,
        }
    } else if level == 4 {
        if k == TokenKind::Ampersand { Some(Infix::Bin(BinOp::BitAnd)) } else { None }
    } else if level == 5 {
        if k == TokenKind::Caret { Some(Infix::Bin(BinOp::Xor)) } else { None }
    } else if level == 6 {
        if k == TokenKind::Bar { Some(Infix::Bin(BinOp::BitOr)) } else { None }
    } else if level == 7 {
        if k == TokenKind::DoubleAmp { Some(Infix::Bin(BinOp::And)) } else { None }
    } else if level == 8 {
        if k == TokenKind::DoubleBar { Some(Infix::Bin(BinOp::Or)) } else { None }
    } else if level == 9 {
        if k == TokenKind::Eq { Some(Infix::Assign) } else { None }
    } else {
        None
    }
}

/// The operator at position `q` for `level`, if the token there is one.
pub open spec fn infix_at(ts: Seq<Token>, q: int, level: nat) -> Option<Infix> {
    if 0 <= q < ts.len() { level_infix(level, ts[q].kind) } else { None }
}

/// The node an infix operator builds from its operands.
pub open spec fn infix_node(op: Infix, l: SExpr, r: SExpr, span: Span) -> SExpr {
    SExpr {
        kind: match op {
            Infix::Bin(b) => SExprKind::Bin(b, Box::new(l), Box::new(r)),
            Infix::Assign => SExprKind::Assign(Box::new(l), Box::new(r)),
        },
        span,
    }
}

/// `e.Block(b)` as an expression whose span is the block's.
pub open spec fn block_expr(b: SBlock) -> SExpr {
    SExpr { kind: SExprKind::Block(Box::new(b)), span: b.span }
}

/// An expression: the assignment level.
pub open spec fn sp_expr(ts: Seq<Token>, p: int) -> PRes<SExpr>
    decreases ts.len() - p, 51int,
{
    sp_binary(ts, p, 9)
}

/// Left-associative chain of operators of one precedence level.
pub open spec fn sp_binary(ts: Seq<Token>, p: int, level: nat) -> PRes<SExpr>
    decreases ts.len() - p, 32 + 2 * level,
{
    if !(0 <= p < ts.len()) {
        Err(eof(ts, p))
    } else {
        let start = ts[p].span;
        let left = if level == 0 {
            sp_unary(ts, p)
        } else {
            sp_binary(ts, p, (level - 1) as nat)
        };
        match left {
            Err(e) => Err(e),
            Ok((l, q)) => if p <= q <= ts.len() {
                sp_binary_rest(ts, q, level, start, l)
            } else {
                Err(eof(ts, p))
            },
        }
    }
}

/// The operators of `level` that follow `left`, which began at `start`.
/// The right operand of a comparison is parsed at the factor level.
pub open spec fn sp_binary_rest(ts: Seq<Token>, q: int, level: nat, start: Span, left: SExpr) -> PRes<SExpr>
    decreases ts.len() - q, 31 + 2 * level,
{
    match infix_at(ts, q, level) {
        None => Ok((left, q)),
        Some(op) => {
            let right = if level == 0 {
                sp_unary(ts, q + 1)
            } else if level == 2 {
                sp_binary(ts, q + 1, 0)
            } else {
                sp_binary(ts, q + 1, (level - 1) as nat)
            };
            match right {
                Err(e) => Err(e),
                Ok((r, q2)) => if q < q2 <= ts.len() {
                    sp_binary_rest(ts, q2, level, start, infix_node(op, left, r, span_join(start, prev_span(ts, q2))))
                } else {
                    Err(eof(ts, q))
                },
            }
        },
    }
}

/// The prefix operator a token kind stands for; `None` for `&`.
pub open spec fn prefix_op(k: TokenKind) -> Option<UnOp> {
    match k {
        TokenKind::Minus => Some(UnOp::Neg),
        TokenKind::Bang => Some(UnOp::Bang),
        TokenKind::Star => Some(UnOp::Deref),
        _ => None,
    }
}

/// Whether a token kind starts a prefix operation.
pub open spec fn is_prefix(k: TokenKind) -> bool {
    k == TokenKind::Minus || k == TokenKind::Bang || k == TokenKind::Ampersand || k == TokenKind::Star
}

pub open spec fn sp_unary(ts: Seq<Token>, p: int) -> PRes<SExpr>
    decreases ts.len() - p, 30int,
{
    if 0 <= p < ts.len() && is_prefix(ts[p].kind) {
        match prefix_op(ts[p].kind) {
            None => Err(ParseError::UnsupportedUnaryOp { span: ts[p].span }),
            Some(op) => match sp_unary(ts, p + 1) {
                Err(e) => Err(e),
                Ok((v, q)) => Ok((
                    SExpr {
                        kind: SExprKind::Unary(op, Box::new(v)),
                        span: span_join(ts[p].span, prev_span(ts, q)),
                    },
                    q,
                )),
            },
        }
    } else {
        sp_atom(ts, p)
    }
}

pub open spec fn true_text() -> Seq<char> {
    seq!['t', 'r', 'u', 'e']
}

pub open spec fn false_text() -> Seq<char> {
    seq!['f', 'a', 'l', 's', 'e']
}

pub open spec fn sp_atom(ts: Seq<Token>, p: int) -> PRes<SExpr>
    decreases ts.len() - p, 29int,
{
    if !(0 <= p < ts.len()) {
        Err(eof(ts, p))
    } else {
        let tk = ts[p];
        match tk.kind {
            TokenKind::Lparen => sp_group(ts, p),
            TokenKind::Number => Ok((SExpr { kind: SExprKind::Lit(Lit::Number(tk.lexeme)), span: tk.span }, p + 1)),
            TokenKind::String => Ok((SExpr { kind: SExprKind::Lit(Lit::String(tk.lexeme)), span: tk.span }, p + 1)),
            TokenKind::Bool => if tk.lexeme@ == true_text() {
                Ok((SExpr { kind: SExprKind::Lit(Lit::Bool(true)), span: tk.span }, p + 1))
            } else if tk.lexeme@ == false_text() {
                Ok((SExpr { kind: SExprKind::Lit(Lit::Bool(false)), span: tk.span }, p + 1))
            } else {
                Err(ParseError::InvalidBoolLiteral { span: tk.span })
            },
            TokenKind::Id => sp_variable(ts, p),
            TokenKind::If => sp_if(ts, p),
            TokenKind::Bar => sp_closure(ts, p),
            TokenKind::DoubleBar => sp_closure(ts, p),
            _ => Err(ParseError::UnexpectedExprToken { got: tk.kind, span: tk.span }),
        }
    }
}

/// `( expr )`: the inner expression, span unchanged.
pub open spec fn sp_group(ts: Seq<Token>, p: int) -> PRes<SExpr>
    decreases ts.len() - p, 28int,
{
    match sp_expect(ts, p, TokenKind::Lparen) {
        Err(e) => Err(e),
        Ok(q) => match sp_expr(ts, q) {
            Err(e) => Err(e),
            Ok((e, q1)) => match sp_expect(ts, q1, TokenKind::Rparen) {
                Err(err) => Err(err),
                Ok(q2) => Ok((e, q2)),
            },
        },
    }
}

/// An identifier followed by field accesses and calls.
pub open spec fn sp_variable(ts: Seq<Token>, p: int) -> PRes<SExpr>
    decreases ts.len() - p, 28int,
{
    if !(0 <= p < ts.len()) {
        Err(eof(ts, p))
    } else {
        let start = ts[p].span;
        match sp_expect(ts, p, TokenKind::Id) {
            Err(e) => Err(e),
            Ok(q) => sp_postfix(ts, q, start, SExpr { kind: SExprKind::Id(ts[p].lexeme), span: start }),
        }
    }
}

pub open spec fn sp_postfix(ts: Seq<Token>, q: int, start: Span, base: SExpr) -> PRes<SExpr>
    decreases ts.len() - q, 27int,
{
    if at(ts, q, TokenKind::Dot) {
        match sp_expect(ts, q + 1, TokenKind::Id) {
            Err(e) => Err(e),
            Ok(q2) => sp_postfix(
                ts,
                q2,
                start,
                SExpr {
                    kind: SExprKind::Field(Box::new(base), ts[q + 1].lexeme),
                    span: span_join(start, prev_span(ts, q2)),
                },
            ),
        }
    } else if at(ts, q, TokenKind::Lparen) {
        match sp_expr_list(ts, q, TokenKind::Lparen, TokenKind::Rparen) {
            Err(e) => Err(e),
            Ok((args, q2)) => if q < q2 <= ts.len() {
                sp_postfix(
                    ts,
                    q2,
                    start,
                    SExpr { kind: SExprKind::Call(Box::new(base), args), span: span_join(start, prev_span(ts, q2)) },
                )
            } else {
                Err(eof(ts, q))
            },
        }
    } else {
        Ok((base, q))
    }
}

/// `open expr, expr, .. close`, a trailing comma allowed.
pub open spec fn sp_expr_list(ts: Seq<Token>, p: int, open: TokenKind, close: TokenKind) -> PRes<Seq<SExpr>>
    decreases ts.len() - p, 2int,
{
    match sp_expect(ts, p, open) {
        Err(e) => Err(e),
        Ok(q) => {
            let items = if at(ts, q, close) {
                Ok((Seq::empty(), q))
            } else {
                sp_expr_items(ts, q, close)
            };
            close_list(ts, items, close)
        }
    }
}

pub open spec fn sp_expr_items(ts: Seq<Token>, q: int, close: TokenKind) -> PRes<Seq<SExpr>>
    decreases ts.len() - q, 52int,
{
    match sp_expr(ts, q) {
        Err(e) => Err(e),
        Ok((x, q1)) => if at(ts, q1, TokenKind::Comma) {
            if at(ts, q1 + 1, close) {
                Ok((seq![x], q1 + 1))
            } else if q <= q1 {
                match sp_expr_items(ts, q1 + 1, close) {
                    Err(e) => Err(e),
                    Ok((xs, q2)) => Ok((seq![x] + xs, q2)),
                }
            } else {
                Err(eof(ts, q))
            }
        } else {
            Ok((seq![x], q1))
        },
    }
}

/// `if cond { .. }`, optionally followed by `else if ..` or `else { .. }`.
pub open spec fn sp_if(ts: Seq<Token>, p: int) -> PRes<SExpr>
    decreases ts.len() - p, 28int,
{
    if !(0 <= p < ts.len()) {
        Err(eof(ts, p))
    } else {
        let start = ts[p].span;
        match sp_expr(ts, p + 1) {
            Err(e) => Err(e),
            Ok((c, q1)) => if p < q1 <= ts.len() {
                match sp_block(ts, q1) {
                    Err(e) => Err(e),
                    Ok((b, q2)) => if p < q2 <= ts.len() {
                        let then = block_expr(b);
                        if at(ts, q2, TokenKind::Else) {
                            let branch = if at(ts, q2 + 1, TokenKind::If) {
                                sp_if(ts, q2 + 1)
                            } else {
                                match sp_block(ts, q2 + 1) {
                                    Err(e) => Err(e),
                                    Ok((b2, q3)) => Ok((block_expr(b2), q3)),
                                }
                            };
                            match branch {
                                Err(e) => Err(e),
                                Ok((els, q4)) => Ok((
                                    SExpr {
                                        kind: SExprKind::If(Box::new(c), Box::new(then), Some(Box::new(els))),
                                        span: span_join(start, prev_span(ts, q4)),
                                    },
                                    q4,
                                )),
                            }
                        } else {
                            Ok((
                                SExpr {
                                    kind: SExprKind::If(Box::new(c), Box::new(then), None),
                                    span: span_join(start, prev_span(ts, q2)),
                                },
                                q2,
                            ))
                        }
                    } else {
                        Err(eof(ts, p))
                    },
                }
            } else {
                Err(eof(ts, p))
            },
        }
    }
}

/// `|a, b| body` or `|| body`.
pub open spec fn sp_closure(ts: Seq<Token>, p: int) -> PRes<SExpr>
    decreases ts.len() - p, 28int,
{
    if !(0 <= p < ts.len()) {
        Err(eof(ts, p))
    } else {
        let start = ts[p].span;
        if ts[p].kind == TokenKind::Bar {
            match sp_id_list(ts, p, TokenKind::Bar, TokenKind::Bar) {
                Err(e) => Err(e),
                Ok((ps, q)) => if p < q <= ts.len() {
                    match sp_expr(ts, q) {
                        Err(e) => Err(e),
                        Ok((body, q1)) => Ok((
                            SExpr {
                                kind: SExprKind::Closure(ps, Box::new(body)),
                                span: span_join(start, prev_span(ts, q1)),
                            },
                            q1,
                        )),
                    }
                } else {
                    Err(eof(ts, p))
                },
            }
        } else {
            match sp_expr(ts, p + 1) {
                Err(e) => Err(e),
                Ok((body, q1)) => Ok((
                    SExpr {
                        kind: SExprKind::Closure(Seq::empty(), Box::new(body)),
                        span: span_join(start, prev_span(ts, q1)),
                    },
                    q1,
                )),
            }
        }
    }
}

// ---------------------------------------------------------------------------
// Statements and blocks
// ---------------------------------------------------------------------------

/// Whether a statement needs a semicolon when it does not end its block.
pub open spec fn sk_requires_semi(k: SStmtKind) -> bool {
    match k {
        SStmtKind::Expr(e) => !(e.kind is If || e.kind is Block),
        _ => true,
    }
}

pub open spec fn sp_block(ts: Seq<Token>, p: int) -> PRes<SBlock>
    decreases ts.len() - p, 1int,
{
    if !(0 <= p < ts.len()) {
        Err(eof(ts, p))
    } else {
        let start = ts[p].span;
        match sp_expect(ts, p, TokenKind::Lbrace) {
            Err(e) => Err(e),
            Ok(q) => close_block(ts, start, sp_stmt_items(ts, q)),
        }
    }
}

/// Consumes the closing brace of a block that began at `start` and whose
/// statements gave `items`.
pub open spec fn close_block(ts: Seq<Token>, start: Span, items: PRes<Seq<SStmt>>) -> PRes<SBlock> {
    match items {
        Err(e) => Err(e),
        Ok((ss, q1)) => match sp_expect(ts, q1, TokenKind::Rbrace) {
            Err(e) => Err(e),
            Ok(q2) => Ok((SBlock { span: span_join(start, prev_span(ts, q2)), stmts: ss }, q2)),
        },
    }
}

/// One statement read at `q`, before the closing brace: the statements from
/// `q` are it and those after it.
pub proof fn lemma_stmt_items_step(ts: Seq<Token>, q: int, s: SStmt, q1: int)
    requires
        !at(ts, q, TokenKind::Rbrace),
        sp_stmt(ts, q) == Ok::<_, ParseError>((s, q1)),
        q < q1 <= ts.len(),
    ensures
        sp_stmt_items(ts, q) == prepend(seq![s], sp_stmt_items(ts, q1)),
{
}

/// Statements up to the closing brace.
pub open spec fn sp_stmt_items(ts: Seq<Token>, q: int) -> PRes<Seq<SStmt>>
    decreases ts.len() - q, 56int,
{
    if at(ts, q, TokenKind::Rbrace) {
        Ok((Seq::empty(), q))
    } else {
        match sp_stmt(ts, q) {
            Err(e) => Err(e),
            Ok((s, q1)) => if q < q1 <= ts.len() {
                match sp_stmt_items(ts, q1) {
                    Err(e) => Err(e),
                    Ok((ss, q2)) => Ok((seq![s] + ss, q2)),
                }
            } else {
                Err(eof(ts, q))
            },
        }
    }
}

/// A statement with its span. A following semicolon is consumed; a statement
/// that needs one may go without it only when it ends its block, that is
/// when the next token is `}`.
pub open spec fn sp_stmt(ts: Seq<Token>, p: int) -> PRes<SStmt>
    decreases ts.len() - p, 55int,
{
    if !(0 <= p < ts.len()) {
        Err(eof(ts, p))
    } else {
        let start = ts[p].span;
        match sp_stmt_kind(ts, p) {
            Err(e) => Err(e),
            Ok((k, q)) => if at(ts, q, TokenKind::Semi) {
                Ok((SStmt { span: span_join(start, ts[q].span), kind: k }, q + 1))
            } else {
                let span = span_join(start, prev_span(ts, q));
                if !sk_requires_semi(k) || at(ts, q, TokenKind::Rbrace) {
                    Ok((SStmt { span, kind: k }, q))
                } else {
                    Err(ParseError::ExpectedSemicolon { span })
                }
            },
        }
    }
}

pub open spec fn sp_stmt_kind(ts: Seq<Token>, p: int) -> PRes<SStmtKind>
    decreases ts.len() - p, 54int,
{
    if !(0 <= p < ts.len()) {
        Err(eof(ts, p))
    } else if ts[p].kind == TokenKind::Let {
        sp_let(ts, p)
    } else {
        sp_expr_stmt(ts, p)
    }
}

pub open spec fn sp_expr_stmt(ts: Seq<Token>, p: int) -> PRes<SStmtKind>
    decreases ts.len() - p, 53int,
{
    match sp_expr(ts, p) {
        Err(e) => Err(e),
        Ok((e, q)) => if at(ts, q, TokenKind::Semi) {
            Ok((SStmtKind::Semi(e), q))
        } else {
            Ok((SStmtKind::Expr(e), q))
        },
    }
}

/// `let name [: hint] = expr`; `let` is at `p`.
pub open spec fn sp_let(ts: Seq<Token>, p: int) -> PRes<SStmtKind>
    decreases ts.len() - p, 53int,
{
    match sp_expect(ts, p + 1, TokenKind::Id) {
        Err(e) => Err(e),
        Ok(q1) => {
            let hint = if at(ts, q1, TokenKind::Colon) {
                sp_type_hint(ts, q1 + 1)
            } else {
                Ok((SHint::Infer, q1))
            };
            match hint {
                Err(e) => Err(e),
                Ok((h, q2)) => match sp_expect(ts, q2, TokenKind::Eq) {
                    Err(e) => Err(e),
                    Ok(q3) => if p < q3 <= ts.len() {
                        match sp_expr(ts, q3) {
                            Err(e) => Err(e),
                            Ok((e, q4)) => Ok((SStmtKind::Let(ts[p + 1].lexeme, h, e), q4)),
                        }
                    } else {
                        Err(eof(ts, p))
                    },
                },
            }
        },
    }
}


// ---------------------------------------------------------------------------
// Items
// ---------------------------------------------------------------------------

/// `name: hint`, the shape of a parameter and of a struct field.
pub open spec fn sp_param(ts: Seq<Token>, p: int) -> PRes<SParam> {
    if !(0 <= p < ts.len()) {
        Err(eof(ts, p))
    } else {
        let start = ts[p].span;
        match sp_expect(ts, p, TokenKind::Id) {
            Err(e) => Err(e),
            Ok(q1) => match sp_expect(ts, q1, TokenKind::Colon) {
                Err(e) => Err(e),
                Ok(q2) => match sp_type_hint(ts, q2) {
                    Err(e) => Err(e),
                    Ok((h, q3)) => Ok((SParam { span: span_join(start, prev_span(ts, q3)), name: ts[p].lexeme, hint: h }, q3)),
                },
            },
        }
    }
}

/// `( param, param, .. )`, a trailing comma allowed.
pub open spec fn sp_params(ts: Seq<Token>, p: int) -> PRes<Seq<SParam>> {
    match sp_expect(ts, p, TokenKind::Lparen) {
        Err(e) => Err(e),
        Ok(q) => {
            let items = if at(ts, q, TokenKind::Rparen) {
                Ok((Seq::empty(), q))
            } else {
                sp_param_items(ts, q)
            };
            close_list(ts, items, TokenKind::Rparen)
        }
    }
}

pub open spec fn sp_param_items(ts: Seq<Token>, q: int) -> PRes<Seq<SParam>>
    decreases ts.len() - q,
{
    match sp_param(ts, q) {
        Err(e) => Err(e),
        Ok((x, q1)) => if at(ts, q1, TokenKind::Comma) {
            if at(ts, q1 + 1, TokenKind::Rparen) {
                Ok((seq![x], q1 + 1))
            } else if q <= q1 {
                match sp_param_items(ts, q1 + 1) {
                    Err(e) => Err(e),
                    Ok((xs, q2)) => Ok((seq![x] + xs, q2)),
                }
            } else {
                Err(eof(ts, q))
            }
        } else {
            Ok((seq![x], q1))
        },
    }
}

/// A struct field reads as a parameter does.
pub open spec fn field_of(x: SParam) -> SField {
    SField { span: x.span, name: x.name, hint: x.hint }
}

/// `{ field, field, .. }`, a trailing comma allowed.
pub open spec fn sp_fields(ts: Seq<Token>, p: int) -> PRes<Seq<SField>> {
    match sp_expect(ts, p, TokenKind::Lbrace) {
        Err(e) => Err(e),
        Ok(q) => {
            let items = if at(ts, q, TokenKind::Rbrace) {
                Ok((Seq::empty(), q))
            } else {
                sp_field_items(ts, q)
            };
            close_list(ts, items, TokenKind::Rbrace)
        }
    }
}

pub open spec fn sp_field_items(ts: Seq<Token>, q: int) -> PRes<Seq<SField>>
    decreases ts.len() - q,
{
    match sp_param(ts, q) {
        Err(e) => Err(e),
        Ok((x, q1)) => if at(ts, q1, TokenKind::Comma) {
            if at(ts, q1 + 1, TokenKind::Rbrace) {
                Ok((seq![field_of(x)], q1 + 1))
            } else if q <= q1 {
                match sp_field_items(ts, q1 + 1) {
                    Err(e) => Err(e),
                    Ok((xs, q2)) => Ok((seq![field_of(x)] + xs, q2)),
                }
            } else {
                Err(eof(ts, q))
            }
        } else {
            Ok((seq![field_of(x)], q1))
        },
    }
}

/// `Name` or `Name(hint, ..)`.
pub open spec fn sp_variant(ts: Seq<Token>, p: int) -> PRes<SVariant> {
    if !(0 <= p < ts.len()) {
        Err(eof(ts, p))
    } else {
        let start = ts[p].span;
        match sp_expect(ts, p, TokenKind::Id) {
            Err(e) => Err(e),
            Ok(q1) => {
                let params = if at(ts, q1, TokenKind::Lparen) {
                    sp_hint_list(ts, q1, TokenKind::Lparen, TokenKind::Rparen)
                } else {
                    Ok((Seq::empty(), q1))
                };
                match params {
                    Err(e) => Err(e),
                    Ok((ps, q2)) => Ok((SVariant { span: span_join(start, prev_span(ts, q2)), name: ts[p].lexeme, params: ps }, q2)),
                }
            },
        }
    }
}

/// `{ variant, variant, .. }`, a trailing comma allowed.
pub open spec fn sp_variants(ts: Seq<Token>, p: int) -> PRes<Seq<SVariant>> {
    match sp_expect(ts, p, TokenKind::Lbrace) {
        Err(e) => Err(e),
        Ok(q) => {
            let items = if at(ts, q, TokenKind::Rbrace) {
                Ok((Seq::empty(), q))
            } else {
                sp_variant_items(ts, q)
            };
            close_list(ts, items, TokenKind::Rbrace)
        }
    }
}

pub open spec fn sp_variant_items(ts: Seq<Token>, q: int) -> PRes<Seq<SVariant>>
    decreases ts.len() - q,
{
    match sp_variant(ts, q) {
        Err(e) => Err(e),
        Ok((x, q1)) => if at(ts, q1, TokenKind::Comma) {
            if at(ts, q1 + 1, TokenKind::Rbrace) {
                Ok((seq![x], q1 + 1))
            } else if q <= q1 {
                match sp_variant_items(ts, q1 + 1) {
                    Err(e) => Err(e),
                    Ok((xs, q2)) => Ok((seq![x] + xs, q2)),
                }
            } else {
                Err(eof(ts, q))
            }
        } else {
            Ok((seq![x], q1))
        },
    }
}

/// `struct Name<..> { .. }`; the keyword is at `p`.
pub open spec fn sp_struct(ts: Seq<Token>, p: int) -> PRes<SItemKind> {
    match sp_expect(ts, p + 1, TokenKind::Id) {
        Err(e) => Err(e),
        Ok(q1) => match sp_generic_params(ts, q1) {
            Err(e) => Err(e),
            Ok((gs, q2)) => match sp_fields(ts, q2) {
                Err(e) => Err(e),
                Ok((fs, q3)) => Ok((SItemKind::Struct(SStruct { name: ts[p + 1].lexeme, generics: gs, fields: fs }), q3)),
            },
        },
    }
}

/// `enum Name<..> { .. }`; the keyword is at `p`.
pub open spec fn sp_enum(ts: Seq<Token>, p: int) -> PRes<SItemKind> {
    match sp_expect(ts, p + 1, TokenKind::Id) {
        Err(e) => Err(e),
        Ok(q1) => match sp_generic_params(ts, q1) {
            Err(e) => Err(e),
            Ok((gs, q2)) => match sp_variants(ts, q2) {
                Err(e) => Err(e),
                Ok((vs, q3)) => Ok((SItemKind::Enum(SEnum { name: ts[p + 1].lexeme, generics: gs, variants: vs }), q3)),
            },
        },
    }
}

/// `fn name<..>(..) [-> hint] { .. }`; the keyword is at `p`.
pub open spec fn sp_function(ts: Seq<Token>, p: int) -> PRes<SItemKind> {
    match sp_expect(ts, p + 1, TokenKind::Id) {
        Err(e) => Err(e),
        Ok(q1) => match sp_generic_params(ts, q1) {
            Err(e) => Err(e),
            Ok((gs, q2)) => match sp_params(ts, q2) {
                Err(e) => Err(e),
                Ok((ps, q3)) => {
                    let ret = if at(ts, q3, TokenKind::Arrow) {
                        sp_type_hint(ts, q3 + 1)
                    } else {
                        Ok((SHint::Infer, q3))
                    };
                    match ret {
                        Err(e) => Err(e),
                        Ok((r, q4)) => match sp_block(ts, q4) {
                            Err(e) => Err(e),
                            Ok((b, q5)) => Ok((
                                SItemKind::Function(SFunction { name: ts[p + 1].lexeme, generics: gs, params: ps, ret: r, block: b }),
                                q5,
                            )),
                        },
                    }
                },
            },
        },
    }
}

/// `a/b/c`: the path text with `/` between the names.
pub open spec fn sp_use_path(ts: Seq<Token>, p: int) -> PRes<Seq<char>> {
    match sp_expect(ts, p, TokenKind::Id) {
        Err(e) => Err(e),
        Ok(q) => sp_use_path_rest(ts, q, ts[p].lexeme@),
    }
}

pub open spec fn sp_use_path_rest(ts: Seq<Token>, q: int, path: Seq<char>) -> PRes<Seq<char>>
    decreases ts.len() - q,
{
    if at(ts, q, TokenKind::Slash) {
        match sp_expect(ts, q + 1, TokenKind::Id) {
            Err(e) => Err(e),
            Ok(q2) => sp_use_path_rest(ts, q2, slash_join(path, ts[q + 1].lexeme@)),
        }
    } else {
        Ok((path, q))
    }
}

/// `use path`, `use path as name` or `use path for a, b`; the keyword is at `p`.
pub open spec fn sp_use(ts: Seq<Token>, p: int) -> PRes<SItemKind> {
    match sp_use_path(ts, p + 1) {
        Err(e) => Err(e),
        Ok((path, q)) => {
            let kind = if at(ts, q, TokenKind::As) {
                match sp_expect(ts, q + 1, TokenKind::Id) {
                    Err(e) => Err(e),
                    Ok(q2) => Ok((SUseKind::As(ts[q + 1].lexeme), q2)),
                }
            } else if at(ts, q, TokenKind::For) {
                match sp_id_seq(ts, q + 1) {
                    Err(e) => Err(e),
                    Ok((names, q2)) => Ok((SUseKind::For(names), q2)),
                }
            } else {
                Ok((SUseKind::Just, q))
            };
            match kind {
                Err(e) => Err(e),
                Ok((k, q2)) => Ok((SItemKind::Use(SUse { path, kind: k }), q2)),
            }
        },
    }
}

/// The item that the keyword at `p` starts.
pub open spec fn sp_item_kind(ts: Seq<Token>, p: int) -> PRes<SItemKind> {
    if !(0 <= p < ts.len()) {
        Err(eof(ts, p))
    } else {
        match ts[p].kind {
            TokenKind::Struct => sp_struct(ts, p),
            TokenKind::Enum => sp_enum(ts, p),
            TokenKind::Fn => sp_function(ts, p),
            TokenKind::Use => sp_use(ts, p),
            _ => Err(ParseError::UnexpectedItemToken { got: ts[p].kind, span: ts[p].span }),
        }
    }
}

/// A top-level item. The publicity is `Pub` when the item starts with
/// `pub`; the keyword is not consumed, so the item kind then reads `pub`.
pub open spec fn sp_item(ts: Seq<Token>, p: int) -> PRes<SItem> {
    if !(0 <= p < ts.len()) {
        Err(eof(ts, p))
    } else {
        let publicity = if ts[p].kind == TokenKind::Pub { Publicity::Pub } else { Publicity::Private };
        match sp_item_kind(ts, p) {
            Err(e) => Err(e),
            Ok((k, q)) => Ok((SItem { span: span_join(ts[p].span, prev_span(ts, q)), publicity, kind: k }, q)),
        }
    }
}

/// The items from `q` to the end of the input.
pub open spec fn sp_items(ts: Seq<Token>, q: int) -> Result<Seq<SItem>, ParseError>
    decreases ts.len() - q,
{
    if !(0 <= q < ts.len()) {
        Ok(Seq::empty())
    } else {
        match sp_item(ts, q) {
            Err(e) => Err(e),
            Ok((it, q1)) => if q < q1 <= ts.len() {
                match sp_items(ts, q1) {
                    Err(e) => Err(e),
                    Ok(rest) => Ok(seq![it] + rest),
                }
            } else {
                Err(eof(ts, q))
            },
        }
    }
}

/// The module that the whole token sequence spells.
pub open spec fn sp_module(ts: Seq<Token>) -> Result<SModule, ParseError> {
    match sp_items(ts, 0) {
        Err(e) => Err(e),
        Ok(items) => Ok(SModule { items }),
    }
}


// ---------------------------------------------------------------------------
// Lists over any item
// ---------------------------------------------------------------------------

/// `open item, item, .. close` read with the item grammar `item`, a
/// trailing comma allowed: what every bracketed list of the grammar is.
pub open spec fn sp_sep_by<A>(ts: Seq<Token>, p: int, open: TokenKind, close: TokenKind, item: spec_fn(int) -> PRes<A>) -> PRes<Seq<A>> {
    match sp_expect(ts, p, open) {
        Err(e) => Err(e),
        Ok(q) => {
            let items = if at(ts, q, close) {
                Ok((Seq::empty(), q))
            } else {
                sp_sep_items(ts, q, close, item)
            };
            close_list(ts, items, close)
        },
    }
}

/// The items of a bracketed list from `q` on, up to the closing token.
pub open spec fn sp_sep_items<A>(ts: Seq<Token>, q: int, close: TokenKind, item: spec_fn(int) -> PRes<A>) -> PRes<Seq<A>>
    decreases ts.len() - q,
{
    match item(q) {
        Err(e) => Err(e),
        Ok((x, q1)) => if at(ts, q1, TokenKind::Comma) {
            if at(ts, q1 + 1, close) {
                Ok((seq![x], q1 + 1))
            } else if q <= q1 {
                prepend(seq![x], sp_sep_items(ts, q1 + 1, close, item))
            } else {
                Err(eof(ts, q))
            }
        } else {
            Ok((seq![x], q1))
        },
    }
}

/// `item, item, ..` read with `item`: at least one item, no brackets and no
/// trailing comma.
pub open spec fn sp_sep_seq<A>(ts: Seq<Token>, q: int, item: spec_fn(int) -> PRes<A>) -> PRes<Seq<A>>
    decreases ts.len() - q,
{
    match item(q) {
        Err(e) => Err(e),
        Ok((x, q1)) => if at(ts, q1, TokenKind::Comma) && q <= q1 {
            prepend(seq![x], sp_sep_seq(ts, q1 + 1, item))
        } else {
            Ok((seq![x], q1))
        },
    }
}

/// The item grammars of the lists.
pub open spec fn hint_item(ts: Seq<Token>) -> spec_fn(int) -> PRes<SHint> {
    |r: int| sp_type_hint(ts, r)
}

pub open spec fn id_item(ts: Seq<Token>) -> spec_fn(int) -> PRes<String> {
    |r: int| match sp_expect(ts, r, TokenKind::Id) {
        Err(e) => Err(e),
        Ok(q1) => Ok((ts[r].lexeme, q1)),
    }
}

pub open spec fn expr_item(ts: Seq<Token>) -> spec_fn(int) -> PRes<SExpr> {
    |r: int| sp_expr(ts, r)
}

pub open spec fn param_item(ts: Seq<Token>) -> spec_fn(int) -> PRes<SParam> {
    |r: int| sp_param(ts, r)
}

pub open spec fn field_item(ts: Seq<Token>) -> spec_fn(int) -> PRes<SField> {
    |r: int| match sp_param(ts, r) {
        Err(e) => Err(e),
        Ok((x, q1)) => Ok((field_of(x), q1)),
    }
}

pub open spec fn variant_item(ts: Seq<Token>) -> spec_fn(int) -> PRes<SVariant> {
    |r: int| sp_variant(ts, r)
}

} // verus!
