//! Laws of the parser stated over the tokens it reads: how infix operators
//! group, what prefix operators, `if`, closures and postfix chains build,
//! when a statement may go without its semicolon, what a block holds, what
//! a bracketed list contributes to a type hint, a variant, a struct, an enum
//! or a function, and how a use path is spelled. The executable parser
//! computes the grammar functions exactly, so each law holds of it too.

use vstd::prelude::*;
use crate::ast::{BinOp, UnOp, SBlock, SEnum, SVariant, Publicity, SExpr, SExprKind, SField, SHint, SItem, SItemKind, SStmt, SStmtKind, SStruct};
use crate::errors::ParseError;
use crate::grammar::{
    at, hint_item, id_item, infix_at, level_infix, sp_binary, sp_binary_rest, sp_expr, sp_fields, sp_item,
    sp_atom, sp_postfix, sp_stmt, sp_fn_type_hint, sp_if, sp_closure, sp_id_list, sp_block, sp_use_path, sp_use_path_rest, sp_hint_list, sp_variant, sp_variants, sp_enum, sp_function, sk_requires_semi, infix_node, sp_expect, sp_expr_list, sp_generic_params, sp_struct, sp_item_kind, sp_stmt_items, prepend, lemma_stmt_items_step, sp_generic_args, sp_id_type_hint, sp_stmt_kind, sp_type_hint, sp_unary, sp_variable, Infix, PRes,
};
use crate::lists::{chained, law_hint_list_is_sep_by, law_id_list_is_sep_by, law_sep_by};
use crate::token::{span_join, Span, Token, TokenKind};

verus! {

// ---------------------------------------------------------------------------
// Operator chains
// ---------------------------------------------------------------------------

/// `*`, `/` and `%`: the operators of the tightest infix level.
pub open spec fn is_factor_op(k: TokenKind) -> bool {
    k == TokenKind::Star || k == TokenKind::Slash || k == TokenKind::Percent
}

/// The operation a factor operator stands for.
pub open spec fn factor_op(k: TokenKind) -> BinOp {
    match k {
        TokenKind::Star => BinOp::Mul,
        TokenKind::Slash => BinOp::Div,
        _ => BinOp::Mod,
    }
}

/// The `i`-th operand of a chain that starts at `p` is an identifier.
pub open spec fn chain_id_at(ts: Seq<Token>, p: int, i: int) -> bool {
    at(ts, p + 2 * i, TokenKind::Id)
}

/// The operator before the `i`-th operand of a chain that starts at `p`
/// is a factor operator.
pub open spec fn chain_op_at(ts: Seq<Token>, p: int, i: int) -> bool {
    0 <= p + 2 * i - 1 < ts.len() && is_factor_op(ts[p + 2 * i - 1].kind)
}

/// From `p` on the tokens spell `x0 op1 x1 .. opn xn`: identifiers joined
/// by factor operators.
pub open spec fn factor_chain(ts: Seq<Token>, p: int, n: nat) -> bool {
    &&& 0 <= p
    &&& forall|i: int| 0 <= i <= n ==> #[trigger] chain_id_at(ts, p, i)
    &&& forall|i: int| 0 < i <= n ==> #[trigger] chain_op_at(ts, p, i)
}

/// The token at `q` neither continues an operand (`.` or `(`) nor is a
/// factor operator; the end of the input counts as such a token.
pub open spec fn ends_factor(ts: Seq<Token>, q: int) -> bool {
    0 <= q < ts.len() ==> !(is_factor_op(ts[q].kind) || ts[q].kind == TokenKind::Dot
        || ts[q].kind == TokenKind::Lparen)
}

/// No infix operator of any level stands at `q`.
pub open spec fn ends_expr(ts: Seq<Token>, q: int) -> bool {
    forall|l: nat| l <= 9 ==> #[trigger] infix_at(ts, q, l) is None
}

/// An identifier as an expression.
pub open spec fn id_expr(t: Token) -> SExpr {
    SExpr { kind: SExprKind::Id(t.lexeme), span: t.span }
}

/// The tree of `x0 op1 x1 .. opn xn` grouped to the left:
/// `((x0 op1 x1) op2 x2) ..`, each node spanning from `x0` to its right
/// operand.
pub open spec fn left_nested(ts: Seq<Token>, p: int, n: nat) -> SExpr
    decreases n,
{
    if n == 0 {
        id_expr(ts[p])
    } else {
        SExpr {
            kind: SExprKind::Bin(
                factor_op(ts[p + 2 * n - 1].kind),
                Box::new(left_nested(ts, p, (n - 1) as nat)),
                Box::new(id_expr(ts[p + 2 * n])),
            ),
            span: span_join(ts[p].span, ts[p + 2 * n].span),
        }
    }
}

/// An identifier not followed by `.` or `(` is a whole unary operand.
proof fn lemma_id_operand(ts: Seq<Token>, q: int)
    requires
        0 <= q,
        at(ts, q, TokenKind::Id),
        !at(ts, q + 1, TokenKind::Dot),
        !at(ts, q + 1, TokenKind::Lparen),
    ensures
        sp_unary(ts, q) == Ok::<_, ParseError>((id_expr(ts[q]), q + 1)),
{
    assert(sp_postfix(ts, q + 1, ts[q].span, id_expr(ts[q])) == Ok::<_, ParseError>((id_expr(ts[q]), q + 1)));
    assert(sp_variable(ts, q) == Ok::<_, ParseError>((id_expr(ts[q]), q + 1)));
    assert(sp_atom(ts, q) == sp_variable(ts, q));
}

proof fn lemma_factor_rest(ts: Seq<Token>, p: int, n: nat, k: nat)
    requires
        factor_chain(ts, p, n),
        ends_factor(ts, p + 2 * n + 1),
        k <= n,
    ensures
        sp_binary_rest(ts, p + 2 * k + 1, 0, ts[p].span, left_nested(ts, p, k))
            == Ok::<_, ParseError>((left_nested(ts, p, n), p + 2 * n + 1)),
    decreases n - k,
{
    let q = p + 2 * k + 1;
    assert(chain_id_at(ts, p, n as int));
    if k == n {
        assert(infix_at(ts, q, 0) is None);
    } else {
        assert(chain_op_at(ts, p, k + 1 as int));
        assert(chain_id_at(ts, p, k + 1 as int));
        let b = factor_op(ts[q].kind);
        assert(level_infix(0, ts[q].kind) == Some(Infix::Bin(b)));
        if k + 1 < n {
            assert(chain_op_at(ts, p, k + 2 as int));
        }
        lemma_id_operand(ts, q + 1);
        lemma_factor_rest(ts, p, n, k + 1);
        assert(left_nested(ts, p, k + 1) == SExpr {
            kind: SExprKind::Bin(b, Box::new(left_nested(ts, p, k)), Box::new(id_expr(ts[q + 1]))),
            span: span_join(ts[p].span, ts[q + 1].span),
        });
    }
}

/// With no operator of a looser level after it, a factor-level expression
/// is the whole expression.
proof fn lemma_lift(ts: Seq<Token>, p: int, e: SExpr, q: int, level: nat)
    requires
        0 <= p < q <= ts.len(),
        sp_binary(ts, p, 0) == Ok::<_, ParseError>((e, q)),
        ends_expr(ts, q),
        level <= 9,
    ensures
        sp_binary(ts, p, level) == Ok::<_, ParseError>((e, q)),
    decreases level,
{
    if level > 0 {
        lemma_lift(ts, p, e, q, (level - 1) as nat);
        assert(infix_at(ts, q, level) is None);
        assert(sp_binary_rest(ts, q, level, ts[p].span, e) == Ok::<_, ParseError>((e, q)));
    }
}

/// What the first operand of an operator of `level` is read as: a unary
/// expression at the factor level, else an expression of the next tighter
/// level.
pub open spec fn left_operand(ts: Seq<Token>, p: int, level: nat) -> PRes<SExpr> {
    if level == 0 {
        sp_unary(ts, p)
    } else {
        sp_binary(ts, p, (level - 1) as nat)
    }
}

/// What the operand after an operator of `level` is read as: as the first
/// operand, but for a comparison, whose right operand is read at the
/// factor level.
pub open spec fn right_operand(ts: Seq<Token>, q: int, level: nat) -> PRes<SExpr> {
    if level == 2 {
        sp_binary(ts, q, 0)
    } else {
        left_operand(ts, q, level)
    }
}

/// Every infix level groups to the left: `x0 op1 x1 op2 x2`, with the
/// operators of one level and no third operator of that level after `x2`,
/// reads as `(x0 op1 x1) op2 x2`, each node spanning from `x0` to its right
/// operand, and ends after `x2`.
pub proof fn law_infix_groups_left(
    ts: Seq<Token>,
    p: int,
    level: nat,
    x0: SExpr,
    q0: int,
    op1: Infix,
    x1: SExpr,
    q1: int,
    op2: Infix,
    x2: SExpr,
    q2: int,
)
    requires
        level <= 9,
        0 <= p < q0,
        q0 + 1 < q1,
        q1 + 1 < q2 <= ts.len(),
        left_operand(ts, p, level) == Ok::<_, ParseError>((x0, q0)),
        infix_at(ts, q0, level) == Some(op1),
        right_operand(ts, q0 + 1, level) == Ok::<_, ParseError>((x1, q1)),
        infix_at(ts, q1, level) == Some(op2),
        right_operand(ts, q1 + 1, level) == Ok::<_, ParseError>((x2, q2)),
        infix_at(ts, q2, level) is None,
    ensures
        sp_binary(ts, p, level) == Ok::<_, ParseError>(
            (
                infix_node(
                    op2,
                    infix_node(op1, x0, x1, span_join(ts[p].span, ts[q1 - 1].span)),
                    x2,
                    span_join(ts[p].span, ts[q2 - 1].span),
                ),
                q2,
            ),
        ),
{
    let start = ts[p].span;
    let n1 = infix_node(op1, x0, x1, span_join(start, ts[q1 - 1].span));
    let n2 = infix_node(op2, n1, x2, span_join(start, ts[q2 - 1].span));
    assert(sp_binary_rest(ts, q2, level, start, n2) == Ok::<_, ParseError>((n2, q2)));
    assert(sp_binary_rest(ts, q1, level, start, n1) == Ok::<_, ParseError>((n2, q2)));
    assert(sp_binary_rest(ts, q0, level, start, x0) == Ok::<_, ParseError>((n2, q2)));
}

/// `*`, `/` and `%` group to the left: identifiers joined by factor
/// operators, `x0 op1 x1 .. opn xn`, read at the factor level give
/// `((x0 op1 x1) op2 x2) ..` and end after `xn`; read as a whole expression
/// they give the same when no operator follows.
pub proof fn law_factor_ops_group_left(ts: Seq<Token>, p: int, n: nat)
    requires
        factor_chain(ts, p, n),
        ends_factor(ts, p + 2 * n + 1),
    ensures
        sp_binary(ts, p, 0) == Ok::<_, ParseError>((left_nested(ts, p, n), p + 2 * n + 1)),
        ends_expr(ts, p + 2 * n + 1) ==> sp_expr(ts, p) == Ok::<_, ParseError>(
            (left_nested(ts, p, n), p + 2 * n + 1),
        ),
{
    assert(chain_id_at(ts, p, 0));
    assert(chain_id_at(ts, p, n as int));
    if n > 0 {
        assert(chain_op_at(ts, p, 1));
    }
    lemma_id_operand(ts, p);
    lemma_factor_rest(ts, p, n, 0);
    if ends_expr(ts, p + 2 * n + 1) {
        lemma_lift(ts, p, left_nested(ts, p, n), p + 2 * n + 1, 9);
    }
}

// ---------------------------------------------------------------------------
// Prefix operators, `if`, closures
// ---------------------------------------------------------------------------

/// The operation of a supported prefix operator: `-`, `!` and `*`.
pub open spec fn prefix_of(k: TokenKind) -> UnOp {
    match k {
        TokenKind::Minus => UnOp::Neg,
        TokenKind::Bang => UnOp::Bang,
        _ => UnOp::Deref,
    }
}

/// A prefix operator applies to the unary expression after it: for `-`,
/// `!` or `*` followed by an operand that reads as `v`, the result is that
/// operation on `v`, spanning from the operator to the operand's end; a
/// prefix `&` is refused as unsupported, at its own span.
pub proof fn law_prefix_operator(ts: Seq<Token>, p: int, v: SExpr, q: int)
    requires
        0 <= p < ts.len(),
    ensures
        (ts[p].kind == TokenKind::Minus || ts[p].kind == TokenKind::Bang || ts[p].kind == TokenKind::Star)
            && sp_unary(ts, p + 1) == Ok::<_, ParseError>((v, q)) ==> sp_unary(ts, p) == Ok::<_, ParseError>(
            (
                SExpr {
                    kind: SExprKind::Unary(prefix_of(ts[p].kind), Box::new(v)),
                    span: span_join(ts[p].span, ts[q - 1].span),
                },
                q,
            ),
        ),
        ts[p].kind == TokenKind::Ampersand ==> sp_unary(ts, p) == Err::<(SExpr, int), _>(
            ParseError::UnsupportedUnaryOp { span: ts[p].span },
        ),
{
}

/// A block as an expression, with the block's span.
pub open spec fn block_value(b: SBlock) -> SExpr {
    SExpr { kind: SExprKind::Block(Box::new(b)), span: b.span }
}

proof fn lemma_if_operand(ts: Seq<Token>, p: int)
    requires
        0 <= p,
        at(ts, p, TokenKind::If),
    ensures
        sp_unary(ts, p) == sp_if(ts, p),
{
    assert(sp_atom(ts, p) == sp_if(ts, p));
}

/// An `if` is its condition, its block and its `else`: for
/// `if c { .. }` with condition `c` read up to the block `b`, the operand is
/// `if c b` with no else, ending after the block; with `else { .. }` after
/// it, whose block reads as `b2` up to `q3`, that block is the third part
/// and the `if` ends at `q3`; with `else if ..`, whose nested `if` reads as
/// `e2` up to `q3`, that `if` is the third part.
pub proof fn law_if_parts(
    ts: Seq<Token>,
    p: int,
    c: SExpr,
    q1: int,
    b: SBlock,
    q2: int,
    b2: SBlock,
    e2: SExpr,
    q3: int,
)
    requires
        0 <= p,
        at(ts, p, TokenKind::If),
        sp_expr(ts, p + 1) == Ok::<_, ParseError>((c, q1)),
        p < q1,
        sp_block(ts, q1) == Ok::<_, ParseError>((b, q2)),
        q1 < q2 <= ts.len(),
    ensures
        !at(ts, q2, TokenKind::Else) ==> sp_unary(ts, p) == Ok::<_, ParseError>(
            (
                SExpr {
                    kind: SExprKind::If(Box::new(c), Box::new(block_value(b)), None),
                    span: span_join(ts[p].span, ts[q2 - 1].span),
                },
                q2,
            ),
        ),
        at(ts, q2, TokenKind::Else) && !at(ts, q2 + 1, TokenKind::If)
                && sp_block(ts, q2 + 1) == Ok::<_, ParseError>((b2, q3)) ==> sp_unary(ts, p)
                == Ok::<_, ParseError>(
                (
                    SExpr {
                        kind: SExprKind::If(Box::new(c), Box::new(block_value(b)), Some(Box::new(block_value(b2)))),
                        span: span_join(ts[p].span, ts[q3 - 1].span),
                    },
                    q3,
                ),
            ),
        at(ts, q2, TokenKind::Else) && at(ts, q2 + 1, TokenKind::If)
                && sp_if(ts, q2 + 1) == Ok::<_, ParseError>((e2, q3)) ==> sp_unary(ts, p)
                == Ok::<_, ParseError>(
                (
                    SExpr {
                        kind: SExprKind::If(Box::new(c), Box::new(block_value(b)), Some(Box::new(e2))),
                        span: span_join(ts[p].span, ts[q3 - 1].span),
                    },
                    q3,
                ),
            ),
{
    lemma_if_operand(ts, p);
}

/// A closure's parameters are the names between its bars and its body the
/// expression after them: `| a0, .., an-1 | body` reads as the closure of
/// `a0 .. an-1`, in order, over `body`, spanning from the first bar to the
/// body's end; `|| body` has no parameters.
pub proof fn law_closure_parts(ts: Seq<Token>, p: int, n: nat, body: SExpr, q: int)
    requires
        0 <= p,
    ensures
        names_between(ts, p, n, TokenKind::Bar, TokenKind::Bar)
            && sp_expr(ts, p + 2 * n + 1) == Ok::<_, ParseError>((body, q)) ==> sp_unary(ts, p)
            == Ok::<_, ParseError>(
            (
                SExpr {
                    kind: SExprKind::Closure(list_names(ts, p, n), Box::new(body)),
                    span: span_join(ts[p].span, ts[q - 1].span),
                },
                q,
            ),
        ),
        at(ts, p, TokenKind::DoubleBar) && sp_expr(ts, p + 1) == Ok::<_, ParseError>((body, q)) ==> sp_unary(ts, p)
            == Ok::<_, ParseError>(
            (
                SExpr {
                    kind: SExprKind::Closure(Seq::empty(), Box::new(body)),
                    span: span_join(ts[p].span, ts[q - 1].span),
                },
                q,
            ),
        ),
{
    if names_between(ts, p, n, TokenKind::Bar, TokenKind::Bar) {
        lemma_id_list(ts, p, n, TokenKind::Bar, TokenKind::Bar);
        assert(sp_atom(ts, p) == sp_closure(ts, p));
    }
    if at(ts, p, TokenKind::DoubleBar) {
        assert(sp_atom(ts, p) == sp_closure(ts, p));
    }
}

// ---------------------------------------------------------------------------
// Statements
// ---------------------------------------------------------------------------

/// An `if` or a block needs no semicolon, wherever it stands in its block:
/// when the statement at `p` reads as an expression that is an `if` or a
/// block and no `;` follows it, the statement ends right after it, spans
/// from its first to its last token, and is that expression.
pub proof fn law_if_or_block_needs_no_semicolon(ts: Seq<Token>, p: int, e: SExpr, q: int)
    requires
        0 <= p < q <= ts.len(),
        sp_stmt_kind(ts, p) == Ok::<_, ParseError>((SStmtKind::Expr(e), q)),
        e.kind is If || e.kind is Block,
        !at(ts, q, TokenKind::Semi),
    ensures
        sp_stmt(ts, p) == Ok::<_, ParseError>(
            (SStmt { span: span_join(ts[p].span, ts[q - 1].span), kind: SStmtKind::Expr(e) }, q),
        ),
{
    assert(!sk_requires_semi(SStmtKind::Expr(e)));
}

/// Inside a block, a statement that is an `if` or a block and has no `;`
/// is followed by the next statement: the statements read from `p` are it
/// and then those read from right after it.
pub proof fn law_if_or_block_then_next_statement(ts: Seq<Token>, p: int, e: SExpr, q: int)
    requires
        0 <= p < q <= ts.len(),
        !at(ts, p, TokenKind::Rbrace),
        sp_stmt_kind(ts, p) == Ok::<_, ParseError>((SStmtKind::Expr(e), q)),
        e.kind is If || e.kind is Block,
        !at(ts, q, TokenKind::Semi),
    ensures
        sp_stmt_items(ts, p) == prepend(
            seq![SStmt { span: span_join(ts[p].span, ts[q - 1].span), kind: SStmtKind::Expr(e) }],
            sp_stmt_items(ts, q),
        ),
{
    law_if_or_block_needs_no_semicolon(ts, p, e, q);
    lemma_stmt_items_step(ts, p, SStmt { span: span_join(ts[p].span, ts[q - 1].span), kind: SStmtKind::Expr(e) }, q);
}

/// A `let` statement is its name, its hint and its value: for
/// `let x : h = e` the statement kind binds `x` with the hint read after
/// the colon and the expression read after `=`; for `let x = e` the hint
/// is left to inference.
pub proof fn law_let_parts(ts: Seq<Token>, p: int, h: SHint, q2: int, e: SExpr, q4: int)
    requires
        0 <= p,
        at(ts, p, TokenKind::Let),
        at(ts, p + 1, TokenKind::Id),
    ensures
        at(ts, p + 2, TokenKind::Colon) && sp_type_hint(ts, p + 3) == Ok::<_, ParseError>((h, q2))
            && at(ts, q2, TokenKind::Eq) && p < q2 && sp_expr(ts, q2 + 1) == Ok::<_, ParseError>((e, q4))
            ==> sp_stmt_kind(ts, p) == Ok::<_, ParseError>((SStmtKind::Let(ts[p + 1].lexeme, h, e), q4)),
        at(ts, p + 2, TokenKind::Eq) && sp_expr(ts, p + 3) == Ok::<_, ParseError>((e, q4)) ==> sp_stmt_kind(ts, p)
            == Ok::<_, ParseError>((SStmtKind::Let(ts[p + 1].lexeme, SHint::Infer, e), q4)),
{
}

/// A statement followed by `;` takes it: the statement ends after the `;`
/// and spans from its first token to the `;`.
pub proof fn law_statement_takes_semicolon(ts: Seq<Token>, p: int, k: SStmtKind, q: int)
    requires
        0 <= p < ts.len(),
        sp_stmt_kind(ts, p) == Ok::<_, ParseError>((k, q)),
        at(ts, q, TokenKind::Semi),
    ensures
        sp_stmt(ts, p) == Ok::<_, ParseError>((SStmt { span: span_join(ts[p].span, ts[q].span), kind: k }, q + 1)),
{
}

/// A statement that is neither an `if` nor a block needs its semicolon
/// unless it ends its block: with neither `;` nor `}` after it, the
/// statement is refused with the error of a missing semicolon, which
/// spans the statement.
pub proof fn law_missing_semicolon_refused(ts: Seq<Token>, p: int, k: SStmtKind, q: int)
    requires
        0 <= p < ts.len(),
        sp_stmt_kind(ts, p) == Ok::<_, ParseError>((k, q)),
        !(k matches SStmtKind::Expr(e) && (e.kind is If || e.kind is Block)),
        !at(ts, q, TokenKind::Semi),
        !at(ts, q, TokenKind::Rbrace),
    ensures
        sp_stmt(ts, p) == Err::<(SStmt, int), _>(
            ParseError::ExpectedSemicolon { span: span_join(ts[p].span, ts[q - 1].span) },
        ),
{
    assert(sk_requires_semi(k));
}

/// The last statement of a block needs no semicolon: with `}` after it, a
/// statement of any kind ends right after its last token.
pub proof fn law_last_statement_needs_no_semicolon(ts: Seq<Token>, p: int, k: SStmtKind, q: int)
    requires
        0 <= p < ts.len(),
        sp_stmt_kind(ts, p) == Ok::<_, ParseError>((k, q)),
        at(ts, q, TokenKind::Rbrace),
    ensures
        sp_stmt(ts, p) == Ok::<_, ParseError>((SStmt { span: span_join(ts[p].span, ts[q - 1].span), kind: k }, q)),
{
}

/// The `i`-th statement of a block runs from `b[i]` to `b[i + 1]`.
pub open spec fn stmt_at(ts: Seq<Token>, b: Seq<int>, ss: Seq<SStmt>, i: int) -> bool {
    &&& b[i] < b[i + 1] <= ts.len()
    &&& !at(ts, b[i], TokenKind::Rbrace)
    &&& sp_stmt(ts, b[i]) == Ok::<_, ParseError>((ss[i], b[i + 1]))
}

/// From `p` on the tokens are `{`, the statements `ss` one after the
/// other, the `i`-th from `b[i]` to `b[i + 1]`, and `}` at `b[n]`.
pub open spec fn block_of(ts: Seq<Token>, p: int, b: Seq<int>, ss: Seq<SStmt>) -> bool {
    &&& 0 <= p
    &&& at(ts, p, TokenKind::Lbrace)
    &&& b.len() == ss.len() + 1
    &&& b[0] == p + 1
    &&& forall|i: int| 0 <= i < ss.len() ==> #[trigger] stmt_at(ts, b, ss, i)
    &&& at(ts, b[ss.len() as int], TokenKind::Rbrace)
}

proof fn lemma_block_items(ts: Seq<Token>, p: int, b: Seq<int>, ss: Seq<SStmt>, k: int)
    requires
        block_of(ts, p, b, ss),
        0 <= k <= ss.len(),
    ensures
        sp_stmt_items(ts, b[k]) == Ok::<_, ParseError>((ss.subrange(k, ss.len() as int), b[ss.len() as int])),
    decreases ss.len() - k,
{
    let n = ss.len() as int;
    if k < n {
        assert(stmt_at(ts, b, ss, k));
        lemma_stmt_items_step(ts, b[k], ss[k], b[k + 1]);
        lemma_block_items(ts, p, b, ss, k + 1);
        assert(seq![ss[k]] + ss.subrange(k + 1, n) =~= ss.subrange(k, n));
    } else {
        assert(ss.subrange(n, n) =~= Seq::<SStmt>::empty());
    }
}

/// A block is its statements in order: `{ s0 .. sn-1 }`, each statement
/// read right after the one before, gives a block of exactly those
/// statements, spanning from `{` to `}`, and ends after `}`.
pub proof fn law_block_statements(ts: Seq<Token>, p: int, b: Seq<int>, ss: Seq<SStmt>)
    requires
        block_of(ts, p, b, ss),
    ensures
        sp_block(ts, p) == Ok::<_, ParseError>(
            (SBlock { span: span_join(ts[p].span, ts[b[ss.len() as int]].span), stmts: ss }, b[ss.len() as int] + 1),
        ),
{
    lemma_block_items(ts, p, b, ss, 0);
    assert(ss.subrange(0, ss.len() as int) =~= ss);
}

// ---------------------------------------------------------------------------
// Bracketed lists of type hints and names
// ---------------------------------------------------------------------------

/// After the opening token at `o`, the hints `hs` are read one after the
/// other, the `i`-th from `starts[i]` to `ends[i]`, with commas between
/// them (and maybe one after the last), and the closing token `close`
/// stands at `last`.
pub open spec fn hints_between(
    ts: Seq<Token>,
    o: int,
    close: TokenKind,
    hs: Seq<SHint>,
    starts: Seq<int>,
    ends: Seq<int>,
    last: int,
) -> bool {
    &&& chained(ts, hint_item(ts), hs, starts, ends)
    &&& hs.len() == 0 ==> last == o + 1
    &&& hs.len() > 0 ==> starts[0] == o + 1 && !at(ts, o + 1, close)
    &&& forall|i: int| 0 < i < hs.len() ==> !at(ts, #[trigger] starts[i], close)
    &&& hs.len() > 0 ==> if at(ts, ends[hs.len() - 1], TokenKind::Comma) {
        at(ts, ends[hs.len() - 1] + 1, close) && last == ends[hs.len() - 1] + 1
    } else {
        last == ends[hs.len() - 1]
    }
    &&& at(ts, last, close)
}

proof fn lemma_hint_list(
    ts: Seq<Token>,
    o: int,
    open: TokenKind,
    close: TokenKind,
    hs: Seq<SHint>,
    starts: Seq<int>,
    ends: Seq<int>,
    last: int,
)
    requires
        0 <= o,
        at(ts, o, open),
        hints_between(ts, o, close, hs, starts, ends, last),
    ensures
        sp_hint_list(ts, o, open, close) == Ok::<_, ParseError>((hs, last + 1)),
{
    law_hint_list_is_sep_by(ts, o, open, close);
    law_sep_by(ts, o, open, close, hint_item(ts), hs, starts, ends, last);
}

/// The arguments of a local type hint are the hints of its `<..>` list:
/// for `name < h1, .., hn >` the type hint is `name` with exactly the hints
/// read between the angle brackets as its arguments, in order, and it ends
/// after `>`.
pub proof fn law_local_hint_args(
    ts: Seq<Token>,
    p: int,
    hs: Seq<SHint>,
    starts: Seq<int>,
    ends: Seq<int>,
    last: int,
)
    requires
        0 <= p,
        at(ts, p, TokenKind::Id),
        at(ts, p + 1, TokenKind::Lt),
        hints_between(ts, p + 1, TokenKind::Gt, hs, starts, ends, last),
    ensures
        sp_type_hint(ts, p) == Ok::<_, ParseError>(
            (SHint::Local { span: span_join(ts[p].span, ts[last].span), name: ts[p].lexeme, args: hs }, last + 1),
        ),
{
    lemma_hint_list(ts, p + 1, TokenKind::Lt, TokenKind::Gt, hs, starts, ends, last);
    assert(sp_generic_args(ts, p + 1) == Ok::<_, ParseError>((hs, last + 1)));
    assert(sp_id_type_hint(ts, p) == Ok::<_, ParseError>(
        (SHint::Local { span: span_join(ts[p].span, ts[last].span), name: ts[p].lexeme, args: hs }, last + 1),
    ));
}

/// The arguments of a type hint from another module are the hints of its
/// `<..>` list: for `module . name < h1, .., hn >` the type hint names
/// `name` in `module` with exactly the hints read between the angle
/// brackets as its arguments, in order, and it ends after `>`.
pub proof fn law_module_hint_args(
    ts: Seq<Token>,
    p: int,
    hs: Seq<SHint>,
    starts: Seq<int>,
    ends: Seq<int>,
    last: int,
)
    requires
        0 <= p,
        at(ts, p, TokenKind::Id),
        at(ts, p + 1, TokenKind::Dot),
        at(ts, p + 2, TokenKind::Id),
        at(ts, p + 3, TokenKind::Lt),
        hints_between(ts, p + 3, TokenKind::Gt, hs, starts, ends, last),
    ensures
        sp_type_hint(ts, p) == Ok::<_, ParseError>(
            (
                SHint::Module {
                    span: span_join(ts[p].span, ts[last].span),
                    module: ts[p].lexeme,
                    name: ts[p + 2].lexeme,
                    args: hs,
                },
                last + 1,
            ),
        ),
{
    lemma_hint_list(ts, p + 3, TokenKind::Lt, TokenKind::Gt, hs, starts, ends, last);
    assert(sp_generic_args(ts, p + 3) == Ok::<_, ParseError>((hs, last + 1)));
    assert(sp_id_type_hint(ts, p) == Ok::<_, ParseError>(
        (
            SHint::Module {
                span: span_join(ts[p].span, ts[last].span),
                module: ts[p].lexeme,
                name: ts[p + 2].lexeme,
                args: hs,
            },
            last + 1,
        ),
    ));
}

/// The parameters of an enum variant are the hints of its `(..)` list: for
/// `Name ( h1, .., hn )` the variant is named `Name`, has exactly the hints
/// read between the brackets as its parameters, in order, spans from the
/// name to `)`, and ends after `)`.
pub proof fn law_variant_params(
    ts: Seq<Token>,
    p: int,
    hs: Seq<SHint>,
    starts: Seq<int>,
    ends: Seq<int>,
    last: int,
)
    requires
        0 <= p,
        at(ts, p, TokenKind::Id),
        at(ts, p + 1, TokenKind::Lparen),
        hints_between(ts, p + 1, TokenKind::Rparen, hs, starts, ends, last),
    ensures
        sp_variant(ts, p) == Ok::<_, ParseError>(
            (SVariant { span: span_join(ts[p].span, ts[last].span), name: ts[p].lexeme, params: hs }, last + 1),
        ),
{
    lemma_hint_list(ts, p + 1, TokenKind::Lparen, TokenKind::Rparen, hs, starts, ends, last);
}

/// A function type hint is its parameter hints and its return hint: for
/// `fn ( h1, .., hn ) -> r` the type hint has exactly the hints read
/// between the brackets as its parameters, in order, and the hint read
/// after `->` as its return type, and ends where that hint ends.
pub proof fn law_fn_hint_parts(
    ts: Seq<Token>,
    p: int,
    hs: Seq<SHint>,
    starts: Seq<int>,
    ends: Seq<int>,
    last: int,
    r: SHint,
    q: int,
)
    requires
        0 <= p,
        at(ts, p, TokenKind::Fn),
        at(ts, p + 1, TokenKind::Lparen),
        hints_between(ts, p + 1, TokenKind::Rparen, hs, starts, ends, last),
        p < last,
        at(ts, last + 1, TokenKind::Arrow),
        sp_type_hint(ts, last + 2) == Ok::<_, ParseError>((r, q)),
    ensures
        sp_type_hint(ts, p) == Ok::<_, ParseError>(
            (SHint::Function { span: span_join(ts[p].span, ts[q - 1].span), params: hs, ret: Box::new(r) }, q),
        ),
{
    lemma_hint_list(ts, p + 1, TokenKind::Lparen, TokenKind::Rparen, hs, starts, ends, last);
    assert(sp_fn_type_hint(ts, p) == Ok::<_, ParseError>(
        (SHint::Function { span: span_join(ts[p].span, ts[q - 1].span), params: hs, ret: Box::new(r) }, q),
    ));
}

/// The `i`-th name of a list whose opening token is at `o` is an
/// identifier.
pub open spec fn list_id_at(ts: Seq<Token>, o: int, i: int) -> bool {
    at(ts, o + 1 + 2 * i, TokenKind::Id)
}

/// A comma follows the `i`-th name of a list whose opening token is at `o`.
pub open spec fn list_comma_at(ts: Seq<Token>, o: int, i: int) -> bool {
    at(ts, o + 2 + 2 * i, TokenKind::Comma)
}

/// From `o` on the tokens are `open g0, .., gn-1 close`: `n` names with
/// commas between them.
pub open spec fn names_between(ts: Seq<Token>, o: int, n: nat, open: TokenKind, close: TokenKind) -> bool {
    &&& 0 <= o
    &&& n > 0
    &&& at(ts, o, open)
    &&& forall|i: int| 0 <= i < n ==> #[trigger] list_id_at(ts, o, i)
    &&& forall|i: int| 0 <= i < n - 1 ==> #[trigger] list_comma_at(ts, o, i)
    &&& at(ts, o + 2 * n, close)
}

/// From `o` on the tokens are `< g0, .., gn-1 >`.
pub open spec fn name_list(ts: Seq<Token>, o: int, n: nat) -> bool {
    names_between(ts, o, n, TokenKind::Lt, TokenKind::Gt)
}

/// The names of the list whose opening token is at `o`.
pub open spec fn list_names(ts: Seq<Token>, o: int, n: nat) -> Seq<String> {
    Seq::new(n, |i: int| ts[o + 1 + 2 * i].lexeme)
}

proof fn lemma_id_list(ts: Seq<Token>, o: int, n: nat, open: TokenKind, close: TokenKind)
    requires
        names_between(ts, o, n, open, close),
        close != TokenKind::Id,
        close != TokenKind::Comma,
    ensures
        sp_id_list(ts, o, open, close) == Ok::<_, ParseError>((list_names(ts, o, n), o + 2 * n + 1)),
{
    let gs = list_names(ts, o, n);
    let starts = Seq::new(n, |i: int| o + 1 + 2 * i);
    let ends = Seq::new(n, |i: int| o + 2 + 2 * i);
    let last = o + 2 * n;
    assert forall|i: int| 0 <= i < gs.len() implies #[trigger] id_item(ts)(starts[i])
        == Ok::<_, ParseError>((gs[i], ends[i])) by {
        assert(list_id_at(ts, o, i));
    }
    assert forall|i: int| 0 <= i < gs.len() - 1 implies #[trigger] at(ts, ends[i], TokenKind::Comma)
        && starts[i + 1] == ends[i] + 1 by {
        assert(list_comma_at(ts, o, i));
    }
    assert(chained(ts, id_item(ts), gs, starts, ends));
    assert(list_id_at(ts, o, 0));
    assert forall|i: int| 0 < i < gs.len() implies !at(ts, #[trigger] starts[i], close) by {
        assert(list_id_at(ts, o, i));
    }
    assert(list_id_at(ts, o, n - 1));
    law_id_list_is_sep_by(ts, o, open, close);
    law_sep_by(ts, o, open, close, id_item(ts), gs, starts, ends, last);
}

/// Generic parameters are the names of their `<..>` list: `< g0, .., gn-1 >`
/// gives `g0 .. gn-1`, in order, and ends after `>`; with no `<` there are
/// none and nothing is read.
pub proof fn law_generic_params(ts: Seq<Token>, o: int, n: nat)
    ensures
        name_list(ts, o, n) ==> sp_generic_params(ts, o) == Ok::<_, ParseError>(
            (list_names(ts, o, n), o + 2 * n + 1),
        ),
        !at(ts, o, TokenKind::Lt) ==> sp_generic_params(ts, o) == Ok::<_, ParseError>((Seq::<String>::empty(), o)),
{
    if name_list(ts, o, n) {
        lemma_id_list(ts, o, n, TokenKind::Lt, TokenKind::Gt);
    }
}

/// The generics of a struct are the names of its `<..>` list: for
/// `struct N < g0, .., gn-1 > { fields }` the item is a private struct
/// named `N` whose generics are `g0 .. gn-1`, in order, and whose fields
/// are those that the field list after `>` gives; it ends where that list
/// ends.
pub proof fn law_struct_generics(ts: Seq<Token>, p: int, n: nat, fs: Seq<SField>, q: int)
    requires
        0 <= p,
        at(ts, p, TokenKind::Struct),
        at(ts, p + 1, TokenKind::Id),
        name_list(ts, p + 2, n),
        sp_fields(ts, p + 3 + 2 * n) == Ok::<_, ParseError>((fs, q)),
    ensures
        sp_item(ts, p) == Ok::<_, ParseError>(
            (
                SItem {
                    span: span_join(ts[p].span, ts[q - 1].span),
                    publicity: Publicity::Private,
                    kind: SItemKind::Struct(
                        SStruct { name: ts[p + 1].lexeme, generics: list_names(ts, p + 2, n), fields: fs },
                    ),
                },
                q,
            ),
        ),
{
    law_generic_params(ts, p + 2, n);
    assert(sp_struct(ts, p) == Ok::<_, ParseError>(
        (SItemKind::Struct(SStruct { name: ts[p + 1].lexeme, generics: list_names(ts, p + 2, n), fields: fs }), q),
    ));
    assert(sp_item_kind(ts, p) == sp_struct(ts, p));
}

/// The generics of an enum are the names of its `<..>` list: for
/// `enum N < g0, .., gn-1 > { variants }` the item kind is the enum named
/// `N` whose generics are `g0 .. gn-1`, in order, and whose variants are
/// those that the variant list after `>` gives, or that list's error.
pub proof fn law_enum_generics(ts: Seq<Token>, p: int, n: nat)
    requires
        0 <= p,
        at(ts, p, TokenKind::Enum),
        at(ts, p + 1, TokenKind::Id),
        name_list(ts, p + 2, n),
    ensures
        sp_item_kind(ts, p) == (match sp_variants(ts, p + 3 + 2 * n) {
            Err(e) => Err(e),
            Ok((vs, q)) => Ok::<_, ParseError>(
                (SItemKind::Enum(SEnum { name: ts[p + 1].lexeme, generics: list_names(ts, p + 2, n), variants: vs }), q),
            ),
        }),
{
    law_generic_params(ts, p + 2, n);
    assert(sp_item_kind(ts, p) == sp_enum(ts, p));
}

/// The generics of a function are the names of its `<..>` list: for
/// `fn f < g0, .., gn-1 > ..` that reads successfully, the item is a
/// function named `f` whose generics are `g0 .. gn-1`, in order.
pub proof fn law_function_generics(ts: Seq<Token>, p: int, n: nat)
    requires
        0 <= p,
        at(ts, p, TokenKind::Fn),
        at(ts, p + 1, TokenKind::Id),
        name_list(ts, p + 2, n),
    ensures
        match sp_item_kind(ts, p) {
            Ok((SItemKind::Function(f), _)) => f.name == ts[p + 1].lexeme && f.generics == list_names(ts, p + 2, n),
            Ok(_) => false,
            Err(_) => true,
        },
{
    law_generic_params(ts, p + 2, n);
    assert(sp_item_kind(ts, p) == sp_function(ts, p));
}

// ---------------------------------------------------------------------------
// Postfix chains
// ---------------------------------------------------------------------------

proof fn lemma_postfix_stops(ts: Seq<Token>, q: int, start: Span, base: SExpr, e: SExpr, r: int)
    requires
        sp_postfix(ts, q, start, base) == Ok::<_, ParseError>((e, r)),
    ensures
        !at(ts, r, TokenKind::Dot),
        !at(ts, r, TokenKind::Lparen),
    decreases ts.len() - q,
{
    if at(ts, q, TokenKind::Dot) {
        if let Ok(q2) = sp_expect(ts, q + 1, TokenKind::Id) {
            lemma_postfix_stops(
                ts,
                q2,
                start,
                SExpr { kind: SExprKind::Field(Box::new(base), ts[q + 1].lexeme), span: span_join(start, ts[q2 - 1].span) },
                e,
                r,
            );
        }
    } else if at(ts, q, TokenKind::Lparen) {
        if let Ok((args, q2)) = sp_expr_list(ts, q, TokenKind::Lparen, TokenKind::Rparen) {
            if q < q2 <= ts.len() {
                lemma_postfix_stops(
                    ts,
                    q2,
                    start,
                    SExpr { kind: SExprKind::Call(Box::new(base), args), span: span_join(start, ts[q2 - 1].span) },
                    e,
                    r,
                );
            }
        }
    }
}

/// A postfix chain takes every suffix there is: a name with its field
/// accesses and calls, read successfully, never stops before a `.` or a
/// `(`.
pub proof fn law_postfix_chain_is_maximal(ts: Seq<Token>, p: int, e: SExpr, q: int)
    requires
        sp_variable(ts, p) == Ok::<_, ParseError>((e, q)),
    ensures
        !at(ts, q, TokenKind::Dot),
        !at(ts, q, TokenKind::Lparen),
{
    if 0 <= p < ts.len() {
        if let Ok(q1) = sp_expect(ts, p, TokenKind::Id) {
            lemma_postfix_stops(ts, q1, ts[p].span, SExpr { kind: SExprKind::Id(ts[p].lexeme), span: ts[p].span }, e, q);
        }
    }
}

/// The `i`-th suffix of a postfix chain runs from `b[i]` to `b[i + 1]`: it
/// is `. name`, or a bracketed argument list that gives `args[i]`.
pub open spec fn suffix_at(ts: Seq<Token>, b: Seq<int>, args: Seq<Seq<SExpr>>, i: int) -> bool {
    &&& b[i] < b[i + 1] <= ts.len()
    &&& if at(ts, b[i], TokenKind::Dot) {
        at(ts, b[i] + 1, TokenKind::Id) && b[i + 1] == b[i] + 2
    } else {
        at(ts, b[i], TokenKind::Lparen)
            && sp_expr_list(ts, b[i], TokenKind::Lparen, TokenKind::Rparen) == Ok::<_, ParseError>((args[i], b[i + 1]))
    }
}

/// From `p` on the tokens are a name followed by `n` suffixes, the `i`-th
/// from `b[i]` to `b[i + 1]`, and the token at `b[n]` starts no further
/// suffix.
pub open spec fn postfix_chain(ts: Seq<Token>, p: int, b: Seq<int>, args: Seq<Seq<SExpr>>, n: nat) -> bool {
    &&& 0 <= p
    &&& at(ts, p, TokenKind::Id)
    &&& b.len() == n + 1
    &&& args.len() == n
    &&& b[0] == p + 1
    &&& forall|i: int| 0 <= i < n ==> #[trigger] suffix_at(ts, b, args, i)
    &&& !at(ts, b[n as int], TokenKind::Dot)
    &&& !at(ts, b[n as int], TokenKind::Lparen)
}

/// The tree of a name and its first `k` suffixes: each suffix wraps the
/// tree before it, a field access or a call, spanning from the name to the
/// suffix's last token.
pub open spec fn postfix_tree(ts: Seq<Token>, p: int, b: Seq<int>, args: Seq<Seq<SExpr>>, k: nat) -> SExpr
    decreases k,
{
    if k == 0 {
        id_expr(ts[p])
    } else {
        let i = k - 1;
        let inner = Box::new(postfix_tree(ts, p, b, args, (k - 1) as nat));
        SExpr {
            kind: if at(ts, b[i], TokenKind::Dot) {
                SExprKind::Field(inner, ts[b[i] + 1].lexeme)
            } else {
                SExprKind::Call(inner, args[i])
            },
            span: span_join(ts[p].span, ts[b[k as int] - 1].span),
        }
    }
}

proof fn lemma_postfix_chain(ts: Seq<Token>, p: int, b: Seq<int>, args: Seq<Seq<SExpr>>, n: nat, k: nat)
    requires
        postfix_chain(ts, p, b, args, n),
        k <= n,
    ensures
        sp_postfix(ts, b[k as int], ts[p].span, postfix_tree(ts, p, b, args, k))
            == Ok::<_, ParseError>((postfix_tree(ts, p, b, args, n), b[n as int])),
    decreases n - k,
{
    if k < n {
        assert(suffix_at(ts, b, args, k as int));
        lemma_postfix_chain(ts, p, b, args, n, k + 1);
    }
}

/// A postfix chain applies every suffix, in order: a name followed by
/// field accesses `. name` and calls `( args )`, with no further `.` or `(`
/// after the last, reads as the name wrapped by each suffix in turn, the
/// first innermost, and ends after the last suffix.
pub proof fn law_postfix_chain_applies_all(ts: Seq<Token>, p: int, b: Seq<int>, args: Seq<Seq<SExpr>>, n: nat)
    requires
        postfix_chain(ts, p, b, args, n),
    ensures
        sp_variable(ts, p) == Ok::<_, ParseError>((postfix_tree(ts, p, b, args, n), b[n as int])),
{
    lemma_postfix_chain(ts, p, b, args, n, 0);
}

// ---------------------------------------------------------------------------
// Use paths
// ---------------------------------------------------------------------------

/// The `i`-th name of a use path that starts at `p` is an identifier.
pub open spec fn path_id_at(ts: Seq<Token>, p: int, i: int) -> bool {
    at(ts, p + 2 * i, TokenKind::Id)
}

/// A `/` stands before the `i`-th name of a use path that starts at `p`.
pub open spec fn path_slash_at(ts: Seq<Token>, p: int, i: int) -> bool {
    at(ts, p + 2 * i - 1, TokenKind::Slash)
}

/// The text of the first `k + 1` names of a use path that starts at `p`,
/// with `/` between each two.
pub open spec fn path_text(ts: Seq<Token>, p: int, k: nat) -> Seq<char>
    decreases k,
{
    if k == 0 {
        ts[p].lexeme@
    } else {
        path_text(ts, p, (k - 1) as nat) + seq!['/'] + ts[p + 2 * k].lexeme@
    }
}

proof fn lemma_path_rest(ts: Seq<Token>, p: int, n: nat, k: nat)
    requires
        0 <= p,
        forall|i: int| 0 <= i <= n ==> #[trigger] path_id_at(ts, p, i),
        forall|i: int| 0 < i <= n ==> #[trigger] path_slash_at(ts, p, i),
        !at(ts, p + 2 * n + 1, TokenKind::Slash),
        k <= n,
    ensures
        sp_use_path_rest(ts, p + 2 * k + 1, path_text(ts, p, k)) == Ok::<_, ParseError>(
            (path_text(ts, p, n), p + 2 * n + 1),
        ),
    decreases n - k,
{
    if k < n {
        assert(path_slash_at(ts, p, (k + 1) as int));
        assert(path_id_at(ts, p, (k + 1) as int));
        lemma_path_rest(ts, p, n, k + 1);
    }
}

/// A use path is its names joined by `/`: for `a0 / a1 / .. / an` with no
/// `/` after `an`, the path is the text of the names with `/` between each
/// two, and it ends after `an`.
pub proof fn law_use_path_joins_names(ts: Seq<Token>, p: int, n: nat)
    requires
        0 <= p,
        forall|i: int| 0 <= i <= n ==> #[trigger] path_id_at(ts, p, i),
        forall|i: int| 0 < i <= n ==> #[trigger] path_slash_at(ts, p, i),
        !at(ts, p + 2 * n + 1, TokenKind::Slash),
    ensures
        sp_use_path(ts, p) == Ok::<_, ParseError>((path_text(ts, p, n), p + 2 * n + 1)),
{
    assert(path_id_at(ts, p, 0));
    lemma_path_rest(ts, p, n, 0);
}

} // verus!
