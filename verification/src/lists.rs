//! Laws of the comma-separated lists: every list of the grammar is the one
//! list form applied to its item grammar, and that form reads exactly the
//! items it is given, in order.

use vstd::prelude::*;
use crate::grammar::{
    at, expr_item, field_item, hint_item, id_item, param_item, prepend, sp_expect, sp_expr_items,
    sp_expr_list, sp_field_items, sp_fields, sp_hint_items, sp_hint_list, sp_id_items, sp_id_list, sp_id_seq,
    sp_param_items, sp_params, sp_sep_by, sp_sep_items, sp_sep_seq, sp_variant_items, sp_variants, variant_item,
    PRes,
};
use crate::token::{Token, TokenKind};

verus! {

/// Items `rs` whose `i`-th is read by `item` from `starts[i]` to `ends[i]`,
/// with a comma after each but the last and the next item starting right
/// after that comma.
pub open spec fn chained<A>(
    ts: Seq<Token>,
    item: spec_fn(int) -> PRes<A>,
    rs: Seq<A>,
    starts: Seq<int>,
    ends: Seq<int>,
) -> bool {
    &&& starts.len() == rs.len()
    &&& ends.len() == rs.len()
    &&& forall|i: int| 0 <= i < rs.len() ==> #[trigger] item(starts[i]) == Ok::<_, crate::errors::ParseError>((rs[i], ends[i]))
    &&& forall|i: int| 0 <= i < rs.len() ==> #[trigger] starts[i] <= ends[i]
    &&& forall|i: int| 0 <= i < rs.len() - 1 ==> #[trigger] at(ts, ends[i], TokenKind::Comma) && starts[i + 1] == ends[i] + 1
}

/// The bracketed-list items from the `k`-th on.
proof fn lemma_sep_items_chain<A>(
    ts: Seq<Token>,
    close: TokenKind,
    item: spec_fn(int) -> PRes<A>,
    rs: Seq<A>,
    starts: Seq<int>,
    ends: Seq<int>,
    last: int,
    k: int,
)
    requires
        chained(ts, item, rs, starts, ends),
        0 <= k < rs.len(),
        forall|i: int| 0 < i < rs.len() ==> !at(ts, #[trigger] starts[i], close),
        if at(ts, ends[rs.len() - 1], TokenKind::Comma) {
            at(ts, ends[rs.len() - 1] + 1, close) && last == ends[rs.len() - 1] + 1
        } else {
            last == ends[rs.len() - 1]
        },
    ensures
        sp_sep_items(ts, starts[k], close, item) == Ok::<_, crate::errors::ParseError>((rs.subrange(k, rs.len() as int), last)),
    decreases rs.len() - k,
{
    let n = rs.len() as int;
    assert(item(starts[k]) == Ok::<_, crate::errors::ParseError>((rs[k], ends[k])));
    assert(starts[k] <= ends[k]);
    if k < n - 1 {
        assert(at(ts, ends[k], TokenKind::Comma) && starts[k + 1] == ends[k] + 1);
        assert(!at(ts, starts[k + 1], close));
        lemma_sep_items_chain(ts, close, item, rs, starts, ends, last, k + 1);
        assert(seq![rs[k]] + rs.subrange(k + 1, n) =~= rs.subrange(k, n));
    } else {
        assert(seq![rs[k]] =~= rs.subrange(k, n));
    }
}

/// A bracketed list reads the items it is given, in order, and then needs
/// the closing token: given `open`, then items read by `item` with a comma
/// between each two (and optionally after the last), the list gives those
/// items and ends after `close` when `close` follows them, and otherwise
/// stops with the error of expecting `close` there.
pub proof fn law_sep_by<A>(
    ts: Seq<Token>,
    p: int,
    open: TokenKind,
    close: TokenKind,
    item: spec_fn(int) -> PRes<A>,
    rs: Seq<A>,
    starts: Seq<int>,
    ends: Seq<int>,
    last: int,
)
    requires
        0 <= p,
        at(ts, p, open),
        chained(ts, item, rs, starts, ends),
        rs.len() == 0 ==> at(ts, p + 1, close) && last == p + 1,
        rs.len() > 0 ==> starts[0] == p + 1 && !at(ts, p + 1, close),
        forall|i: int| 0 < i < rs.len() ==> !at(ts, #[trigger] starts[i], close),
        rs.len() > 0 ==> if at(ts, ends[rs.len() - 1], TokenKind::Comma) {
            at(ts, ends[rs.len() - 1] + 1, close) && last == ends[rs.len() - 1] + 1
        } else {
            last == ends[rs.len() - 1]
        },
    ensures
        sp_sep_by(ts, p, open, close, item) == (match sp_expect(ts, last, close) {
            Ok(q) => Ok((rs, q)),
            Err(e) => Err(e),
        }),
        at(ts, last, close) ==> sp_sep_by(ts, p, open, close, item) == Ok::<_, crate::errors::ParseError>((rs, last + 1)),
{
    if rs.len() == 0 {
        assert(rs =~= Seq::<A>::empty());
    } else {
        lemma_sep_items_chain(ts, close, item, rs, starts, ends, last, 0);
        assert(rs.subrange(0, rs.len() as int) =~= rs);
    }
}

/// The unbracketed items from the `k`-th on.
proof fn lemma_sep_seq_chain<A>(
    ts: Seq<Token>,
    item: spec_fn(int) -> PRes<A>,
    rs: Seq<A>,
    starts: Seq<int>,
    ends: Seq<int>,
    k: int,
)
    requires
        chained(ts, item, rs, starts, ends),
        0 <= k < rs.len(),
    ensures
        sp_sep_seq(ts, starts[k], item) == (if at(ts, ends[rs.len() - 1], TokenKind::Comma) {
            prepend(rs.subrange(k, rs.len() as int), sp_sep_seq(ts, ends[rs.len() - 1] + 1, item))
        } else {
            Ok((rs.subrange(k, rs.len() as int), ends[rs.len() - 1]))
        }),
    decreases rs.len() - k,
{
    let n = rs.len() as int;
    assert(item(starts[k]) == Ok::<_, crate::errors::ParseError>((rs[k], ends[k])));
    assert(starts[k] <= ends[k]);
    if k < n - 1 {
        assert(at(ts, ends[k], TokenKind::Comma) && starts[k + 1] == ends[k] + 1);
        lemma_sep_seq_chain(ts, item, rs, starts, ends, k + 1);
        assert(seq![rs[k]] + rs.subrange(k + 1, n) =~= rs.subrange(k, n));
        if at(ts, ends[n - 1], TokenKind::Comma) {
            let rest = sp_sep_seq(ts, ends[n - 1] + 1, item);
            if let Ok((ys, q)) = rest {
                assert(seq![rs[k]] + (rs.subrange(k + 1, n) + ys) =~= rs.subrange(k, n) + ys);
            }
        }
    } else {
        assert(seq![rs[k]] =~= rs.subrange(k, n));
    }
}

/// An unbracketed list reads the items it is given, in order, and allows
/// no trailing comma: given items read by `item` with a comma between each
/// two, the list gives exactly them and ends after the last when no comma
/// follows; a comma after the last asks for one more item.
pub proof fn law_sep_seq<A>(
    ts: Seq<Token>,
    item: spec_fn(int) -> PRes<A>,
    rs: Seq<A>,
    starts: Seq<int>,
    ends: Seq<int>,
)
    requires
        chained(ts, item, rs, starts, ends),
        rs.len() > 0,
    ensures
        !at(ts, ends[rs.len() - 1], TokenKind::Comma) ==> sp_sep_seq(ts, starts[0], item)
            == Ok::<_, crate::errors::ParseError>((rs, ends[rs.len() - 1])),
        at(ts, ends[rs.len() - 1], TokenKind::Comma) ==> sp_sep_seq(ts, starts[0], item)
            == prepend(rs, sp_sep_seq(ts, ends[rs.len() - 1] + 1, item)),
{
    lemma_sep_seq_chain(ts, item, rs, starts, ends, 0);
    assert(rs.subrange(0, rs.len() as int) =~= rs);
}

// ---------------------------------------------------------------------------
// Each list of the grammar is the list form over its item grammar.
// ---------------------------------------------------------------------------

proof fn lemma_hint_items(ts: Seq<Token>, q: int, close: TokenKind)
    ensures
        sp_hint_items(ts, q, close) == sp_sep_items(ts, q, close, hint_item(ts)),
    decreases ts.len() - q,
{
    if let Ok((x, q1)) = crate::grammar::sp_type_hint(ts, q) {
        if at(ts, q1, TokenKind::Comma) && !at(ts, q1 + 1, close) && q <= q1 {
            lemma_hint_items(ts, q1 + 1, close);
        }
    }
}

/// Type-hint lists are the list form over type hints.
pub proof fn law_hint_list_is_sep_by(ts: Seq<Token>, p: int, open: TokenKind, close: TokenKind)
    ensures
        sp_hint_list(ts, p, open, close) == sp_sep_by(ts, p, open, close, hint_item(ts)),
{
    if let Ok(q) = sp_expect(ts, p, open) {
        lemma_hint_items(ts, q, close);
    }
}

proof fn lemma_id_items(ts: Seq<Token>, q: int, close: TokenKind)
    ensures
        sp_id_items(ts, q, close) == sp_sep_items(ts, q, close, id_item(ts)),
    decreases ts.len() - q,
{
    if at(ts, q, TokenKind::Id) && at(ts, q + 1, TokenKind::Comma) && !at(ts, q + 2, close) {
        lemma_id_items(ts, q + 2, close);
    }
}

/// Identifier lists are the list form over identifiers.
pub proof fn law_id_list_is_sep_by(ts: Seq<Token>, p: int, open: TokenKind, close: TokenKind)
    ensures
        sp_id_list(ts, p, open, close) == sp_sep_by(ts, p, open, close, id_item(ts)),
{
    if let Ok(q) = sp_expect(ts, p, open) {
        lemma_id_items(ts, q, close);
    }
}

/// The comma-separated identifiers of `use .. for` are the unbracketed list
/// form over identifiers.
pub proof fn law_id_seq_is_sep_seq(ts: Seq<Token>, q: int)
    ensures
        sp_id_seq(ts, q) == sp_sep_seq(ts, q, id_item(ts)),
    decreases ts.len() - q,
{
    if at(ts, q, TokenKind::Id) && at(ts, q + 1, TokenKind::Comma) {
        law_id_seq_is_sep_seq(ts, q + 2);
    }
}

proof fn lemma_expr_items(ts: Seq<Token>, q: int, close: TokenKind)
    ensures
        sp_expr_items(ts, q, close) == sp_sep_items(ts, q, close, expr_item(ts)),
    decreases ts.len() - q,
{
    if let Ok((x, q1)) = crate::grammar::sp_expr(ts, q) {
        if at(ts, q1, TokenKind::Comma) && !at(ts, q1 + 1, close) && q <= q1 {
            lemma_expr_items(ts, q1 + 1, close);
        }
    }
}

/// Argument lists are the list form over expressions.
pub proof fn law_expr_list_is_sep_by(ts: Seq<Token>, p: int, open: TokenKind, close: TokenKind)
    ensures
        sp_expr_list(ts, p, open, close) == sp_sep_by(ts, p, open, close, expr_item(ts)),
{
    if let Ok(q) = sp_expect(ts, p, open) {
        lemma_expr_items(ts, q, close);
    }
}

proof fn lemma_param_items(ts: Seq<Token>, q: int)
    ensures
        sp_param_items(ts, q) == sp_sep_items(ts, q, TokenKind::Rparen, param_item(ts)),
    decreases ts.len() - q,
{
    if let Ok((x, q1)) = crate::grammar::sp_param(ts, q) {
        if at(ts, q1, TokenKind::Comma) && !at(ts, q1 + 1, TokenKind::Rparen) && q <= q1 {
            lemma_param_items(ts, q1 + 1);
        }
    }
}

/// Parameter lists are the list form over parameters.
pub proof fn law_params_is_sep_by(ts: Seq<Token>, p: int)
    ensures
        sp_params(ts, p) == sp_sep_by(ts, p, TokenKind::Lparen, TokenKind::Rparen, param_item(ts)),
{
    if let Ok(q) = sp_expect(ts, p, TokenKind::Lparen) {
        lemma_param_items(ts, q);
    }
}

proof fn lemma_field_items(ts: Seq<Token>, q: int)
    ensures
        sp_field_items(ts, q) == sp_sep_items(ts, q, TokenKind::Rbrace, field_item(ts)),
    decreases ts.len() - q,
{
    if let Ok((x, q1)) = crate::grammar::sp_param(ts, q) {
        if at(ts, q1, TokenKind::Comma) && !at(ts, q1 + 1, TokenKind::Rbrace) && q <= q1 {
            lemma_field_items(ts, q1 + 1);
        }
    }
}

/// Struct bodies are the list form over fields.
pub proof fn law_fields_is_sep_by(ts: Seq<Token>, p: int)
    ensures
        sp_fields(ts, p) == sp_sep_by(ts, p, TokenKind::Lbrace, TokenKind::Rbrace, field_item(ts)),
{
    if let Ok(q) = sp_expect(ts, p, TokenKind::Lbrace) {
        lemma_field_items(ts, q);
    }
}

proof fn lemma_variant_items(ts: Seq<Token>, q: int)
    ensures
        sp_variant_items(ts, q) == sp_sep_items(ts, q, TokenKind::Rbrace, variant_item(ts)),
    decreases ts.len() - q,
{
    if let Ok((x, q1)) = crate::grammar::sp_variant(ts, q) {
        if at(ts, q1, TokenKind::Comma) && !at(ts, q1 + 1, TokenKind::Rbrace) && q <= q1 {
            lemma_variant_items(ts, q1 + 1);
        }
    }
}

/// Enum bodies are the list form over variants.
pub proof fn law_variants_is_sep_by(ts: Seq<Token>, p: int)
    ensures
        sp_variants(ts, p) == sp_sep_by(ts, p, TokenKind::Lbrace, TokenKind::Rbrace, variant_item(ts)),
{
    if let Ok(q) = sp_expect(ts, p, TokenKind::Lbrace) {
        lemma_variant_items(ts, q);
    }
}

} // verus!
