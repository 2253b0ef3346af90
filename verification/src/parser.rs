//! The parser's state and the token-level operations the grammar is built on.

use std::sync::Arc;
use vstd::prelude::*;
use crate::ast::{exprs_view, hints_view, seq_view, stmts_view, Expr, Stmt, TypeHint};
use crate::errors::ParseError;
use crate::grammar::{at, eof, prepend, sp_expect, PRes};
use crate::token::{SourceFile, Token, TokenKind};

verus! {

/// Turns a sequence of tokens into a syntax tree.
///
/// The token at `pos` is the current one; the one before it is the previous
/// (last consumed) token and the one after it the lookahead.
pub struct Parser {
    /// Named source of the file
    pub source: Arc<SourceFile>,
    /// All tokens of the file, in order
    pub tokens: Vec<Token>,
    /// Index of the current token
    pub pos: usize,
}

/// `r` is what the grammar value `s` gives: the same value (by its view)
/// and the parser ends at `end`, or the same error.
pub open spec fn yields<T: View>(r: Result<T, ParseError>, s: PRes<T::V>, end: usize) -> bool {
    match r {
        Ok(v) => s == Ok::<(T::V, int), ParseError>((v@, end as int)),
        Err(e) => s == Err::<(T::V, int), ParseError>(e),
    }
}

pub open spec fn yields_hints(r: Result<Vec<TypeHint>, ParseError>, s: PRes<Seq<crate::ast::SHint>>, end: usize) -> bool {
    match r {
        Ok(v) => s == Ok::<(Seq<crate::ast::SHint>, int), ParseError>((hints_view(v@), end as int)),
        Err(e) => s == Err::<(Seq<crate::ast::SHint>, int), ParseError>(e),
    }
}

pub open spec fn yields_exprs(r: Result<Vec<Expr>, ParseError>, s: PRes<Seq<crate::ast::SExpr>>, end: usize) -> bool {
    match r {
        Ok(v) => s == Ok::<(Seq<crate::ast::SExpr>, int), ParseError>((exprs_view(v@), end as int)),
        Err(e) => s == Err::<(Seq<crate::ast::SExpr>, int), ParseError>(e),
    }
}

pub open spec fn yields_seq<T: View>(r: Result<Vec<T>, ParseError>, s: PRes<Seq<T::V>>, end: usize) -> bool {
    match r {
        Ok(v) => s == Ok::<(Seq<T::V>, int), ParseError>((seq_view(v@), end as int)),
        Err(e) => s == Err::<(Seq<T::V>, int), ParseError>(e),
    }
}

pub proof fn lemma_seq_view_push<T: View>(s: Seq<T>, x: T)
    ensures
        seq_view(s.push(x)) == seq_view(s).push(x@),
        seq_view(s).push(x@) == seq_view(s) + seq![x@],
{
    assert(seq_view(s.push(x)) =~= seq_view(s).push(x@));
    assert(seq_view(s).push(x@) =~= seq_view(s) + seq![x@]);
}

pub proof fn lemma_seq_view_empty<T: View>(s: Seq<T>)
    requires
        s.len() == 0,
    ensures
        seq_view(s) == Seq::<T::V>::empty(),
{
    assert(seq_view(s) =~= Seq::<T::V>::empty());
}

/// Putting `a` then `b` in front is putting `a + b` in front.
pub proof fn lemma_prepend_twice<A>(a: Seq<A>, b: Seq<A>, r: PRes<Seq<A>>)
    ensures
        prepend(a, prepend(b, r)) == prepend(a + b, r),
{
    if let Ok((ys, q)) = r {
        assert(a + (b + ys) =~= (a + b) + ys);
    }
}

pub proof fn lemma_prepend_empty<A>(r: PRes<Seq<A>>)
    ensures
        prepend(Seq::<A>::empty(), r) == r,
{
    if let Ok((ys, q)) = r {
        assert(Seq::<A>::empty() + ys =~= ys);
    }
}

pub proof fn lemma_hints_view_push(s: Seq<TypeHint>, x: TypeHint)
    ensures
        hints_view(s.push(x)) == hints_view(s).push(x@),
{
    assert(s.push(x).drop_last() =~= s);
}

pub proof fn lemma_exprs_view_push(s: Seq<Expr>, x: Expr)
    ensures
        exprs_view(s.push(x)) == exprs_view(s).push(x@),
{
    assert(s.push(x).drop_last() =~= s);
}

pub proof fn lemma_stmts_view_push(s: Seq<Stmt>, x: Stmt)
    ensures
        stmts_view(s.push(x)) == stmts_view(s).push(x@),
{
    assert(s.push(x).drop_last() =~= s);
}

/// All tokens are from one file.
pub open spec fn one_source(ts: Seq<Token>) -> bool {
    forall|i: int| 0 <= i < ts.len() ==> #[trigger] ts[i].span.source == ts[0].span.source
}

impl Parser {
    /// The parser can read a token or report the one before: its position
    /// is within the input, and the input is not empty.
    pub open spec fn ready(&self) -> bool {
        &&& self.pos <= self.tokens@.len()
        &&& (self.pos > 0 || self.pos < self.tokens@.len())
        &&& one_source(self.tokens@)
    }

    /// The current token has kind `k`.
    pub open spec fn cur_is(&self, k: TokenKind) -> bool {
        at(self.tokens@, self.pos as int, k)
    }

    /// `next` reads the same input as `self`, at the same or a later
    /// position within it.
    pub open spec fn keeps(&self, next: &Parser) -> bool {
        &&& next.tokens@ == self.tokens@
        &&& next.source == self.source
        &&& self.pos <= next.pos <= next.tokens@.len()
    }

    /// `next` stands further on than `self` when `r` is a success.
    pub open spec fn moved<T>(&self, next: &Parser, r: Result<T, ParseError>) -> bool {
        &&& self.keeps(next)
        &&& (r is Ok ==> self.pos < next.pos)
    }

    /// Creates a parser at the first of `tokens`.
    pub fn new(source: Arc<SourceFile>, tokens: Vec<Token>) -> (p: Parser)
        ensures
            p.source == source,
            p.tokens@ == tokens@,
            p.pos == 0,
    {
        Parser { source, tokens, pos: 0 }
    }

    /// Whether the current token has kind `tk`.
    pub(crate) fn check(&self, tk: TokenKind) -> (r: bool)
        requires
            self.pos <= self.tokens@.len(),
        ensures
            r == self.cur_is(tk),
    {
        if self.pos < self.tokens.len() {
            self.tokens[self.pos].kind == tk
        } else {
            false
        }
    }

    /// The current token; at the end of input, the error that reports it.
    pub(crate) fn peek(&self) -> (r: Result<&Token, ParseError>)
        requires
            self.ready(),
        ensures
            match r {
                Ok(t) => self.pos < self.tokens@.len() && *t == self.tokens@[self.pos as int],
                Err(e) => self.pos >= self.tokens@.len() && e == eof(self.tokens@, self.pos as int),
            },
    {
        if self.pos < self.tokens.len() {
            Ok(&self.tokens[self.pos])
        } else {
            Err(ParseError::UnexpectedEof { span: self.tokens[self.pos - 1].span.clone() })
        }
    }

    /// The previous token, the last one consumed.
    pub(crate) fn prev(&self) -> (t: &Token)
        requires
            0 < self.pos <= self.tokens@.len(),
        ensures
            *t == self.tokens@[self.pos - 1],
    {
        &self.tokens[self.pos - 1]
    }

    /// Consumes the current token and gives it.
    pub(crate) fn bump(&mut self) -> (t: Token)
        requires
            old(self).pos < old(self).tokens@.len(),
        ensures
            t == old(self).tokens@[old(self).pos as int],
            final(self).pos == old(self).pos + 1,
            final(self).tokens@ == old(self).tokens@,
            final(self).source == old(self).source,
    {
        let t = self.tokens[self.pos].clone();
        proof {
            broadcast use vstd::std_specs::vec::group_vec_axioms;
            assert(self.tokens@.len() == self.tokens.len());
        }
        self.pos = self.pos + 1;
        t
    }

    /// Consumes a token of kind `tk`.
    pub(crate) fn expect(&mut self, tk: TokenKind) -> (r: Result<Token, ParseError>)
        requires
            old(self).ready(),
            old(self).pos > 0 || old(self).cur_is(tk),
        ensures
            old(self).moved(final(self), r),
            match r {
                Ok(t) => sp_expect(old(self).tokens@, old(self).pos as int, tk) == Ok::<int, ParseError>(final(self).pos as int)
                    && t == old(self).tokens@[old(self).pos as int],
                Err(e) => sp_expect(old(self).tokens@, old(self).pos as int, tk) == Err::<int, ParseError>(e),
            },
    {
        if self.pos < self.tokens.len() {
            if self.tokens[self.pos].kind == tk {
                Ok(self.bump())
            } else {
                Err(ParseError::UnexpectedToken {
                    got: self.tokens[self.pos].kind,
                    expected: tk,
                    span: self.tokens[self.pos].span.clone(),
                    prev: self.prev().span.clone(),
                })
            }
        } else {
            Err(ParseError::UnexpectedEof { span: self.prev().span.clone() })
        }
    }
}

} // verus!
