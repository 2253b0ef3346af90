//! Statements and blocks.

use vstd::prelude::*;
use crate::ast::{stmts_view, Block, Stmt, StmtKind, TypeHint};
use crate::errors::ParseError;
use crate::grammar::{close_block, lemma_stmt_items_step, sp_block, sp_expr_stmt, sp_let, sp_stmt, sp_stmt_items, sp_stmt_kind, prepend};
use crate::parser::{lemma_prepend_empty, lemma_prepend_twice, lemma_stmts_view_push, yields, Parser};
use crate::token::{Span, TokenKind};

verus! {

impl Parser {
    /// Let statement: `let name [: hint] = expr`.
    fn let_stmt(&mut self) -> (r: Result<StmtKind, ParseError>)
        requires
            old(self).ready(),
            old(self).pos < old(self).tokens@.len(),
        ensures
            old(self).moved(final(self), r),
            yields(r, sp_let(old(self).tokens@, old(self).pos as int), final(self).pos),
        decreases old(self).tokens@.len() - old(self).pos, 53int,
    {
        self.bump();
        let name = self.expect(TokenKind::Id)?.lexeme;
        let hint = if self.check(TokenKind::Colon) {
            self.bump();
            self.type_hint()?
        } else {
            TypeHint::Infer
        };
        self.expect(TokenKind::Eq)?;
        let expr = self.expr()?;
        Ok(StmtKind::Let(name, hint, expr))
    }

    /// Expression statement; `Semi` when a semicolon follows.
    fn expr_stmt(&mut self) -> (r: Result<StmtKind, ParseError>)
        requires
            old(self).ready(),
        ensures
            old(self).moved(final(self), r),
            yields(r, sp_expr_stmt(old(self).tokens@, old(self).pos as int), final(self).pos),
        decreases old(self).tokens@.len() - old(self).pos, 53int,
    {
        let expr = self.expr()?;
        if self.check(TokenKind::Semi) {
            Ok(StmtKind::Semi(expr))
        } else {
            Ok(StmtKind::Expr(expr))
        }
    }

    /// Statement kind.
    fn stmt_kind(&mut self) -> (r: Result<StmtKind, ParseError>)
        requires
            old(self).ready(),
        ensures
            old(self).moved(final(self), r),
            yields(r, sp_stmt_kind(old(self).tokens@, old(self).pos as int), final(self).pos),
        decreases old(self).tokens@.len() - old(self).pos, 54int,
    {
        let kind = self.peek()?.kind;
        match kind {
            TokenKind::Let => self.let_stmt(),
            _ => self.expr_stmt(),
        }
    }

    /// Statement with its span, consuming a following semicolon.
    fn stmt_inner(&mut self) -> (r: Result<(Span, StmtKind), ParseError>)
        requires
            old(self).ready(),
        ensures
            old(self).moved(final(self), r),
            match r {
                Ok((span, kind)) => sp_stmt(old(self).tokens@, old(self).pos as int)
                    == Ok::<_, ParseError>((crate::ast::SStmt { span, kind: kind@ }, final(self).pos as int)),
                Err(e) => sp_stmt(old(self).tokens@, old(self).pos as int) == Err::<(crate::ast::SStmt, int), ParseError>(e),
            },
        decreases old(self).tokens@.len() - old(self).pos, 55int,
    {
        let start_span = self.peek()?.span.clone();
        let kind = self.stmt_kind()?;
        if self.check(TokenKind::Semi) {
            self.bump();
            let end_span = self.prev().span.clone();
            Ok((start_span.clone() + end_span, kind))
        } else {
            let end_span = self.prev().span.clone();
            if !kind.requires_semi() || self.check(TokenKind::Rbrace) {
                Ok((start_span.clone() + end_span, kind))
            } else {
                Err(ParseError::ExpectedSemicolon { span: start_span.clone() + end_span })
            }
        }
    }

    /// Statement.
    fn stmt(&mut self) -> (r: Result<Stmt, ParseError>)
        requires
            old(self).ready(),
        ensures
            old(self).moved(final(self), r),
            yields(r, sp_stmt(old(self).tokens@, old(self).pos as int), final(self).pos),
        decreases old(self).tokens@.len() - old(self).pos, 56int,
    {
        let (span, kind) = self.stmt_inner()?;
        Ok(Stmt { span, kind })
    }

    /// Parses a block: `{ stmt .. }`.
    pub fn block(&mut self) -> (r: Result<Block, ParseError>)
        requires
            old(self).ready(),
            old(self).pos > 0 || old(self).cur_is(TokenKind::Lbrace),
        ensures
            old(self).moved(final(self), r),
            yields(r, sp_block(old(self).tokens@, old(self).pos as int), final(self).pos),
        decreases old(self).tokens@.len() - old(self).pos, 1int,
    {
        let ghost ts = self.tokens@;
        let ghost src = self.source;
        let ghost p0 = self.pos as int;
        let start_span = self.peek()?.span.clone();
        let mut stmts: Vec<Stmt> = Vec::new();
        self.expect(TokenKind::Lbrace)?;
        let ghost q0 = self.pos as int;
        proof {
            lemma_prepend_empty(sp_stmt_items(ts, q0));
        }
        while !self.check(TokenKind::Rbrace)
            invariant
                self.tokens@ == ts,
                self.source == src,
                ts == old(self).tokens@,
                crate::parser::one_source(ts),
                src == old(self).source,
                p0 == old(self).pos,
                0 <= p0 < q0 <= self.pos <= ts.len(),
                p0 < ts.len(),
                start_span == ts[p0].span,
                sp_block(ts, p0) == close_block(ts, start_span, sp_stmt_items(ts, q0)),
                sp_stmt_items(ts, q0) == prepend(stmts_view(stmts@), sp_stmt_items(ts, self.pos as int)),
            decreases ts.len() - self.pos,
        {
            let ghost before = stmts@;
            let ghost q = self.pos as int;
            let s = self.stmt()?;
            proof {
                lemma_stmt_items_step(ts, q, s@, self.pos as int);
                lemma_stmts_view_push(before, s);
                assert(stmts_view(before).push(s@) =~= stmts_view(before) + seq![s@]);
                lemma_prepend_twice(stmts_view(before), seq![s@], sp_stmt_items(ts, self.pos as int));
            }
            stmts.push(s);
        }
        proof {
            assert(stmts_view(stmts@) + Seq::empty() =~= stmts_view(stmts@));
        }
        self.expect(TokenKind::Rbrace)?;
        let end_span = self.prev().span.clone();
        Ok(Block { span: start_span.clone() + end_span, stmts })
    }
}

} // verus!
