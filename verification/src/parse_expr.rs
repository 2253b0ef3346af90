//! Expressions.

use vstd::prelude::*;
use crate::ast::{exprs_view, Block, Expr, ExprKind, Lit, UnOp};
use crate::errors::ParseError;
use crate::grammar::{
    block_expr, close_list, false_text, infix_at, infix_node, prepend, sp_atom, sp_binary, sp_binary_rest,
    sp_closure, sp_expr, sp_expr_items, sp_expr_list, sp_group, sp_if, sp_postfix, sp_unary, sp_variable,
    true_text, Infix,
};
use crate::parser::{lemma_exprs_view_push, lemma_prepend_empty, lemma_prepend_twice, yields, yields_exprs, Parser};
use crate::token::{Span, TokenKind};

verus! {

impl Parser {
    /// Creates an expression from its span and kind.
    fn mk_expr(&self, span: Span, kind: ExprKind) -> (e: Expr)
        ensures
            e.span == span,
            e.kind == kind,
    {
        Expr { kind, span }
    }

    /// The node that the infix operator `op` builds.
    fn mk_infix(&self, op: Infix, left: Expr, right: Expr, span: Span) -> (e: Expr)
        ensures
            e@ == infix_node(op, left@, right@, span),
    {
        match op {
            Infix::Bin(b) => self.mk_expr(span, ExprKind::Bin(b, Box::new(left), Box::new(right))),
            Infix::Assign => self.mk_expr(span, ExprKind::Assign(Box::new(left), Box::new(right))),
        }
    }

    /// The operator of precedence `level` that the current token stands for.
    fn infix(&self, level: u8) -> (r: Option<Infix>)
        requires
            self.pos <= self.tokens@.len(),
        ensures
            r == infix_at(self.tokens@, self.pos as int, level as nat),
    {
        if self.pos >= self.tokens.len() {
            return None;
        }
        let k = self.tokens[self.pos].kind;
        if level == 0 {
            match k {
                TokenKind::Star => Some(Infix::Bin(crate::ast::BinOp::Mul)),
                TokenKind::Slash => Some(Infix::Bin(crate::ast::BinOp::Div)),
                TokenKind::Percent => Some(Infix::Bin(crate::ast::BinOp::Mod)),
                _ => None,
            }
        } else if level == 1 {
            match k {
                TokenKind::Plus => Some(Infix::Bin(crate::ast::BinOp::Add)),
                TokenKind::Minus => Some(Infix::Bin(crate::ast::BinOp::Sub)),
                _ => None,
            }
        } else if level == 2 {
            match k {
                TokenKind::Ge => Some(Infix::Bin(crate::ast::BinOp::Ge)),
                TokenKind::Gt => Some(Infix::Bin(crate::ast::BinOp::Gt)),
                TokenKind::Le => Some(Infix::Bin(crate::ast::BinOp::Le)),
                TokenKind::Lt => Some(Infix::Bin(crate::ast::BinOp::Lt)),
                _ => None,
            }
        } else if level == 3 {
            match k {
                TokenKind::DoubleEq => Some(Infix::Bin(crate::ast::BinOp::Eq)),
                TokenKind::BangEq => Some(Infix::Bin(crate::ast::BinOp::Ne)),
                _ => None,
            }
        } else if level == 4 {
            if k == TokenKind::Ampersand { Some(Infix::Bin(crate::ast::BinOp::BitAnd)) } else { None }
        } else if level == 5 {
            if k == TokenKind::Caret { Some(Infix::Bin(crate::ast::BinOp::Xor)) } else { None }
        } else if level == 6 {
            if k == TokenKind::Bar { Some(Infix::Bin(crate::ast::BinOp::BitOr)) } else { None }
        } else if level == 7 {
            if k == TokenKind::DoubleAmp { Some(Infix::Bin(crate::ast::BinOp::And)) } else { None }
        } else if level == 8 {
            if k == TokenKind::DoubleBar { Some(Infix::Bin(crate::ast::BinOp::Or)) } else { None }
        } else if level == 9 {
            if k == TokenKind::Eq { Some(Infix::Assign) } else { None }
        } else {
            None
        }
    }

    /// Group expression: `( expr )`.
    fn group(&mut self) -> (r: Result<Expr, ParseError>)
        requires
            old(self).ready(),
            old(self).pos > 0 || old(self).cur_is(TokenKind::Lparen),
        ensures
            old(self).moved(final(self), r),
            yields(r, sp_group(old(self).tokens@, old(self).pos as int), final(self).pos),
        decreases old(self).tokens@.len() - old(self).pos, 28int,
    {
        self.expect(TokenKind::Lparen)?;
        let expr = self.expr()?;
        self.expect(TokenKind::Rparen)?;
        Ok(expr)
    }

    /// An identifier followed by field accesses `.name` and calls `(args)`.
    fn variable(&mut self) -> (r: Result<Expr, ParseError>)
        requires
            old(self).ready(),
            old(self).pos > 0 || old(self).cur_is(TokenKind::Id),
        ensures
            old(self).moved(final(self), r),
            yields(r, sp_variable(old(self).tokens@, old(self).pos as int), final(self).pos),
        decreases old(self).tokens@.len() - old(self).pos, 28int,
    {
        let ghost ts = self.tokens@;
        let ghost src = self.source;
        let ghost p0 = self.pos as int;
        let start_span = self.peek()?.span.clone();
        let id = self.expect(TokenKind::Id)?.lexeme;
        let mut result = self.mk_expr(start_span.clone(), ExprKind::Id(id));
        loop
            invariant
                self.tokens@ == ts,
                self.source == src,
                ts == old(self).tokens@,
                crate::parser::one_source(ts),
                src == old(self).source,
                p0 == old(self).pos,
                0 <= p0 < self.pos <= ts.len(),
                start_span == ts[p0].span,
                sp_variable(ts, p0) == sp_postfix(ts, self.pos as int, start_span, result@),
            ensures
                sp_variable(ts, p0) == Ok::<_, ParseError>((result@, self.pos as int)),
            decreases ts.len() - self.pos,
        {
            if self.check(TokenKind::Dot) {
                self.bump();
                let id = self.expect(TokenKind::Id)?.lexeme;
                let end_span = self.prev().span.clone();
                result = self.mk_expr(start_span.clone() + end_span, ExprKind::Field(Box::new(result), id));
                continue;
            }
            if self.check(TokenKind::Lparen) {
                let args = self.expr_list(TokenKind::Lparen, TokenKind::Rparen)?;
                let end_span = self.prev().span.clone();
                result = self.mk_expr(start_span.clone() + end_span, ExprKind::Call(Box::new(result), args));
                continue;
            }
            break;
        }
        Ok(result)
    }

    /// The expressions between `open` and `close`, separated by commas.
    fn expr_list(&mut self, open: TokenKind, close: TokenKind) -> (r: Result<Vec<Expr>, ParseError>)
        requires
            old(self).ready(),
            old(self).pos > 0 || old(self).cur_is(open),
        ensures
            old(self).moved(final(self), r),
            yields_exprs(r, sp_expr_list(old(self).tokens@, old(self).pos as int, open, close), final(self).pos),
        decreases old(self).tokens@.len() - old(self).pos, 2int,
    {
        let ghost ts = self.tokens@;
        let ghost src = self.source;
        let ghost p0 = self.pos as int;
        self.expect(open)?;
        let ghost q0 = self.pos as int;
        let mut items: Vec<Expr> = Vec::new();
        if !self.check(close) {
            proof {
                lemma_prepend_empty(sp_expr_items(ts, q0, close));
            }
            loop
                invariant_except_break
                    sp_expr_items(ts, q0, close) == prepend(exprs_view(items@), sp_expr_items(ts, self.pos as int, close)),
                invariant
                    self.tokens@ == ts,
                    self.source == src,
                    ts == old(self).tokens@,
                crate::parser::one_source(ts),
                    src == old(self).source,
                    p0 == old(self).pos,
                    0 <= p0 < q0 <= self.pos <= ts.len(),
                    sp_expr_list(ts, p0, open, close) == close_list(ts, sp_expr_items(ts, q0, close), close),
                ensures
                    sp_expr_items(ts, q0, close) == Ok::<_, ParseError>((exprs_view(items@), self.pos as int)),
                decreases ts.len() - self.pos,
            {
                let ghost before = items@;
                let x = self.expr()?;
                let ghost q1 = self.pos as int;
                proof {
                    lemma_exprs_view_push(before, x);
                    assert(exprs_view(before).push(x@) =~= exprs_view(before) + seq![x@]);
                }
                items.push(x);
                if self.check(TokenKind::Comma) {
                    self.bump();
                    if self.check(close) {
                        break;
                    }
                    proof {
                        lemma_prepend_twice(exprs_view(before), seq![x@], sp_expr_items(ts, q1 + 1, close));
                    }
                } else {
                    break;
                }
            }
        }
        self.expect(close)?;
        Ok(items)
    }

    /// The block at the current position as an expression.
    fn block_expr(&mut self) -> (r: Result<Expr, ParseError>)
        requires
            old(self).ready(),
            old(self).pos > 0 || old(self).cur_is(TokenKind::Lbrace),
        ensures
            old(self).moved(final(self), r),
            match r {
                Ok(e) => crate::grammar::sp_block(old(self).tokens@, old(self).pos as int) matches Ok((b, q))
                    && e@ == block_expr(b) && q == final(self).pos,
                Err(e) => crate::grammar::sp_block(old(self).tokens@, old(self).pos as int) == Err::<(crate::ast::SBlock, int), ParseError>(e),
            },
        decreases old(self).tokens@.len() - old(self).pos, 2int,
    {
        let block: Block = self.block()?;
        let span = block.span.clone();
        Ok(self.mk_expr(span, ExprKind::Block(Box::new(block))))
    }

    /// If expression: `if cond { .. }` with an optional `else`.
    fn if_expr(&mut self) -> (r: Result<Expr, ParseError>)
        requires
            old(self).ready(),
        ensures
            old(self).moved(final(self), r),
            yields(r, sp_if(old(self).tokens@, old(self).pos as int), final(self).pos),
        decreases old(self).tokens@.len() - old(self).pos, 28int,
    {
        let start_span = self.peek()?.span.clone();
        self.bump();
        let expr = self.expr()?;
        let block = self.block_expr()?;
        if self.check(TokenKind::Else) {
            self.bump();
            let branch = if self.check(TokenKind::If) {
                self.if_expr()?
            } else {
                self.block_expr()?
            };
            let end_span = self.prev().span.clone();
            Ok(self.mk_expr(
                start_span.clone() + end_span,
                ExprKind::If(Box::new(expr), Box::new(block), Some(Box::new(branch))),
            ))
        } else {
            let end_span = self.prev().span.clone();
            Ok(self.mk_expr(start_span.clone() + end_span, ExprKind::If(Box::new(expr), Box::new(block), None)))
        }
    }

    /// Closure: `|a, b| body` or `|| body`.
    fn closure_expr(&mut self) -> (r: Result<Expr, ParseError>)
        requires
            old(self).ready(),
        ensures
            old(self).moved(final(self), r),
            yields(r, sp_closure(old(self).tokens@, old(self).pos as int), final(self).pos),
        decreases old(self).tokens@.len() - old(self).pos, 28int,
    {
        let start_span = self.peek()?.span.clone();
        if self.check(TokenKind::Bar) {
            let params = self.id_list(TokenKind::Bar, TokenKind::Bar)?;
            let body = self.expr()?;
            let end_span = self.prev().span.clone();
            Ok(self.mk_expr(start_span.clone() + end_span, ExprKind::Closure(params, Box::new(body))))
        } else {
            self.bump();
            let body = self.expr()?;
            let end_span = self.prev().span.clone();
            let params: Vec<String> = Vec::new();
            proof {
                assert(params@ =~= Seq::<String>::empty());
            }
            Ok(self.mk_expr(start_span.clone() + end_span, ExprKind::Closure(params, Box::new(body))))
        }
    }

    /// Atom: a literal, a group, a variable, an `if` or a closure.
    fn atom(&mut self) -> (r: Result<Expr, ParseError>)
        requires
            old(self).ready(),
        ensures
            old(self).moved(final(self), r),
            yields(r, sp_atom(old(self).tokens@, old(self).pos as int), final(self).pos),
        decreases old(self).tokens@.len() - old(self).pos, 29int,
    {
        let tk = self.peek()?.clone();
        match tk.kind {
            TokenKind::Lparen => self.group(),
            TokenKind::Number => {
                self.bump();
                Ok(self.mk_expr(tk.span, ExprKind::Lit(Lit::Number(tk.lexeme))))
            },
            TokenKind::String => {
                self.bump();
                Ok(self.mk_expr(tk.span, ExprKind::Lit(Lit::String(tk.lexeme))))
            },
            TokenKind::Bool => {
                self.bump();
                let t = String::from_str("true");
                let f = String::from_str("false");
                proof {
                    reveal_strlit("true");
                    reveal_strlit("false");
                    assert(t@ =~= true_text());
                    assert(f@ =~= false_text());
                }
                if tk.lexeme == t {
                    Ok(self.mk_expr(tk.span, ExprKind::Lit(Lit::Bool(true))))
                } else if tk.lexeme == f {
                    Ok(self.mk_expr(tk.span, ExprKind::Lit(Lit::Bool(false))))
                } else {
                    Err(ParseError::InvalidBoolLiteral { span: tk.span })
                }
            },
            TokenKind::Id => self.variable(),
            TokenKind::If => self.if_expr(),
            TokenKind::Bar => self.closure_expr(),
            TokenKind::DoubleBar => self.closure_expr(),
            _ => Err(ParseError::UnexpectedExprToken { got: tk.kind, span: tk.span }),
        }
    }

    /// Unary expression: prefix `-`, `!` or `*` applied to a unary
    /// expression, or an atom.
    fn unary_expr(&mut self) -> (r: Result<Expr, ParseError>)
        requires
            old(self).ready(),
        ensures
            old(self).moved(final(self), r),
            yields(r, sp_unary(old(self).tokens@, old(self).pos as int), final(self).pos),
        decreases old(self).tokens@.len() - old(self).pos, 30int,
    {
        if self.check(TokenKind::Minus) || self.check(TokenKind::Bang) || self.check(TokenKind::Ampersand)
            || self.check(TokenKind::Star) {
            let start_span = self.peek()?.span.clone();
            let tk = self.bump();
            let op = match tk.kind {
                TokenKind::Minus => UnOp::Neg,
                TokenKind::Bang => UnOp::Bang,
                TokenKind::Star => UnOp::Deref,
                _ => {
                    return Err(ParseError::UnsupportedUnaryOp { span: tk.span });
                },
            };
            let value = self.unary_expr()?;
            let end_span = self.prev().span.clone();
            return Ok(self.mk_expr(start_span.clone() + end_span, ExprKind::Unary(op, Box::new(value))));
        }
        self.atom()
    }

    /// The left-associative chain of operators of precedence `level`
    /// (0 factor, 1 term, 2 comparison, 3 equality, 4 `&`, 5 `^`, 6 `|`,
    /// 7 `&&`, 8 `||`, 9 assignment). The right operand of a comparison is
    /// read at the factor level.
    fn binary_expr(&mut self, level: u8) -> (r: Result<Expr, ParseError>)
        requires
            old(self).ready(),
            level <= 9,
        ensures
            old(self).moved(final(self), r),
            yields(r, sp_binary(old(self).tokens@, old(self).pos as int, level as nat), final(self).pos),
        decreases old(self).tokens@.len() - old(self).pos, 32 + 2 * level,
    {
        let ghost ts = self.tokens@;
        let ghost src = self.source;
        let ghost p0 = self.pos as int;
        let start_span = self.peek()?.span.clone();
        let mut left = if level == 0 {
            self.unary_expr()?
        } else {
            self.binary_expr(level - 1)?
        };
        loop
            invariant
                self.tokens@ == ts,
                self.source == src,
                ts == old(self).tokens@,
                crate::parser::one_source(ts),
                src == old(self).source,
                p0 == old(self).pos,
                level <= 9,
                0 <= p0 < self.pos <= ts.len(),
                start_span == ts[p0].span,
                sp_binary(ts, p0, level as nat) == sp_binary_rest(ts, self.pos as int, level as nat, start_span, left@),
            ensures
                sp_binary(ts, p0, level as nat) == Ok::<_, ParseError>((left@, self.pos as int)),
            decreases ts.len() - self.pos,
        {
            let op = match self.infix(level) {
                Some(op) => op,
                None => break,
            };
            self.bump();
            let right = if level == 0 {
                self.unary_expr()?
            } else if level == 2 {
                self.binary_expr(0)?
            } else {
                self.binary_expr(level - 1)?
            };
            let end_span = self.prev().span.clone();
            left = self.mk_infix(op, left, right, start_span.clone() + end_span);
        }
        Ok(left)
    }

    /// Parses an expression.
    pub fn expr(&mut self) -> (r: Result<Expr, ParseError>)
        requires
            old(self).ready(),
        ensures
            old(self).moved(final(self), r),
            yields(r, sp_expr(old(self).tokens@, old(self).pos as int), final(self).pos),
        decreases old(self).tokens@.len() - old(self).pos, 51int,
    {
        self.binary_expr(9)
    }
}

} // verus!
