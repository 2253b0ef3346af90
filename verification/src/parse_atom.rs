//! Type hints, generic parameters and function parameters.

use vstd::prelude::*;
use crate::ast::{hints_view, seq_view, Param, TypeHint};
use crate::errors::ParseError;
use crate::grammar::{sp_id_items, sp_id_list, sp_generic_params, sp_param, sp_params, sp_param_items, close_list, prepend, sp_fn_type_hint, sp_generic_args, sp_hint_items, sp_hint_list, sp_id_type_hint, sp_type_hint};
use crate::parser::{lemma_seq_view_push, lemma_seq_view_empty, yields_seq, lemma_hints_view_push, lemma_prepend_empty, lemma_prepend_twice, yields, yields_hints, Parser};
use crate::token::TokenKind;

verus! {

impl Parser {
    /// Parses the type hints between `open` and `close`, separated by commas.
    pub(crate) fn hint_list(&mut self, open: TokenKind, close: TokenKind) -> (r: Result<Vec<TypeHint>, ParseError>)
        requires
            old(self).ready(),
            old(self).pos > 0 || old(self).cur_is(open),
        ensures
            old(self).moved(final(self), r),
            yields_hints(r, sp_hint_list(old(self).tokens@, old(self).pos as int, open, close), final(self).pos),
        decreases old(self).tokens@.len() - old(self).pos, 2int,
    {
        let ghost ts = self.tokens@;
        let ghost src = self.source;
        let ghost p0 = self.pos as int;
        self.expect(open)?;
        let ghost q0 = self.pos as int;
        let mut items: Vec<TypeHint> = Vec::new();
        if !self.check(close) {
            proof {
                lemma_prepend_empty(sp_hint_items(ts, q0, close));
            }
            loop
                invariant_except_break
                    sp_hint_items(ts, q0, close) == prepend(hints_view(items@), sp_hint_items(ts, self.pos as int, close)),
                invariant
                    self.tokens@ == ts,
                    self.source == src,
                    ts == old(self).tokens@,
                crate::parser::one_source(ts),
                    src == old(self).source,
                    p0 == old(self).pos,
                    0 <= p0 < q0 <= self.pos <= ts.len(),
                    sp_hint_list(ts, p0, open, close) == close_list(ts, sp_hint_items(ts, q0, close), close),
                ensures
                    sp_hint_items(ts, q0, close) == Ok::<_, ParseError>((hints_view(items@), self.pos as int)),
                decreases ts.len() - self.pos,
            {
                let ghost q = self.pos as int;
                let ghost before = items@;
                let x = self.type_hint()?;
                let ghost q1 = self.pos as int;
                proof {
                    lemma_hints_view_push(before, x);
                    assert(hints_view(before).push(x@) =~= hints_view(before) + seq![x@]);
                }
                items.push(x);
                if self.check(TokenKind::Comma) {
                    self.bump();
                    if self.check(close) {
                        break;
                    }
                    proof {
                        lemma_prepend_twice(hints_view(before), seq![x@], sp_hint_items(ts, q1 + 1, close));
                    }
                } else {
                    break;
                }
            }
        }
        self.expect(close)?;
        Ok(items)
    }

    /// Parses generic args: `<hint, ..>`, or none.
    fn generic_args(&mut self) -> (r: Result<Vec<TypeHint>, ParseError>)
        requires
            old(self).pos <= old(self).tokens@.len(),
            crate::parser::one_source(old(self).tokens@),
        ensures
            old(self).keeps(final(self)),
            yields_hints(r, sp_generic_args(old(self).tokens@, old(self).pos as int), final(self).pos),
        decreases old(self).tokens@.len() - old(self).pos, 3int,
    {
        if self.check(TokenKind::Lt) {
            self.hint_list(TokenKind::Lt, TokenKind::Gt)
        } else {
            Ok(Vec::new())
        }
    }

    /// Parses an identifier type hint: `name<..>` or `module.name<..>`.
    fn id_type_hint(&mut self) -> (r: Result<TypeHint, ParseError>)
        requires
            old(self).ready(),
        ensures
            old(self).moved(final(self), r),
            yields(r, sp_id_type_hint(old(self).tokens@, old(self).pos as int), final(self).pos),
        decreases old(self).tokens@.len() - old(self).pos, 4int,
    {
        let start_span = self.peek()?.span.clone();
        let id = self.bump().lexeme;
        if self.check(TokenKind::Dot) {
            self.bump();
            let name = self.expect(TokenKind::Id)?.lexeme;
            let generics = self.generic_args()?;
            let end_span = self.prev().span.clone();
            Ok(TypeHint::Module { span: start_span.clone() + end_span, module: id, name, args: generics })
        } else {
            let generics = self.generic_args()?;
            let end_span = self.prev().span.clone();
            Ok(TypeHint::Local { span: start_span.clone() + end_span, name: id, args: generics })
        }
    }

    /// Parses a function type hint: `fn(hint, ..) [->] hint`.
    fn fn_type_hint(&mut self) -> (r: Result<TypeHint, ParseError>)
        requires
            old(self).ready(),
        ensures
            old(self).moved(final(self), r),
            yields(r, sp_fn_type_hint(old(self).tokens@, old(self).pos as int), final(self).pos),
        decreases old(self).tokens@.len() - old(self).pos, 4int,
    {
        let start_span = self.peek()?.span.clone();
        self.bump();
        let params = self.hint_list(TokenKind::Lparen, TokenKind::Rparen)?;
        let ret = if self.check(TokenKind::Arrow) {
            self.bump();
            self.type_hint()?
        } else {
            self.type_hint()?
        };
        let end_span = self.prev().span.clone();
        Ok(TypeHint::Function { span: start_span.clone() + end_span, params, ret: Box::new(ret) })
    }

    /// Parses a type hint.
    pub fn type_hint(&mut self) -> (r: Result<TypeHint, ParseError>)
        requires
            old(self).ready(),
        ensures
            old(self).moved(final(self), r),
            yields(r, sp_type_hint(old(self).tokens@, old(self).pos as int), final(self).pos),
        decreases old(self).tokens@.len() - old(self).pos, 5int,
    {
        if self.check(TokenKind::Fn) {
            self.fn_type_hint()
        } else {
            self.id_type_hint()
        }
    }
}


impl Parser {
    /// Parses the identifiers between `open` and `close`, separated by commas.
    pub(crate) fn id_list(&mut self, open: TokenKind, close: TokenKind) -> (r: Result<Vec<String>, ParseError>)
        requires
            old(self).ready(),
            old(self).pos > 0 || old(self).cur_is(open),
        ensures
            old(self).moved(final(self), r),
            yields(r, sp_id_list(old(self).tokens@, old(self).pos as int, open, close), final(self).pos),
    {
        let ghost ts = self.tokens@;
        let ghost src = self.source;
        let ghost p0 = self.pos as int;
        self.expect(open)?;
        let ghost q0 = self.pos as int;
        let mut items: Vec<String> = Vec::new();
        if !self.check(close) {
            proof {
                lemma_prepend_empty(sp_id_items(ts, q0, close));
                assert(items@ =~= Seq::<String>::empty());
            }
            loop
                invariant_except_break
                    sp_id_items(ts, q0, close) == prepend(items@, sp_id_items(ts, self.pos as int, close)),
                invariant
                    self.tokens@ == ts,
                    self.source == src,
                    ts == old(self).tokens@,
                crate::parser::one_source(ts),
                    src == old(self).source,
                    p0 == old(self).pos,
                    0 <= p0 < q0 <= self.pos <= ts.len(),
                    sp_id_list(ts, p0, open, close) == close_list(ts, sp_id_items(ts, q0, close), close),
                ensures
                    sp_id_items(ts, q0, close) == Ok::<_, ParseError>((items@, self.pos as int)),
                decreases ts.len() - self.pos,
            {
                let ghost before = items@;
                let x = self.expect(TokenKind::Id)?.lexeme;
                let ghost q1 = self.pos as int;
                items.push(x);
                proof {
                    assert(before.push(x) =~= before + seq![x]);
                }
                if self.check(TokenKind::Comma) {
                    self.bump();
                    if self.check(close) {
                        break;
                    }
                    proof {
                        lemma_prepend_twice(before, seq![x], sp_id_items(ts, q1 + 1, close));
                    }
                } else {
                    break;
                }
            }
        }
        self.expect(close)?;
        Ok(items)
    }

    /// Parses generic params: `<name, ..>`, or none.
    pub fn generic_params(&mut self) -> (r: Result<Vec<String>, ParseError>)
        requires
            old(self).pos <= old(self).tokens@.len(),
            crate::parser::one_source(old(self).tokens@),
        ensures
            old(self).keeps(final(self)),
            yields(r, sp_generic_params(old(self).tokens@, old(self).pos as int), final(self).pos),
    {
        if self.check(TokenKind::Lt) {
            self.id_list(TokenKind::Lt, TokenKind::Gt)
        } else {
            Ok(Vec::new())
        }
    }

    /// Parses one parameter: `name: hint`.
    fn param(&mut self) -> (r: Result<Param, ParseError>)
        requires
            old(self).ready(),
            old(self).pos > 0 || old(self).cur_is(TokenKind::Id),
        ensures
            old(self).moved(final(self), r),
            yields(r, sp_param(old(self).tokens@, old(self).pos as int), final(self).pos),
    {
        let start_span = self.peek()?.span.clone();
        let name = self.expect(TokenKind::Id)?.lexeme;
        self.expect(TokenKind::Colon)?;
        let hint = self.type_hint()?;
        let end_span = self.prev().span.clone();
        Ok(Param { span: start_span.clone() + end_span, name, hint })
    }

    /// Parses params: `(name: hint, ..)`.
    pub fn params(&mut self) -> (r: Result<Vec<Param>, ParseError>)
        requires
            old(self).ready(),
            old(self).pos > 0 || old(self).cur_is(TokenKind::Lparen),
        ensures
            old(self).moved(final(self), r),
            yields_seq(r, sp_params(old(self).tokens@, old(self).pos as int), final(self).pos),
    {
        let ghost ts = self.tokens@;
        let ghost src = self.source;
        let ghost p0 = self.pos as int;
        self.expect(TokenKind::Lparen)?;
        let ghost q0 = self.pos as int;
        let mut items: Vec<Param> = Vec::new();
        proof {
            lemma_seq_view_empty(items@);
        }
        if !self.check(TokenKind::Rparen) {
            proof {
                lemma_prepend_empty(sp_param_items(ts, q0));
            }
            loop
                invariant_except_break
                    sp_param_items(ts, q0) == prepend(seq_view(items@), sp_param_items(ts, self.pos as int)),
                invariant
                    self.tokens@ == ts,
                    self.source == src,
                    ts == old(self).tokens@,
                crate::parser::one_source(ts),
                    src == old(self).source,
                    p0 == old(self).pos,
                    0 <= p0 < q0 <= self.pos <= ts.len(),
                    sp_params(ts, p0) == close_list(ts, sp_param_items(ts, q0), TokenKind::Rparen),
                ensures
                    sp_param_items(ts, q0) == Ok::<_, ParseError>((seq_view(items@), self.pos as int)),
                decreases ts.len() - self.pos,
            {
                let ghost before = items@;
                let x = self.param()?;
                let ghost q1 = self.pos as int;
                proof {
                    lemma_seq_view_push(before, x);
                }
                items.push(x);
                if self.check(TokenKind::Comma) {
                    self.bump();
                    if self.check(TokenKind::Rparen) {
                        break;
                    }
                    proof {
                        lemma_prepend_twice(seq_view(before), seq![x@], sp_param_items(ts, q1 + 1));
                    }
                } else {
                    break;
                }
            }
        }
        self.expect(TokenKind::Rparen)?;
        Ok(items)
    }
}

} // verus!
