//! Top-level items and whole modules.

use vstd::prelude::*;
use vstd::string::StringExecFns;
use crate::ast::{seq_view, Enum, Field, Function, Item, ItemKind, Module, Publicity, Struct, TypeHint, Use, UseKind, Variant};
use crate::errors::ParseError;
use crate::grammar::{
    at, close_list, field_of, prepend, slash_join, sp_enum, sp_field_items, sp_fields, sp_function, sp_id_seq, sp_item,
    sp_item_kind, sp_items, sp_module, sp_param, sp_struct, sp_use, sp_use_path, sp_use_path_rest, sp_variant, sp_variant_items,
    sp_variants,
};
use crate::parser::{lemma_prepend_empty, lemma_prepend_twice, lemma_seq_view_empty, lemma_seq_view_push, yields, yields_seq, Parser};
use crate::token::TokenKind;

verus! {

impl Parser {
    /// Struct field: `name: hint`.
    fn struct_field(&mut self) -> (r: Result<Field, ParseError>)
        requires
            old(self).ready(),
            old(self).pos > 0 || old(self).cur_is(TokenKind::Id),
        ensures
            old(self).moved(final(self), r),
            match r {
                Ok(f) => sp_param(old(self).tokens@, old(self).pos as int) matches Ok((x, q))
                    && f@ == field_of(x) && q == final(self).pos,
                Err(e) => sp_param(old(self).tokens@, old(self).pos as int) == Err::<(crate::ast::SParam, int), ParseError>(e),
            },
    {
        let start_span = self.peek()?.span.clone();
        let name = self.expect(TokenKind::Id)?.lexeme;
        self.expect(TokenKind::Colon)?;
        let hint = self.type_hint()?;
        let end_span = self.prev().span.clone();
        Ok(Field { span: start_span.clone() + end_span, name, hint })
    }

    /// Struct fields: `{ field, .. }`.
    fn struct_fields(&mut self) -> (r: Result<Vec<Field>, ParseError>)
        requires
            old(self).ready(),
            old(self).pos > 0 || old(self).cur_is(TokenKind::Lbrace),
        ensures
            old(self).moved(final(self), r),
            yields_seq(r, sp_fields(old(self).tokens@, old(self).pos as int), final(self).pos),
    {
        let ghost ts = self.tokens@;
        let ghost src = self.source;
        let ghost p0 = self.pos as int;
        self.expect(TokenKind::Lbrace)?;
        let ghost q0 = self.pos as int;
        let mut items: Vec<Field> = Vec::new();
        proof {
            lemma_seq_view_empty(items@);
        }
        if !self.check(TokenKind::Rbrace) {
            proof {
                lemma_prepend_empty(sp_field_items(ts, q0));
            }
            loop
                invariant_except_break
                    sp_field_items(ts, q0) == prepend(seq_view(items@), sp_field_items(ts, self.pos as int)),
                invariant
                    self.tokens@ == ts,
                    self.source == src,
                    ts == old(self).tokens@,
                crate::parser::one_source(ts),
                    src == old(self).source,
                    p0 == old(self).pos,
                    0 <= p0 < q0 <= self.pos <= ts.len(),
                    sp_fields(ts, p0) == close_list(ts, sp_field_items(ts, q0), TokenKind::Rbrace),
                ensures
                    sp_field_items(ts, q0) == Ok::<_, ParseError>((seq_view(items@), self.pos as int)),
                decreases ts.len() - self.pos,
            {
                let ghost before = items@;
                let x = self.struct_field()?;
                let ghost q1 = self.pos as int;
                proof {
                    lemma_seq_view_push(before, x);
                }
                items.push(x);
                if self.check(TokenKind::Comma) {
                    self.bump();
                    if self.check(TokenKind::Rbrace) {
                        break;
                    }
                    proof {
                        lemma_prepend_twice(seq_view(before), seq![x@], sp_field_items(ts, q1 + 1));
                    }
                } else {
                    break;
                }
            }
        }
        self.expect(TokenKind::Rbrace)?;
        Ok(items)
    }

    /// Struct: `struct Name<..> { .. }`.
    fn struct_item_kind(&mut self) -> (r: Result<ItemKind, ParseError>)
        requires
            old(self).ready(),
            old(self).pos < old(self).tokens@.len(),
        ensures
            old(self).moved(final(self), r),
            yields(r, sp_struct(old(self).tokens@, old(self).pos as int), final(self).pos),
    {
        self.bump();
        let name = self.expect(TokenKind::Id)?.lexeme;
        let generics = self.generic_params()?;
        let fields = self.struct_fields()?;
        Ok(ItemKind::Struct(Struct { name, generics, fields }))
    }

    /// Enum variant: `Name` or `Name(hint, ..)`.
    fn enum_variant(&mut self) -> (r: Result<Variant, ParseError>)
        requires
            old(self).ready(),
            old(self).pos > 0 || old(self).cur_is(TokenKind::Id),
        ensures
            old(self).moved(final(self), r),
            yields(r, sp_variant(old(self).tokens@, old(self).pos as int), final(self).pos),
    {
        let start_span = self.peek()?.span.clone();
        let name = self.expect(TokenKind::Id)?.lexeme;
        let params = if self.check(TokenKind::Lparen) {
            self.hint_list(TokenKind::Lparen, TokenKind::Rparen)?
        } else {
            Vec::new()
        };
        let end_span = self.prev().span.clone();
        Ok(Variant { span: start_span.clone() + end_span, name, params })
    }

    /// Enum variants: `{ variant, .. }`.
    fn enum_variants(&mut self) -> (r: Result<Vec<Variant>, ParseError>)
        requires
            old(self).ready(),
            old(self).pos > 0 || old(self).cur_is(TokenKind::Lbrace),
        ensures
            old(self).moved(final(self), r),
            yields_seq(r, sp_variants(old(self).tokens@, old(self).pos as int), final(self).pos),
    {
        let ghost ts = self.tokens@;
        let ghost src = self.source;
        let ghost p0 = self.pos as int;
        self.expect(TokenKind::Lbrace)?;
        let ghost q0 = self.pos as int;
        let mut items: Vec<Variant> = Vec::new();
        proof {
            lemma_seq_view_empty(items@);
        }
        if !self.check(TokenKind::Rbrace) {
            proof {
                lemma_prepend_empty(sp_variant_items(ts, q0));
            }
            loop
                invariant_except_break
                    sp_variant_items(ts, q0) == prepend(seq_view(items@), sp_variant_items(ts, self.pos as int)),
                invariant
                    self.tokens@ == ts,
                    self.source == src,
                    ts == old(self).tokens@,
                crate::parser::one_source(ts),
                    src == old(self).source,
                    p0 == old(self).pos,
                    0 <= p0 < q0 <= self.pos <= ts.len(),
                    sp_variants(ts, p0) == close_list(ts, sp_variant_items(ts, q0), TokenKind::Rbrace),
                ensures
                    sp_variant_items(ts, q0) == Ok::<_, ParseError>((seq_view(items@), self.pos as int)),
                decreases ts.len() - self.pos,
            {
                let ghost before = items@;
                let x = self.enum_variant()?;
                let ghost q1 = self.pos as int;
                proof {
                    lemma_seq_view_push(before, x);
                }
                items.push(x);
                if self.check(TokenKind::Comma) {
                    self.bump();
                    if self.check(TokenKind::Rbrace) {
                        break;
                    }
                    proof {
                        lemma_prepend_twice(seq_view(before), seq![x@], sp_variant_items(ts, q1 + 1));
                    }
                } else {
                    break;
                }
            }
        }
        self.expect(TokenKind::Rbrace)?;
        Ok(items)
    }

    /// Enum: `enum Name<..> { .. }`.
    fn enum_item_kind(&mut self) -> (r: Result<ItemKind, ParseError>)
        requires
            old(self).ready(),
            old(self).pos < old(self).tokens@.len(),
        ensures
            old(self).moved(final(self), r),
            yields(r, sp_enum(old(self).tokens@, old(self).pos as int), final(self).pos),
    {
        self.bump();
        let name = self.expect(TokenKind::Id)?.lexeme;
        let generics = self.generic_params()?;
        let variants = self.enum_variants()?;
        Ok(ItemKind::Enum(Enum { name, generics, variants }))
    }

    /// Function: `fn name<..>(..) [-> hint] { .. }`.
    fn fn_item_kind(&mut self) -> (r: Result<ItemKind, ParseError>)
        requires
            old(self).ready(),
            old(self).pos < old(self).tokens@.len(),
        ensures
            old(self).moved(final(self), r),
            yields(r, sp_function(old(self).tokens@, old(self).pos as int), final(self).pos),
    {
        self.bump();
        let name = self.expect(TokenKind::Id)?.lexeme;
        let generics = self.generic_params()?;
        let params = self.params()?;
        let ret = if self.check(TokenKind::Arrow) {
            self.bump();
            self.type_hint()?
        } else {
            TypeHint::Infer
        };
        let block = self.block()?;
        Ok(ItemKind::Function(Function { name, generics, params, ret, block }))
    }

    /// Use path: `name/name/..`, spelled with `/`.
    fn use_path(&mut self) -> (r: Result<String, ParseError>)
        requires
            old(self).ready(),
            old(self).pos > 0 || old(self).cur_is(TokenKind::Id),
        ensures
            old(self).moved(final(self), r),
            yields(r, sp_use_path(old(self).tokens@, old(self).pos as int), final(self).pos),
    {
        let ghost ts = self.tokens@;
        let ghost src = self.source;
        let ghost p0 = self.pos as int;
        let mut module = String::new();
        let first = self.expect(TokenKind::Id)?.lexeme;
        module.append(first.as_str());
        proof {
            assert(module@ =~= ts[p0].lexeme@);
        }
        while self.check(TokenKind::Slash)
            invariant
                self.tokens@ == ts,
                self.source == src,
                ts == old(self).tokens@,
                crate::parser::one_source(ts),
                src == old(self).source,
                p0 == old(self).pos,
                0 <= p0 < self.pos <= ts.len(),
                sp_use_path(ts, p0) == sp_use_path_rest(ts, self.pos as int, module@),
            decreases ts.len() - self.pos,
        {
            let ghost q = self.pos as int;
            let ghost before = module@;
            self.expect(TokenKind::Slash)?;
            module.append("/");
            let name = self.expect(TokenKind::Id)?.lexeme;
            module.append(name.as_str());
            proof {
                reveal_strlit("/");
                assert(module@ =~= slash_join(before, ts[q + 1].lexeme@));
            }
        }
        Ok(module)
    }

    /// `id, id, ..` with no brackets.
    fn id_seq(&mut self) -> (r: Result<Vec<String>, ParseError>)
        requires
            old(self).ready(),
            old(self).pos > 0 || old(self).cur_is(TokenKind::Id),
        ensures
            old(self).moved(final(self), r),
            yields(r, sp_id_seq(old(self).tokens@, old(self).pos as int), final(self).pos),
    {
        let ghost ts = self.tokens@;
        let ghost src = self.source;
        let ghost p0 = self.pos as int;
        let mut items: Vec<String> = Vec::new();
        proof {
            lemma_prepend_empty(sp_id_seq(ts, p0));
            assert(items@ =~= Seq::<String>::empty());
        }
        loop
            invariant_except_break
                sp_id_seq(ts, p0) == prepend(items@, sp_id_seq(ts, self.pos as int)),
            invariant
                self.tokens@ == ts,
                self.source == src,
                ts == old(self).tokens@,
                crate::parser::one_source(ts),
                src == old(self).source,
                p0 == old(self).pos,
                0 <= p0 <= self.pos <= ts.len(),
                p0 > 0 || at(ts, p0, TokenKind::Id),
                items@.len() > 0 ==> p0 < self.pos,
            ensures
                sp_id_seq(ts, p0) == Ok::<_, ParseError>((items@, self.pos as int)),
                p0 < self.pos,
            decreases ts.len() - self.pos,
        {
            let ghost before = items@;
            let ghost q = self.pos as int;
            let x = self.expect(TokenKind::Id)?.lexeme;
            items.push(x);
            proof {
                assert(before.push(x) =~= before + seq![x]);
            }
            if self.check(TokenKind::Comma) {
                self.expect(TokenKind::Comma)?;
                proof {
                    lemma_prepend_twice(before, seq![x], sp_id_seq(ts, q + 2));
                }
            } else {
                break;
            }
        }
        Ok(items)
    }

    /// Use: `use path`, `use path as name` or `use path for a, b`.
    fn use_item_kind(&mut self) -> (r: Result<ItemKind, ParseError>)
        requires
            old(self).ready(),
            old(self).pos < old(self).tokens@.len(),
        ensures
            old(self).moved(final(self), r),
            yields(r, sp_use(old(self).tokens@, old(self).pos as int), final(self).pos),
    {
        self.bump();
        let path = self.use_path()?;
        let kind = if self.check(TokenKind::As) {
            self.bump();
            let name = self.expect(TokenKind::Id)?.lexeme;
            UseKind::As(name)
        } else if self.check(TokenKind::For) {
            self.bump();
            let names = self.id_seq()?;
            UseKind::For(names)
        } else {
            UseKind::Just
        };
        Ok(ItemKind::Use(Use { path, kind }))
    }

    /// The item that the current keyword starts.
    fn item_kind(&mut self) -> (r: Result<ItemKind, ParseError>)
        requires
            old(self).ready(),
        ensures
            old(self).moved(final(self), r),
            yields(r, sp_item_kind(old(self).tokens@, old(self).pos as int), final(self).pos),
    {
        let tk = self.peek()?;
        let kind = tk.kind;
        let span = tk.span.clone();
        match kind {
            TokenKind::Struct => self.struct_item_kind(),
            TokenKind::Enum => self.enum_item_kind(),
            TokenKind::Fn => self.fn_item_kind(),
            TokenKind::Use => self.use_item_kind(),
            _ => Err(ParseError::UnexpectedItemToken { got: kind, span }),
        }
    }

    /// The item with its publicity; `pub` is recognised but left in place.
    fn item_inner(&mut self) -> (r: Result<(Publicity, ItemKind), ParseError>)
        requires
            old(self).ready(),
        ensures
            old(self).moved(final(self), r),
            match r {
                Ok((p, k)) => sp_item_kind(old(self).tokens@, old(self).pos as int)
                    == Ok::<_, ParseError>((k@, final(self).pos as int))
                    && p == (if old(self).cur_is(TokenKind::Pub) { Publicity::Pub } else { Publicity::Private }),
                Err(e) => sp_item_kind(old(self).tokens@, old(self).pos as int) == Err::<(crate::ast::SItemKind, int), ParseError>(e),
            },
    {
        if self.check(TokenKind::Pub) {
            let k = self.item_kind()?;
            Ok((Publicity::Pub, k))
        } else {
            let k = self.item_kind()?;
            Ok((Publicity::Private, k))
        }
    }

    /// Parses a top-level item.
    pub fn item(&mut self) -> (r: Result<Item, ParseError>)
        requires
            old(self).ready(),
        ensures
            old(self).moved(final(self), r),
            yields(r, sp_item(old(self).tokens@, old(self).pos as int), final(self).pos),
    {
        let start_span = self.peek()?.span.clone();
        let (publicity, kind) = self.item_inner()?;
        let end_span = self.prev().span.clone();
        Ok(Item { span: start_span.clone() + end_span, publicity, kind })
    }

    /// Parses the items from the current token to the end of the input.
    pub fn parse(&mut self) -> (r: Result<Module, ParseError>)
        requires
            old(self).pos <= old(self).tokens@.len(),
            crate::parser::one_source(old(self).tokens@),
        ensures
            old(self).keeps(final(self)),
            match r {
                Ok(m) => sp_items(old(self).tokens@, old(self).pos as int) == Ok::<_, ParseError>(m@.items)
                    && final(self).pos == final(self).tokens@.len()
                    && (old(self).pos == 0 ==> sp_module(old(self).tokens@) == Ok::<_, ParseError>(m@)),
                Err(e) => sp_items(old(self).tokens@, old(self).pos as int) == Err::<Seq<crate::ast::SItem>, ParseError>(e),
            },
    {
        let ghost ts = self.tokens@;
        let ghost src = self.source;
        let ghost p0 = self.pos as int;
        let mut items: Vec<Item> = Vec::new();
        proof {
            lemma_seq_view_empty(items@);
            assert(sp_items(ts, p0) == items_prepend(seq_view(items@), sp_items(ts, p0))) by {
                if let Ok(rest) = sp_items(ts, p0) {
                    assert(seq_view(items@) + rest =~= rest);
                }
            }
        }
        while self.pos < self.tokens.len()
            invariant
                self.tokens@ == ts,
                self.source == src,
                ts == old(self).tokens@,
                crate::parser::one_source(ts),
                src == old(self).source,
                p0 == old(self).pos,
                0 <= p0 <= self.pos <= ts.len(),
                sp_items(ts, p0) == items_prepend(seq_view(items@), sp_items(ts, self.pos as int)),
            decreases ts.len() - self.pos,
        {
            let ghost before = items@;
            let ghost q = self.pos as int;
            let it = self.item()?;
            proof {
                lemma_seq_view_push(before, it);
                let rest = sp_items(ts, self.pos as int);
                if let Ok(r) = rest {
                    assert(seq_view(before) + (seq![it@] + r) =~= (seq_view(before) + seq![it@]) + r);
                }
            }
            items.push(it);
        }
        proof {
            assert(seq_view(items@) + Seq::empty() =~= seq_view(items@));
        }
        Ok(Module { items })
    }
}

/// `xs` put in front of the items that `r` gives.
pub open spec fn items_prepend(xs: Seq<crate::ast::SItem>, r: Result<Seq<crate::ast::SItem>, ParseError>) -> Result<Seq<crate::ast::SItem>, ParseError> {
    match r {
        Err(e) => Err(e),
        Ok(ys) => Ok(xs + ys),
    }
}

} // verus!
