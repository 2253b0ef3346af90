use worm::ast::{BinOp, ExprKind, ItemKind, Lit, Publicity, StmtKind, TypeHint, UnOp, UseKind};
use worm::errors::ParseError;
use worm::parser::Parser;
use std::sync::Arc;
use worm::token::{SourceFile, Span, Token, TokenKind};

fn source() -> Arc<SourceFile> {
    Arc::new(SourceFile { name: "test.wm".to_string(), text: String::new() })
}

fn sp(start: usize, end: usize) -> Span {
    Span { source: source(), start, end }
}

/// Tokens laid out one after another, each `len` wide where `len` is its
/// text's length, separated by one space.
fn toks(spec: &[(TokenKind, &str)]) -> Vec<Token> {
    let src = source();
    let mut out = Vec::new();
    let mut at = 0usize;
    for (k, s) in spec {
        let end = at + s.len();
        out.push(Token::new(Span { source: src.clone(), start: at, end }, *k, s.to_string()));
        at = end + 1;
    }
    out
}

fn parser(spec: &[(TokenKind, &str)]) -> Parser {
    Parser::new(source(), toks(spec))
}

use TokenKind as K;

#[test]
fn empty_input_is_empty_module() {
    let mut p = parser(&[]);
    let m = p.parse().unwrap();
    assert_eq!(m.items.len(), 0);
}

#[test]
fn precedence_mul_over_add() {
    // 1 + 2 * 3
    let mut p = parser(&[(K::Number, "1"), (K::Plus, "+"), (K::Number, "2"), (K::Star, "*"), (K::Number, "3")]);
    let e = p.expr().unwrap();
    assert_eq!(e.clone(), e);
    assert_eq!(p.pos, 5);
    assert_eq!(e.span, sp(0, 9));
    match e.kind {
        ExprKind::Bin(BinOp::Add, l, r) => {
            assert!(matches!(l.kind, ExprKind::Lit(Lit::Number(ref n)) if n == "1"));
            match r.kind {
                ExprKind::Bin(BinOp::Mul, a, b) => {
                    assert!(matches!(a.kind, ExprKind::Lit(Lit::Number(ref n)) if n == "2"));
                    assert!(matches!(b.kind, ExprKind::Lit(Lit::Number(ref n)) if n == "3"));
                    assert_eq!(r.span, sp(4, 9));
                }
                _ => panic!("expected a product"),
            }
        }
        _ => panic!("expected a sum"),
    }
}

#[test]
fn subtraction_is_left_associative() {
    // a - b - c
    let mut p = parser(&[(K::Id, "a"), (K::Minus, "-"), (K::Id, "b"), (K::Minus, "-"), (K::Id, "c")]);
    let e = p.expr().unwrap();
    match e.kind {
        ExprKind::Bin(BinOp::Sub, l, r) => {
            assert!(matches!(r.kind, ExprKind::Id(ref n) if n == "c"));
            assert_eq!(l.span, sp(0, 5));
            assert!(matches!(l.kind, ExprKind::Bin(BinOp::Sub, _, _)));
        }
        _ => panic!("expected a difference"),
    }
}

#[test]
fn comparison_right_operand_is_a_factor() {
    // a < b + c: the comparison takes `b` and stops before `+`
    let mut p = parser(&[(K::Id, "a"), (K::Lt, "<"), (K::Id, "b"), (K::Plus, "+"), (K::Id, "c")]);
    let e = p.expr().unwrap();
    assert_eq!(p.pos, 3);
    assert!(matches!(e.kind, ExprKind::Bin(BinOp::Lt, _, _)));
    assert_eq!(e.span, sp(0, 5));
}

#[test]
fn assignment_and_logic() {
    // x = a || b && c
    let mut p = parser(&[
        (K::Id, "x"),
        (K::Eq, "="),
        (K::Id, "a"),
        (K::DoubleBar, "||"),
        (K::Id, "b"),
        (K::DoubleAmp, "&&"),
        (K::Id, "c"),
    ]);
    let e = p.expr().unwrap();
    match e.kind {
        ExprKind::Assign(t, v) => {
            assert!(matches!(t.kind, ExprKind::Id(ref n) if n == "x"));
            match v.kind {
                ExprKind::Bin(BinOp::Or, _, r) => assert!(matches!(r.kind, ExprKind::Bin(BinOp::And, _, _))),
                _ => panic!("expected ||"),
            }
        }
        _ => panic!("expected an assignment"),
    }
}

#[test]
fn bitwise_levels() {
    // a | b ^ c & d == e
    let mut p = parser(&[
        (K::Id, "a"),
        (K::Bar, "|"),
        (K::Id, "b"),
        (K::Caret, "^"),
        (K::Id, "c"),
        (K::Ampersand, "&"),
        (K::Id, "d"),
        (K::DoubleEq, "=="),
        (K::Id, "e"),
    ]);
    let e = p.expr().unwrap();
    match e.kind {
        ExprKind::Bin(BinOp::BitOr, _, r) => match r.kind {
            ExprKind::Bin(BinOp::Xor, _, r2) => match r2.kind {
                ExprKind::Bin(BinOp::BitAnd, _, r3) => assert!(matches!(r3.kind, ExprKind::Bin(BinOp::Eq, _, _))),
                _ => panic!("expected &"),
            },
            _ => panic!("expected ^"),
        },
        _ => panic!("expected |"),
    }
}

#[test]
fn unary_operators_nest() {
    // - ! * x
    let mut p = parser(&[(K::Minus, "-"), (K::Bang, "!"), (K::Star, "*"), (K::Id, "x")]);
    let e = p.expr().unwrap();
    assert_eq!(e.span, sp(0, 7));
    match e.kind {
        ExprKind::Unary(UnOp::Neg, v) => match v.kind {
            ExprKind::Unary(UnOp::Bang, w) => assert!(matches!(w.kind, ExprKind::Unary(UnOp::Deref, _))),
            _ => panic!("expected !"),
        },
        _ => panic!("expected -"),
    }
}

#[test]
fn prefix_ampersand_is_refused() {
    let mut p = parser(&[(K::Ampersand, "&"), (K::Id, "x")]);
    assert_eq!(p.expr().unwrap_err(), ParseError::UnsupportedUnaryOp { span: sp(0, 1) });
}

#[test]
fn bool_literals() {
    let mut p = parser(&[(K::Bool, "true")]);
    assert!(matches!(p.expr().unwrap().kind, ExprKind::Lit(Lit::Bool(true))));
    let mut p = parser(&[(K::Bool, "false")]);
    assert!(matches!(p.expr().unwrap().kind, ExprKind::Lit(Lit::Bool(false))));
    let mut p = parser(&[(K::Bool, "yes")]);
    assert_eq!(p.expr().unwrap_err(), ParseError::InvalidBoolLiteral { span: sp(0, 3) });
}

#[test]
fn string_literal() {
    let mut p = parser(&[(K::String, "hi")]);
    assert!(matches!(p.expr().unwrap().kind, ExprKind::Lit(Lit::String(ref s)) if s == "hi"));
}

#[test]
fn field_and_call_chain() {
    // a.b(c, d,)
    let mut p = parser(&[
        (K::Id, "a"),
        (K::Dot, "."),
        (K::Id, "b"),
        (K::Lparen, "("),
        (K::Id, "c"),
        (K::Comma, ","),
        (K::Id, "d"),
        (K::Comma, ","),
        (K::Rparen, ")"),
    ]);
    let e = p.expr().unwrap();
    assert_eq!(e.span, sp(0, 17));
    match e.kind {
        ExprKind::Call(f, args) => {
            assert_eq!(args.len(), 2);
            match f.kind {
                ExprKind::Field(o, name) => {
                    assert_eq!(name, "b");
                    assert!(matches!(o.kind, ExprKind::Id(ref n) if n == "a"));
                }
                _ => panic!("expected a field"),
            }
        }
        _ => panic!("expected a call"),
    }
}

#[test]
fn group_keeps_inner_span() {
    let mut p = parser(&[(K::Lparen, "("), (K::Id, "x"), (K::Rparen, ")")]);
    let e = p.expr().unwrap();
    assert_eq!(e.span, sp(2, 3));
    assert_eq!(p.pos, 3);
}

#[test]
fn if_else_if_else() {
    // if a { } else if b { } else { }
    let mut p = parser(&[
        (K::If, "if"),
        (K::Id, "a"),
        (K::Lbrace, "{"),
        (K::Rbrace, "}"),
        (K::Else, "else"),
        (K::If, "if"),
        (K::Id, "b"),
        (K::Lbrace, "{"),
        (K::Rbrace, "}"),
        (K::Else, "else"),
        (K::Lbrace, "{"),
        (K::Rbrace, "}"),
    ]);
    let e = p.expr().unwrap();
    assert_eq!(p.pos, 12);
    match e.kind {
        ExprKind::If(_, then, Some(els)) => {
            assert!(matches!(then.kind, ExprKind::Block(_)));
            assert!(matches!(els.kind, ExprKind::If(_, _, Some(_))));
        }
        _ => panic!("expected if/else"),
    }
}

#[test]
fn closures() {
    let mut p = parser(&[(K::Bar, "|"), (K::Id, "a"), (K::Comma, ","), (K::Id, "b"), (K::Bar, "|"), (K::Id, "a")]);
    match p.expr().unwrap().kind {
        ExprKind::Closure(ps, _) => assert_eq!(ps, vec!["a".to_string(), "b".to_string()]),
        _ => panic!("expected a closure"),
    }
    let mut p = parser(&[(K::DoubleBar, "||"), (K::Number, "1")]);
    match p.expr().unwrap().kind {
        ExprKind::Closure(ps, body) => {
            assert!(ps.is_empty());
            assert!(matches!(body.kind, ExprKind::Lit(_)));
        }
        _ => panic!("expected a closure"),
    }
}

#[test]
fn unexpected_expression_token() {
    let mut p = parser(&[(K::Rbrace, "}")]);
    assert_eq!(p.expr().unwrap_err(), ParseError::UnexpectedExprToken { got: K::Rbrace, span: sp(0, 1) });
}

#[test]
fn end_of_input_reports_last_token() {
    let mut p = parser(&[(K::Id, "a"), (K::Plus, "+")]);
    assert_eq!(p.expr().unwrap_err(), ParseError::UnexpectedEof { span: sp(2, 3) });
}

#[test]
fn unexpected_token_reports_previous() {
    // (a ;
    let mut p = parser(&[(K::Lparen, "("), (K::Id, "a"), (K::Semi, ";")]);
    assert_eq!(
        p.expr().unwrap_err(),
        ParseError::UnexpectedToken {
            got: K::Semi,
            expected: K::Rparen,
            span: sp(4, 5),
            prev: sp(2, 3),
        }
    );
}

#[test]
fn block_statements_and_semicolons() {
    // { let x: int = 1; x; if x { } }
    let mut p = parser(&[
        (K::Lbrace, "{"),
        (K::Let, "let"),
        (K::Id, "x"),
        (K::Colon, ":"),
        (K::Id, "int"),
        (K::Eq, "="),
        (K::Number, "1"),
        (K::Semi, ";"),
        (K::Id, "x"),
        (K::Semi, ";"),
        (K::If, "if"),
        (K::Id, "x"),
        (K::Lbrace, "{"),
        (K::Rbrace, "}"),
        (K::Rbrace, "}"),
    ]);
    let b = p.block().unwrap();
    assert_eq!(b.stmts.len(), 3);
    match &b.stmts[0].kind {
        StmtKind::Let(n, TypeHint::Local { name, args, .. }, _) => {
            assert_eq!(n, "x");
            assert_eq!(name, "int");
            assert!(args.is_empty());
        }
        _ => panic!("expected let"),
    }
    assert_eq!(b.stmts[0].span, sp(2, 19));
    assert!(matches!(b.stmts[1].kind, StmtKind::Semi(_)));
    assert!(matches!(b.stmts[2].kind, StmtKind::Expr(_)));
}

#[test]
fn last_statement_may_omit_semicolon() {
    // { x }
    let mut p = parser(&[(K::Lbrace, "{"), (K::Id, "x"), (K::Rbrace, "}")]);
    let b = p.block().unwrap();
    assert_eq!(b.stmts.len(), 1);
    assert!(matches!(b.stmts[0].kind, StmtKind::Expr(_)));
    assert_eq!(b.stmts[0].span, sp(2, 3));
    assert_eq!(p.pos, 3);
}

#[test]
fn inner_statement_without_semicolon_is_refused() {
    // { a b }
    let mut p = parser(&[(K::Lbrace, "{"), (K::Id, "a"), (K::Id, "b"), (K::Rbrace, "}")]);
    assert_eq!(p.block().unwrap_err(), ParseError::ExpectedSemicolon { span: sp(2, 3) });
    // { a { } }: a block after the statement does not excuse it either
    let mut p = parser(&[(K::Lbrace, "{"), (K::Id, "a"), (K::Lbrace, "{"), (K::Rbrace, "}"), (K::Rbrace, "}")]);
    assert_eq!(p.block().unwrap_err(), ParseError::ExpectedSemicolon { span: sp(2, 3) });
    // { let x = 1 }: a let needs none at the end of the block
    let mut p = parser(&[(K::Lbrace, "{"), (K::Let, "let"), (K::Id, "x"), (K::Eq, "="), (K::Number, "1"), (K::Rbrace, "}")]);
    assert!(p.block().is_ok());
}

#[test]
fn let_without_hint_infers() {
    let mut p = parser(&[
        (K::Lbrace, "{"),
        (K::Let, "let"),
        (K::Id, "y"),
        (K::Eq, "="),
        (K::Id, "z"),
        (K::Semi, ";"),
        (K::Rbrace, "}"),
    ]);
    let b = p.block().unwrap();
    assert!(matches!(b.stmts[0].kind, StmtKind::Let(_, TypeHint::Infer, _)));
}

#[test]
fn function_item() {
    // fn id<T>(x: T) -> T { }
    let mut p = parser(&[
        (K::Fn, "fn"),
        (K::Id, "id"),
        (K::Lt, "<"),
        (K::Id, "T"),
        (K::Gt, ">"),
        (K::Lparen, "("),
        (K::Id, "x"),
        (K::Colon, ":"),
        (K::Id, "T"),
        (K::Rparen, ")"),
        (K::Arrow, "->"),
        (K::Id, "T"),
        (K::Lbrace, "{"),
        (K::Rbrace, "}"),
    ]);
    let m = p.parse().unwrap();
    assert_eq!(m.items.len(), 1);
    let it = &m.items[0];
    assert_eq!(it.publicity, Publicity::Private);
    assert_eq!(it.span, sp(0, 30));
    match &it.kind {
        ItemKind::Function(f) => {
            assert_eq!(f.name, "id");
            assert_eq!(f.generics, vec!["T".to_string()]);
            assert_eq!(f.params.len(), 1);
            assert_eq!(f.params[0].name, "x");
            assert_eq!(f.params[0].span, sp(14, 19));
            assert!(matches!(f.ret, TypeHint::Local { .. }));
            assert!(f.block.stmts.is_empty());
        }
        _ => panic!("expected a function"),
    }
}

#[test]
fn pub_item_is_refused() {
    let mut p = parser(&[(K::Pub, "pub"), (K::Fn, "fn"), (K::Id, "f")]);
    assert_eq!(p.parse().unwrap_err(), ParseError::UnexpectedItemToken { got: K::Pub, span: sp(0, 3) });
}

#[test]
fn struct_and_enum_items() {
    // struct P { x: int, y: int, } enum E<T> { A, B(T, int) }
    let mut p = parser(&[
        (K::Struct, "struct"),
        (K::Id, "P"),
        (K::Lbrace, "{"),
        (K::Id, "x"),
        (K::Colon, ":"),
        (K::Id, "int"),
        (K::Comma, ","),
        (K::Id, "y"),
        (K::Colon, ":"),
        (K::Id, "int"),
        (K::Comma, ","),
        (K::Rbrace, "}"),
        (K::Enum, "enum"),
        (K::Id, "E"),
        (K::Lt, "<"),
        (K::Id, "T"),
        (K::Gt, ">"),
        (K::Lbrace, "{"),
        (K::Id, "A"),
        (K::Comma, ","),
        (K::Id, "B"),
        (K::Lparen, "("),
        (K::Id, "T"),
        (K::Comma, ","),
        (K::Id, "int"),
        (K::Rparen, ")"),
        (K::Rbrace, "}"),
    ]);
    let m = p.parse().unwrap();
    assert_eq!(m.items.len(), 2);
    match &m.items[0].kind {
        ItemKind::Struct(s) => {
            assert_eq!(s.name, "P");
            assert_eq!(s.fields.len(), 2);
            assert_eq!(s.fields[1].name, "y");
        }
        _ => panic!("expected a struct"),
    }
    match &m.items[1].kind {
        ItemKind::Enum(e) => {
            assert_eq!(e.generics, vec!["T".to_string()]);
            assert_eq!(e.variants.len(), 2);
            assert!(e.variants[0].params.is_empty());
            assert_eq!(e.variants[1].params.len(), 2);
        }
        _ => panic!("expected an enum"),
    }
}

#[test]
fn use_items() {
    // use a/b as c  use d for x, y  use e
    let mut p = parser(&[
        (K::Use, "use"),
        (K::Id, "a"),
        (K::Slash, "/"),
        (K::Id, "b"),
        (K::As, "as"),
        (K::Id, "c"),
        (K::Use, "use"),
        (K::Id, "d"),
        (K::For, "for"),
        (K::Id, "x"),
        (K::Comma, ","),
        (K::Id, "y"),
        (K::Use, "use"),
        (K::Id, "e"),
    ]);
    let m = p.parse().unwrap();
    assert_eq!(m.items.len(), 3);
    match &m.items[0].kind {
        ItemKind::Use(u) => {
            assert_eq!(u.path, "a/b");
            assert!(matches!(u.kind, UseKind::As(ref n) if n == "c"));
        }
        _ => panic!("expected use"),
    }
    match &m.items[1].kind {
        ItemKind::Use(u) => {
            assert_eq!(u.path, "d");
            assert!(matches!(u.kind, UseKind::For(ref ns) if ns.len() == 2 && ns[1] == "y"));
        }
        _ => panic!("expected use"),
    }
    assert!(matches!(&m.items[2].kind, ItemKind::Use(u) if u.path == "e" && matches!(u.kind, UseKind::Just)));
}

#[test]
fn type_hints() {
    // fn(m.T<A>, U) -> V
    let mut p = parser(&[
        (K::Fn, "fn"),
        (K::Lparen, "("),
        (K::Id, "m"),
        (K::Dot, "."),
        (K::Id, "T"),
        (K::Lt, "<"),
        (K::Id, "A"),
        (K::Gt, ">"),
        (K::Comma, ","),
        (K::Id, "U"),
        (K::Rparen, ")"),
        (K::Arrow, "->"),
        (K::Id, "V"),
    ]);
    let h = p.type_hint().unwrap();
    assert_eq!(p.pos, 13);
    match h {
        TypeHint::Function { span, params, ret } => {
            assert_eq!(span, sp(0, 27));
            assert_eq!(params.len(), 2);
            match &params[0] {
                TypeHint::Module { module, name, args, .. } => {
                    assert_eq!(module, "m");
                    assert_eq!(name, "T");
                    assert_eq!(args.len(), 1);
                }
                _ => panic!("expected module hint"),
            }
            assert!(matches!(*ret, TypeHint::Local { ref name, .. } if name == "V"));
        }
        _ => panic!("expected function hint"),
    }
}

#[test]
fn generic_params_absent_consumes_nothing() {
    let mut p = parser(&[(K::Lparen, "(")]);
    assert!(p.generic_params().unwrap().is_empty());
    assert_eq!(p.pos, 0);
}

#[test]
fn params_accepts_empty_list() {
    let mut p = parser(&[(K::Lparen, "("), (K::Rparen, ")")]);
    assert!(p.params().unwrap().is_empty());
    assert_eq!(p.pos, 2);
}
