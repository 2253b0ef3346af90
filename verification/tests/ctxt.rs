use std::collections::HashMap;
use std::sync::Arc;
use worm::ast::Publicity;
use worm::token::{SourceFile, Span};
use worm::ty::{AdtDef, EnumDef, FieldDef, FnDef, ItemDef, ItemDefKind, ModDef, StructDef, Ty};
use worm::tyctxt::TyCtxt;

fn source() -> Arc<SourceFile> {
    Arc::new(SourceFile { name: "c.wm".to_string(), text: String::new() })
}

fn sp(a: usize, b: usize) -> Span {
    Span { source: source(), start: a, end: b }
}

fn point() -> AdtDef {
    AdtDef::Struct(StructDef {
        span: sp(0, 10),
        name: "Point".to_string(),
        generics: vec![],
        fields: vec![FieldDef { span: sp(1, 2), name: "x".to_string(), ty: Ty::Int }],
    })
}

#[test]
fn adt_read_after_insert() {
    let mut c = TyCtxt::default();
    let a = c.insert_adt(point());
    let b = c.insert_adt(AdtDef::Enum(EnumDef { span: sp(3, 4), name: "E".to_string(), generics: vec![], variants: vec![] }));
    assert_ne!(a, b);
    assert_eq!(c.adt(a).name(), "Point");
    assert_eq!(c.adt(b).name(), "E");
    assert_eq!(c.adt(a).as_struct().fields.len(), 1);
    assert_eq!(c.adt(b).as_enum().variants.len(), 0);
}

#[test]
fn adt_write_through_mut() {
    let mut c = TyCtxt::default();
    let a = c.insert_adt(point());
    let b = c.insert_adt(point());
    match c.adt_mut(a) {
        AdtDef::Struct(s) => s.name = "Renamed".to_string(),
        AdtDef::Enum(_) => panic!("expected a struct"),
    }
    assert_eq!(c.adt(a).name(), "Renamed");
    assert_eq!(c.adt(b).name(), "Point");
}

#[test]
fn fn_and_mod_contexts() {
    let mut c = TyCtxt::default();
    let f = c.insert_fn(FnDef { span: sp(0, 1), name: "f".to_string(), generics: vec![], params: vec![Ty::Int], ret: Ty::Bool });
    assert_eq!(c._fn(f).name, "f");
    c.fn_mut(f).name = "g".to_string();
    assert_eq!(c._fn(f).name, "g");
    let mut defs = HashMap::new();
    defs.insert("f".to_string(), ItemDef { publicity: Publicity::Pub, kind: ItemDefKind::Fn(f) });
    let m = c.insert_mod(ModDef { source: Arc::new(SourceFile { name: "m.wm".to_string(), text: String::new() }), defs });
    assert_eq!(c._mod(m).source.name, "m.wm");
    assert_eq!(c._mod(m).defs.len(), 1);
    c.mod_mut(m).defs.clear();
    assert!(c._mod(m).defs.is_empty());
}

#[test]
fn ids_of_two_contexts_differ() {
    let mut c1 = TyCtxt::default();
    let mut c2 = TyCtxt::default();
    let a = c1.insert_adt(point());
    let b = c2.insert_adt(point());
    assert_eq!(a.index, b.index);
    assert_ne!(a, b);
}

#[test]
fn span_add_joins() {
    assert_eq!(sp(4, 6) + sp(1, 3), sp(1, 6));
    assert_eq!(sp(1, 3) + sp(4, 6), sp(1, 6));
    assert_eq!(sp(2, 9) + sp(3, 4), sp(2, 9));
    let joined = sp(0, 1) + sp(2, 3);
    assert_eq!(joined.source.name, "c.wm");
}

#[test]
fn clones_keep_trees() {
    let a = point();
    let b = a.clone();
    assert_eq!(b.name(), "Point");
    let t = Ty::Adt(worm::ty::AdtId { arena: 0, index: 1 }, vec![Ty::Int, Ty::Generic(0)]);
    assert_eq!(t.clone(), t);
}
