//! Types as the type checker sees them.

use vstd::prelude::*;
use std::collections::HashMap;
use std::sync::Arc;
use crate::ast::Publicity;
use crate::token::{SourceFile, Span};

verus! {

/// Names a struct or enum definition of a type context: the arena it was
/// allocated in and its index there.
#[derive(Debug, Clone, Copy, PartialEq, Eq, Hash, Structural)]
pub struct AdtId {
    pub arena: u32,
    pub index: usize,
}

/// Names a function definition of a type context.
#[derive(Debug, Clone, Copy, PartialEq, Eq, Hash, Structural)]
pub struct FnId {
    pub arena: u32,
    pub index: usize,
}

/// Names a module definition of a type context.
#[derive(Debug, Clone, Copy, PartialEq, Eq, Hash, Structural)]
pub struct ModId {
    pub arena: u32,
    pub index: usize,
}

/// Names a type variable of the inference.
#[derive(Debug, Clone, Copy, PartialEq, Eq, Hash, Structural)]
pub struct TyVarId {
    pub arena: u32,
    pub index: usize,
}

/// A field of a struct: its name, where it is declared and its type before
/// generic instantiation.
#[derive(Debug, Clone)]
pub struct FieldDef {
    pub span: Span,
    pub name: String,
    pub ty: Ty,
}

/// A struct definition: name, generic parameter names and fields in order.
#[derive(Debug, Clone)]
pub struct StructDef {
    pub span: Span,
    pub name: String,
    pub generics: Vec<String>,
    pub fields: Vec<FieldDef>,
}

/// A variant of an enum with its unnamed payload types.
#[derive(Debug, Clone)]
pub struct VariantDef {
    pub span: Span,
    pub name: String,
    pub fields: Vec<Ty>,
}

/// An enum definition: name, generic parameter names and variants.
#[derive(Debug, Clone)]
pub struct EnumDef {
    pub span: Span,
    pub name: String,
    pub generics: Vec<String>,
    pub variants: Vec<VariantDef>,
}

/// An algebraic data type definition: a struct or an enum.
#[derive(Debug, Clone)]
pub enum AdtDef {
    Struct(StructDef),
    Enum(EnumDef),
}

impl AdtDef {
    /// The name of the struct or enum.
    pub open spec fn spec_name(&self) -> String {
        match self {
            AdtDef::Struct(s) => s.name,
            AdtDef::Enum(e) => e.name,
        }
    }

    /// Returns the name of the ADT, whichever it is.
    pub fn name(&self) -> (r: String)
        ensures
            r == self.spec_name(),
    {
        match self {
            AdtDef::Struct(s) => s.name.clone(),
            AdtDef::Enum(e) => e.name.clone(),
        }
    }

    /// Returns the struct definition; the ADT must be a struct.
    pub fn as_struct(&self) -> (r: &StructDef)
        requires
            self is Struct,
        ensures
            *self == AdtDef::Struct(*r),
    {
        match self {
            AdtDef::Struct(s) => s,
            AdtDef::Enum(_) => vstd::pervasive::unreached(),
        }
    }

    /// Returns the enum definition; the ADT must be an enum.
    pub fn as_enum(&self) -> (r: &EnumDef)
        requires
            self is Enum,
        ensures
            *self == AdtDef::Enum(*r),
    {
        match self {
            AdtDef::Enum(e) => e,
            AdtDef::Struct(_) => vstd::pervasive::unreached(),
        }
    }
}

/// A function definition before generic instantiation.
#[derive(Debug)]
pub struct FnDef {
    pub span: Span,
    pub name: String,
    pub generics: Vec<String>,
    pub params: Vec<Ty>,
    pub ret: Ty,
}

/// The two kinds of top-level definitions, with the id of each.
#[derive(Debug, Clone, Copy, PartialEq, Eq, Hash, Structural)]
pub enum ItemDefKind {
    /// A struct or enum
    Adt(AdtId),
    /// A function
    Fn(FnId),
}

/// A top-level definition with its declared publicity.
#[derive(Debug, Clone, Copy, PartialEq, Eq, Hash, Structural)]
pub struct ItemDef {
    pub publicity: Publicity,
    pub kind: ItemDefKind,
}

/// A compiled module: its source and its definitions by name.
pub struct ModDef {
    pub source: Arc<SourceFile>,
    pub defs: HashMap<String, ItemDef>,
}

/// A type variable of the inference: unbound, or bound to a type.
#[derive(Debug, Clone, PartialEq, Eq, Hash)]
pub enum TyVar {
    Unbound,
    Bound(Ty),
}

/// Type arguments given to a generic item.
pub type GenericArgs = Vec<Ty>;

/// The signature of a function value.
#[derive(Debug, PartialEq, Eq, Hash)]
pub struct FnSig {
    pub params: Vec<Ty>,
    pub ret: Box<Ty>,
}

/// A type that names a namespace rather than a value.
#[derive(Debug, PartialEq, Eq, Hash)]
pub enum MetaTy {
    /// A module used as a path prefix
    Module(ModId),
    /// An ADT used as a constructor
    Adt(AdtId),
    /// An enum variant constructor
    Variant(AdtId, String),
}

/// The type of a node of the typed representation.
#[derive(Debug, PartialEq, Eq, Hash)]
pub enum Ty {
    /// `int`
    Int,
    /// `float`
    Float,
    /// `str`
    String,
    /// `bool`
    Bool,
    /// `()`
    Unit,
    /// An instantiated struct or enum
    Adt(AdtId, GenericArgs),
    /// A named function with its generic args
    FnDef(FnId, GenericArgs),
    /// A function value
    FnSig(FnSig),
    /// The n-th generic parameter of the enclosing definition
    Generic(usize),
    /// An inference variable
    Var(TyVarId),
    /// A namespace
    Meta(MetaTy),
    /// The type of what could not be typed
    Error,
}


/// Mathematical form of a type: lists of types become sequences.
pub enum STy {
    Int,
    Float,
    String,
    Bool,
    Unit,
    Adt(AdtId, Seq<STy>),
    FnDef(FnId, Seq<STy>),
    FnSig(SFnSig),
    Generic(usize),
    Var(TyVarId),
    Meta(MetaTy),
    Error,
}

/// Mathematical form of a function signature.
pub struct SFnSig {
    pub params: Seq<STy>,
    pub ret: Box<STy>,
}

pub open spec fn tys_view(s: Seq<Ty>) -> Seq<STy>
    decreases s,
{
    if s.len() == 0 {
        Seq::empty()
    } else {
        tys_view(s.drop_last()).push(s.last().view())
    }
}

impl View for FnSig {
    type V = SFnSig;

    open spec fn view(&self) -> SFnSig
        decreases self,
    {
        SFnSig { params: tys_view(self.params@), ret: Box::new((*self.ret).view()) }
    }
}

impl View for Ty {
    type V = STy;

    open spec fn view(&self) -> STy
        decreases self,
    {
        match self {
            Ty::Int => STy::Int,
            Ty::Float => STy::Float,
            Ty::String => STy::String,
            Ty::Bool => STy::Bool,
            Ty::Unit => STy::Unit,
            Ty::Adt(id, args) => STy::Adt(*id, tys_view(args@)),
            Ty::FnDef(id, args) => STy::FnDef(*id, tys_view(args@)),
            Ty::FnSig(sig) => STy::FnSig(sig.view()),
            Ty::Generic(n) => STy::Generic(*n),
            Ty::Var(id) => STy::Var(*id),
            Ty::Meta(m) => STy::Meta(*m),
            Ty::Error => STy::Error,
        }
    }
}

impl Clone for MetaTy {
    fn clone(&self) -> (r: MetaTy)
        ensures
            r == *self,
    {
        match self {
            MetaTy::Module(id) => MetaTy::Module(*id),
            MetaTy::Adt(id) => MetaTy::Adt(*id),
            MetaTy::Variant(id, name) => MetaTy::Variant(*id, name.clone()),
        }
    }
}

impl Clone for FnSig {
    fn clone(&self) -> (r: FnSig)
        ensures
            r@ == self@,
        decreases self,
    {
        FnSig { params: clone_tys(&self.params), ret: Box::new((*self.ret).clone()) }
    }
}

impl Clone for Ty {
    fn clone(&self) -> (r: Ty)
        ensures
            r@ == self@,
        decreases self,
    {
        match self {
            Ty::Int => Ty::Int,
            Ty::Float => Ty::Float,
            Ty::String => Ty::String,
            Ty::Bool => Ty::Bool,
            Ty::Unit => Ty::Unit,
            Ty::Adt(id, args) => Ty::Adt(*id, clone_tys(args)),
            Ty::FnDef(id, args) => Ty::FnDef(*id, clone_tys(args)),
            Ty::FnSig(sig) => Ty::FnSig(sig.clone()),
            Ty::Generic(n) => Ty::Generic(*n),
            Ty::Var(id) => Ty::Var(*id),
            Ty::Meta(m) => Ty::Meta(m.clone()),
            Ty::Error => Ty::Error,
        }
    }
}

fn clone_tys(v: &Vec<Ty>) -> (r: Vec<Ty>)
    ensures
        tys_view(r@) == tys_view(v@),
    decreases v,
{
    let mut out: Vec<Ty> = Vec::new();
    let mut i: usize = 0;
    while i < v.len()
        invariant
            i <= v.len(),
            tys_view(out@) == tys_view(v@.take(i as int)),
        decreases v.len() - i,
    {
        let x = v[i].clone();
        proof {
            assert(out@.push(x).drop_last() =~= out@);
            assert(v@.take(i + 1).drop_last() =~= v@.take(i as int));
        }
        out.push(x);
        i += 1;
    }
    assert(v@.take(v.len() as int) =~= v@);
    out
}

} // verus!
