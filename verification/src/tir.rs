//! The typed intermediate representation: the syntax tree with a type on
//! each node.

use vstd::prelude::*;
use crate::ast::{BinOp, Lit, Publicity, UnOp};
use crate::token::Span;
use crate::ast::seq_view;
use crate::ty::{STy, Ty};

verus! {

/// Function param
#[derive(Debug, PartialEq, Eq, Hash)]
pub struct Param {
    pub span: Span,
    pub name: String,
    pub ty: Ty,
}

/// Expression kind
#[derive(Debug, PartialEq, Eq, Hash)]
pub enum ExprKind {
    /// Literal
    Lit(Lit),
    /// Unary operation (op, operand)
    Unary(UnOp, Box<Expr>),
    /// Binary operation (op, lhs, rhs)
    Bin(BinOp, Box<Expr>, Box<Expr>),
    /// If (condition, then, else)
    If(Box<Expr>, Box<Expr>, Option<Box<Expr>>),
    /// Call (callee, arguments)
    Call(Box<Expr>, Vec<Expr>),
    /// Identifier
    Id(String),
    /// Field access (object, field)
    Field(Box<Expr>, String),
    /// Closure (params, body)
    Closure(Vec<Param>, Box<Expr>),
    /// Assignment (target, value)
    Assign(Box<Expr>, Box<Expr>),
    /// Block
    Block(Box<Block>),
}

/// Expression
#[derive(Debug, PartialEq, Eq, Hash)]
pub struct Expr {
    pub kind: ExprKind,
    pub span: Span,
    pub ty: Ty,
}

/// Statement kind
#[derive(Debug, PartialEq, Eq, Hash)]
pub enum StmtKind {
    /// Let definition
    Let(String, Ty, Expr),
    /// Expression without a trailing semicolon
    Expr(Expr),
    /// Expression with a trailing semicolon
    Semi(Expr),
}

/// Statement
#[derive(Debug, PartialEq, Eq, Hash)]
pub struct Stmt {
    pub kind: StmtKind,
    pub span: Span,
    pub ty: Ty,
}

/// Block of statements
#[derive(Debug, PartialEq, Eq, Hash)]
pub struct Block {
    pub stmts: Vec<Stmt>,
    pub span: Span,
}

/// Struct field
#[derive(Debug, Clone, PartialEq, Eq, Hash)]
pub struct Field {
    pub span: Span,
    pub name: String,
    pub ty: Ty,
}

/// Struct item
#[derive(Debug, Clone, PartialEq, Eq, Hash)]
pub struct Struct {
    pub name: String,
    pub generics: Vec<String>,
    pub fields: Vec<Field>,
}

/// Enum variant
#[derive(Debug, Clone, PartialEq, Eq, Hash)]
pub struct Variant {
    pub span: Span,
    pub name: String,
    pub params: Vec<Ty>,
}

/// Enum item
#[derive(Debug, Clone, PartialEq, Eq, Hash)]
pub struct Enum {
    pub name: String,
    pub generics: Vec<String>,
    pub variants: Vec<Variant>,
}

/// Function item
#[derive(Debug, Clone, PartialEq, Eq, Hash)]
pub struct Function {
    pub name: String,
    pub generics: Vec<String>,
    pub params: Vec<Param>,
    pub ty: Ty,
    pub block: Block,
}

/// Use kind
#[derive(Debug, Clone, PartialEq, Eq, Hash)]
pub enum UseKind {
    /// `as name`
    As(String),
    /// `for a, b, ..`
    For(Vec<String>),
    /// Plain import
    Just,
}

/// Use item
#[derive(Debug, Clone, PartialEq, Eq, Hash)]
pub struct Use {
    pub path: String,
    pub kind: UseKind,
}

/// Item kind
#[derive(Debug, Clone, PartialEq, Eq, Hash)]
pub enum ItemKind {
    Struct(Struct),
    Enum(Enum),
    Function(Function),
    Use(Use),
}

/// Top-level item
#[derive(Debug, Clone, PartialEq, Eq, Hash)]
pub struct Item {
    pub publicity: Publicity,
    pub kind: ItemKind,
    pub span: Span,
}

/// Module
#[derive(Debug, Clone, PartialEq, Eq, Hash)]
pub struct Module {
    pub items: Vec<Item>,
}


// ---------------------------------------------------------------------------
// Mathematical forms: each `Vec` becomes a `Seq`, each type its `STy`.
// ---------------------------------------------------------------------------

pub struct SParam {
    pub span: Span,
    pub name: String,
    pub ty: STy,
}

pub enum SExprKind {
    Lit(Lit),
    Unary(UnOp, Box<SExpr>),
    Bin(BinOp, Box<SExpr>, Box<SExpr>),
    If(Box<SExpr>, Box<SExpr>, Option<Box<SExpr>>),
    Call(Box<SExpr>, Seq<SExpr>),
    Id(String),
    Field(Box<SExpr>, String),
    Closure(Seq<SParam>, Box<SExpr>),
    Assign(Box<SExpr>, Box<SExpr>),
    Block(Box<SBlock>),
}

pub struct SExpr {
    pub kind: SExprKind,
    pub span: Span,
    pub ty: STy,
}

pub enum SStmtKind {
    Let(String, STy, SExpr),
    Expr(SExpr),
    Semi(SExpr),
}

pub struct SStmt {
    pub kind: SStmtKind,
    pub span: Span,
    pub ty: STy,
}

pub struct SBlock {
    pub stmts: Seq<SStmt>,
    pub span: Span,
}

impl View for Param {
    type V = SParam;

    open spec fn view(&self) -> SParam {
        SParam { span: self.span, name: self.name, ty: self.ty@ }
    }
}

pub open spec fn exprs_view(s: Seq<Expr>) -> Seq<SExpr>
    decreases s,
{
    if s.len() == 0 {
        Seq::empty()
    } else {
        exprs_view(s.drop_last()).push(s.last().view())
    }
}

pub open spec fn stmts_view(s: Seq<Stmt>) -> Seq<SStmt>
    decreases s,
{
    if s.len() == 0 {
        Seq::empty()
    } else {
        stmts_view(s.drop_last()).push(s.last().view())
    }
}

impl View for ExprKind {
    type V = SExprKind;

    open spec fn view(&self) -> SExprKind
        decreases self,
    {
        match self {
            ExprKind::Lit(l) => SExprKind::Lit(*l),
            ExprKind::Unary(op, e) => SExprKind::Unary(*op, Box::new((**e).view())),
            ExprKind::Bin(op, l, r) => SExprKind::Bin(*op, Box::new((**l).view()), Box::new((**r).view())),
            ExprKind::If(c, t, e) => SExprKind::If(
                Box::new((**c).view()),
                Box::new((**t).view()),
                match e {
                    Some(b) => Some(Box::new((**b).view())),
                    None => None,
                },
            ),
            ExprKind::Call(f, args) => SExprKind::Call(Box::new((**f).view()), exprs_view(args@)),
            ExprKind::Id(s) => SExprKind::Id(*s),
            ExprKind::Field(e, s) => SExprKind::Field(Box::new((**e).view()), *s),
            ExprKind::Closure(ps, b) => SExprKind::Closure(seq_view(ps@), Box::new((**b).view())),
            ExprKind::Assign(l, r) => SExprKind::Assign(Box::new((**l).view()), Box::new((**r).view())),
            ExprKind::Block(b) => SExprKind::Block(Box::new((**b).view())),
        }
    }
}

impl View for Expr {
    type V = SExpr;

    open spec fn view(&self) -> SExpr
        decreases self,
    {
        SExpr { kind: self.kind.view(), span: self.span, ty: self.ty@ }
    }
}

impl View for StmtKind {
    type V = SStmtKind;

    open spec fn view(&self) -> SStmtKind
        decreases self,
    {
        match self {
            StmtKind::Let(n, t, e) => SStmtKind::Let(*n, t@, e.view()),
            StmtKind::Expr(e) => SStmtKind::Expr(e.view()),
            StmtKind::Semi(e) => SStmtKind::Semi(e.view()),
        }
    }
}

impl View for Stmt {
    type V = SStmt;

    open spec fn view(&self) -> SStmt
        decreases self,
    {
        SStmt { kind: self.kind.view(), span: self.span, ty: self.ty@ }
    }
}

impl View for Block {
    type V = SBlock;

    open spec fn view(&self) -> SBlock
        decreases self,
    {
        SBlock { stmts: stmts_view(self.stmts@), span: self.span }
    }
}

impl Clone for Param {
    fn clone(&self) -> (r: Param)
        ensures
            r@ == self@,
    {
        Param { span: self.span.clone(), name: self.name.clone(), ty: self.ty.clone() }
    }
}

fn clone_params(v: &Vec<Param>) -> (r: Vec<Param>)
    ensures
        seq_view(r@) == seq_view(v@),
{
    let mut out: Vec<Param> = Vec::new();
    let mut i: usize = 0;
    while i < v.len()
        invariant
            i <= v.len(),
            out@.len() == i,
            seq_view(out@) == seq_view(v@.take(i as int)),
        decreases v.len() - i,
    {
        let x = v[i].clone();
        proof {
            assert forall|j: int| 0 <= j < i + 1 implies #[trigger] seq_view(out@.push(x))[j] == seq_view(v@.take(i + 1))[j] by {
                if j < i {
                    assert(seq_view(out@)[j] == seq_view(v@.take(i as int))[j]);
                    assert(out@.push(x)[j] == out@[j]);
                    assert(v@.take(i + 1)[j] == v@.take(i as int)[j]);
                } else {
                    assert(x@ == v@[i as int]@);
                    assert(out@.push(x)[j] == x);
                    assert(v@.take(i + 1)[j] == v@[i as int]);
                }
            }
            assert(seq_view(out@.push(x)) =~= seq_view(v@.take(i + 1)));
        }
        out.push(x);
        i += 1;
    }
    assert(v@.take(v.len() as int) =~= v@);
    out
}

impl Clone for Expr {
    fn clone(&self) -> (r: Expr)
        ensures
            r@ == self@,
        decreases self,
    {
        Expr { kind: self.kind.clone(), span: self.span.clone(), ty: self.ty.clone() }
    }
}

impl Clone for ExprKind {
    fn clone(&self) -> (r: ExprKind)
        ensures
            r@ == self@,
        decreases self,
    {
        match self {
            ExprKind::Lit(l) => ExprKind::Lit(l.clone()),
            ExprKind::Unary(op, e) => ExprKind::Unary(*op, Box::new((**e).clone())),
            ExprKind::Bin(op, l, r) => ExprKind::Bin(*op, Box::new((**l).clone()), Box::new((**r).clone())),
            ExprKind::If(c, t, e) => ExprKind::If(
                Box::new((**c).clone()),
                Box::new((**t).clone()),
                match e {
                    Some(b) => Some(Box::new((**b).clone())),
                    None => None,
                },
            ),
            ExprKind::Call(f, args) => ExprKind::Call(Box::new((**f).clone()), clone_exprs(args)),
            ExprKind::Id(s) => ExprKind::Id(s.clone()),
            ExprKind::Field(e, s) => ExprKind::Field(Box::new((**e).clone()), s.clone()),
            ExprKind::Closure(ps, b) => ExprKind::Closure(clone_params(ps), Box::new((**b).clone())),
            ExprKind::Assign(l, r) => ExprKind::Assign(Box::new((**l).clone()), Box::new((**r).clone())),
            ExprKind::Block(b) => ExprKind::Block(Box::new((**b).clone())),
        }
    }
}

fn clone_exprs(v: &Vec<Expr>) -> (r: Vec<Expr>)
    ensures
        exprs_view(r@) == exprs_view(v@),
    decreases v,
{
    let mut out: Vec<Expr> = Vec::new();
    let mut i: usize = 0;
    while i < v.len()
        invariant
            i <= v.len(),
            exprs_view(out@) == exprs_view(v@.take(i as int)),
        decreases v.len() - i,
    {
        let x = v[i].clone();
        proof {
            assert(out@.push(x).drop_last() =~= out@);
            assert(v@.take(i + 1).drop_last() =~= v@.take(i as int));
        }
        out.push(x);
        i += 1;
    }
    assert(v@.take(v.len() as int) =~= v@);
    out
}

impl Clone for StmtKind {
    fn clone(&self) -> (r: StmtKind)
        ensures
            r@ == self@,
        decreases self,
    {
        match self {
            StmtKind::Let(n, t, e) => StmtKind::Let(n.clone(), t.clone(), e.clone()),
            StmtKind::Expr(e) => StmtKind::Expr(e.clone()),
            StmtKind::Semi(e) => StmtKind::Semi(e.clone()),
        }
    }
}

impl Clone for Stmt {
    fn clone(&self) -> (r: Stmt)
        ensures
            r@ == self@,
        decreases self,
    {
        Stmt { kind: self.kind.clone(), span: self.span.clone(), ty: self.ty.clone() }
    }
}

impl Clone for Block {
    fn clone(&self) -> (r: Block)
        ensures
            r@ == self@,
        decreases self,
    {
        Block { stmts: clone_stmts(&self.stmts), span: self.span.clone() }
    }
}

fn clone_stmts(v: &Vec<Stmt>) -> (r: Vec<Stmt>)
    ensures
        stmts_view(r@) == stmts_view(v@),
    decreases v,
{
    let mut out: Vec<Stmt> = Vec::new();
    let mut i: usize = 0;
    while i < v.len()
        invariant
            i <= v.len(),
            stmts_view(out@) == stmts_view(v@.take(i as int)),
        decreases v.len() - i,
    {
        let x = v[i].clone();
        proof {
            assert(out@.push(x).drop_last() =~= out@);
            assert(v@.take(i + 1).drop_last() =~= v@.take(i as int));
        }
        out.push(x);
        i += 1;
    }
    assert(v@.take(v.len() as int) =~= v@);
    out
}

} // verus!
