use vstd::prelude::*;
use crate::token::Span;

verus! {

/// Item publicity
#[derive(Debug, Clone, Copy, PartialEq, Eq, Hash, Structural)]
pub enum Publicity {
    Pub,
    Private,
}

/// Type hint
#[derive(Debug, PartialEq, Eq, Hash)]
pub enum TypeHint {
    /// Local type
    Local { span: Span, name: String, args: Vec<TypeHint> },
    /// Module type
    Module { span: Span, module: String, name: String, args: Vec<TypeHint> },
    /// Function type
    Function { span: Span, params: Vec<TypeHint>, ret: Box<TypeHint> },
    /// Unit type
    Unit(Span),
    /// Not known
    Infer,
}

/// Function param
#[derive(Debug, Clone, PartialEq, Eq, Hash)]
pub struct Param {
    pub span: Span,
    pub name: String,
    pub hint: TypeHint,
}

/// Literal
#[derive(Debug, PartialEq, Eq, Hash)]
pub enum Lit {
    /// Number
    Number(String),
    /// String
    String(String),
    /// Bool
    Bool(bool),
}

/// Unary operation
#[derive(Debug, Clone, Copy, PartialEq, Eq, Hash, Structural)]
pub enum UnOp {
    /// `-`
    Neg,
    /// `!`
    Bang,
    /// `*`
    Deref,
}

/// Binary operation
#[derive(Debug, Clone, Copy, PartialEq, Eq, Hash, Structural)]
pub enum BinOp {
    Add,
    Sub,
    Mul,
    Div,
    Mod,
    And,
    Or,
    BitAnd,
    BitOr,
    Xor,
    Eq,
    Ne,
    Ge,
    Le,
    Gt,
    Lt,
}

/// Expression kind
#[derive(Debug, PartialEq, Eq, Hash)]
pub enum ExprKind {
    /// Literal
    Lit(Lit),
    /// Unary operation (op, operand)
    Unary(UnOp, Box<Expr>),
    /// Binary operation (op, lhs, rhs)
    Bin(BinOp, Box<Expr>, Box<Expr>),
    /// If (condition, then, else)
    If(Box<Expr>, Box<Expr>, Option<Box<Expr>>),
    /// Call (callee, arguments)
    Call(Box<Expr>, Vec<Expr>),
    /// Identifier
    Id(String),
    /// Field access (object, field)
    Field(Box<Expr>, String),
    /// Closure (params, body)
    Closure(Vec<String>, Box<Expr>),
    /// Assignment (target, value)
    Assign(Box<Expr>, Box<Expr>),
    /// Block
    Block(Box<Block>),
}

/// Expression
#[derive(Debug, PartialEq, Eq, Hash)]
pub struct Expr {
    pub kind: ExprKind,
    pub span: Span,
}

/// Statement kind
#[derive(Debug, PartialEq, Eq, Hash)]
pub enum StmtKind {
    /// `let name: hint = expr`
    Let(String, TypeHint, Expr),
    /// Expression without a trailing semicolon
    Expr(Expr),
    /// Expression followed by a semicolon
    Semi(Expr),
}

/// Statement
#[derive(Debug, PartialEq, Eq, Hash)]
pub struct Stmt {
    pub span: Span,
    pub kind: StmtKind,
}

/// Block of statements
#[derive(Debug, PartialEq, Eq, Hash)]
pub struct Block {
    pub span: Span,
    pub stmts: Vec<Stmt>,
}

/// Struct field
#[derive(Debug, Clone, PartialEq, Eq, Hash)]
pub struct Field {
    pub span: Span,
    pub name: String,
    pub hint: TypeHint,
}

/// Struct item
#[derive(Debug, Clone, PartialEq, Eq, Hash)]
pub struct Struct {
    pub name: String,
    pub generics: Vec<String>,
    pub fields: Vec<Field>,
}

/// Enum variant
#[derive(Debug, Clone, PartialEq, Eq, Hash)]
pub struct Variant {
    pub span: Span,
    pub name: String,
    pub params: Vec<TypeHint>,
}

/// Enum item
#[derive(Debug, Clone, PartialEq, Eq, Hash)]
pub struct Enum {
    pub name: String,
    pub generics: Vec<String>,
    pub variants: Vec<Variant>,
}

/// Function item
#[derive(Debug, Clone, PartialEq, Eq, Hash)]
pub struct Function {
    pub name: String,
    pub generics: Vec<String>,
    pub params: Vec<Param>,
    pub ret: TypeHint,
    pub block: Block,
}

/// Use kind
#[derive(Debug, Clone, PartialEq, Eq, Hash)]
pub enum UseKind {
    /// `as name`
    As(String),
    /// `for a, b, ..`
    For(Vec<String>),
    /// Plain import
    Just,
}

/// Use item
#[derive(Debug, Clone, PartialEq, Eq, Hash)]
pub struct Use {
    pub path: String,
    pub kind: UseKind,
}

/// Item kind
#[derive(Debug, Clone, PartialEq, Eq, Hash)]
pub enum ItemKind {
    Struct(Struct),
    Enum(Enum),
    Function(Function),
    Use(Use),
}

/// Top-level item
#[derive(Debug, Clone, PartialEq, Eq, Hash)]
pub struct Item {
    pub span: Span,
    pub publicity: Publicity,
    pub kind: ItemKind,
}

/// Module: the items of one source file
#[derive(Debug, Clone, PartialEq, Eq, Hash)]
pub struct Module {
    pub items: Vec<Item>,
}

// ---------------------------------------------------------------------------
// Mathematical forms of the tree: each `Vec` becomes a `Seq`.
// ---------------------------------------------------------------------------

pub enum SHint {
    Local { span: Span, name: String, args: Seq<SHint> },
    Module { span: Span, module: String, name: String, args: Seq<SHint> },
    Function { span: Span, params: Seq<SHint>, ret: Box<SHint> },
    Unit(Span),
    Infer,
}

pub struct SParam {
    pub span: Span,
    pub name: String,
    pub hint: SHint,
}

pub enum SExprKind {
    Lit(Lit),
    Unary(UnOp, Box<SExpr>),
    Bin(BinOp, Box<SExpr>, Box<SExpr>),
    If(Box<SExpr>, Box<SExpr>, Option<Box<SExpr>>),
    Call(Box<SExpr>, Seq<SExpr>),
    Id(String),
    Field(Box<SExpr>, String),
    Closure(Seq<String>, Box<SExpr>),
    Assign(Box<SExpr>, Box<SExpr>),
    Block(Box<SBlock>),
}

pub struct SExpr {
    pub kind: SExprKind,
    pub span: Span,
}

pub enum SStmtKind {
    Let(String, SHint, SExpr),
    Expr(SExpr),
    Semi(SExpr),
}

pub struct SStmt {
    pub span: Span,
    pub kind: SStmtKind,
}

pub struct SBlock {
    pub span: Span,
    pub stmts: Seq<SStmt>,
}

pub struct SField {
    pub span: Span,
    pub name: String,
    pub hint: SHint,
}

pub struct SStruct {
    pub name: String,
    pub generics: Seq<String>,
    pub fields: Seq<SField>,
}

pub struct SVariant {
    pub span: Span,
    pub name: String,
    pub params: Seq<SHint>,
}

pub struct SEnum {
    pub name: String,
    pub generics: Seq<String>,
    pub variants: Seq<SVariant>,
}

pub struct SFunction {
    pub name: String,
    pub generics: Seq<String>,
    pub params: Seq<SParam>,
    pub ret: SHint,
    pub block: SBlock,
}

pub enum SUseKind {
    As(String),
    For(Seq<String>),
    Just,
}

pub struct SUse {
    pub path: Seq<char>,
    pub kind: SUseKind,
}

pub enum SItemKind {
    Struct(SStruct),
    Enum(SEnum),
    Function(SFunction),
    Use(SUse),
}

pub struct SItem {
    pub span: Span,
    pub publicity: Publicity,
    pub kind: SItemKind,
}

pub struct SModule {
    pub items: Seq<SItem>,
}

// ---------------------------------------------------------------------------
// Views
// ---------------------------------------------------------------------------

pub open spec fn hints_view(s: Seq<TypeHint>) -> Seq<SHint>
    decreases s,
{
    if s.len() == 0 {
        Seq::empty()
    } else {
        hints_view(s.drop_last()).push(s.last().view())
    }
}

impl View for TypeHint {
    type V = SHint;

    open spec fn view(&self) -> SHint
        decreases self,
    {
        match self {
            TypeHint::Local { span, name, args } => SHint::Local {
                span: *span,
                name: *name,
                args: hints_view(args@),
            },
            TypeHint::Module { span, module, name, args } => SHint::Module {
                span: *span,
                module: *module,
                name: *name,
                args: hints_view(args@),
            },
            TypeHint::Function { span, params, ret } => SHint::Function {
                span: *span,
                params: hints_view(params@),
                ret: Box::new((**ret).view()),
            },
            TypeHint::Unit(s) => SHint::Unit(*s),
            TypeHint::Infer => SHint::Infer,
        }
    }
}

impl View for Param {
    type V = SParam;

    open spec fn view(&self) -> SParam {
        SParam { span: self.span, name: self.name, hint: self.hint@ }
    }
}

/// The views of the elements of `s`, in order.
pub open spec fn seq_view<T: View>(s: Seq<T>) -> Seq<T::V> {
    Seq::new(s.len(), |i: int| s[i]@)
}

pub open spec fn exprs_view(s: Seq<Expr>) -> Seq<SExpr>
    decreases s,
{
    if s.len() == 0 {
        Seq::empty()
    } else {
        exprs_view(s.drop_last()).push(s.last().view())
    }
}

pub open spec fn stmts_view(s: Seq<Stmt>) -> Seq<SStmt>
    decreases s,
{
    if s.len() == 0 {
        Seq::empty()
    } else {
        stmts_view(s.drop_last()).push(s.last().view())
    }
}

impl View for ExprKind {
    type V = SExprKind;

    open spec fn view(&self) -> SExprKind
        decreases self,
    {
        match self {
            ExprKind::Lit(l) => SExprKind::Lit(*l),
            ExprKind::Unary(op, e) => SExprKind::Unary(*op, Box::new((**e).view())),
            ExprKind::Bin(op, l, r) => SExprKind::Bin(*op, Box::new((**l).view()), Box::new((**r).view())),
            ExprKind::If(c, t, e) => SExprKind::If(
                Box::new((**c).view()),
                Box::new((**t).view()),
                match e {
                    Some(b) => Some(Box::new((**b).view())),
                    None => None,
                },
            ),
            ExprKind::Call(f, args) => SExprKind::Call(Box::new((**f).view()), exprs_view(args@)),
            ExprKind::Id(s) => SExprKind::Id(*s),
            ExprKind::Field(e, s) => SExprKind::Field(Box::new((**e).view()), *s),
            ExprKind::Closure(ps, b) => SExprKind::Closure(ps@, Box::new((**b).view())),
            ExprKind::Assign(l, r) => SExprKind::Assign(Box::new((**l).view()), Box::new((**r).view())),
            ExprKind::Block(b) => SExprKind::Block(Box::new((**b).view())),
        }
    }
}

impl View for Expr {
    type V = SExpr;

    open spec fn view(&self) -> SExpr
        decreases self,
    {
        SExpr { kind: self.kind.view(), span: self.span }
    }
}

impl View for StmtKind {
    type V = SStmtKind;

    open spec fn view(&self) -> SStmtKind
        decreases self,
    {
        match self {
            StmtKind::Let(n, h, e) => SStmtKind::Let(*n, h@, e.view()),
            StmtKind::Expr(e) => SStmtKind::Expr(e.view()),
            StmtKind::Semi(e) => SStmtKind::Semi(e.view()),
        }
    }
}

impl View for Stmt {
    type V = SStmt;

    open spec fn view(&self) -> SStmt
        decreases self,
    {
        SStmt { span: self.span, kind: self.kind.view() }
    }
}

impl View for Block {
    type V = SBlock;

    open spec fn view(&self) -> SBlock
        decreases self,
    {
        SBlock { span: self.span, stmts: stmts_view(self.stmts@) }
    }
}

impl View for Field {
    type V = SField;

    open spec fn view(&self) -> SField {
        SField { span: self.span, name: self.name, hint: self.hint@ }
    }
}

impl View for Variant {
    type V = SVariant;

    open spec fn view(&self) -> SVariant {
        SVariant { span: self.span, name: self.name, params: hints_view(self.params@) }
    }
}

impl View for Struct {
    type V = SStruct;

    open spec fn view(&self) -> SStruct {
        SStruct {
            name: self.name,
            generics: self.generics@,
            fields: seq_view(self.fields@),
        }
    }
}

impl View for Enum {
    type V = SEnum;

    open spec fn view(&self) -> SEnum {
        SEnum {
            name: self.name,
            generics: self.generics@,
            variants: seq_view(self.variants@),
        }
    }
}

impl View for Function {
    type V = SFunction;

    open spec fn view(&self) -> SFunction {
        SFunction {
            name: self.name,
            generics: self.generics@,
            params: seq_view(self.params@),
            ret: self.ret@,
            block: self.block@,
        }
    }
}

impl View for UseKind {
    type V = SUseKind;

    open spec fn view(&self) -> SUseKind {
        match self {
            UseKind::As(n) => SUseKind::As(*n),
            UseKind::For(ns) => SUseKind::For(ns@),
            UseKind::Just => SUseKind::Just,
        }
    }
}

impl View for Use {
    type V = SUse;

    open spec fn view(&self) -> SUse {
        SUse { path: self.path@, kind: self.kind@ }
    }
}

impl View for ItemKind {
    type V = SItemKind;

    open spec fn view(&self) -> SItemKind {
        match self {
            ItemKind::Struct(s) => SItemKind::Struct(s@),
            ItemKind::Enum(e) => SItemKind::Enum(e@),
            ItemKind::Function(f) => SItemKind::Function(f@),
            ItemKind::Use(u) => SItemKind::Use(u@),
        }
    }
}

impl View for Item {
    type V = SItem;

    open spec fn view(&self) -> SItem {
        SItem { span: self.span, publicity: self.publicity, kind: self.kind@ }
    }
}

impl View for Module {
    type V = SModule;

    open spec fn view(&self) -> SModule {
        SModule { items: seq_view(self.items@) }
    }
}

impl Clone for Lit {
    fn clone(&self) -> (r: Lit)
        ensures
            r == *self,
    {
        match self {
            Lit::Number(n) => Lit::Number(n.clone()),
            Lit::String(t) => Lit::String(t.clone()),
            Lit::Bool(b) => Lit::Bool(*b),
        }
    }
}

/// A copy of a list of names.
pub(crate) fn clone_strings(v: &Vec<String>) -> (r: Vec<String>)
    ensures
        r@ == v@,
{
    let mut out: Vec<String> = Vec::new();
    let mut i: usize = 0;
    while i < v.len()
        invariant
            i <= v.len(),
            out@ == v@.take(i as int),
        decreases v.len() - i,
    {
        out.push(v[i].clone());
        i += 1;
        assert(out@ =~= v@.take(i as int));
    }
    assert(v@.take(v.len() as int) =~= v@);
    out
}

impl Clone for TypeHint {
    fn clone(&self) -> (r: TypeHint)
        ensures
            r@ == self@,
        decreases self,
    {
        match self {
            TypeHint::Local { span, name, args } => TypeHint::Local {
                span: span.clone(),
                name: name.clone(),
                args: clone_hints(args),
            },
            TypeHint::Module { span, module, name, args } => TypeHint::Module {
                span: span.clone(),
                module: module.clone(),
                name: name.clone(),
                args: clone_hints(args),
            },
            TypeHint::Function { span, params, ret } => TypeHint::Function {
                span: span.clone(),
                params: clone_hints(params),
                ret: Box::new((**ret).clone()),
            },
            TypeHint::Unit(s) => TypeHint::Unit(s.clone()),
            TypeHint::Infer => TypeHint::Infer,
        }
    }
}

fn clone_hints(v: &Vec<TypeHint>) -> (r: Vec<TypeHint>)
    ensures
        hints_view(r@) == hints_view(v@),
    decreases v,
{
    let mut out: Vec<TypeHint> = Vec::new();
    let mut i: usize = 0;
    while i < v.len()
        invariant
            i <= v.len(),
            hints_view(out@) == hints_view(v@.take(i as int)),
        decreases v.len() - i,
    {
        let x = v[i].clone();
        proof {
            assert(out@.push(x).drop_last() =~= out@);
            assert(v@.take(i + 1).drop_last() =~= v@.take(i as int));
        }
        out.push(x);
        i += 1;
    }
    assert(v@.take(v.len() as int) =~= v@);
    out
}

impl Clone for Expr {
    fn clone(&self) -> (r: Expr)
        ensures
            r@ == self@,
        decreases self,
    {
        Expr { kind: self.kind.clone(), span: self.span.clone() }
    }
}

impl Clone for ExprKind {
    fn clone(&self) -> (r: ExprKind)
        ensures
            r@ == self@,
        decreases self,
    {
        match self {
            ExprKind::Lit(l) => ExprKind::Lit(l.clone()),
            ExprKind::Unary(op, e) => ExprKind::Unary(*op, Box::new((**e).clone())),
            ExprKind::Bin(op, l, r) => ExprKind::Bin(*op, Box::new((**l).clone()), Box::new((**r).clone())),
            ExprKind::If(c, t, e) => ExprKind::If(
                Box::new((**c).clone()),
                Box::new((**t).clone()),
                match e {
                    Some(b) => Some(Box::new((**b).clone())),
                    None => None,
                },
            ),
            ExprKind::Call(f, args) => ExprKind::Call(Box::new((**f).clone()), clone_exprs(args)),
            ExprKind::Id(s) => ExprKind::Id(s.clone()),
            ExprKind::Field(e, s) => ExprKind::Field(Box::new((**e).clone()), s.clone()),
            ExprKind::Closure(ps, b) => ExprKind::Closure(clone_strings(ps), Box::new((**b).clone())),
            ExprKind::Assign(l, r) => ExprKind::Assign(Box::new((**l).clone()), Box::new((**r).clone())),
            ExprKind::Block(b) => ExprKind::Block(Box::new((**b).clone())),
        }
    }
}

fn clone_exprs(v: &Vec<Expr>) -> (r: Vec<Expr>)
    ensures
        exprs_view(r@) == exprs_view(v@),
    decreases v,
{
    let mut out: Vec<Expr> = Vec::new();
    let mut i: usize = 0;
    while i < v.len()
        invariant
            i <= v.len(),
            exprs_view(out@) == exprs_view(v@.take(i as int)),
        decreases v.len() - i,
    {
        let x = v[i].clone();
        proof {
            assert(out@.push(x).drop_last() =~= out@);
            assert(v@.take(i + 1).drop_last() =~= v@.take(i as int));
        }
        out.push(x);
        i += 1;
    }
    assert(v@.take(v.len() as int) =~= v@);
    out
}

impl Clone for StmtKind {
    fn clone(&self) -> (r: StmtKind)
        ensures
            r@ == self@,
        decreases self,
    {
        match self {
            StmtKind::Let(n, h, e) => StmtKind::Let(n.clone(), h.clone(), e.clone()),
            StmtKind::Expr(e) => StmtKind::Expr(e.clone()),
            StmtKind::Semi(e) => StmtKind::Semi(e.clone()),
        }
    }
}

impl Clone for Stmt {
    fn clone(&self) -> (r: Stmt)
        ensures
            r@ == self@,
        decreases self,
    {
        Stmt { span: self.span.clone(), kind: self.kind.clone() }
    }
}

impl Clone for Block {
    fn clone(&self) -> (r: Block)
        ensures
            r@ == self@,
        decreases self,
    {
        Block { span: self.span.clone(), stmts: clone_stmts(&self.stmts) }
    }
}

fn clone_stmts(v: &Vec<Stmt>) -> (r: Vec<Stmt>)
    ensures
        stmts_view(r@) == stmts_view(v@),
    decreases v,
{
    let mut out: Vec<Stmt> = Vec::new();
    let mut i: usize = 0;
    while i < v.len()
        invariant
            i <= v.len(),
            stmts_view(out@) == stmts_view(v@.take(i as int)),
        decreases v.len() - i,
    {
        let x = v[i].clone();
        proof {
            assert(out@.push(x).drop_last() =~= out@);
            assert(v@.take(i + 1).drop_last() =~= v@.take(i as int));
        }
        out.push(x);
        i += 1;
    }
    assert(v@.take(v.len() as int) =~= v@);
    out
}

impl StmtKind {
    /// Whether this statement needs a semicolon when it does not end its
    /// block: all do but an expression statement whose expression is an
    /// `if` or a block.
    pub fn requires_semi(&self) -> (r: bool)
        ensures
            r == crate::grammar::sk_requires_semi(self@),
    {
        match self {
            StmtKind::Expr(e) => match &e.kind {
                ExprKind::If(..) => false,
                ExprKind::Block(..) => false,
                _ => true,
            },
            _ => true,
        }
    }
}

} // verus!
