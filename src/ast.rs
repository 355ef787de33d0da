//! The JavaScript syntax tree that the lowering pass reads and rewrites.
use vstd::prelude::*;

verus! {

/// An opaque source range; the pass copies spans and never computes with them.
#[derive(Clone, Copy, Debug, PartialEq, Eq)]
pub struct Span {
    pub lo: u32,
    pub hi: u32,
}

/// The span given to nodes that the pass synthesizes.
pub open spec fn dummy_span() -> Span {
    Span { lo: 0, hi: 0 }
}

impl Span {
    pub fn new(lo: u32, hi: u32) -> (r: Span)
        ensures
            r.lo == lo,
            r.hi == hi,
    {
        Span { lo, hi }
    }

    pub fn dummy() -> (r: Span)
        ensures
            r == dummy_span(),
    {
        Span { lo: 0, hi: 0 }
    }
}

#[derive(Clone, Debug, PartialEq, Eq)]
pub struct Ident {
    pub span: Span,
    pub sym: String,
}

#[derive(Clone, Debug, PartialEq, Eq)]
pub enum Lit {
    Str(Span, String),
    Num(Span, u64),
    Bool(Span, bool),
    Null(Span),
}

#[derive(Clone, Copy, Debug, PartialEq, Eq)]
pub enum UnaryOp {
    Minus,
    Plus,
    Bang,
    Tilde,
    TypeOf,
    Void,
    Delete,
}

#[derive(Clone, Copy, Debug, PartialEq, Eq)]
pub enum BinaryOp {
    EqEq,
    NotEq,
    EqEqEq,
    NotEqEq,
    Lt,
    LtEq,
    Gt,
    GtEq,
    Add,
    Sub,
    Mul,
    Div,
    Mod,
    LogicalOr,
    LogicalAnd,
    InstanceOf,
    In,
}

#[derive(Clone, Copy, Debug, PartialEq, Eq)]
pub enum VarDeclKind {
    Var,
    Let,
    Const,
}

#[derive(Clone, Debug, PartialEq, Eq)]
pub struct RestPat {
    pub span: Span,
    pub arg: Ident,
}

/// A formal parameter or a declared name.
#[derive(Clone, Debug, PartialEq, Eq)]
pub enum Pat {
    Ident(Ident),
    Rest(RestPat),
}

#[derive(Clone, Debug, PartialEq, Eq)]
pub struct ThisExpr {
    pub span: Span,
}

#[derive(Debug, PartialEq, Eq)]
pub struct ArrayLit {
    pub span: Span,
    pub elems: Vec<Expr>,
}

#[derive(Debug, PartialEq, Eq)]
pub struct FnExpr {
    pub ident: Option<Ident>,
    pub function: Function,
}

#[derive(Debug, PartialEq, Eq)]
pub struct UnaryExpr {
    pub span: Span,
    pub op: UnaryOp,
    pub arg: Box<Expr>,
}

#[derive(Debug, PartialEq, Eq)]
pub struct BinExpr {
    pub span: Span,
    pub op: BinaryOp,
    pub left: Box<Expr>,
    pub right: Box<Expr>,
}

/// The object of a member access or the callee of a call.
#[derive(Debug, PartialEq, Eq)]
pub enum ExprOrSuper {
    Super(Span),
    Expr(Box<Expr>),
}

#[derive(Debug, PartialEq, Eq)]
pub struct MemberExpr {
    pub span: Span,
    pub obj: ExprOrSuper,
    pub prop: Box<Expr>,
    pub computed: bool,
}

#[derive(Debug, PartialEq, Eq)]
pub struct CondExpr {
    pub span: Span,
    pub test: Box<Expr>,
    pub cons: Box<Expr>,
    pub alt: Box<Expr>,
}

#[derive(Debug, PartialEq, Eq)]
pub struct CallExpr {
    pub span: Span,
    pub callee: ExprOrSuper,
    pub args: Vec<Expr>,
}

/// The body of an arrow function: a block or a single expression.
#[derive(Debug, PartialEq, Eq)]
pub enum BlockStmtOrExpr {
    BlockStmt(BlockStmt),
    Expr(Box<Expr>),
}

#[derive(Debug, PartialEq, Eq)]
pub struct ArrowExpr {
    pub span: Span,
    pub params: Vec<Pat>,
    pub body: BlockStmtOrExpr,
    pub is_async: bool,
    pub is_generator: bool,
}

#[derive(Debug, PartialEq, Eq)]
pub struct AwaitExpr {
    pub span: Span,
    pub arg: Box<Expr>,
}

#[derive(Debug, PartialEq, Eq)]
pub struct ParenExpr {
    pub span: Span,
    pub expr: Box<Expr>,
}

#[derive(Debug, PartialEq, Eq)]
pub enum Expr {
    This(ThisExpr),
    Ident(Ident),
    Lit(Lit),
    Array(ArrayLit),
    Fn(FnExpr),
    Unary(UnaryExpr),
    Bin(BinExpr),
    Member(MemberExpr),
    Cond(CondExpr),
    Call(CallExpr),
    Arrow(ArrowExpr),
    Await(AwaitExpr),
    Paren(ParenExpr),
}

/// A conventional function: it binds its own `this`.
#[derive(Debug, PartialEq, Eq)]
pub struct Function {
    pub span: Span,
    pub params: Vec<Pat>,
    pub body: BlockStmt,
    pub is_async: bool,
    pub is_generator: bool,
}

#[derive(Debug, PartialEq, Eq)]
pub struct BlockStmt {
    pub span: Span,
    pub stmts: Vec<Stmt>,
}

#[derive(Clone, Debug, PartialEq, Eq)]
pub struct EmptyStmt {
    pub span: Span,
}

#[derive(Debug, PartialEq, Eq)]
pub struct ExprStmt {
    pub span: Span,
    pub expr: Box<Expr>,
}

#[derive(Debug, PartialEq, Eq)]
pub struct ReturnStmt {
    pub span: Span,
    pub arg: Option<Box<Expr>>,
}

#[derive(Debug, PartialEq, Eq)]
pub struct IfStmt {
    pub span: Span,
    pub test: Box<Expr>,
    pub cons: Box<Stmt>,
    pub alt: Option<Box<Stmt>>,
}

#[derive(Debug, PartialEq, Eq)]
pub struct FnDecl {
    pub ident: Ident,
    pub function: Function,
}

/// A declaration of one name, with an optional initializer.
#[derive(Debug, PartialEq, Eq)]
pub struct VarDecl {
    pub span: Span,
    pub kind: VarDeclKind,
    pub name: Pat,
    pub init: Option<Box<Expr>>,
}

#[derive(Debug, PartialEq, Eq)]
pub enum Stmt {
    Block(BlockStmt),
    Empty(EmptyStmt),
    Expr(ExprStmt),
    Return(ReturnStmt),
    If(IfStmt),
    FnDecl(FnDecl),
    Var(VarDecl),
}

} // verus!
