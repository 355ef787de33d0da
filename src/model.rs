//! The mathematical model of the syntax tree: the same shapes, with sequences
//! in place of vectors and character sequences in place of strings.
use vstd::prelude::*;
use crate::ast::{
    BlockStmt, BlockStmtOrExpr, Expr, ExprOrSuper, Function, Ident, Lit, Pat, Span, Stmt,
    BinaryOp, UnaryOp, VarDeclKind, dummy_span,
};

verus! {

pub struct IdentM {
    pub span: Span,
    pub sym: Seq<char>,
}

pub enum PatM {
    Ident(IdentM),
    Rest(Span, IdentM),
}

/// The object of a member access or the callee of a call.
pub enum CalleeM {
    Super(Span),
    Expr(Box<ExprM>),
}

pub enum ExprM {
    This(Span),
    Ident(IdentM),
    Lit(Lit),
    Array(Span, Seq<ExprM>),
    /// A function expression: optional name and the function itself.
    Fn(Option<IdentM>, FunctionM),
    Unary(Span, UnaryOp, Box<ExprM>),
    Bin(Span, BinaryOp, Box<ExprM>, Box<ExprM>),
    /// Span, object, property, and whether the property is computed.
    Member(Span, CalleeM, Box<ExprM>, bool),
    Cond(Span, Box<ExprM>, Box<ExprM>, Box<ExprM>),
    Call(Span, CalleeM, Seq<ExprM>),
    /// Span, parameters, body, `is_async`, `is_generator`.
    Arrow(Span, Seq<PatM>, BodyM, bool, bool),
    Await(Span, Box<ExprM>),
    Paren(Span, Box<ExprM>),
}

pub struct FunctionM {
    pub span: Span,
    pub params: Seq<PatM>,
    pub body: BlockM,
    pub is_async: bool,
    pub is_generator: bool,
}

pub struct BlockM {
    pub span: Span,
    pub stmts: Seq<StmtM>,
}

pub enum StmtM {
    Block(BlockM),
    Empty(Span),
    Expr(Span, Box<ExprM>),
    Return(Span, Option<Box<ExprM>>),
    If(Span, Box<ExprM>, Box<StmtM>, Option<Box<StmtM>>),
    FnDecl(IdentM, FunctionM),
    Var(Span, VarDeclKind, PatM, Option<Box<ExprM>>),
}

pub enum BodyM {
    Block(BlockM),
    Expr(Box<ExprM>),
}

pub open spec fn ident_m(i: Ident) -> IdentM {
    IdentM { span: i.span, sym: i.sym@ }
}

pub open spec fn pat_m(p: Pat) -> PatM {
    match p {
        Pat::Ident(i) => PatM::Ident(ident_m(i)),
        Pat::Rest(r) => PatM::Rest(r.span, ident_m(r.arg)),
    }
}

pub open spec fn pats_m(v: Vec<Pat>) -> Seq<PatM> {
    v@.map_values(|p: Pat| pat_m(p))
}

pub open spec fn opt_ident_m(i: Option<Ident>) -> Option<IdentM> {
    match i {
        Some(i) => Some(ident_m(i)),
        None => None,
    }
}

pub open spec fn expr_m(e: Expr) -> ExprM
    decreases e,
{
    match e {
        Expr::This(t) => ExprM::This(t.span),
        Expr::Ident(i) => ExprM::Ident(ident_m(i)),
        Expr::Lit(l) => ExprM::Lit(l),
        Expr::Array(a) => ExprM::Array(a.span, exprs_m(a.elems)),
        Expr::Fn(f) => ExprM::Fn(opt_ident_m(f.ident), function_m(f.function)),
        Expr::Unary(u) => ExprM::Unary(u.span, u.op, Box::new(expr_m(*u.arg))),
        Expr::Bin(b) => ExprM::Bin(
            b.span,
            b.op,
            Box::new(expr_m(*b.left)),
            Box::new(expr_m(*b.right)),
        ),
        Expr::Member(m) => ExprM::Member(
            m.span,
            callee_m(m.obj),
            Box::new(expr_m(*m.prop)),
            m.computed,
        ),
        Expr::Cond(c) => ExprM::Cond(
            c.span,
            Box::new(expr_m(*c.test)),
            Box::new(expr_m(*c.cons)),
            Box::new(expr_m(*c.alt)),
        ),
        Expr::Call(c) => ExprM::Call(c.span, callee_m(c.callee), exprs_m(c.args)),
        Expr::Arrow(a) => ExprM::Arrow(
            a.span,
            pats_m(a.params),
            body_m(a.body),
            a.is_async,
            a.is_generator,
        ),
        Expr::Await(a) => ExprM::Await(a.span, Box::new(expr_m(*a.arg))),
        Expr::Paren(p) => ExprM::Paren(p.span, Box::new(expr_m(*p.expr))),
    }
}

pub open spec fn exprs_m(v: Vec<Expr>) -> Seq<ExprM>
    decreases v,
{
    Seq::new(
        v.len() as nat,
        |i: int|
            if 0 <= i < v.len() {
                expr_m(v@[i])
            } else {
                ExprM::This(dummy_span())
            },
    )
}

pub open spec fn callee_m(c: ExprOrSuper) -> CalleeM
    decreases c,
{
    match c {
        ExprOrSuper::Super(s) => CalleeM::Super(s),
        ExprOrSuper::Expr(e) => CalleeM::Expr(Box::new(expr_m(*e))),
    }
}

pub open spec fn body_m(b: BlockStmtOrExpr) -> BodyM
    decreases b,
{
    match b {
        BlockStmtOrExpr::BlockStmt(bl) => BodyM::Block(block_m(bl)),
        BlockStmtOrExpr::Expr(e) => BodyM::Expr(Box::new(expr_m(*e))),
    }
}

pub open spec fn function_m(f: Function) -> FunctionM
    decreases f,
{
    FunctionM {
        span: f.span,
        params: pats_m(f.params),
        body: block_m(f.body),
        is_async: f.is_async,
        is_generator: f.is_generator,
    }
}

pub open spec fn block_m(b: BlockStmt) -> BlockM
    decreases b,
{
    BlockM { span: b.span, stmts: stmts_m(b.stmts) }
}

pub open spec fn stmts_m(v: Vec<Stmt>) -> Seq<StmtM>
    decreases v,
{
    Seq::new(
        v.len() as nat,
        |i: int|
            if 0 <= i < v.len() {
                stmt_m(v@[i])
            } else {
                StmtM::Empty(dummy_span())
            },
    )
}

pub open spec fn opt_expr_m(e: Option<Box<Expr>>) -> Option<Box<ExprM>>
    decreases e,
{
    match e {
        Some(x) => Some(Box::new(expr_m(*x))),
        None => None,
    }
}

pub open spec fn stmt_m(s: Stmt) -> StmtM
    decreases s,
{
    match s {
        Stmt::Block(b) => StmtM::Block(block_m(b)),
        Stmt::Empty(e) => StmtM::Empty(e.span),
        Stmt::Expr(e) => StmtM::Expr(e.span, Box::new(expr_m(*e.expr))),
        Stmt::Return(r) => StmtM::Return(r.span, opt_expr_m(r.arg)),
        Stmt::If(i) => StmtM::If(
            i.span,
            Box::new(expr_m(*i.test)),
            Box::new(stmt_m(*i.cons)),
            match i.alt {
                Some(a) => Some(Box::new(stmt_m(*a))),
                None => None,
            },
        ),
        Stmt::FnDecl(d) => StmtM::FnDecl(ident_m(d.ident), function_m(d.function)),
        Stmt::Var(d) => StmtM::Var(d.span, d.kind, pat_m(d.name), opt_expr_m(d.init)),
    }
}

pub broadcast proof fn lemma_exprs_m_index(v: Vec<Expr>, i: int)
    requires
        0 <= i < v.len(),
    ensures
        #[trigger] exprs_m(v)[i] == expr_m(v@[i]),
{
    assert(decreases_to!(v => v@));
    assert(decreases_to!(v@ => v@[i]));
}

pub broadcast proof fn lemma_stmts_m_index(v: Vec<Stmt>, i: int)
    requires
        0 <= i < v.len(),
    ensures
        #[trigger] stmts_m(v)[i] == stmt_m(v@[i]),
{
    assert(decreases_to!(v => v@));
    assert(decreases_to!(v@ => v@[i]));
}

pub broadcast group group_model {
    lemma_exprs_m_index,
    lemma_stmts_m_index,
}

impl View for Expr {
    type V = ExprM;

    open spec fn view(&self) -> ExprM {
        expr_m(*self)
    }
}

impl View for Stmt {
    type V = StmtM;

    open spec fn view(&self) -> StmtM {
        stmt_m(*self)
    }
}

impl View for BlockStmtOrExpr {
    type V = BodyM;

    open spec fn view(&self) -> BodyM {
        body_m(*self)
    }
}

impl View for Function {
    type V = FunctionM;

    open spec fn view(&self) -> FunctionM {
        function_m(*self)
    }
}

impl View for BlockStmt {
    type V = BlockM;

    open spec fn view(&self) -> BlockM {
        block_m(*self)
    }
}

} // verus!
