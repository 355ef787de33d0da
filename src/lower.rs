//! The pass itself: a post-order rewrite that replaces every arrow function.
use vstd::prelude::*;
use crate::ast::{
    ArrowExpr, BlockStmt, BlockStmtOrExpr, CallExpr, Expr, ExprOrSuper, FnExpr, Function, Ident,
    MemberExpr, ReturnStmt, Span, Stmt, ThisExpr, dummy_span,
};
use crate::ast::{ArrayLit, AwaitExpr, BinExpr, CondExpr, ExprStmt, FnDecl, IfStmt, ParenExpr};
use crate::ast::{Pat, UnaryExpr, VarDecl};
use crate::model::{lemma_exprs_m_index, lemma_stmts_m_index};
use crate::model::{CalleeM, ExprM, IdentM, StmtM, callee_m, exprs_m, opt_expr_m, pats_m, stmts_m};
use crate::probe::contains_this_expr;
use crate::semantics::{
    lemma_lower_array, lemma_lower_block, lemma_lower_call, lower_block, lower_body, lower_callee,
    lower_expr, lower_function, lower_opt, lower_stmt, replace_arrow, arrow_function, body_block,
    bind_sym, bind_this,
};

verus! {

broadcast use crate::model::group_model;

/// The arrow-lowering pass. It keeps no state between calls.
#[derive(Debug, Clone, Copy)]
pub struct Arrow;

/// Makes the pass.
pub fn arrow() -> (r: Arrow) {
    Arrow
}

impl Arrow {
    /// Lowers every arrow function in `e`, inner ones first.
    pub fn fold(&mut self, e: Expr) -> (r: Expr)
        ensures
            r@ == lower_expr(e@),
            *final(self) == *old(self),
    {
        fold_expr(e)
    }

    /// Lowers every arrow function in a list of statements, such as the body
    /// of a script.
    pub fn fold_stmts(&mut self, stmts: Vec<Stmt>) -> (r: Vec<Stmt>)
        ensures
            *final(self) == *old(self),
            r.len() == stmts.len(),
            forall|i: int| 0 <= i < stmts.len() ==> (#[trigger] r@[i])@ == lower_stmt(stmts@[i]@),
    {
        fold_stmt_vec(stmts)
    }
}

/// An arrow's body as a function body.
fn body_to_block(body: BlockStmtOrExpr) -> (r: BlockStmt)
    ensures
        r@ == body_block(body@),
{
    let ghost body_v = body@;
    match body {
        BlockStmtOrExpr::BlockStmt(block) => block,
        BlockStmtOrExpr::Expr(expr) => {
            let ghost x = *expr;
            let ret = Stmt::Return(ReturnStmt { span: Span::dummy(), arg: Some(expr) });
            assert(opt_expr_m(Some(Box::new(x))) == Some(Box::new(x@)));
            assert(ret@ == StmtM::Return(dummy_span(), Some(Box::new(x@))));
            let stmts = vec![ret];
            proof {
                lemma_stmts_m_index(stmts, 0);
            }
            assert(stmts_m(stmts) =~= body_block(body_v).stmts);
            BlockStmt { span: Span::dummy(), stmts }
        },
    }
}

/// `f.bind(this)`.
fn bind_to_this(span: Span, f: Expr) -> (r: Expr)
    ensures
        r@ == bind_this(span, f@),
{
    let ghost fn_v = f@;
    let bind = Ident { span: Span::dummy(), sym: "bind".to_owned() };
    proof {
        reveal_strlit("bind");
        assert(bind.sym@ =~= bind_sym());
    }
    let obj = ExprOrSuper::Expr(Box::new(f));
    assert(callee_m(obj) == CalleeM::Expr(Box::new(fn_v)));
    let prop = Expr::Ident(bind);
    assert(prop@ == ExprM::Ident(IdentM { span: dummy_span(), sym: bind_sym() }));
    let member = Expr::Member(MemberExpr { span, obj, prop: Box::new(prop), computed: false });
    let ghost member_v = member@;
    let callee = ExprOrSuper::Expr(Box::new(member));
    assert(callee_m(callee) == CalleeM::Expr(Box::new(member_v)));
    let args = vec![Expr::This(ThisExpr { span: Span::dummy() })];
    proof {
        lemma_exprs_m_index(args, 0);
    }
    assert(exprs_m(args) =~= seq![ExprM::This(dummy_span())]);
    Expr::Call(CallExpr { span, callee, args })
}

/// The replacement for an arrow whose parameters and lowered body are given.
fn replace(
    span: Span,
    params: Vec<Pat>,
    body: BlockStmtOrExpr,
    is_async: bool,
    is_generator: bool,
) -> (r: Expr)
    ensures
        r@ == replace_arrow(span, pats_m(params), body@, is_async, is_generator),
{
    let used_this = contains_this_expr(&body);
    let ghost body_v = body@;
    let ghost f_m = arrow_function(span, pats_m(params), body_v, is_async, is_generator);
    let block = body_to_block(body);
    let function = Function { span, params, body: block, is_async, is_generator };
    assert(function@ == f_m);
    let fn_expr = Expr::Fn(FnExpr { ident: None, function });
    assert(fn_expr@ == ExprM::Fn(None, f_m));
    if used_this {
        bind_to_this(span, fn_expr)
    } else {
        fn_expr
    }
}

fn fold_expr(e: Expr) -> (r: Expr)
    ensures
        r@ == lower_expr(e@),
    decreases e, 1int,
{
    let ghost ev = e@;
    match e {
        Expr::This(_) => e,
        Expr::Ident(_) => e,
        Expr::Lit(_) => e,
        Expr::Array(a) => {
            let ghost old_elems = a.elems;
            assert(ev == ExprM::Array(a.span, exprs_m(old_elems)));
            let elems = fold_expr_vec(a.elems);
            let r = Expr::Array(ArrayLit { span: a.span, elems });
            proof {
                lemma_lower_array(ev);
                assert forall|i: int| 0 <= i < elems.len() implies exprs_m(elems)[i]
                    == lower_expr(ev)->Array_1[i] by {
                    lemma_exprs_m_index(elems, i);
                    lemma_exprs_m_index(old_elems, i);
                }
                assert(exprs_m(elems) =~= lower_expr(ev)->Array_1);
            }
            r
        },
        Expr::Fn(f) => Expr::Fn(FnExpr { ident: f.ident, function: fold_function(f.function) }),
        Expr::Unary(u) => Expr::Unary(
            UnaryExpr { span: u.span, op: u.op, arg: Box::new(fold_expr(*u.arg)) },
        ),
        Expr::Bin(b) => Expr::Bin(
            BinExpr {
                span: b.span,
                op: b.op,
                left: Box::new(fold_expr(*b.left)),
                right: Box::new(fold_expr(*b.right)),
            },
        ),
        Expr::Member(m) => Expr::Member(
            MemberExpr {
                span: m.span,
                obj: fold_callee(m.obj),
                prop: Box::new(fold_expr(*m.prop)),
                computed: m.computed,
            },
        ),
        Expr::Cond(c) => Expr::Cond(
            CondExpr {
                span: c.span,
                test: Box::new(fold_expr(*c.test)),
                cons: Box::new(fold_expr(*c.cons)),
                alt: Box::new(fold_expr(*c.alt)),
            },
        ),
        Expr::Call(c) => {
            let callee = fold_callee(c.callee);
            let ghost old_args = c.args;
            assert(ev == ExprM::Call(c.span, callee_m(c.callee), exprs_m(old_args)));
            let args = fold_expr_vec(c.args);
            let r = Expr::Call(CallExpr { span: c.span, callee, args });
            proof {
                lemma_lower_call(ev);
                assert forall|i: int| 0 <= i < args.len() implies exprs_m(args)[i]
                    == lower_expr(ev)->Call_2[i] by {
                    lemma_exprs_m_index(args, i);
                    lemma_exprs_m_index(old_args, i);
                }
                assert(exprs_m(args) =~= lower_expr(ev)->Call_2);
            }
            r
        },
        Expr::Arrow(a) => {
            let ArrowExpr { span, params, body, is_async, is_generator } = a;
            let body = fold_body(body);
            replace(span, params, body, is_async, is_generator)
        },
        Expr::Await(a) => Expr::Await(AwaitExpr { span: a.span, arg: Box::new(fold_expr(*a.arg)) }),
        Expr::Paren(p) => Expr::Paren(ParenExpr { span: p.span, expr: Box::new(fold_expr(*p.expr)) }),
    }
}

#[verifier::loop_isolation(false)]
fn fold_expr_vec(v: Vec<Expr>) -> (r: Vec<Expr>)
    ensures
        r.len() == v.len(),
        forall|i: int| 0 <= i < v.len() ==> (#[trigger] r@[i])@ == lower_expr(v@[i]@),
    decreases v, 0int,
{
    let ghost orig = v;
    let ghost n = v.len() as int;
    let mut rest = v;
    let mut rev: Vec<Expr> = Vec::new();
    while rest.len() > 0
        invariant
            rest@ == orig@.subrange(0, rest.len() as int),
            rest.len() + rev.len() == n,
            n == orig.len(),
            forall|j: int| 0 <= j < rev.len() ==> #[trigger] rev@[j] == orig@[n - 1 - j],
        decreases rest.len(),
    {
        match rest.pop() {
            Some(x) => rev.push(x),
            None => {},
        }
    }
    let mut out: Vec<Expr> = Vec::new();
    while rev.len() > 0
        invariant
            out.len() + rev.len() == n,
            n == orig.len(),
            forall|j: int| 0 <= j < rev.len() ==> #[trigger] rev@[j] == orig@[n - 1 - j],
            forall|j: int| 0 <= j < out.len() ==> (#[trigger] out@[j])@ == lower_expr(orig@[j]@),
        decreases rev.len(),
    {
        let ghost k = out.len() as int;
        match rev.pop() {
            Some(x) => {
                assert(x == orig@[k]);
                proof {
                    assert(decreases_to!(orig => orig@));
                    assert(decreases_to!(orig@ => orig@[k]));
                }
                let y = fold_expr(x);
                out.push(y);
            },
            None => {},
        }
    }
    out
}

fn fold_callee(c: ExprOrSuper) -> (r: ExprOrSuper)
    ensures
        callee_m(r) == lower_callee(callee_m(c)),
    decreases c, 1int,
{
    match c {
        ExprOrSuper::Super(_) => c,
        ExprOrSuper::Expr(e) => ExprOrSuper::Expr(Box::new(fold_expr(*e))),
    }
}

fn fold_body(b: BlockStmtOrExpr) -> (r: BlockStmtOrExpr)
    ensures
        r@ == lower_body(b@),
    decreases b, 1int,
{
    match b {
        BlockStmtOrExpr::BlockStmt(bl) => BlockStmtOrExpr::BlockStmt(fold_block(bl)),
        BlockStmtOrExpr::Expr(e) => BlockStmtOrExpr::Expr(Box::new(fold_expr(*e))),
    }
}

fn fold_function(f: Function) -> (r: Function)
    ensures
        r@ == lower_function(f@),
    decreases f, 1int,
{
    Function {
        span: f.span,
        params: f.params,
        body: fold_block(f.body),
        is_async: f.is_async,
        is_generator: f.is_generator,
    }
}

fn fold_block(b: BlockStmt) -> (r: BlockStmt)
    ensures
        r@ == lower_block(b@),
    decreases b, 1int,
{
    let ghost bv = b@;
    let stmts = fold_stmt_vec(b.stmts);
    let r = BlockStmt { span: b.span, stmts };
    proof {
        lemma_lower_block(bv);
        assert(r@.stmts =~= lower_block(bv).stmts);
    }
    r
}

#[verifier::loop_isolation(false)]
fn fold_stmt_vec(v: Vec<Stmt>) -> (r: Vec<Stmt>)
    ensures
        r.len() == v.len(),
        forall|i: int| 0 <= i < v.len() ==> (#[trigger] r@[i])@ == lower_stmt(v@[i]@),
    decreases v, 0int,
{
    let ghost orig = v;
    let ghost n = v.len() as int;
    let mut rest = v;
    let mut rev: Vec<Stmt> = Vec::new();
    while rest.len() > 0
        invariant
            rest@ == orig@.subrange(0, rest.len() as int),
            rest.len() + rev.len() == n,
            n == orig.len(),
            forall|j: int| 0 <= j < rev.len() ==> #[trigger] rev@[j] == orig@[n - 1 - j],
        decreases rest.len(),
    {
        match rest.pop() {
            Some(x) => rev.push(x),
            None => {},
        }
    }
    let mut out: Vec<Stmt> = Vec::new();
    while rev.len() > 0
        invariant
            out.len() + rev.len() == n,
            n == orig.len(),
            forall|j: int| 0 <= j < rev.len() ==> #[trigger] rev@[j] == orig@[n - 1 - j],
            forall|j: int| 0 <= j < out.len() ==> (#[trigger] out@[j])@ == lower_stmt(orig@[j]@),
        decreases rev.len(),
    {
        let ghost k = out.len() as int;
        match rev.pop() {
            Some(x) => {
                assert(x == orig@[k]);
                proof {
                    assert(decreases_to!(orig => orig@));
                    assert(decreases_to!(orig@ => orig@[k]));
                }
                let y = fold_stmt(x);
                out.push(y);
            },
            None => {},
        }
    }
    out
}

fn fold_opt(e: Option<Box<Expr>>) -> (r: Option<Box<Expr>>)
    ensures
        opt_expr_m(r) == lower_opt(opt_expr_m(e)),
    decreases e, 1int,
{
    match e {
        Some(x) => Some(Box::new(fold_expr(*x))),
        None => None,
    }
}

fn fold_stmt(s: Stmt) -> (r: Stmt)
    ensures
        r@ == lower_stmt(s@),
    decreases s, 1int,
{
    match s {
        Stmt::Block(b) => Stmt::Block(fold_block(b)),
        Stmt::Empty(_) => s,
        Stmt::Expr(x) => Stmt::Expr(ExprStmt { span: x.span, expr: Box::new(fold_expr(*x.expr)) }),
        Stmt::Return(x) => Stmt::Return(ReturnStmt { span: x.span, arg: fold_opt(x.arg) }),
        Stmt::If(x) => {
            let alt = match x.alt {
                Some(a) => Some(Box::new(fold_stmt(*a))),
                None => None,
            };
            Stmt::If(
                IfStmt {
                    span: x.span,
                    test: Box::new(fold_expr(*x.test)),
                    cons: Box::new(fold_stmt(*x.cons)),
                    alt,
                },
            )
        },
        Stmt::FnDecl(d) => Stmt::FnDecl(FnDecl { ident: d.ident, function: fold_function(d.function) }),
        Stmt::Var(d) => Stmt::Var(
            VarDecl { span: d.span, kind: d.kind, name: d.name, init: fold_opt(d.init) },
        ),
    }
}

} // verus!
