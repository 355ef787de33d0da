//! Deciding whether a subtree refers to the `this` of its surrounding scope.
use vstd::prelude::*;
use crate::ast::{BlockStmt, BlockStmtOrExpr, Expr, ExprOrSuper, Stmt};
use crate::model::{ExprM, exprs_m, stmts_m};
use crate::semantics::{lemma_array_refs_this, lemma_block_refs_this, lemma_call_refs_this};
use crate::semantics::{
    block_refs_this, body_refs_this, callee_refs_this, expr_refs_this, opt_refs_this,
    stmt_refs_this,
};

verus! {

broadcast use crate::model::group_model;

/// Whether the body of an arrow refers to the `this` of the scope around the arrow.
pub fn contains_this_expr(body: &BlockStmtOrExpr) -> (r: bool)
    ensures
        r == body_refs_this(body@),
    decreases *body, 2int,
{
    match body {
        BlockStmtOrExpr::BlockStmt(b) => block_has_this(b),
        BlockStmtOrExpr::Expr(e) => expr_has_this(e),
    }
}

fn exprs_have_this(v: &Vec<Expr>) -> (r: bool)
    ensures
        r == exists|i: int| 0 <= i < v.len() && expr_refs_this(#[trigger] exprs_m(*v)[i]),
    decreases *v, 0int,
{
    let mut i: usize = 0;
    while i < v.len()
        invariant
            0 <= i <= v.len(),
            forall|j: int| 0 <= j < i ==> !expr_refs_this(#[trigger] exprs_m(*v)[j]),
        decreases v.len() - i,
    {
        if expr_has_this(&v[i]) {
            assert(expr_refs_this(exprs_m(*v)[i as int]));
            return true;
        }
        i += 1;
    }
    false
}

fn callee_has_this(c: &ExprOrSuper) -> (r: bool)
    ensures
        r == callee_refs_this(crate::model::callee_m(*c)),
    decreases *c, 0int,
{
    match c {
        ExprOrSuper::Super(_) => false,
        ExprOrSuper::Expr(e) => expr_has_this(e),
    }
}

fn expr_has_this(e: &Expr) -> (r: bool)
    ensures
        r == expr_refs_this(e@),
    decreases *e, 0int,
{
    match e {
        Expr::This(_) => true,
        Expr::Ident(_) => false,
        Expr::Lit(_) => false,
        Expr::Array(a) => {
            let r = exprs_have_this(&a.elems);
            assert(e@ == ExprM::Array(a.span, exprs_m(a.elems)));
            proof {
                lemma_array_refs_this(e@);
            }
            assert(r == expr_refs_this(e@));
            r
        },
        Expr::Fn(_) => false,
        Expr::Unary(u) => expr_has_this(&u.arg),
        Expr::Bin(b) => expr_has_this(&b.left) || expr_has_this(&b.right),
        Expr::Member(m) => callee_has_this(&m.obj) || expr_has_this(&m.prop),
        Expr::Cond(c) => expr_has_this(&c.test) || expr_has_this(&c.cons) || expr_has_this(
            &c.alt,
        ),
        Expr::Call(c) => {
            let r = callee_has_this(&c.callee) || exprs_have_this(&c.args);
            assert(e@ == ExprM::Call(c.span, crate::model::callee_m(c.callee), exprs_m(c.args)));
            proof {
                lemma_call_refs_this(e@);
            }
            assert(r == expr_refs_this(e@));
            r
        },
        Expr::Arrow(a) => contains_this_expr(&a.body),
        Expr::Await(a) => expr_has_this(&a.arg),
        Expr::Paren(p) => expr_has_this(&p.expr),
    }
}

fn block_has_this(b: &BlockStmt) -> (r: bool)
    ensures
        r == block_refs_this(b@),
    decreases *b, 1int,
{
    let v = &b.stmts;
    let mut i: usize = 0;
    while i < v.len()
        invariant
            0 <= i <= v.len(),
            v == &b.stmts,
            forall|j: int| 0 <= j < i ==> !stmt_refs_this(#[trigger] stmts_m(*v)[j]),
        decreases v.len() - i,
    {
        if stmt_has_this(&v[i]) {
            assert(stmt_refs_this(stmts_m(*v)[i as int]));
            assert(b@.stmts == stmts_m(*v));
            proof {
                lemma_block_refs_this(b@);
            }
            return true;
        }
        i += 1;
    }
    assert(b@.stmts == stmts_m(*v));
    proof {
        lemma_block_refs_this(b@);
    }
    false
}

fn opt_has_this(e: &Option<Box<Expr>>) -> (r: bool)
    ensures
        r == opt_refs_this(crate::model::opt_expr_m(*e)),
    decreases *e, 0int,
{
    match e {
        Some(x) => expr_has_this(x),
        None => false,
    }
}

fn stmt_has_this(s: &Stmt) -> (r: bool)
    ensures
        r == stmt_refs_this(s@),
    decreases *s, 0int,
{
    match s {
        Stmt::Block(b) => block_has_this(b),
        Stmt::Empty(_) => false,
        Stmt::Expr(x) => expr_has_this(&x.expr),
        Stmt::Return(x) => opt_has_this(&x.arg),
        Stmt::If(x) => expr_has_this(&x.test) || stmt_has_this(&x.cons) || match &x.alt {
            Some(a) => stmt_has_this(a),
            None => false,
        },
        Stmt::FnDecl(_) => false,
        Stmt::Var(x) => opt_has_this(&x.init),
    }
}

} // verus!
