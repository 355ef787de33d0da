//! What holds of the lowering for every input.
use vstd::prelude::*;
use crate::ast::{Span, dummy_span};
use crate::model::{BlockM, BodyM, CalleeM, ExprM, FunctionM, IdentM, PatM, StmtM};
use crate::semantics::{
    arrow_function, bind_sym, bind_this, block_has_arrow, body_block, body_has_arrow,
    body_refs_this, callee_has_arrow, expr_has_arrow, function_has_arrow, lemma_array_has_arrow,
    lemma_block_has_arrow, lemma_call_has_arrow, lemma_lower_array, lemma_lower_block,
    lemma_lower_call, lower_block, lower_body, lower_callee, lower_expr, lower_function, lower_opt,
    lower_stmt, opt_has_arrow, stmt_has_arrow,
};

verus! {

/// `f.bind(this)` holds no arrow when `f` holds none.
proof fn lemma_bind_this_arrow_free(span: Span, f: ExprM)
    requires
        !expr_has_arrow(f),
    ensures
        !expr_has_arrow(bind_this(span, f)),
{
    let ident = ExprM::Ident(IdentM { span: dummy_span(), sym: bind_sym() });
    assert(!expr_has_arrow(ident));
    assert(!callee_has_arrow(CalleeM::Expr(Box::new(f))));
    let member = ExprM::Member(span, CalleeM::Expr(Box::new(f)), Box::new(ident), false);
    assert(!expr_has_arrow(member));
    assert(!callee_has_arrow(CalleeM::Expr(Box::new(member))));
    let r = bind_this(span, f);
    lemma_call_has_arrow(r);
    assert(r->Call_2[0] == ExprM::This(dummy_span()));
    assert(!expr_has_arrow(ExprM::This(dummy_span())));
}

/// The block made of an arrow-free body holds no arrow.
proof fn lemma_body_block_arrow_free(b: BodyM)
    requires
        !body_has_arrow(b),
    ensures
        !block_has_arrow(body_block(b)),
{
    match b {
        BodyM::Block(bl) => {},
        BodyM::Expr(x) => {
            let bl = body_block(b);
            lemma_block_has_arrow(bl);
            assert(!opt_has_arrow(Some(x)));
            assert(!stmt_has_arrow(StmtM::Return(dummy_span(), Some(x))));
            assert(bl.stmts[0] == StmtM::Return(dummy_span(), Some(x)));
        },
    }
}

proof fn lemma_lower_expr_facts(e: ExprM)
    ensures
        !expr_has_arrow(lower_expr(e)),
        !expr_has_arrow(e) ==> lower_expr(e) == e,
    decreases e, 1int,
{
    let r = lower_expr(e);
    match e {
        ExprM::This(_) => {},
        ExprM::Ident(_) => {},
        ExprM::Lit(_) => {},
        ExprM::Array(sp, s) => {
            lemma_lower_array(e);
            lemma_array_has_arrow(r);
            lemma_array_has_arrow(e);
            assert(decreases_to!(e => e->Array_1));
            assert forall|i: int| 0 <= i < s.len() implies !expr_has_arrow(lower_expr(s[i])) && (
            !expr_has_arrow(s[i]) ==> lower_expr(s[i]) == s[i]) by {
                assert(decreases_to!(s => s[i]));
                lemma_lower_expr_facts(s[i]);
            }
            if !expr_has_arrow(e) {
                assert(r->Array_1 =~= s);
            }
        },
        ExprM::Fn(id, f) => {
            lemma_lower_function_facts(f);
        },
        ExprM::Unary(_, _, a) => {
            lemma_lower_expr_facts(*a);
        },
        ExprM::Bin(_, _, l, x) => {
            lemma_lower_expr_facts(*l);
            lemma_lower_expr_facts(*x);
        },
        ExprM::Member(_, obj, prop, _) => {
            lemma_lower_callee_facts(obj);
            lemma_lower_expr_facts(*prop);
        },
        ExprM::Cond(_, t, c, a) => {
            lemma_lower_expr_facts(*t);
            lemma_lower_expr_facts(*c);
            lemma_lower_expr_facts(*a);
        },
        ExprM::Call(sp, callee, s) => {
            lemma_lower_call(e);
            lemma_call_has_arrow(r);
            lemma_call_has_arrow(e);
            lemma_lower_callee_facts(callee);
            assert(decreases_to!(e => e->Call_2));
            assert forall|i: int| 0 <= i < s.len() implies !expr_has_arrow(lower_expr(s[i])) && (
            !expr_has_arrow(s[i]) ==> lower_expr(s[i]) == s[i]) by {
                assert(decreases_to!(s => s[i]));
                lemma_lower_expr_facts(s[i]);
            }
            if !expr_has_arrow(e) {
                assert(r->Call_2 =~= s);
            }
        },
        ExprM::Arrow(sp, ps, body, a, g) => {
            lemma_lower_body_facts(body);
            let lb = lower_body(body);
            lemma_body_block_arrow_free(lb);
            let func = arrow_function(sp, ps, lb, a, g);
            assert(!function_has_arrow(func));
            let f = ExprM::Fn(None, func);
            assert(!expr_has_arrow(f));
            lemma_bind_this_arrow_free(sp, f);
        },
        ExprM::Await(_, a) => {
            lemma_lower_expr_facts(*a);
        },
        ExprM::Paren(_, a) => {
            lemma_lower_expr_facts(*a);
        },
    }
}

proof fn lemma_lower_callee_facts(c: CalleeM)
    ensures
        !callee_has_arrow(lower_callee(c)),
        !callee_has_arrow(c) ==> lower_callee(c) == c,
    decreases c, 1int,
{
    match c {
        CalleeM::Super(_) => {},
        CalleeM::Expr(e) => lemma_lower_expr_facts(*e),
    }
}

proof fn lemma_lower_body_facts(b: BodyM)
    ensures
        !body_has_arrow(lower_body(b)),
        !body_has_arrow(b) ==> lower_body(b) == b,
    decreases b, 1int,
{
    match b {
        BodyM::Block(bl) => lemma_lower_block_facts(bl),
        BodyM::Expr(e) => lemma_lower_expr_facts(*e),
    }
}

proof fn lemma_lower_function_facts(f: FunctionM)
    ensures
        !function_has_arrow(lower_function(f)),
        !function_has_arrow(f) ==> lower_function(f) == f,
    decreases f, 1int,
{
    lemma_lower_block_facts(f.body);
}

proof fn lemma_lower_block_facts(b: BlockM)
    ensures
        !block_has_arrow(lower_block(b)),
        !block_has_arrow(b) ==> lower_block(b) == b,
    decreases b, 1int,
{
    let r = lower_block(b);
    let s = b.stmts;
    lemma_lower_block(b);
    lemma_block_has_arrow(r);
    lemma_block_has_arrow(b);
    assert(decreases_to!(b => b.stmts));
    assert forall|i: int| 0 <= i < s.len() implies !stmt_has_arrow(lower_stmt(s[i])) && (
    !stmt_has_arrow(s[i]) ==> lower_stmt(s[i]) == s[i]) by {
        assert(decreases_to!(s => s[i]));
        lemma_lower_stmt_facts(s[i]);
    }
    if !block_has_arrow(b) {
        assert(r.stmts =~= s);
    }
}

proof fn lemma_lower_opt_facts(e: Option<Box<ExprM>>)
    ensures
        !opt_has_arrow(lower_opt(e)),
        !opt_has_arrow(e) ==> lower_opt(e) == e,
    decreases e, 1int,
{
    match e {
        Some(x) => lemma_lower_expr_facts(*x),
        None => {},
    }
}

proof fn lemma_lower_stmt_facts(s: StmtM)
    ensures
        !stmt_has_arrow(lower_stmt(s)),
        !stmt_has_arrow(s) ==> lower_stmt(s) == s,
    decreases s, 1int,
{
    match s {
        StmtM::Block(b) => lemma_lower_block_facts(b),
        StmtM::Empty(_) => {},
        StmtM::Expr(_, e) => lemma_lower_expr_facts(*e),
        StmtM::Return(_, arg) => lemma_lower_opt_facts(arg),
        StmtM::If(_, t, c, a) => {
            lemma_lower_expr_facts(*t);
            lemma_lower_stmt_facts(*c);
            match a {
                Some(x) => lemma_lower_stmt_facts(*x),
                None => {},
            }
        },
        StmtM::FnDecl(_, f) => lemma_lower_function_facts(f),
        StmtM::Var(_, _, _, init) => lemma_lower_opt_facts(init),
    }
}

/// Lowering leaves no arrow function anywhere in an expression.
pub proof fn lemma_lower_eliminates_arrows(e: ExprM)
    ensures
        !expr_has_arrow(lower_expr(e)),
{
    lemma_lower_expr_facts(e);
}

/// Lowering leaves no arrow function anywhere in a statement.
pub proof fn lemma_lower_stmt_eliminates_arrows(s: StmtM)
    ensures
        !stmt_has_arrow(lower_stmt(s)),
{
    lemma_lower_stmt_facts(s);
}

/// An expression without arrow functions comes out of lowering as it went in.
pub proof fn lemma_arrow_free_unchanged(e: ExprM)
    requires
        !expr_has_arrow(e),
    ensures
        lower_expr(e) == e,
{
    lemma_lower_expr_facts(e);
}

/// A statement without arrow functions comes out of lowering as it went in.
pub proof fn lemma_arrow_free_stmt_unchanged(s: StmtM)
    requires
        !stmt_has_arrow(s),
    ensures
        lower_stmt(s) == s,
{
    lemma_lower_stmt_facts(s);
}

/// Lowering twice gives what lowering once gives.
pub proof fn lemma_lower_idempotent(e: ExprM)
    ensures
        lower_expr(lower_expr(e)) == lower_expr(e),
{
    lemma_lower_expr_facts(e);
    lemma_lower_expr_facts(lower_expr(e));
}

/// Lowering a statement twice gives what lowering it once gives.
pub proof fn lemma_lower_stmt_idempotent(s: StmtM)
    ensures
        lower_stmt(lower_stmt(s)) == lower_stmt(s),
{
    lemma_lower_stmt_facts(s);
    lemma_lower_stmt_facts(lower_stmt(s));
}

/// The function inside the replacement of an arrow: the function expression
/// itself, or the object of `.bind(this)`.
pub open spec fn replacement_function(r: ExprM) -> Option<FunctionM> {
    match r {
        ExprM::Fn(None, f) => Some(f),
        ExprM::Call(_, CalleeM::Expr(m), _) => match *m {
            ExprM::Member(_, CalleeM::Expr(x), _, _) => match *x {
                ExprM::Fn(None, f) => Some(f),
                _ => None,
            },
            _ => None,
        },
        _ => None,
    }
}

/// The function that replaces an arrow has the arrow's span, parameters,
/// `is_async` and `is_generator`, and the arrow's lowered body as a block.
pub proof fn lemma_arrow_flags_kept(
    span: Span,
    params: Seq<PatM>,
    body: BodyM,
    is_async: bool,
    is_generator: bool,
)
    ensures
        ({
            let r = lower_expr(ExprM::Arrow(span, params, body, is_async, is_generator));
            &&& replacement_function(r) is Some
            &&& replacement_function(r)->0.is_async == is_async
            &&& replacement_function(r)->0.is_generator == is_generator
            &&& replacement_function(r)->0.span == span
            &&& replacement_function(r)->0.params == params
            &&& replacement_function(r)->0.body == body_block(lower_body(body))
        }),
{
}

/// The replacement of an arrow is wrapped in `.bind(this)` exactly when the
/// arrow's lowered body refers to the surrounding `this`; otherwise it is the
/// bare function expression.
pub proof fn lemma_bind_iff_this(
    span: Span,
    params: Seq<PatM>,
    body: BodyM,
    is_async: bool,
    is_generator: bool,
)
    ensures
        ({
            let r = lower_expr(ExprM::Arrow(span, params, body, is_async, is_generator));
            let f = ExprM::Fn(
                None,
                arrow_function(span, params, lower_body(body), is_async, is_generator),
            );
            &&& (r == bind_this(span, f)) <==> body_refs_this(lower_body(body))
            &&& !body_refs_this(lower_body(body)) ==> r == f
        }),
{
}

} // verus!
