//! What the pass means: which subtrees refer to the surrounding `this`,
//! and what lowering makes of each node.
use vstd::prelude::*;
use crate::ast::dummy_span;
use crate::ast::Span;
use crate::model::{BlockM, BodyM, CalleeM, ExprM, FunctionM, IdentM, PatM, StmtM};

verus! {

/// True when `e` holds a `this` outside every nested function expression or
/// declaration (those bind a `this` of their own). Arrows do not stop the search.
pub open spec fn expr_refs_this(e: ExprM) -> bool
    decreases e,
{
    match e {
        ExprM::This(_) => true,
        ExprM::Ident(_) => false,
        ExprM::Lit(_) => false,
        ExprM::Array(_, elems) => exists|i: int|
            0 <= i < elems.len() && expr_refs_this(#[trigger] elems[i]),
        ExprM::Fn(_, _) => false,
        ExprM::Unary(_, _, a) => expr_refs_this(*a),
        ExprM::Bin(_, _, l, r) => expr_refs_this(*l) || expr_refs_this(*r),
        ExprM::Member(_, obj, prop, _) => callee_refs_this(obj) || expr_refs_this(*prop),
        ExprM::Cond(_, t, c, a) => expr_refs_this(*t) || expr_refs_this(*c) || expr_refs_this(*a),
        ExprM::Call(_, callee, args) => callee_refs_this(callee) || exists|i: int|
            0 <= i < args.len() && expr_refs_this(#[trigger] args[i]),
        ExprM::Arrow(_, _, body, _, _) => body_refs_this(body),
        ExprM::Await(_, a) => expr_refs_this(*a),
        ExprM::Paren(_, a) => expr_refs_this(*a),
    }
}

pub open spec fn callee_refs_this(c: CalleeM) -> bool
    decreases c,
{
    match c {
        CalleeM::Super(_) => false,
        CalleeM::Expr(e) => expr_refs_this(*e),
    }
}

pub open spec fn body_refs_this(b: BodyM) -> bool
    decreases b,
{
    match b {
        BodyM::Block(bl) => block_refs_this(bl),
        BodyM::Expr(e) => expr_refs_this(*e),
    }
}

pub open spec fn block_refs_this(b: BlockM) -> bool
    decreases b,
{
    exists|i: int| 0 <= i < b.stmts.len() && stmt_refs_this(#[trigger] b.stmts[i])
}

pub open spec fn opt_refs_this(e: Option<Box<ExprM>>) -> bool
    decreases e,
{
    match e {
        Some(x) => expr_refs_this(*x),
        None => false,
    }
}

pub open spec fn stmt_refs_this(s: StmtM) -> bool
    decreases s,
{
    match s {
        StmtM::Block(b) => block_refs_this(b),
        StmtM::Empty(_) => false,
        StmtM::Expr(_, e) => expr_refs_this(*e),
        StmtM::Return(_, arg) => opt_refs_this(arg),
        StmtM::If(_, t, c, a) => expr_refs_this(*t) || stmt_refs_this(*c) || match a {
            Some(x) => stmt_refs_this(*x),
            None => false,
        },
        StmtM::FnDecl(_, _) => false,
        StmtM::Var(_, _, _, init) => opt_refs_this(init),
    }
}

pub proof fn lemma_array_refs_this(e: ExprM)
    requires
        e is Array,
    ensures
        expr_refs_this(e) == exists|i: int|
            0 <= i < e->Array_1.len() && expr_refs_this(#[trigger] e->Array_1[i]),
{
    let s = e->Array_1;
    assert(decreases_to!(e => e->Array_1));
    assert forall|i: int| 0 <= i < s.len() implies decreases_to!(e => s[i]) by {
        assert(decreases_to!(s => s[i]));
    }
}

pub proof fn lemma_call_refs_this(e: ExprM)
    requires
        e is Call,
    ensures
        expr_refs_this(e) == (callee_refs_this(e->Call_1) || exists|i: int|
            0 <= i < e->Call_2.len() && expr_refs_this(#[trigger] e->Call_2[i])),
{
    let s = e->Call_2;
    assert(decreases_to!(e => e->Call_2));
    assert forall|i: int| 0 <= i < s.len() implies decreases_to!(e => s[i]) by {
        assert(decreases_to!(s => s[i]));
    }
}

pub proof fn lemma_block_refs_this(b: BlockM)
    ensures
        block_refs_this(b) == exists|i: int|
            0 <= i < b.stmts.len() && stmt_refs_this(#[trigger] b.stmts[i]),
{
    let s = b.stmts;
    assert(decreases_to!(b => b.stmts));
    assert forall|i: int| 0 <= i < s.len() implies decreases_to!(b => s[i]) by {
        assert(decreases_to!(s => s[i]));
    }
}

/// The name of the method through which a lowered arrow keeps its `this`.
pub open spec fn bind_sym() -> Seq<char> {
    seq!['b', 'i', 'n', 'd']
}

/// An arrow's body as a function body: a block stays as it is, an expression
/// `e` becomes `{ return e; }`.
pub open spec fn body_block(b: BodyM) -> BlockM {
    match b {
        BodyM::Block(bl) => bl,
        BodyM::Expr(e) => BlockM {
            span: dummy_span(),
            stmts: seq![StmtM::Return(dummy_span(), Some(e))],
        },
    }
}

/// The function that stands for an arrow with these parts.
pub open spec fn arrow_function(
    span: Span,
    params: Seq<PatM>,
    body: BodyM,
    is_async: bool,
    is_generator: bool,
) -> FunctionM {
    FunctionM { span, params, body: body_block(body), is_async, is_generator }
}

/// `f.bind(this)`, with `span` on the call and on the member access.
pub open spec fn bind_this(span: Span, f: ExprM) -> ExprM {
    ExprM::Call(
        span,
        CalleeM::Expr(
            Box::new(
                ExprM::Member(
                    span,
                    CalleeM::Expr(Box::new(f)),
                    Box::new(ExprM::Ident(IdentM { span: dummy_span(), sym: bind_sym() })),
                    false,
                ),
            ),
        ),
        seq![ExprM::This(dummy_span())],
    )
}

/// What replaces an arrow whose body has already been lowered: an anonymous
/// function expression, bound to the surrounding `this` when the body uses it.
pub open spec fn replace_arrow(
    span: Span,
    params: Seq<PatM>,
    body: BodyM,
    is_async: bool,
    is_generator: bool,
) -> ExprM {
    let f = ExprM::Fn(None, arrow_function(span, params, body, is_async, is_generator));
    if body_refs_this(body) {
        bind_this(span, f)
    } else {
        f
    }
}

/// The lowering of an expression: children first, then the node itself.
pub open spec fn lower_expr(e: ExprM) -> ExprM
    decreases e,
{
    match e {
        ExprM::This(_) => e,
        ExprM::Ident(_) => e,
        ExprM::Lit(_) => e,
        ExprM::Array(sp, elems) => ExprM::Array(
            sp,
            Seq::new(
                elems.len(),
                |i: int|
                    if 0 <= i < elems.len() {
                        lower_expr(elems[i])
                    } else {
                        ExprM::This(dummy_span())
                    },
            ),
        ),
        ExprM::Fn(id, f) => ExprM::Fn(id, lower_function(f)),
        ExprM::Unary(sp, op, a) => ExprM::Unary(sp, op, Box::new(lower_expr(*a))),
        ExprM::Bin(sp, op, l, r) => ExprM::Bin(
            sp,
            op,
            Box::new(lower_expr(*l)),
            Box::new(lower_expr(*r)),
        ),
        ExprM::Member(sp, obj, prop, c) => ExprM::Member(
            sp,
            lower_callee(obj),
            Box::new(lower_expr(*prop)),
            c,
        ),
        ExprM::Cond(sp, t, c, a) => ExprM::Cond(
            sp,
            Box::new(lower_expr(*t)),
            Box::new(lower_expr(*c)),
            Box::new(lower_expr(*a)),
        ),
        ExprM::Call(sp, callee, args) => ExprM::Call(
            sp,
            lower_callee(callee),
            Seq::new(
                args.len(),
                |i: int|
                    if 0 <= i < args.len() {
                        lower_expr(args[i])
                    } else {
                        ExprM::This(dummy_span())
                    },
            ),
        ),
        ExprM::Arrow(sp, params, body, a, g) => replace_arrow(sp, params, lower_body(body), a, g),
        ExprM::Await(sp, a) => ExprM::Await(sp, Box::new(lower_expr(*a))),
        ExprM::Paren(sp, a) => ExprM::Paren(sp, Box::new(lower_expr(*a))),
    }
}

pub open spec fn lower_callee(c: CalleeM) -> CalleeM
    decreases c,
{
    match c {
        CalleeM::Super(_) => c,
        CalleeM::Expr(e) => CalleeM::Expr(Box::new(lower_expr(*e))),
    }
}

pub open spec fn lower_body(b: BodyM) -> BodyM
    decreases b,
{
    match b {
        BodyM::Block(bl) => BodyM::Block(lower_block(bl)),
        BodyM::Expr(e) => BodyM::Expr(Box::new(lower_expr(*e))),
    }
}

pub open spec fn lower_function(f: FunctionM) -> FunctionM
    decreases f,
{
    FunctionM { body: lower_block(f.body), ..f }
}

pub open spec fn lower_block(b: BlockM) -> BlockM
    decreases b,
{
    BlockM {
        span: b.span,
        stmts: Seq::new(
            b.stmts.len(),
            |i: int|
                if 0 <= i < b.stmts.len() {
                    lower_stmt(b.stmts[i])
                } else {
                    StmtM::Empty(dummy_span())
                },
        ),
    }
}

pub open spec fn lower_opt(e: Option<Box<ExprM>>) -> Option<Box<ExprM>>
    decreases e,
{
    match e {
        Some(x) => Some(Box::new(lower_expr(*x))),
        None => None,
    }
}

pub open spec fn lower_stmt(s: StmtM) -> StmtM
    decreases s,
{
    match s {
        StmtM::Block(b) => StmtM::Block(lower_block(b)),
        StmtM::Empty(_) => s,
        StmtM::Expr(sp, e) => StmtM::Expr(sp, Box::new(lower_expr(*e))),
        StmtM::Return(sp, arg) => StmtM::Return(sp, lower_opt(arg)),
        StmtM::If(sp, t, c, a) => StmtM::If(
            sp,
            Box::new(lower_expr(*t)),
            Box::new(lower_stmt(*c)),
            match a {
                Some(x) => Some(Box::new(lower_stmt(*x))),
                None => None,
            },
        ),
        StmtM::FnDecl(id, f) => StmtM::FnDecl(id, lower_function(f)),
        StmtM::Var(sp, k, name, init) => StmtM::Var(sp, k, name, lower_opt(init)),
    }
}

pub proof fn lemma_lower_array(e: ExprM)
    requires
        e is Array,
    ensures
        lower_expr(e) is Array,
        lower_expr(e)->Array_0 == e->Array_0,
        lower_expr(e)->Array_1.len() == e->Array_1.len(),
        forall|i: int|
            0 <= i < e->Array_1.len() ==> #[trigger] lower_expr(e)->Array_1[i] == lower_expr(
                e->Array_1[i],
            ),
{
    let s = e->Array_1;
    assert(decreases_to!(e => e->Array_1));
    assert forall|i: int| 0 <= i < s.len() implies decreases_to!(e => s[i]) by {
        assert(decreases_to!(s => s[i]));
    }
}

pub proof fn lemma_lower_call(e: ExprM)
    requires
        e is Call,
    ensures
        lower_expr(e) is Call,
        lower_expr(e)->Call_0 == e->Call_0,
        lower_expr(e)->Call_1 == lower_callee(e->Call_1),
        lower_expr(e)->Call_2.len() == e->Call_2.len(),
        forall|i: int|
            0 <= i < e->Call_2.len() ==> #[trigger] lower_expr(e)->Call_2[i] == lower_expr(
                e->Call_2[i],
            ),
{
    let s = e->Call_2;
    assert(decreases_to!(e => e->Call_2));
    assert forall|i: int| 0 <= i < s.len() implies decreases_to!(e => s[i]) by {
        assert(decreases_to!(s => s[i]));
    }
}

pub proof fn lemma_lower_block(b: BlockM)
    ensures
        lower_block(b).span == b.span,
        lower_block(b).stmts.len() == b.stmts.len(),
        forall|i: int|
            0 <= i < b.stmts.len() ==> #[trigger] lower_block(b).stmts[i] == lower_stmt(
                b.stmts[i],
            ),
{
    let s = b.stmts;
    assert(decreases_to!(b => b.stmts));
    assert forall|i: int| 0 <= i < s.len() implies decreases_to!(b => s[i]) by {
        assert(decreases_to!(s => s[i]));
    }
}

/// True when an arrow function occurs anywhere in `e`.
pub open spec fn expr_has_arrow(e: ExprM) -> bool
    decreases e,
{
    match e {
        ExprM::This(_) => false,
        ExprM::Ident(_) => false,
        ExprM::Lit(_) => false,
        ExprM::Array(_, elems) => exists|i: int|
            0 <= i < elems.len() && expr_has_arrow(#[trigger] elems[i]),
        ExprM::Fn(_, f) => function_has_arrow(f),
        ExprM::Unary(_, _, a) => expr_has_arrow(*a),
        ExprM::Bin(_, _, l, r) => expr_has_arrow(*l) || expr_has_arrow(*r),
        ExprM::Member(_, obj, prop, _) => callee_has_arrow(obj) || expr_has_arrow(*prop),
        ExprM::Cond(_, t, c, a) => expr_has_arrow(*t) || expr_has_arrow(*c) || expr_has_arrow(*a),
        ExprM::Call(_, callee, args) => callee_has_arrow(callee) || exists|i: int|
            0 <= i < args.len() && expr_has_arrow(#[trigger] args[i]),
        ExprM::Arrow(_, _, _, _, _) => true,
        ExprM::Await(_, a) => expr_has_arrow(*a),
        ExprM::Paren(_, a) => expr_has_arrow(*a),
    }
}

pub open spec fn callee_has_arrow(c: CalleeM) -> bool
    decreases c,
{
    match c {
        CalleeM::Super(_) => false,
        CalleeM::Expr(e) => expr_has_arrow(*e),
    }
}

pub open spec fn body_has_arrow(b: BodyM) -> bool
    decreases b,
{
    match b {
        BodyM::Block(bl) => block_has_arrow(bl),
        BodyM::Expr(e) => expr_has_arrow(*e),
    }
}

pub open spec fn function_has_arrow(f: FunctionM) -> bool
    decreases f,
{
    block_has_arrow(f.body)
}

pub open spec fn block_has_arrow(b: BlockM) -> bool
    decreases b,
{
    exists|i: int| 0 <= i < b.stmts.len() && stmt_has_arrow(#[trigger] b.stmts[i])
}

pub open spec fn opt_has_arrow(e: Option<Box<ExprM>>) -> bool
    decreases e,
{
    match e {
        Some(x) => expr_has_arrow(*x),
        None => false,
    }
}

pub open spec fn stmt_has_arrow(s: StmtM) -> bool
    decreases s,
{
    match s {
        StmtM::Block(b) => block_has_arrow(b),
        StmtM::Empty(_) => false,
        StmtM::Expr(_, e) => expr_has_arrow(*e),
        StmtM::Return(_, arg) => opt_has_arrow(arg),
        StmtM::If(_, t, c, a) => expr_has_arrow(*t) || stmt_has_arrow(*c) || match a {
            Some(x) => stmt_has_arrow(*x),
            None => false,
        },
        StmtM::FnDecl(_, f) => function_has_arrow(f),
        StmtM::Var(_, _, _, init) => opt_has_arrow(init),
    }
}

pub proof fn lemma_array_has_arrow(e: ExprM)
    requires
        e is Array,
    ensures
        expr_has_arrow(e) == exists|i: int|
            0 <= i < e->Array_1.len() && expr_has_arrow(#[trigger] e->Array_1[i]),
{
    let s = e->Array_1;
    assert(decreases_to!(e => e->Array_1));
    assert forall|i: int| 0 <= i < s.len() implies decreases_to!(e => s[i]) by {
        assert(decreases_to!(s => s[i]));
    }
}

pub proof fn lemma_call_has_arrow(e: ExprM)
    requires
        e is Call,
    ensures
        expr_has_arrow(e) == (callee_has_arrow(e->Call_1) || exists|i: int|
            0 <= i < e->Call_2.len() && expr_has_arrow(#[trigger] e->Call_2[i])),
{
    let s = e->Call_2;
    assert(decreases_to!(e => e->Call_2));
    assert forall|i: int| 0 <= i < s.len() implies decreases_to!(e => s[i]) by {
        assert(decreases_to!(s => s[i]));
    }
}

pub proof fn lemma_block_has_arrow(b: BlockM)
    ensures
        block_has_arrow(b) == exists|i: int|
            0 <= i < b.stmts.len() && stmt_has_arrow(#[trigger] b.stmts[i]),
{
    let s = b.stmts;
    assert(decreases_to!(b => b.stmts));
    assert forall|i: int| 0 <= i < s.len() implies decreases_to!(b => s[i]) by {
        assert(decreases_to!(s => s[i]));
    }
}

} // verus!
