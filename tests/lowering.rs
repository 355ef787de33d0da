use es2015_arrow::ast::{
    ArrayLit, ArrowExpr, AwaitExpr, BinExpr, BinaryOp, BlockStmt, BlockStmtOrExpr, CallExpr,
    CondExpr, EmptyStmt, Expr, ExprOrSuper, ExprStmt, FnDecl, FnExpr, Function, Ident, IfStmt,
    Lit, MemberExpr, ParenExpr, Pat, RestPat, ReturnStmt, Span, Stmt, ThisExpr, UnaryExpr,
    UnaryOp, VarDecl, VarDeclKind,
};
use es2015_arrow::lower::arrow;
use es2015_arrow::probe::contains_this_expr;

fn sp(lo: u32, hi: u32) -> Span {
    Span::new(lo, hi)
}

fn dummy() -> Span {
    Span::dummy()
}

fn ident(name: &str) -> Ident {
    Ident { span: dummy(), sym: name.to_string() }
}

fn id(name: &str) -> Expr {
    Expr::Ident(ident(name))
}

fn this() -> Expr {
    Expr::This(ThisExpr { span: dummy() })
}

fn num(v: u64) -> Expr {
    Expr::Lit(Lit::Num(dummy(), v))
}

fn string(s: &str) -> Expr {
    Expr::Lit(Lit::Str(dummy(), s.to_string()))
}

fn pat(name: &str) -> Pat {
    Pat::Ident(ident(name))
}

fn bin(op: BinaryOp, l: Expr, r: Expr) -> Expr {
    Expr::Bin(BinExpr { span: dummy(), op, left: Box::new(l), right: Box::new(r) })
}

fn member(obj: Expr, prop: &str) -> Expr {
    Expr::Member(MemberExpr {
        span: dummy(),
        obj: ExprOrSuper::Expr(Box::new(obj)),
        prop: Box::new(id(prop)),
        computed: false,
    })
}

fn call(callee: Expr, args: Vec<Expr>) -> Expr {
    Expr::Call(CallExpr { span: dummy(), callee: ExprOrSuper::Expr(Box::new(callee)), args })
}

fn ret(e: Expr) -> Stmt {
    Stmt::Return(ReturnStmt { span: dummy(), arg: Some(Box::new(e)) })
}

fn block(stmts: Vec<Stmt>) -> BlockStmt {
    BlockStmt { span: dummy(), stmts }
}

fn arrow_expr(span: Span, params: Vec<Pat>, body: Expr, is_async: bool) -> Expr {
    Expr::Arrow(ArrowExpr {
        span,
        params,
        body: BlockStmtOrExpr::Expr(Box::new(body)),
        is_async,
        is_generator: false,
    })
}

fn arrow_block(span: Span, params: Vec<Pat>, stmts: Vec<Stmt>) -> Expr {
    Expr::Arrow(ArrowExpr {
        span,
        params,
        body: BlockStmtOrExpr::BlockStmt(block(stmts)),
        is_async: false,
        is_generator: false,
    })
}

/// The function expression that lowering makes: span, parameters, body and flags.
fn function(span: Span, params: Vec<Pat>, body: BlockStmt, is_async: bool, is_generator: bool) -> Expr {
    Expr::Fn(FnExpr {
        ident: None,
        function: Function { span, params, body, is_async, is_generator },
    })
}

/// `f.bind(this)` as lowering writes it.
fn bound(span: Span, f: Expr) -> Expr {
    Expr::Call(CallExpr {
        span,
        callee: ExprOrSuper::Expr(Box::new(Expr::Member(MemberExpr {
            span,
            obj: ExprOrSuper::Expr(Box::new(f)),
            prop: Box::new(Expr::Ident(Ident { span: dummy(), sym: "bind".to_string() })),
            computed: false,
        }))),
        args: vec![this()],
    })
}

fn lower(e: Expr) -> Expr {
    let mut pass = arrow();
    pass.fold(e)
}

fn has_arrow(e: &Expr) -> bool {
    match e {
        Expr::This(_) | Expr::Ident(_) | Expr::Lit(_) => false,
        Expr::Array(a) => a.elems.iter().any(has_arrow),
        Expr::Fn(f) => block_has_arrow(&f.function.body),
        Expr::Unary(u) => has_arrow(&u.arg),
        Expr::Bin(b) => has_arrow(&b.left) || has_arrow(&b.right),
        Expr::Member(m) => callee_has_arrow(&m.obj) || has_arrow(&m.prop),
        Expr::Cond(c) => has_arrow(&c.test) || has_arrow(&c.cons) || has_arrow(&c.alt),
        Expr::Call(c) => callee_has_arrow(&c.callee) || c.args.iter().any(has_arrow),
        Expr::Arrow(_) => true,
        Expr::Await(a) => has_arrow(&a.arg),
        Expr::Paren(p) => has_arrow(&p.expr),
    }
}

fn callee_has_arrow(c: &ExprOrSuper) -> bool {
    match c {
        ExprOrSuper::Super(_) => false,
        ExprOrSuper::Expr(e) => has_arrow(e),
    }
}

fn block_has_arrow(b: &BlockStmt) -> bool {
    b.stmts.iter().any(stmt_has_arrow)
}

fn stmt_has_arrow(s: &Stmt) -> bool {
    match s {
        Stmt::Block(b) => block_has_arrow(b),
        Stmt::Empty(_) => false,
        Stmt::Expr(x) => has_arrow(&x.expr),
        Stmt::Return(r) => r.arg.as_ref().map_or(false, |a| has_arrow(a)),
        Stmt::If(i) => {
            has_arrow(&i.test)
                || stmt_has_arrow(&i.cons)
                || i.alt.as_ref().map_or(false, |a| stmt_has_arrow(a))
        },
        Stmt::FnDecl(d) => block_has_arrow(&d.function.body),
        Stmt::Var(v) => v.init.as_ref().map_or(false, |a| has_arrow(a)),
    }
}

// `() => {}` becomes `function () {}`.
#[test]
fn empty_arrow_becomes_plain_function() {
    let out = lower(arrow_block(sp(3, 11), vec![], vec![]));
    assert_eq!(out, function(sp(3, 11), vec![], block(vec![]), false, false));
}

// `(b) => b` becomes `function (b) { return b; }`.
#[test]
fn identity_arrow_returns_its_parameter() {
    let out = lower(arrow_expr(sp(0, 8), vec![pat("b")], id("b"), false));
    let expected = function(
        sp(0, 8),
        vec![pat("b")],
        block(vec![ret(id("b"))]),
        false,
        false,
    );
    assert_eq!(out, expected);
}

// `(num) => num * 2` becomes `function (num) { return num * 2; }`.
#[test]
fn expression_body_is_wrapped_in_return() {
    let input = arrow_expr(sp(5, 21), vec![pat("num")], bin(BinaryOp::Mul, id("num"), num(2)), false);
    let expected = function(
        sp(5, 21),
        vec![pat("num")],
        block(vec![ret(bin(BinaryOp::Mul, id("num"), num(2)))]),
        false,
        false,
    );
    assert_eq!(lower(input), expected);
}

fn knows_body() -> Expr {
    call(
        member(id("console"), "log"),
        vec![bin(
            BinaryOp::Add,
            bin(BinaryOp::Add, member(this(), "_name"), string(" knows ")),
            id("f"),
        )],
    )
}

// `f => console.log(this._name + " knows " + f)` is bound to the outer `this`.
#[test]
fn arrow_using_this_is_bound() {
    let out = lower(arrow_expr(sp(10, 50), vec![pat("f")], knows_body(), false));
    let f = function(sp(10, 50), vec![pat("f")], block(vec![ret(knows_body())]), false, false);
    assert_eq!(out, bound(sp(10, 50), f));
}

fn inner_function() -> Expr {
    function(dummy(), vec![], block(vec![ret(this())]), false, false)
}

// `() => function () { return this; }` is not bound: the inner function has its own `this`.
#[test]
fn this_inside_nested_function_does_not_bind() {
    let out = lower(arrow_expr(sp(1, 40), vec![], inner_function(), false));
    let expected = function(sp(1, 40), vec![], block(vec![ret(inner_function())]), false, false);
    assert_eq!(out, expected);
}

fn await_body() -> Expr {
    Expr::Await(AwaitExpr { span: dummy(), arg: Box::new(call(id("f"), vec![this()])) })
}

// `async () => await f(this)` becomes `(async function () { return await f(this); }).bind(this)`.
#[test]
fn async_arrow_keeps_async_and_binds() {
    let out = lower(arrow_expr(sp(2, 30), vec![], await_body(), true));
    let f = function(sp(2, 30), vec![], block(vec![ret(await_body())]), true, false);
    assert_eq!(out, bound(sp(2, 30), f));
}

#[test]
fn generator_flag_is_kept() {
    let input = Expr::Arrow(ArrowExpr {
        span: sp(4, 9),
        params: vec![Pat::Rest(RestPat { span: dummy(), arg: ident("xs") })],
        body: BlockStmtOrExpr::BlockStmt(block(vec![])),
        is_async: true,
        is_generator: true,
    });
    let expected = function(
        sp(4, 9),
        vec![Pat::Rest(RestPat { span: dummy(), arg: ident("xs") })],
        block(vec![]),
        true,
        true,
    );
    assert_eq!(lower(input), expected);
}

#[test]
fn bare_this_body_is_bound() {
    let out = lower(arrow_expr(sp(0, 10), vec![], this(), false));
    let f = function(sp(0, 10), vec![], block(vec![ret(this())]), false, false);
    assert_eq!(out, bound(sp(0, 10), f));
}

#[test]
fn block_body_with_this_is_bound_and_kept_verbatim() {
    let stmts = || {
        vec![
            Stmt::Expr(ExprStmt { span: sp(7, 9), expr: Box::new(call(id("g"), vec![])) }),
            Stmt::If(IfStmt {
                span: dummy(),
                test: Box::new(id("x")),
                cons: Box::new(ret(this())),
                alt: Some(Box::new(Stmt::Empty(EmptyStmt { span: dummy() }))),
            }),
        ]
    };
    let out = lower(arrow_block(sp(6, 60), vec![pat("x")], stmts()));
    let f = function(sp(6, 60), vec![pat("x")], block(stmts()), false, false);
    assert_eq!(out, bound(sp(6, 60), f));
}

#[test]
fn block_body_without_this_is_not_bound() {
    let stmts = || vec![ret(num(1))];
    let out = lower(arrow_block(sp(6, 20), vec![], stmts()));
    assert_eq!(out, function(sp(6, 20), vec![], block(stmts()), false, false));
}

#[test]
fn this_in_function_declaration_does_not_bind() {
    let decl = || {
        Stmt::FnDecl(FnDecl {
            ident: ident("g"),
            function: Function {
                span: dummy(),
                params: vec![],
                body: block(vec![ret(this())]),
                is_async: false,
                is_generator: false,
            },
        })
    };
    let out = lower(arrow_block(sp(0, 30), vec![], vec![decl()]));
    assert_eq!(out, function(sp(0, 30), vec![], block(vec![decl()]), false, false));
}

// `() => () => this`: the inner arrow is bound, and the `this` of that binding
// makes the outer arrow bound too.
#[test]
fn nested_arrows_are_lowered_inside_out() {
    let inner = arrow_expr(sp(6, 16), vec![], this(), false);
    let out = lower(arrow_expr(sp(0, 16), vec![], inner, false));
    let inner_fn = bound(
        sp(6, 16),
        function(sp(6, 16), vec![], block(vec![ret(this())]), false, false),
    );
    let expected = bound(
        sp(0, 16),
        function(sp(0, 16), vec![], block(vec![ret(inner_fn)]), false, false),
    );
    assert_eq!(out, expected);
}

// `[1,2,3].map((num) => num * 2)`: the arrow is lowered where it stands.
#[test]
fn arrow_in_call_argument_is_replaced_in_place() {
    let input = || {
        call(
            member(
                Expr::Array(ArrayLit { span: dummy(), elems: vec![num(1), num(2), num(3)] }),
                "map",
            ),
            vec![arrow_expr(sp(20, 36), vec![pat("num")], bin(BinaryOp::Mul, id("num"), num(2)), false)],
        )
    };
    let expected = call(
        member(
            Expr::Array(ArrayLit { span: dummy(), elems: vec![num(1), num(2), num(3)] }),
            "map",
        ),
        vec![function(
            sp(20, 36),
            vec![pat("num")],
            block(vec![ret(bin(BinaryOp::Mul, id("num"), num(2)))]),
            false,
            false,
        )],
    );
    assert_eq!(lower(input()), expected);
}

fn mixed_tree() -> Expr {
    Expr::Cond(CondExpr {
        span: sp(0, 99),
        test: Box::new(Expr::Unary(UnaryExpr {
            span: dummy(),
            op: UnaryOp::Bang,
            arg: Box::new(arrow_expr(sp(1, 5), vec![], this(), false)),
        })),
        cons: Box::new(Expr::Paren(ParenExpr {
            span: dummy(),
            expr: Box::new(Expr::Array(ArrayLit {
                span: dummy(),
                elems: vec![
                    arrow_block(sp(8, 12), vec![pat("a")], vec![ret(arrow_expr(sp(9, 11), vec![], id("a"), false))]),
                    num(7),
                ],
            })),
        })),
        alt: Box::new(call(
            Expr::Fn(FnExpr {
                ident: Some(ident("h")),
                function: Function {
                    span: dummy(),
                    params: vec![],
                    body: block(vec![ret(arrow_expr(sp(30, 40), vec![], this(), true))]),
                    is_async: false,
                    is_generator: false,
                },
            }),
            vec![],
        )),
    })
}

#[test]
fn no_arrow_is_left_anywhere() {
    let input = mixed_tree();
    assert!(has_arrow(&input));
    assert!(!has_arrow(&lower(input)));
}

#[test]
fn lowering_twice_is_lowering_once() {
    let once = lower(mixed_tree());
    let twice = lower(lower(mixed_tree()));
    assert_eq!(once, twice);
}

fn arrow_free_tree() -> Expr {
    Expr::Cond(CondExpr {
        span: sp(0, 50),
        test: Box::new(this()),
        cons: Box::new(call(member(id("a"), "b"), vec![string("x"), inner_function()])),
        alt: Box::new(Expr::Member(MemberExpr {
            span: sp(3, 4),
            obj: ExprOrSuper::Super(sp(3, 4)),
            prop: Box::new(num(0)),
            computed: true,
        })),
    })
}

#[test]
fn tree_without_arrows_is_unchanged() {
    assert_eq!(lower(arrow_free_tree()), arrow_free_tree());
}

#[test]
fn statements_are_lowered() {
    let mut pass = arrow();
    let stmts = vec![
        Stmt::Var(VarDecl {
            span: sp(0, 20),
            kind: VarDeclKind::Var,
            name: pat("a"),
            init: Some(Box::new(arrow_block(sp(8, 16), vec![], vec![]))),
        }),
        Stmt::Expr(ExprStmt { span: sp(21, 30), expr: Box::new(id("a")) }),
    ];
    let out = pass.fold_stmts(stmts);
    let expected = vec![
        Stmt::Var(VarDecl {
            span: sp(0, 20),
            kind: VarDeclKind::Var,
            name: pat("a"),
            init: Some(Box::new(function(sp(8, 16), vec![], block(vec![]), false, false))),
        }),
        Stmt::Expr(ExprStmt { span: sp(21, 30), expr: Box::new(id("a")) }),
    ];
    assert_eq!(out, expected);
}

#[test]
fn probe_finds_this_outside_functions_only() {
    assert!(contains_this_expr(&BlockStmtOrExpr::Expr(Box::new(this()))));
    assert!(contains_this_expr(&BlockStmtOrExpr::Expr(Box::new(knows_body()))));
    assert!(!contains_this_expr(&BlockStmtOrExpr::Expr(Box::new(inner_function()))));
    assert!(!contains_this_expr(&BlockStmtOrExpr::BlockStmt(block(vec![]))));
    // An arrow does not bind `this`, so one inside the body counts.
    let nested = arrow_expr(dummy(), vec![], this(), false);
    assert!(contains_this_expr(&BlockStmtOrExpr::Expr(Box::new(nested))));
    // `super` is not `this`.
    let sup = Expr::Member(MemberExpr {
        span: dummy(),
        obj: ExprOrSuper::Super(dummy()),
        prop: Box::new(id("x")),
        computed: false,
    });
    assert!(!contains_this_expr(&BlockStmtOrExpr::Expr(Box::new(sup))));
}
