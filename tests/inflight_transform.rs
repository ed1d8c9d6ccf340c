use wingc::ast::{
    BinaryOperator, Class, Expr, ExprKind, FunctionBody, FunctionDefinition, FunctionSignature,
    Method, Name, Phase, Scope, Span, Stmt, StmtKind, Symbol, TypeAnnotation,
};
use wingc::inflight_transform::InflightTransformer;

fn span(start: u64, end: u64) -> Span {
    Span { start, end }
}

fn symbol(name: &str, at: Span) -> Symbol {
    Symbol { name: Name::Source(name.to_string()), span: at }
}

fn reference(name: &str, at: Span) -> Expr {
    Expr { kind: ExprKind::Reference(symbol(name, at)), span: at }
}

fn number(n: i64, at: Span) -> Expr {
    Expr { kind: ExprKind::Number(n), span: at }
}

fn x_plus_one(at: Span) -> Expr {
    Expr {
        kind: ExprKind::Binary {
            op: BinaryOperator::Add,
            left: Box::new(reference("x", at)),
            right: Box::new(number(1, at)),
        },
        span: at,
    }
}

fn function(phase: Phase, body: FunctionBody, at: Span) -> FunctionDefinition {
    FunctionDefinition {
        signature: FunctionSignature { parameters: vec![], return_type: None, phase },
        body,
        captures: None,
        is_static: false,
        span: at,
    }
}

fn closure(phase: Phase, body: FunctionBody, at: Span) -> Expr {
    Expr { kind: ExprKind::FunctionClosure(function(phase, body, at)), span: at }
}

fn return_stmt(e: Expr, idx: usize, at: Span) -> Stmt {
    Stmt { kind: StmtKind::Return(Some(e)), idx, span: at }
}

fn block(statements: Vec<Stmt>, at: Span) -> FunctionBody {
    FunctionBody::Statements(Scope { statements, span: at })
}

/// The runtime closure `inflight () => { return x + 1; }`.
fn runtime_closure_def(at: Span) -> FunctionDefinition {
    function(Phase::Inflight, block(vec![return_stmt(x_plus_one(at), 0, at)], at), at)
}

/// Checks that `e` is the lifted form of `runtime_closure_def(at)` with serial `id`.
fn assert_lifted(e: &Expr, id: u64, at: Span) {
    assert_eq!(e.span, at);
    let (callee, args) = match &e.kind {
        ExprKind::Call { callee, args } => (callee, args),
        other => panic!("expected a call, found {:?}", other),
    };
    assert!(args.is_empty());
    assert_eq!(callee.span, at);
    let maker = match &callee.kind {
        ExprKind::FunctionClosure(def) => def,
        other => panic!("expected a closure, found {:?}", other),
    };
    assert_eq!(maker.signature.phase, Phase::Preflight);
    assert!(maker.signature.parameters.is_empty());
    assert_eq!(maker.signature.return_type, Some(Box::new(TypeAnnotation::Resource)));
    assert_eq!(maker.captures, None);
    assert!(!maker.is_static);
    assert_eq!(maker.span, at);
    let body = match &maker.body {
        FunctionBody::Statements(sc) => sc,
        other => panic!("expected statements, found {:?}", other),
    };
    assert_eq!(body.span, at);
    assert_eq!(body.statements.len(), 2);
    let resource_type = TypeAnnotation::UserDefined(Symbol { name: Name::Generated(id), span: at });
    let expected_class = Class {
        name: Symbol { name: Name::Generated(id), span: at },
        is_resource: true,
        constructor: FunctionDefinition {
            signature: FunctionSignature {
                parameters: vec![],
                return_type: Some(Box::new(TypeAnnotation::UserDefined(Symbol {
                    name: Name::Generated(id),
                    span: at,
                }))),
                phase: Phase::Preflight,
            },
            body: block(vec![], at),
            captures: None,
            is_static: false,
            span: at,
        },
        fields: vec![],
        methods: vec![Method { name: symbol("handle", at), def: runtime_closure_def(at) }],
        parent: None,
        implements: vec![],
    };
    assert_eq!(
        body.statements[0],
        Stmt { kind: StmtKind::Class(expected_class), idx: 0, span: at }
    );
    assert_eq!(
        body.statements[1],
        return_stmt(
            Expr { kind: ExprKind::New { class: resource_type, args: vec![] }, span: at },
            1,
            at
        )
    );
}

#[test]
fn end_to_end_return_of_runtime_closure() {
    let at = span(10, 30);
    let whole = span(0, 40);
    let closure_expr = Expr {
        kind: ExprKind::FunctionClosure(runtime_closure_def(at)),
        span: at,
    };
    let f = function(Phase::Preflight, block(vec![return_stmt(closure_expr, 0, whole)], whole), whole);
    let mut t = InflightTransformer::new();
    let r = t.fold_function_definition(f);
    assert_eq!(r.signature.phase, Phase::Preflight);
    assert_eq!(r.span, whole);
    let body = match &r.body {
        FunctionBody::Statements(sc) => sc,
        other => panic!("expected statements, found {:?}", other),
    };
    assert_eq!(body.statements.len(), 1);
    assert_eq!(body.statements[0].span, whole);
    match &body.statements[0].kind {
        StmtKind::Return(Some(e)) => assert_lifted(e, 0, at),
        other => panic!("expected a return, found {:?}", other),
    }
}

#[test]
fn runtime_closure_in_preflight_code_is_lifted() {
    let at = span(3, 9);
    let mut t = InflightTransformer::new();
    let r = t.fold_expr(Expr { kind: ExprKind::FunctionClosure(runtime_closure_def(at)), span: at });
    assert_lifted(&r, 0, at);
}

#[test]
fn closures_in_runtime_code_are_unchanged() {
    let at = span(1, 2);
    let make = || {
        let inner_runtime = closure(Phase::Inflight, FunctionBody::Expression(Box::new(number(7, at))), at);
        let inner_preflight = closure(Phase::Preflight, FunctionBody::Expression(Box::new(number(8, at))), at);
        function(
            Phase::Inflight,
            block(
                vec![
                    Stmt { kind: StmtKind::Expression(inner_runtime), idx: 0, span: at },
                    return_stmt(inner_preflight, 1, at),
                ],
                at,
            ),
            at,
        )
    };
    let mut t = InflightTransformer::new();
    let r = t.fold_function_definition(make());
    assert_eq!(r, make());
}

#[test]
fn preflight_closure_is_kept_and_inner_runtime_closure_lifted() {
    let outer_at = span(0, 50);
    let inner_at = span(20, 40);
    let inner = Expr { kind: ExprKind::FunctionClosure(runtime_closure_def(inner_at)), span: inner_at };
    let outer = closure(Phase::Preflight, FunctionBody::Expression(Box::new(inner)), outer_at);
    let mut t = InflightTransformer::new();
    let r = t.fold_expr(outer);
    assert_eq!(r.span, outer_at);
    let def = match &r.kind {
        ExprKind::FunctionClosure(def) => def,
        other => panic!("expected a closure, found {:?}", other),
    };
    assert_eq!(def.signature.phase, Phase::Preflight);
    assert_eq!(def.span, outer_at);
    match &def.body {
        FunctionBody::Expression(e) => assert_lifted(e, 0, inner_at),
        other => panic!("expected an expression body, found {:?}", other),
    }
}

#[test]
fn each_lifted_closure_gets_its_own_serial() {
    let a = span(1, 5);
    let b = span(6, 9);
    let call = Expr {
        kind: ExprKind::Call {
            callee: Box::new(reference("f", span(0, 1))),
            args: vec![
                Expr { kind: ExprKind::FunctionClosure(runtime_closure_def(a)), span: a },
                Expr { kind: ExprKind::FunctionClosure(runtime_closure_def(b)), span: b },
            ],
        },
        span: span(0, 10),
    };
    let mut t = InflightTransformer::new();
    let r = t.fold_expr(call);
    let args = match &r.kind {
        ExprKind::Call { callee, args } => {
            assert_eq!(**callee, reference("f", span(0, 1)));
            args
        },
        other => panic!("expected a call, found {:?}", other),
    };
    assert_eq!(args.len(), 2);
    assert_lifted(&args[0], 0, a);
    assert_lifted(&args[1], 1, b);
    // The serial keeps counting on the next tree.
    let r = t.fold_expr(Expr { kind: ExprKind::FunctionClosure(runtime_closure_def(a)), span: a });
    assert_lifted(&r, 2, a);
}

#[test]
fn class_members_are_lifted_in_their_own_phase() {
    let at = span(2, 4);
    let ctor_body = block(
        vec![Stmt {
            kind: StmtKind::Let {
                name: symbol("h", at),
                init: Expr { kind: ExprKind::FunctionClosure(runtime_closure_def(at)), span: at },
            },
            idx: 0,
            span: at,
        }],
        at,
    );
    let method_body = || {
        block(
            vec![Stmt {
                kind: StmtKind::Expression(closure(
                    Phase::Inflight,
                    FunctionBody::Expression(Box::new(number(1, at))),
                    at,
                )),
                idx: 0,
                span: at,
            }],
            at,
        )
    };
    let class = Class {
        name: symbol("C", at),
        is_resource: true,
        constructor: function(Phase::Preflight, ctor_body, at),
        fields: vec![],
        methods: vec![Method { name: symbol("m", at), def: function(Phase::Inflight, method_body(), at) }],
        parent: None,
        implements: vec![],
    };
    let stmt = Stmt { kind: StmtKind::Class(class), idx: 3, span: at };
    let mut t = InflightTransformer::new();
    let r = t.fold_stmt(stmt);
    assert_eq!(r.idx, 3);
    let c = match &r.kind {
        StmtKind::Class(c) => c,
        other => panic!("expected a class, found {:?}", other),
    };
    assert_eq!(c.methods[0].def, function(Phase::Inflight, method_body(), at));
    let ctor_stmts = match &c.constructor.body {
        FunctionBody::Statements(sc) => &sc.statements,
        other => panic!("expected statements, found {:?}", other),
    };
    match &ctor_stmts[0].kind {
        StmtKind::Let { name, init } => {
            assert_eq!(*name, symbol("h", at));
            assert_lifted(init, 0, at);
        },
        other => panic!("expected a let, found {:?}", other),
    }
}

#[test]
fn expressions_without_closures_are_unchanged() {
    let at = span(0, 3);
    let mut t = InflightTransformer::new();
    let r = t.fold_expr(x_plus_one(at));
    assert_eq!(r, x_plus_one(at));
    let scope = || Scope {
        statements: vec![
            Stmt {
                kind: StmtKind::If {
                    condition: reference("c", at),
                    then_branch: Scope { statements: vec![return_stmt(number(1, at), 0, at)], span: at },
                    else_branch: Some(Scope {
                        statements: vec![Stmt { kind: StmtKind::Throw(number(2, at)), idx: 0, span: at }],
                        span: at,
                    }),
                },
                idx: 0,
                span: at,
            },
            Stmt {
                kind: StmtKind::While { condition: reference("c", at), body: Scope { statements: vec![], span: at } },
                idx: 1,
                span: at,
            },
        ],
        span: at,
    };
    assert_eq!(t.fold_scope(scope()), scope());
}
