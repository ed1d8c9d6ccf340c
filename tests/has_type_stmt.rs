use wingc::ast::{
    Class, Expr, ExprKind, FunctionBody, FunctionDefinition, FunctionSignature, Method, Name,
    Phase, Scope, Span, Stmt, StmtKind, Symbol,
};
use wingc::has_type_stmt::HasStatementVisitor;

const AT: Span = Span { start: 0, end: 1 };

fn symbol(name: &str) -> Symbol {
    Symbol { name: Name::Source(name.to_string()), span: AT }
}

fn reference(name: &str) -> Expr {
    Expr { kind: ExprKind::Reference(symbol(name)), span: AT }
}

fn stmt(kind: StmtKind) -> Stmt {
    Stmt { kind, idx: 0, span: AT }
}

fn scope(statements: Vec<Stmt>) -> Scope {
    Scope { statements, span: AT }
}

fn function(statements: Vec<Stmt>) -> FunctionDefinition {
    FunctionDefinition {
        signature: FunctionSignature { parameters: vec![], return_type: None, phase: Phase::Preflight },
        body: FunctionBody::Statements(scope(statements)),
        captures: None,
        is_static: false,
        span: AT,
    }
}

fn one() -> Expr {
    Expr { kind: ExprKind::Number(1), span: AT }
}

fn scan(statements: &Vec<Stmt>) -> (bool, bool) {
    let mut v = HasStatementVisitor::new();
    v.visit(statements);
    (v.seen_return, v.seen_throw)
}

#[test]
fn fresh_scanner_has_seen_nothing() {
    let v = HasStatementVisitor::new();
    assert!(!v.seen_return);
    assert!(!v.seen_throw);
    assert_eq!(scan(&vec![]), (false, false));
}

#[test]
fn return_in_nested_function_is_not_seen() {
    let f = Expr {
        kind: ExprKind::FunctionClosure(function(vec![stmt(StmtKind::Return(Some(one())))])),
        span: AT,
    };
    let body = vec![stmt(StmtKind::Let { name: symbol("f"), init: f })];
    assert_eq!(scan(&body), (false, false));
}

#[test]
fn return_and_throw_in_branches_are_seen() {
    let body = vec![stmt(StmtKind::If {
        condition: reference("c"),
        then_branch: scope(vec![stmt(StmtKind::Return(Some(reference("x"))))]),
        else_branch: Some(scope(vec![stmt(StmtKind::Throw(reference("y")))])),
    })];
    assert_eq!(scan(&body), (true, true));
}

#[test]
fn flags_accumulate_across_scans() {
    let returns = vec![stmt(StmtKind::Return(None))];
    let throws = vec![stmt(StmtKind::Throw(reference("e")))];
    let neither = vec![stmt(StmtKind::Expression(one()))];
    let mut v = HasStatementVisitor::new();
    v.visit(&returns);
    assert_eq!((v.seen_return, v.seen_throw), (true, false));
    v.visit(&neither);
    assert_eq!((v.seen_return, v.seen_throw), (true, false));
    v.visit(&throws);
    assert_eq!((v.seen_return, v.seen_throw), (true, true));
    let mut w = HasStatementVisitor::new();
    w.visit(&neither);
    w.visit(&throws);
    assert_eq!((w.seen_return, w.seen_throw), (false, true));
}

#[test]
fn statements_in_loops_and_blocks_are_seen() {
    let body = vec![
        stmt(StmtKind::Expression(one())),
        stmt(StmtKind::While {
            condition: reference("c"),
            body: scope(vec![stmt(StmtKind::Block(scope(vec![stmt(StmtKind::Return(None))])))]),
        }),
    ];
    assert_eq!(scan(&body), (true, false));
    let body = vec![stmt(StmtKind::Block(scope(vec![stmt(StmtKind::Throw(one()))])))];
    assert_eq!(scan(&body), (false, true));
}

#[test]
fn class_members_are_not_looked_into() {
    let class = Class {
        name: symbol("C"),
        is_resource: false,
        constructor: function(vec![stmt(StmtKind::Throw(one()))]),
        fields: vec![],
        methods: vec![Method { name: symbol("m"), def: function(vec![stmt(StmtKind::Return(None))]) }],
        parent: None,
        implements: vec![],
    };
    assert_eq!(scan(&vec![stmt(StmtKind::Class(class))]), (false, false));
}

#[test]
fn visit_stmt_scans_one_statement() {
    let mut v = HasStatementVisitor::new();
    v.visit_stmt(&stmt(StmtKind::If {
        condition: reference("c"),
        then_branch: scope(vec![]),
        else_branch: Some(scope(vec![stmt(StmtKind::Return(None))])),
    }));
    assert!(v.seen_return);
    assert!(!v.seen_throw);
}
