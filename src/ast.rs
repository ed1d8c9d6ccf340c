//! The syntax tree shared by the phase-lifting transform and the statement scanner.
use vstd::prelude::*;

verus! {

/// The execution phase that a piece of code belongs to.
#[derive(Clone, Copy, Debug, PartialEq, Eq, Structural)]
pub enum Phase {
    /// Deploy-time code, which sets up infrastructure.
    Preflight,
    /// Code that runs after the infrastructure is deployed.
    Inflight,
}

/// A range of source text.
#[derive(Clone, Copy, Debug, PartialEq, Eq, Structural)]
pub struct Span {
    pub start: u64,
    pub end: u64,
}

/// An identifier: either written in the source, or made up by a compiler pass.
/// A made-up name carries a serial number and never clashes with a written one.
#[derive(Debug, PartialEq, Eq)]
pub enum Name {
    Source(String),
    Generated(u64),
}

#[derive(Debug, PartialEq, Eq)]
pub struct Symbol {
    pub name: Name,
    pub span: Span,
}

#[derive(Debug, PartialEq, Eq)]
pub enum TypeAnnotation {
    Number,
    String,
    Bool,
    /// The opaque type of any resource.
    Resource,
    /// A reference to a user-defined class.
    UserDefined(Symbol),
}

#[derive(Clone, Copy, Debug, PartialEq, Eq, Structural)]
pub enum BinaryOperator {
    Add,
    Sub,
    Mul,
    Less,
    Equal,
}

#[derive(Debug, PartialEq, Eq)]
pub enum ExprKind {
    Number(i64),
    Reference(Symbol),
    Binary { op: BinaryOperator, left: Box<Expr>, right: Box<Expr> },
    Call { callee: Box<Expr>, args: Vec<Expr> },
    New { class: TypeAnnotation, args: Vec<Expr> },
    FunctionClosure(FunctionDefinition),
}

#[derive(Debug, PartialEq, Eq)]
pub struct Expr {
    pub kind: ExprKind,
    pub span: Span,
}

#[derive(Debug, PartialEq, Eq)]
pub struct Parameter {
    pub name: Symbol,
    pub type_annotation: TypeAnnotation,
}

#[derive(Debug, PartialEq, Eq)]
pub struct FunctionSignature {
    pub parameters: Vec<Parameter>,
    pub return_type: Option<Box<TypeAnnotation>>,
    pub phase: Phase,
}

#[derive(Debug, PartialEq, Eq)]
pub enum FunctionBody {
    Statements(Scope),
    Expression(Box<Expr>),
}

#[derive(Debug, PartialEq, Eq)]
pub struct FunctionDefinition {
    pub signature: FunctionSignature,
    pub body: FunctionBody,
    /// The variables that the function captures; `None` until resolved by a later pass.
    pub captures: Option<Vec<Symbol>>,
    pub is_static: bool,
    pub span: Span,
}

#[derive(Debug, PartialEq, Eq)]
pub struct ClassField {
    pub name: Symbol,
    pub member_type: TypeAnnotation,
}

#[derive(Debug, PartialEq, Eq)]
pub struct Method {
    pub name: Symbol,
    pub def: FunctionDefinition,
}

#[derive(Debug, PartialEq, Eq)]
pub struct Class {
    pub name: Symbol,
    pub is_resource: bool,
    pub constructor: FunctionDefinition,
    pub fields: Vec<ClassField>,
    pub methods: Vec<Method>,
    pub parent: Option<Symbol>,
    pub implements: Vec<Symbol>,
}

#[derive(Debug, PartialEq, Eq)]
pub enum StmtKind {
    Expression(Expr),
    Let { name: Symbol, init: Expr },
    Return(Option<Expr>),
    Throw(Expr),
    If { condition: Expr, then_branch: Scope, else_branch: Option<Scope> },
    While { condition: Expr, body: Scope },
    Block(Scope),
    Class(Class),
}

#[derive(Debug, PartialEq, Eq)]
pub struct Stmt {
    pub kind: StmtKind,
    /// The statement's position in its scope.
    pub idx: usize,
    pub span: Span,
}

/// A sequence of statements, run in order.
#[derive(Debug, PartialEq, Eq)]
pub struct Scope {
    pub statements: Vec<Stmt>,
    pub span: Span,
}

} // verus!
