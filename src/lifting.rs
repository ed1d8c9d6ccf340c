//! What lifting a tree means: how many closures a traversal lifts, and how the
//! rewritten tree relates to the tree it was made from.
use vstd::prelude::*;
use crate::ast::{
    Class, Expr, ExprKind, FunctionBody, FunctionDefinition, Method, Name, Phase, Scope, Span,
    Stmt, StmtKind, Symbol, TypeAnnotation,
};

verus! {

// ---------------------------------------------------------------------------
// How many closures a traversal lifts. `ctx` is the phase of the code around.
// ---------------------------------------------------------------------------

pub open spec fn count_expr(e: Expr, ctx: Phase) -> nat
    decreases e,
{
    if ctx == Phase::Inflight {
        0
    } else {
        match e.kind {
            ExprKind::FunctionClosure(def) => if def.signature.phase == Phase::Inflight {
                1
            } else {
                count_def(def)
            },
            ExprKind::Binary { left, right, .. } => count_expr(*left, ctx) + count_expr(
                *right,
                ctx,
            ),
            ExprKind::Call { callee, args } => count_expr(*callee, ctx) + count_exprs(args@, ctx),
            ExprKind::New { args, .. } => count_exprs(args@, ctx),
            _ => 0,
        }
    }
}

pub open spec fn count_exprs(s: Seq<Expr>, ctx: Phase) -> nat
    decreases s,
{
    if s.len() == 0 {
        0
    } else {
        count_exprs(s.drop_last(), ctx) + count_expr(s.last(), ctx)
    }
}

pub open spec fn count_def(d: FunctionDefinition) -> nat
    decreases d,
{
    count_body(d.body, d.signature.phase)
}

pub open spec fn count_body(b: FunctionBody, ctx: Phase) -> nat
    decreases b,
{
    match b {
        FunctionBody::Statements(sc) => count_scope(sc, ctx),
        FunctionBody::Expression(e) => count_expr(*e, ctx),
    }
}

pub open spec fn count_scope(sc: Scope, ctx: Phase) -> nat
    decreases sc,
{
    count_stmts(sc.statements@, ctx)
}

pub open spec fn count_stmts(s: Seq<Stmt>, ctx: Phase) -> nat
    decreases s,
{
    if s.len() == 0 {
        0
    } else {
        count_stmts(s.drop_last(), ctx) + count_stmt(s.last(), ctx)
    }
}

pub open spec fn count_stmt(st: Stmt, ctx: Phase) -> nat
    decreases st,
{
    match st.kind {
        StmtKind::Expression(e) => count_expr(e, ctx),
        StmtKind::Let { init, .. } => count_expr(init, ctx),
        StmtKind::Return(value) => match value {
            Some(e) => count_expr(e, ctx),
            None => 0,
        },
        StmtKind::Throw(e) => count_expr(e, ctx),
        StmtKind::If { condition, then_branch, else_branch } => count_expr(condition, ctx)
            + count_scope(then_branch, ctx) + match else_branch {
            Some(sc) => count_scope(sc, ctx),
            None => 0,
        },
        StmtKind::While { condition, body } => count_expr(condition, ctx) + count_scope(body, ctx),
        StmtKind::Block(sc) => count_scope(sc, ctx),
        StmtKind::Class(c) => count_class(c),
    }
}

pub open spec fn count_class(c: Class) -> nat
    decreases c,
{
    count_def(c.constructor) + count_methods(c.methods@)
}

pub open spec fn count_methods(s: Seq<Method>) -> nat
    decreases s,
{
    if s.len() == 0 {
        0
    } else {
        count_methods(s.drop_last()) + count_def(s.last().def)
    }
}


// ---------------------------------------------------------------------------
// The shape that lifting gives a runtime closure.
// ---------------------------------------------------------------------------

/// `sym` is the generated name with serial number `id`, placed at `span`.
pub open spec fn is_resource_symbol(sym: Symbol, id: nat, span: Span) -> bool {
    &&& sym.name matches Name::Generated(n)
    &&& n == id
    &&& sym.span == span
}

/// `t` names the resource class with serial number `id`.
pub open spec fn is_resource_type(t: TypeAnnotation, id: nat, span: Span) -> bool {
    t matches TypeAnnotation::UserDefined(sym) && is_resource_symbol(sym, id, span)
}

/// `ctor` takes no parameters, returns the class, and does nothing more.
pub open spec fn is_resource_constructor(
    ctor: FunctionDefinition,
    id: nat,
    span: Span,
) -> bool {
    &&& ctor.signature.parameters@.len() == 0
    &&& ctor.signature.return_type matches Some(t) && is_resource_type(*t, id, span)
    &&& ctor.signature.phase == Phase::Preflight
    &&& ctor.body matches FunctionBody::Statements(b) && b.statements@.len() == 0 && b.span == span
    &&& ctor.captures is None
    &&& !ctor.is_static
    &&& ctor.span == span
}

/// `st` declares the resource class with serial number `id`, whose one method,
/// `handle`, is `def`.
pub open spec fn is_resource_declaration(
    st: Stmt,
    def: FunctionDefinition,
    id: nat,
    span: Span,
) -> bool {
    &&& st.idx == 0
    &&& st.span == span
    &&& st.kind matches StmtKind::Class(c)
    &&& is_resource_symbol(c.name, id, span)
    &&& c.is_resource
    &&& is_resource_constructor(c.constructor, id, span)
    &&& c.fields@.len() == 0
    &&& c.parent is None
    &&& c.implements@.len() == 0
    &&& c.methods@.len() == 1
    &&& c.methods@[0].name.name matches Name::Source(h) && h@ == "handle"@
    &&& c.methods@[0].name.span == span
    &&& c.methods@[0].def == def
}

/// `st` is `return new R()`, where `R` is the resource class with serial number `id`.
pub open spec fn is_resource_return(st: Stmt, id: nat, span: Span) -> bool {
    &&& st.idx == 1
    &&& st.span == span
    &&& st.kind matches StmtKind::Return(Some(e))
    &&& e.span == span
    &&& e.kind matches ExprKind::New { class, args }
    &&& is_resource_type(class, id, span)
    &&& args@.len() == 0
}

/// `e` is the expression that stands for the runtime closure `def` once lifted:
/// `(() : resource => { class R { init() {} handle = def } return new R(); })()`,
/// where `R` is the class with serial number `id`, and every node is placed at `span`.
pub open spec fn is_lifted_closure(
    e: Expr,
    def: FunctionDefinition,
    id: nat,
    span: Span,
) -> bool {
    &&& e.span == span
    &&& e.kind matches ExprKind::Call { callee, args }
    &&& args@.len() == 0
    &&& callee.span == span
    &&& callee.kind matches ExprKind::FunctionClosure(maker)
    &&& maker.signature.parameters@.len() == 0
    &&& maker.signature.return_type matches Some(t) && *t is Resource
    &&& maker.signature.phase == Phase::Preflight
    &&& maker.captures is None
    &&& !maker.is_static
    &&& maker.span == span
    &&& maker.body matches FunctionBody::Statements(body)
    &&& body.span == span
    &&& body.statements@.len() == 2
    &&& is_resource_declaration(body.statements@[0], def, id, span)
    &&& is_resource_return(body.statements@[1], id, span)
}

// ---------------------------------------------------------------------------
// `d` is what lifting turns `s` into, when the code around runs in phase `ctx`
// and the first class made is given serial number `id`.
// ---------------------------------------------------------------------------

pub open spec fn lifted_expr(s: Expr, d: Expr, ctx: Phase, id: nat) -> bool
    decreases s,
{
    if ctx == Phase::Inflight {
        d == s
    } else {
        match s.kind {
            ExprKind::FunctionClosure(def) => if def.signature.phase == Phase::Inflight {
                is_lifted_closure(d, def, id, s.span)
            } else {
                d.span == s.span && (d.kind matches ExprKind::FunctionClosure(d_def) && lifted_def(
                    def,
                    d_def,
                    id,
                ))
            },
            ExprKind::Binary { op, left, right } => {
                &&& d.span == s.span
                &&& d.kind matches ExprKind::Binary { op: d_op, left: d_left, right: d_right }
                &&& d_op == op
                &&& lifted_expr(*left, *d_left, ctx, id)
                &&& lifted_expr(*right, *d_right, ctx, id + count_expr(*left, ctx))
            },
            ExprKind::Call { callee, args } => {
                &&& d.span == s.span
                &&& d.kind matches ExprKind::Call { callee: d_callee, args: d_args }
                &&& lifted_expr(*callee, *d_callee, ctx, id)
                &&& lifted_exprs(args@, d_args@, ctx, id + count_expr(*callee, ctx))
            },
            ExprKind::New { class, args } => {
                &&& d.span == s.span
                &&& d.kind matches ExprKind::New { class: d_class, args: d_args }
                &&& d_class == class
                &&& lifted_exprs(args@, d_args@, ctx, id)
            },
            _ => d == s,
        }
    }
}

pub open spec fn lifted_exprs(s: Seq<Expr>, d: Seq<Expr>, ctx: Phase, id: nat) -> bool
    decreases s,
{
    &&& d.len() == s.len()
    &&& s.len() > 0 ==> {
        &&& lifted_exprs(s.drop_last(), d.drop_last(), ctx, id)
        &&& lifted_expr(s.last(), d.last(), ctx, id + count_exprs(s.drop_last(), ctx))
    }
}

/// A function definition keeps everything but its body, whose code runs in the
/// definition's own phase.
pub open spec fn lifted_def(s: FunctionDefinition, d: FunctionDefinition, id: nat) -> bool
    decreases s,
{
    &&& d.signature == s.signature
    &&& d.captures == s.captures
    &&& d.is_static == s.is_static
    &&& d.span == s.span
    &&& lifted_body(s.body, d.body, s.signature.phase, id)
}

pub open spec fn lifted_body(s: FunctionBody, d: FunctionBody, ctx: Phase, id: nat) -> bool
    decreases s,
{
    match s {
        FunctionBody::Statements(sc) => d matches FunctionBody::Statements(d_sc) && lifted_scope(
            sc,
            d_sc,
            ctx,
            id,
        ),
        FunctionBody::Expression(e) => d matches FunctionBody::Expression(d_e) && lifted_expr(
            *e,
            *d_e,
            ctx,
            id,
        ),
    }
}

pub open spec fn lifted_scope(s: Scope, d: Scope, ctx: Phase, id: nat) -> bool
    decreases s,
{
    d.span == s.span && lifted_stmts(s.statements@, d.statements@, ctx, id)
}

pub open spec fn lifted_stmts(s: Seq<Stmt>, d: Seq<Stmt>, ctx: Phase, id: nat) -> bool
    decreases s,
{
    &&& d.len() == s.len()
    &&& s.len() > 0 ==> {
        &&& lifted_stmts(s.drop_last(), d.drop_last(), ctx, id)
        &&& lifted_stmt(s.last(), d.last(), ctx, id + count_stmts(s.drop_last(), ctx))
    }
}

pub open spec fn lifted_stmt(s: Stmt, d: Stmt, ctx: Phase, id: nat) -> bool
    decreases s,
{
    &&& d.idx == s.idx
    &&& d.span == s.span
    &&& match s.kind {
        StmtKind::Expression(e) => d.kind matches StmtKind::Expression(d_e) && lifted_expr(
            e,
            d_e,
            ctx,
            id,
        ),
        StmtKind::Let { name, init } => {
            &&& d.kind matches StmtKind::Let { name: d_name, init: d_init }
            &&& d_name == name
            &&& lifted_expr(init, d_init, ctx, id)
        },
        StmtKind::Return(value) => match value {
            Some(e) => d.kind matches StmtKind::Return(Some(d_e)) && lifted_expr(e, d_e, ctx, id),
            None => d.kind matches StmtKind::Return(None),
        },
        StmtKind::Throw(e) => d.kind matches StmtKind::Throw(d_e) && lifted_expr(e, d_e, ctx, id),
        StmtKind::If { condition, then_branch, else_branch } => {
            &&& d.kind matches StmtKind::If {
                condition: d_condition,
                then_branch: d_then,
                else_branch: d_else,
            }
            &&& lifted_expr(condition, d_condition, ctx, id)
            &&& lifted_scope(then_branch, d_then, ctx, id + count_expr(condition, ctx))
            &&& match else_branch {
                Some(sc) => d_else matches Some(d_sc) && lifted_scope(
                    sc,
                    d_sc,
                    ctx,
                    id + count_expr(condition, ctx) + count_scope(then_branch, ctx),
                ),
                None => d_else is None,
            }
        },
        StmtKind::While { condition, body } => {
            &&& d.kind matches StmtKind::While { condition: d_condition, body: d_body }
            &&& lifted_expr(condition, d_condition, ctx, id)
            &&& lifted_scope(body, d_body, ctx, id + count_expr(condition, ctx))
        },
        StmtKind::Block(sc) => d.kind matches StmtKind::Block(d_sc) && lifted_scope(
            sc,
            d_sc,
            ctx,
            id,
        ),
        StmtKind::Class(c) => d.kind matches StmtKind::Class(d_c) && lifted_class(c, d_c, id),
    }
}

/// A class keeps its name, fields and ancestry; its constructor and methods are
/// lifted, in that order.
pub open spec fn lifted_class(s: Class, d: Class, id: nat) -> bool
    decreases s,
{
    &&& d.name == s.name
    &&& d.is_resource == s.is_resource
    &&& d.fields == s.fields
    &&& d.parent == s.parent
    &&& d.implements == s.implements
    &&& lifted_def(s.constructor, d.constructor, id)
    &&& lifted_methods(s.methods@, d.methods@, id + count_def(s.constructor))
}

pub open spec fn lifted_methods(s: Seq<Method>, d: Seq<Method>, id: nat) -> bool
    decreases s,
{
    &&& d.len() == s.len()
    &&& s.len() > 0 ==> {
        &&& lifted_methods(s.drop_last(), d.drop_last(), id)
        &&& d.last().name == s.last().name
        &&& lifted_def(s.last().def, d.last().def, id + count_methods(s.drop_last()))
    }
}


// ---------------------------------------------------------------------------
// Laws of lifting.
// ---------------------------------------------------------------------------

/// A runtime closure in deploy-time code does not survive as a closure: it
/// becomes a call, without arguments, of a deploy-time closure that returns the
/// resource type.
pub proof fn lemma_lift_applies(s: Expr, d: Expr, id: nat)
    requires
        s.kind matches ExprKind::FunctionClosure(def) && def.signature.phase == Phase::Inflight,
        lifted_expr(s, d, Phase::Preflight, id),
    ensures
        d.kind matches ExprKind::Call { callee, args } && args@.len() == 0 && (
        callee.kind matches ExprKind::FunctionClosure(maker) && maker.signature.phase
            == Phase::Preflight && maker.signature.parameters@.len() == 0 && (
        maker.signature.return_type matches Some(t) && *t is Resource)),
        count_expr(s, Phase::Preflight) == 1,
{
}

/// In runtime code the pass changes nothing and makes no class, whatever
/// closures the expression holds.
pub proof fn lemma_runtime_unchanged(s: Expr, d: Expr, id: nat)
    requires
        lifted_expr(s, d, Phase::Inflight, id),
    ensures
        d == s,
        count_expr(s, Phase::Inflight) == 0,
{
}

/// A deploy-time closure whose body is a runtime closure stays a closure, with
/// its signature, captures and span; only the inner closure is lifted.
pub proof fn lemma_recurse_without_wrap(s: Expr, d: Expr, id: nat)
    requires
        s.kind matches ExprKind::FunctionClosure(outer) && outer.signature.phase
            == Phase::Preflight && (outer.body matches FunctionBody::Expression(inner) && (
        inner.kind matches ExprKind::FunctionClosure(inner_def) && inner_def.signature.phase
            == Phase::Inflight)),
        lifted_expr(s, d, Phase::Preflight, id),
    ensures
        ({
            let outer = s.kind->FunctionClosure_0;
            let inner = *outer.body->Expression_0;
            &&& d.span == s.span
            &&& d.kind matches ExprKind::FunctionClosure(d_outer)
            &&& d_outer.signature == outer.signature
            &&& d_outer.captures == outer.captures
            &&& d_outer.is_static == outer.is_static
            &&& d_outer.span == outer.span
            &&& d_outer.body matches FunctionBody::Expression(d_inner)
            &&& is_lifted_closure(*d_inner, inner.kind->FunctionClosure_0, id, inner.span)
        }),
{
    let outer = s.kind->FunctionClosure_0;
    let d_outer = d.kind->FunctionClosure_0;
    assert(lifted_def(outer, d_outer, id));
    assert(lifted_body(outer.body, d_outer.body, Phase::Preflight, id));
    assert(lifted_expr(*outer.body->Expression_0, *d_outer.body->Expression_0, Phase::Preflight, id));
}

/// The class made for a runtime closure has one constructor, without
/// parameters, that returns the class, and one method, `handle`, which is the
/// closure's definition unchanged; the call's body returns a new instance of it.
pub proof fn lemma_resource_shape(s: Expr, d: Expr, id: nat)
    requires
        s.kind matches ExprKind::FunctionClosure(def) && def.signature.phase == Phase::Inflight,
        lifted_expr(s, d, Phase::Preflight, id),
    ensures
        ({
            let def = s.kind->FunctionClosure_0;
            let maker = d.kind->Call_callee.kind->FunctionClosure_0;
            let body = maker.body->Statements_0.statements@;
            let c = body[0].kind->Class_0;
            &&& body.len() == 2
            &&& c.is_resource
            &&& c.name.name matches Name::Generated(n) && n == id
            &&& c.constructor.signature.parameters@.len() == 0
            &&& c.constructor.signature.return_type matches Some(t) && (
            (*t) matches TypeAnnotation::UserDefined(r) && r.name == c.name.name)
            &&& c.fields@.len() == 0
            &&& c.methods@.len() == 1
            &&& c.methods@[0].name.name matches Name::Source(h) && h@ == "handle"@
            &&& c.methods@[0].def == def
            &&& body[1].kind matches StmtKind::Return(Some(e)) && (
            e.kind matches ExprKind::New { class, args } && args@.len() == 0 && (
            class matches TypeAnnotation::UserDefined(r) && r.name == c.name.name))
        }),
{
}

/// Every node made for a runtime closure carries the closure's own span.
pub proof fn lemma_span_preserved(s: Expr, d: Expr, id: nat)
    requires
        s.kind matches ExprKind::FunctionClosure(def) && def.signature.phase == Phase::Inflight,
        lifted_expr(s, d, Phase::Preflight, id),
    ensures
        ({
            let callee = *d.kind->Call_callee;
            let maker = callee.kind->FunctionClosure_0;
            let body = maker.body->Statements_0;
            let declaration = body.statements@[0];
            let c = declaration.kind->Class_0;
            let ret = body.statements@[1];
            let instance = ret.kind->Return_0->Some_0;
            &&& d.span == s.span
            &&& callee.span == s.span
            &&& maker.span == s.span
            &&& body.span == s.span
            &&& declaration.span == s.span
            &&& c.name.span == s.span
            &&& c.constructor.span == s.span
            &&& c.methods@[0].name.span == s.span
            &&& ret.span == s.span
            &&& instance.span == s.span
        }),
{
}

} // verus!
