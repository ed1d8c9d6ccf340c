//! The pass that lifts runtime closures out of deploy-time code.
//!
//! A runtime (inflight) closure that stands in deploy-time (preflight) code is
//! replaced by a call of a deploy-time closure that declares a resource class,
//! whose one method `handle` is the lifted closure itself, and returns a new instance
//! of it. The captures of the closures made here are left unresolved: resolving
//! captures has to run after this pass.
use vstd::prelude::*;
use crate::ast::{
    Class, Expr, ExprKind, FunctionBody, FunctionDefinition, FunctionSignature, Method, Name,
    Phase, Scope, Span, Stmt, StmtKind, Symbol, TypeAnnotation,
};
use crate::lifting::{
    count_body, count_class, count_def, count_expr, count_exprs, count_methods, count_scope,
    count_stmt, count_stmts, is_lifted_closure, lifted_body, lifted_class, lifted_def,
    lifted_expr, lifted_exprs, lifted_methods, lifted_scope, lifted_stmt, lifted_stmts,
};

verus! {

/// Walks a tree, tracking the phase of the code around, and lifts each runtime
/// closure that stands in deploy-time code. Each class it makes gets the next
/// serial number, so that no two share a name.
pub struct InflightTransformer {
    curr_phase: Phase,
    next_id: u64,
}

proof fn lemma_count_exprs_prefix(s: Seq<Expr>, k: int, ctx: Phase)
    requires
        0 <= k <= s.len(),
    ensures
        count_exprs(s.subrange(0, k), ctx) <= count_exprs(s, ctx),
    decreases s.len(),
{
    if k < s.len() {
        lemma_count_exprs_prefix(s.drop_last(), k, ctx);
        assert(s.drop_last().subrange(0, k) =~= s.subrange(0, k));
    } else {
        assert(s.subrange(0, k) =~= s);
    }
}

proof fn lemma_count_stmts_prefix(s: Seq<Stmt>, k: int, ctx: Phase)
    requires
        0 <= k <= s.len(),
    ensures
        count_stmts(s.subrange(0, k), ctx) <= count_stmts(s, ctx),
    decreases s.len(),
{
    if k < s.len() {
        lemma_count_stmts_prefix(s.drop_last(), k, ctx);
        assert(s.drop_last().subrange(0, k) =~= s.subrange(0, k));
    } else {
        assert(s.subrange(0, k) =~= s);
    }
}

proof fn lemma_count_methods_prefix(s: Seq<Method>, k: int)
    requires
        0 <= k <= s.len(),
    ensures
        count_methods(s.subrange(0, k)) <= count_methods(s),
    decreases s.len(),
{
    if k < s.len() {
        lemma_count_methods_prefix(s.drop_last(), k);
        assert(s.drop_last().subrange(0, k) =~= s.subrange(0, k));
    } else {
        assert(s.subrange(0, k) =~= s);
    }
}

/// The type annotation that names the resource class with serial number `id`.
fn resource_type(id: u64, span: Span) -> (r: TypeAnnotation)
    ensures
        r matches TypeAnnotation::UserDefined(sym) && sym.name == Name::Generated(id) && sym.span
            == span,
{
    TypeAnnotation::UserDefined(Symbol { name: Name::Generated(id), span })
}

impl InflightTransformer {
    /// The phase of the code that the traversal stands in.
    pub closed spec fn phase(&self) -> Phase {
        self.curr_phase
    }

    /// The serial number that the next class made will get.
    pub closed spec fn next_serial(&self) -> nat {
        self.next_id as nat
    }

    /// A transformer at the top level, which is deploy-time code.
    pub fn new() -> (r: Self)
        ensures
            r.phase() == Phase::Preflight,
            r.next_serial() == 0,
    {
        InflightTransformer { curr_phase: Phase::Preflight, next_id: 0 }
    }

    /// Replaces the runtime closure `def`, found at `span`, by a call that makes a
    /// resource whose `handle` method is `def`.
    fn lift_closure(&mut self, def: FunctionDefinition, span: Span) -> (r: Expr)
        requires
            old(self).next_id < u64::MAX,
        ensures
            final(self).curr_phase == old(self).curr_phase,
            final(self).next_id == old(self).next_id + 1,
            is_lifted_closure(r, def, old(self).next_id as nat, span),
    {
        let id = self.next_id;
        self.next_id = id + 1;
        let constructor = FunctionDefinition {
            signature: FunctionSignature {
                parameters: Vec::new(),
                return_type: Some(Box::new(resource_type(id, span))),
                phase: Phase::Preflight,
            },
            body: FunctionBody::Statements(Scope { statements: Vec::new(), span }),
            captures: None,
            is_static: false,
            span,
        };
        let handle = Method {
            name: Symbol { name: Name::Source("handle".to_owned()), span },
            def,
        };
        let class = Class {
            name: Symbol { name: Name::Generated(id), span },
            is_resource: true,
            constructor,
            fields: Vec::new(),
            methods: vec![handle],
            parent: None,
            implements: Vec::new(),
        };
        let declaration = Stmt { kind: StmtKind::Class(class), idx: 0, span };
        let instance = Expr {
            kind: ExprKind::New { class: resource_type(id, span), args: Vec::new() },
            span,
        };
        let return_instance = Stmt { kind: StmtKind::Return(Some(instance)), idx: 1, span };
        let maker = FunctionDefinition {
            signature: FunctionSignature {
                parameters: Vec::new(),
                return_type: Some(Box::new(TypeAnnotation::Resource)),
                phase: Phase::Preflight,
            },
            body: FunctionBody::Statements(
                Scope { statements: vec![declaration, return_instance], span },
            ),
            captures: None,
            is_static: false,
            span,
        };
        let callee = Expr { kind: ExprKind::FunctionClosure(maker), span };
        Expr { kind: ExprKind::Call { callee: Box::new(callee), args: Vec::new() }, span }
    }

    /// Lifts the runtime closures in `expr`. In runtime code nothing changes.
    pub fn fold_expr(&mut self, expr: Expr) -> (r: Expr)
        requires
            old(self).next_serial() + count_expr(expr, old(self).phase()) <= u64::MAX,
        ensures
            final(self).phase() == old(self).phase(),
            final(self).next_serial() == old(self).next_serial() + count_expr(
                expr,
                old(self).phase(),
            ),
            lifted_expr(expr, r, old(self).phase(), old(self).next_serial()),
        decreases expr,
    {
        if self.curr_phase == Phase::Inflight {
            return expr;
        }
        let span = expr.span;
        match expr.kind {
            ExprKind::FunctionClosure(def) => {
                if def.signature.phase == Phase::Inflight {
                    self.lift_closure(def, span)
                } else {
                    let def = self.fold_function_definition(def);
                    Expr { kind: ExprKind::FunctionClosure(def), span }
                }
            },
            ExprKind::Binary { op, left, right } => {
                let left = self.fold_expr(*left);
                let right = self.fold_expr(*right);
                Expr {
                    kind: ExprKind::Binary { op, left: Box::new(left), right: Box::new(right) },
                    span,
                }
            },
            ExprKind::Call { callee, args } => {
                let callee = self.fold_expr(*callee);
                let args = self.fold_exprs(args);
                Expr { kind: ExprKind::Call { callee: Box::new(callee), args }, span }
            },
            ExprKind::New { class, args } => {
                let args = self.fold_exprs(args);
                Expr { kind: ExprKind::New { class, args }, span }
            },
            kind => Expr { kind, span },
        }
    }

    #[verifier::loop_isolation(false)]
    fn fold_exprs(&mut self, exprs: Vec<Expr>) -> (r: Vec<Expr>)
        requires
            old(self).next_id + count_exprs(exprs@, old(self).curr_phase) <= u64::MAX,
        ensures
            final(self).curr_phase == old(self).curr_phase,
            final(self).next_id == old(self).next_id + count_exprs(exprs@, old(self).curr_phase),
            lifted_exprs(exprs@, r@, old(self).curr_phase, old(self).next_id as nat),
        decreases exprs,
    {
        let ghost whole = exprs;
        let ghost ctx = self.curr_phase;
        let ghost id0 = self.next_id as nat;
        let mut rest = exprs;
        let mut out: Vec<Expr> = Vec::new();
        while rest.len() > 0
            invariant
                self.curr_phase == ctx,
                out.len() + rest.len() == whole.len(),
                rest@ == whole@.subrange(out.len() as int, whole.len() as int),
                lifted_exprs(whole@.subrange(0, out.len() as int), out@, ctx, id0),
                self.next_id == id0 + count_exprs(whole@.subrange(0, out.len() as int), ctx),
                id0 + count_exprs(whole@, ctx) <= u64::MAX,
            decreases rest.len(),
        {
            let ghost k = out.len() as int;
            let ghost before = out@;
            let e = rest.remove(0);
            proof {
                assert(e == whole@[k]);
                assert(decreases_to!(whole => whole[k]));
                assert(whole@.subrange(0, k + 1).drop_last() =~= whole@.subrange(0, k));
                lemma_count_exprs_prefix(whole@, k + 1, ctx);
            }
            let folded = self.fold_expr(e);
            out.push(folded);
            proof {
                assert(out@.drop_last() =~= before);
            }
        }
        proof {
            assert(whole@.subrange(0, whole.len() as int) =~= whole@);
        }
        out
    }

    /// Lifts the runtime closures in the body of `node`, which runs in the
    /// definition's own phase. The phase around is restored afterwards.
    pub fn fold_function_definition(&mut self, node: FunctionDefinition) -> (r:
        FunctionDefinition)
        requires
            old(self).next_serial() + count_def(node) <= u64::MAX,
        ensures
            final(self).phase() == old(self).phase(),
            final(self).next_serial() == old(self).next_serial() + count_def(node),
            lifted_def(node, r, old(self).next_serial()),
        decreases node,
    {
        let FunctionDefinition { signature, body, captures, is_static, span } = node;
        let saved = self.curr_phase;
        self.curr_phase = signature.phase;
        let body = self.fold_body(body);
        self.curr_phase = saved;
        FunctionDefinition { signature, body, captures, is_static, span }
    }

    fn fold_body(&mut self, body: FunctionBody) -> (r: FunctionBody)
        requires
            old(self).next_id + count_body(body, old(self).curr_phase) <= u64::MAX,
        ensures
            final(self).curr_phase == old(self).curr_phase,
            final(self).next_id == old(self).next_id + count_body(body, old(self).curr_phase),
            lifted_body(body, r, old(self).curr_phase, old(self).next_id as nat),
        decreases body,
    {
        match body {
            FunctionBody::Statements(scope) => FunctionBody::Statements(self.fold_scope(scope)),
            FunctionBody::Expression(e) => FunctionBody::Expression(
                Box::new(self.fold_expr(*e)),
            ),
        }
    }

    /// Lifts the runtime closures in each statement of `scope`, in order.
    pub fn fold_scope(&mut self, scope: Scope) -> (r: Scope)
        requires
            old(self).next_serial() + count_scope(scope, old(self).phase()) <= u64::MAX,
        ensures
            final(self).phase() == old(self).phase(),
            final(self).next_serial() == old(self).next_serial() + count_scope(
                scope,
                old(self).phase(),
            ),
            lifted_scope(scope, r, old(self).phase(), old(self).next_serial()),
        decreases scope,
    {
        let Scope { statements, span } = scope;
        Scope { statements: self.fold_stmts(statements), span }
    }

    #[verifier::loop_isolation(false)]
    fn fold_stmts(&mut self, stmts: Vec<Stmt>) -> (r: Vec<Stmt>)
        requires
            old(self).next_id + count_stmts(stmts@, old(self).curr_phase) <= u64::MAX,
        ensures
            final(self).curr_phase == old(self).curr_phase,
            final(self).next_id == old(self).next_id + count_stmts(stmts@, old(self).curr_phase),
            lifted_stmts(stmts@, r@, old(self).curr_phase, old(self).next_id as nat),
        decreases stmts,
    {
        let ghost whole = stmts;
        let ghost ctx = self.curr_phase;
        let ghost id0 = self.next_id as nat;
        let mut rest = stmts;
        let mut out: Vec<Stmt> = Vec::new();
        while rest.len() > 0
            invariant
                self.curr_phase == ctx,
                out.len() + rest.len() == whole.len(),
                rest@ == whole@.subrange(out.len() as int, whole.len() as int),
                lifted_stmts(whole@.subrange(0, out.len() as int), out@, ctx, id0),
                self.next_id == id0 + count_stmts(whole@.subrange(0, out.len() as int), ctx),
                id0 + count_stmts(whole@, ctx) <= u64::MAX,
            decreases rest.len(),
        {
            let ghost k = out.len() as int;
            let ghost before = out@;
            let s = rest.remove(0);
            proof {
                assert(s == whole@[k]);
                assert(decreases_to!(whole => whole[k]));
                assert(whole@.subrange(0, k + 1).drop_last() =~= whole@.subrange(0, k));
                lemma_count_stmts_prefix(whole@, k + 1, ctx);
            }
            let folded = self.fold_stmt(s);
            out.push(folded);
            proof {
                assert(out@.drop_last() =~= before);
            }
        }
        proof {
            assert(whole@.subrange(0, whole.len() as int) =~= whole@);
        }
        out
    }

    /// Lifts the runtime closures in `stmt`, keeping its kind, index and span.
    pub fn fold_stmt(&mut self, stmt: Stmt) -> (r: Stmt)
        requires
            old(self).next_serial() + count_stmt(stmt, old(self).phase()) <= u64::MAX,
        ensures
            final(self).phase() == old(self).phase(),
            final(self).next_serial() == old(self).next_serial() + count_stmt(
                stmt,
                old(self).phase(),
            ),
            lifted_stmt(stmt, r, old(self).phase(), old(self).next_serial()),
        decreases stmt,
    {
        let Stmt { kind, idx, span } = stmt;
        let kind = match kind {
            StmtKind::Expression(e) => StmtKind::Expression(self.fold_expr(e)),
            StmtKind::Let { name, init } => StmtKind::Let { name, init: self.fold_expr(init) },
            StmtKind::Return(value) => match value {
                Some(e) => StmtKind::Return(Some(self.fold_expr(e))),
                None => StmtKind::Return(None),
            },
            StmtKind::Throw(e) => StmtKind::Throw(self.fold_expr(e)),
            StmtKind::If { condition, then_branch, else_branch } => {
                let condition = self.fold_expr(condition);
                let then_branch = self.fold_scope(then_branch);
                let else_branch = match else_branch {
                    Some(sc) => Some(self.fold_scope(sc)),
                    None => None,
                };
                StmtKind::If { condition, then_branch, else_branch }
            },
            StmtKind::While { condition, body } => {
                let condition = self.fold_expr(condition);
                let body = self.fold_scope(body);
                StmtKind::While { condition, body }
            },
            StmtKind::Block(sc) => StmtKind::Block(self.fold_scope(sc)),
            StmtKind::Class(c) => StmtKind::Class(self.fold_class(c)),
        };
        Stmt { kind, idx, span }
    }

    fn fold_class(&mut self, class: Class) -> (r: Class)
        requires
            old(self).next_id + count_class(class) <= u64::MAX,
        ensures
            final(self).curr_phase == old(self).curr_phase,
            final(self).next_id == old(self).next_id + count_class(class),
            lifted_class(class, r, old(self).next_id as nat),
        decreases class,
    {
        let Class { name, is_resource, constructor, fields, methods, parent, implements } = class;
        let constructor = self.fold_function_definition(constructor);
        let methods = self.fold_methods(methods);
        Class { name, is_resource, constructor, fields, methods, parent, implements }
    }

    #[verifier::loop_isolation(false)]
    fn fold_methods(&mut self, methods: Vec<Method>) -> (r: Vec<Method>)
        requires
            old(self).next_id + count_methods(methods@) <= u64::MAX,
        ensures
            final(self).curr_phase == old(self).curr_phase,
            final(self).next_id == old(self).next_id + count_methods(methods@),
            lifted_methods(methods@, r@, old(self).next_id as nat),
        decreases methods,
    {
        let ghost whole = methods;
        let ghost id0 = self.next_id as nat;
        let mut rest = methods;
        let mut out: Vec<Method> = Vec::new();
        while rest.len() > 0
            invariant
                self.curr_phase == old(self).curr_phase,
                out.len() + rest.len() == whole.len(),
                rest@ == whole@.subrange(out.len() as int, whole.len() as int),
                lifted_methods(whole@.subrange(0, out.len() as int), out@, id0),
                self.next_id == id0 + count_methods(whole@.subrange(0, out.len() as int)),
                id0 + count_methods(whole@) <= u64::MAX,
            decreases rest.len(),
        {
            let ghost k = out.len() as int;
            let ghost before = out@;
            let Method { name, def } = rest.remove(0);
            proof {
                assert(whole@[k].def == def);
                assert(decreases_to!(whole => whole[k]));
                assert(whole@.subrange(0, k + 1).drop_last() =~= whole@.subrange(0, k));
                lemma_count_methods_prefix(whole@, k + 1);
            }
            let def = self.fold_function_definition(def);
            out.push(Method { name, def });
            proof {
                assert(out@.drop_last() =~= before);
            }
        }
        proof {
            assert(whole@.subrange(0, whole.len() as int) =~= whole@);
        }
        out
    }
}

} // verus!
