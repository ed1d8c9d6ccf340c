//! Finds whether a body returns or throws, without looking inside the functions
//! that it defines.
use vstd::prelude::*;
use crate::ast::{Scope, Stmt, StmtKind};

verus! {

/// `st` is `hit`, or holds a statement that is, in a nested block, branch or loop.
/// Function definitions (closures, constructors and methods) are not looked into.
pub open spec fn stmt_holds(st: Stmt, hit: spec_fn(Stmt) -> bool) -> bool
    decreases st,
{
    hit(st) || match st.kind {
        StmtKind::If { then_branch, else_branch, .. } => stmts_hold(
            then_branch.statements@,
            hit,
        ) || match else_branch {
            Some(sc) => stmts_hold(sc.statements@, hit),
            None => false,
        },
        StmtKind::While { body, .. } => stmts_hold(body.statements@, hit),
        StmtKind::Block(sc) => stmts_hold(sc.statements@, hit),
        _ => false,
    }
}

/// Some statement of `s` holds a statement that is `hit`.
pub open spec fn stmts_hold(s: Seq<Stmt>, hit: spec_fn(Stmt) -> bool) -> bool
    decreases s,
{
    s.len() > 0 && (stmts_hold(s.drop_last(), hit) || stmt_holds(s.last(), hit))
}

pub open spec fn is_return(st: Stmt) -> bool {
    st.kind is Return
}

pub open spec fn is_throw(st: Stmt) -> bool {
    st.kind is Throw
}

/// `s` holds a `return` outside any nested function.
pub open spec fn has_return(s: Seq<Stmt>) -> bool {
    stmts_hold(s, |st: Stmt| is_return(st))
}

/// `s` holds a `throw` outside any nested function.
pub open spec fn has_throw(s: Seq<Stmt>) -> bool {
    stmts_hold(s, |st: Stmt| is_throw(st))
}

/// A statement in `a + b` is found exactly when one is found in `a` or in `b`:
/// scanning two lists one after the other gives the flags that each list gives,
/// or-ed together.
pub proof fn lemma_scan_accumulates(a: Seq<Stmt>, b: Seq<Stmt>, hit: spec_fn(Stmt) -> bool)
    ensures
        stmts_hold(a + b, hit) == (stmts_hold(a, hit) || stmts_hold(b, hit)),
    decreases b.len(),
{
    if b.len() == 0 {
        assert(a + b =~= a);
    } else {
        lemma_scan_accumulates(a, b.drop_last(), hit);
        assert((a + b).drop_last() =~= a + b.drop_last());
    }
}

/// Records whether the statements it is shown hold a `return` or a `throw`.
/// The flags only ever go from false to true: use a fresh scanner for each body.
pub struct HasStatementVisitor {
    pub seen_return: bool,
    pub seen_throw: bool,
}

impl HasStatementVisitor {
    pub fn new() -> (r: Self)
        ensures
            !r.seen_return,
            !r.seen_throw,
    {
        HasStatementVisitor { seen_return: false, seen_throw: false }
    }

    /// Scans `statements`, in order, and adds what it finds to the flags.
    #[verifier::loop_isolation(false)]
    pub fn visit(&mut self, statements: &Vec<Stmt>)
        ensures
            final(self).seen_return == (old(self).seen_return || has_return(statements@)),
            final(self).seen_throw == (old(self).seen_throw || has_throw(statements@)),
        decreases statements,
    {
        let ghost ret = |st: Stmt| is_return(st);
        let ghost thr = |st: Stmt| is_throw(st);
        let mut i: usize = 0;
        while i < statements.len()
            invariant
                i <= statements.len(),
                self.seen_return == (old(self).seen_return || stmts_hold(
                    statements@.subrange(0, i as int),
                    ret,
                )),
                self.seen_throw == (old(self).seen_throw || stmts_hold(
                    statements@.subrange(0, i as int),
                    thr,
                )),
            decreases statements.len() - i,
        {
            proof {
                assert(decreases_to!(statements => statements[i as int]));
                assert(statements@.subrange(0, i + 1).drop_last() =~= statements@.subrange(
                    0,
                    i as int,
                ));
            }
            self.visit_stmt(&statements[i]);
            i = i + 1;
        }
        proof {
            assert(statements@.subrange(0, statements.len() as int) =~= statements@);
        }
    }

    /// Scans one statement and the blocks nested in it.
    pub fn visit_stmt(&mut self, node: &Stmt)
        ensures
            final(self).seen_return == (old(self).seen_return || stmt_holds(
                *node,
                |st: Stmt| is_return(st),
            )),
            final(self).seen_throw == (old(self).seen_throw || stmt_holds(
                *node,
                |st: Stmt| is_throw(st),
            )),
        decreases node,
    {
        match &node.kind {
            StmtKind::Return(_) => self.seen_return = true,
            StmtKind::Throw(_) => self.seen_throw = true,
            _ => {},
        }
        match &node.kind {
            StmtKind::If { then_branch, else_branch, .. } => {
                self.visit_scope(then_branch);
                match else_branch {
                    Some(sc) => self.visit_scope(sc),
                    None => {},
                }
            },
            StmtKind::While { body, .. } => self.visit_scope(body),
            StmtKind::Block(sc) => self.visit_scope(sc),
            _ => {},
        }
    }

    fn visit_scope(&mut self, scope: &Scope)
        ensures
            final(self).seen_return == (old(self).seen_return || has_return(scope.statements@)),
            final(self).seen_throw == (old(self).seen_throw || has_throw(scope.statements@)),
        decreases scope,
    {
        self.visit(&scope.statements);
    }
}

} // verus!
