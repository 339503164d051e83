//! Checking a whole body: its statements and expressions in visiting order.

use vstd::prelude::*;
use crate::checker::{bind, diagnose, enter_body, leave_body, RealtimeCallsNonrealtime, State};
use crate::model::{DeclKind, Declaration, Expr, LetStmt, Program};
use crate::marker::doc_marker;
use crate::report::{Diagnostic, DiagnosticView};
use crate::store::Classification;

verus! {

/// One thing that the traversal of a body visits.
#[derive(Debug)]
pub enum BodyItem {
    /// A `let` statement.
    Let(LetStmt),
    /// An expression.
    Expr(Expr),
}

/// The state after one item has been visited.
pub open spec fn step(s: State, program: &Program, item: &BodyItem) -> State {
    match *item {
        BodyItem::Let(stmt) => bind(s, program, &stmt),
        BodyItem::Expr(_) => s,
    }
}

/// The diagnostics that visiting one item gives: at most one.
pub open spec fn emitted(s: State, program: &Program, item: &BodyItem) -> Seq<DiagnosticView> {
    match *item {
        BodyItem::Let(_) => Seq::empty(),
        BodyItem::Expr(expr) => match diagnose(s, program, &expr) {
            Some(d) => seq![d],
            None => Seq::empty(),
        },
    }
}

/// The state after the items have been visited in order.
pub open spec fn run_state(s: State, program: &Program, items: Seq<BodyItem>) -> State
    decreases items.len(),
{
    if items.len() == 0 {
        s
    } else {
        step(run_state(s, program, items.drop_last()), program, &items.last())
    }
}

/// The diagnostics that visiting the items in order gives, in that order.
pub open spec fn run_diagnostics(s: State, program: &Program, items: Seq<BodyItem>) -> Seq<
    DiagnosticView,
>
    decreases items.len(),
{
    if items.len() == 0 {
        Seq::empty()
    } else {
        run_diagnostics(s, program, items.drop_last()) + emitted(
            run_state(s, program, items.drop_last()),
            program,
            &items.last(),
        )
    }
}

/// A list of diagnostics as mathematical values.
pub open spec fn views(diagnostics: Seq<Diagnostic>) -> Seq<DiagnosticView> {
    diagnostics.map_values(|d: Diagnostic| d@)
}

impl RealtimeCallsNonrealtime {
    /// Enters the body of `decl`, visits its items in order and leaves it
    /// again. Returns the diagnostics in visiting order.
    pub fn check_body(
        &mut self,
        program: &Program,
        decl: &Declaration,
        items: &Vec<BodyItem>,
    ) -> (out: Vec<Diagnostic>)
        ensures
            views(out@) == run_diagnostics(enter_body(old(self)@, decl), program, items@),
            final(self)@ == leave_body(
                run_state(enter_body(old(self)@, decl), program, items@),
                decl,
            ),
    {
        self.check_fn(decl);
        let ghost start = self@;
        let mut out: Vec<Diagnostic> = Vec::new();
        let mut i: usize = 0;
        assert(views(out@) =~= Seq::empty());
        while i < items.len()
            invariant
                i <= items.len(),
                self@ == run_state(start, program, items@.take(i as int)),
                views(out@) == run_diagnostics(start, program, items@.take(i as int)),
            decreases items.len() - i,
        {
            let ghost before = out@;
            proof {
                let next = items@.take(i + 1);
                assert(next.drop_last() =~= items@.take(i as int));
                assert(next.last() == items@[i as int]);
            }
            match &items[i] {
                BodyItem::Let(stmt) => {
                    self.check_stmt(program, stmt);
                    assert(views(out@) =~= views(before) + Seq::empty());
                },
                BodyItem::Expr(expr) => {
                    match self.check_expr(program, expr) {
                        Some(d) => {
                            out.push(d);
                            assert(views(out@) =~= views(before) + seq![d@]);
                        },
                        None => {
                            assert(views(out@) =~= views(before) + Seq::empty());
                        },
                    }
                },
            }
            i += 1;
        }
        assert(items@.take(items@.len() as int) =~= items@);
        self.check_fn_post(decl);
        out
    }
}

/// What one body gives does not depend on what was analysed before it: the
/// bindings and the context of an earlier body are not visible in it.
pub proof fn lemma_body_isolation(
    before: State,
    other: State,
    program: &Program,
    decl: &Declaration,
    items: Seq<BodyItem>,
)
    requires
        decl.kind != DeclKind::Closure,
    ensures
        enter_body(before, decl) == enter_body(other, decl),
        enter_body(before, decl).bindings == Map::<Seq<char>, Classification>::empty(),
        run_diagnostics(enter_body(before, decl), program, items) == run_diagnostics(
            enter_body(other, decl),
            program,
            items,
        ),
{
}

/// Visiting statements and expressions never changes the context.
pub proof fn lemma_run_keeps_context(s: State, program: &Program, items: Seq<BodyItem>)
    ensures
        run_state(s, program, items).stack == s.stack,
    decreases items.len(),
{
    if items.len() > 0 {
        lemma_run_keeps_context(s, program, items.drop_last());
    }
}

/// A body that is not marked realtime gives no diagnostic.
pub proof fn lemma_unmarked_body_is_silent(
    before: State,
    program: &Program,
    decl: &Declaration,
    items: Seq<BodyItem>,
)
    requires
        decl.kind != DeclKind::Closure,
        doc_marker(decl.attrs@) != Some(true),
    ensures
        run_diagnostics(enter_body(before, decl), program, items) == Seq::<DiagnosticView>::empty(),
    decreases items.len(),
{
    if items.len() > 0 {
        lemma_unmarked_body_is_silent(before, program, decl, items.drop_last());
        lemma_run_keeps_context(enter_body(before, decl), program, items.drop_last());
    }
}

} // verus!
