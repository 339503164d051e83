//! What holds of the checker at every call site.

use vstd::prelude::*;
use crate::checker::{
    bind, closure_override, diagnose, enter_body, in_realtime_context, resolve, State,
};
use crate::marker::doc_marker;
use crate::model::{
    declared_tag_of, lookup, path_of, DeclId, DeclKind, Declaration, Expr, LetStmt, Location,
    Program, Res,
};
use crate::report::{CallShape, DiagnosticView};
use crate::tag::SafetyTag;
use crate::traversal::{lemma_run_keeps_context, run_state, BodyItem};

verus! {

/// The expression is a method call or a direct call of the declaration `id`.
pub open spec fn calls_declaration(expr: &Expr, id: DeclId) -> bool {
    match *expr {
        Expr::MethodCall { target: Some(target), .. } => target == id,
        Expr::Call { callee: Res::Def(target, _), .. } => target == id,
        _ => false,
    }
}

/// The expression is a call of the local name `name` at `location`.
pub open spec fn calls_binding(expr: &Expr, name: Seq<char>, location: Location) -> bool {
    match *expr {
        Expr::Call { callee: Res::Local(local), location: at } => local@ == name && at == location,
        _ => false,
    }
}

/// The context is realtime exactly inside a body, not a closure, whose
/// declaration is marked realtime, and at most one context is active.
pub proof fn lemma_context_of_body(before: State, decl: &Declaration)
    requires
        decl.kind != DeclKind::Closure,
    ensures
        in_realtime_context(enter_body(before, decl)) <==> doc_marker(decl.attrs@) == Some(true),
        enter_body(before, decl).stack.len() <= 1,
{
}

/// A `let` statement never changes the context.
pub proof fn lemma_bind_keeps_context(s: State, program: &Program, stmt: &LetStmt)
    ensures
        bind(s, program, stmt).stack == s.stack,
{
}

/// A declaration without a marker is unclassified, and no call of it is
/// flagged, whatever the context.
pub proof fn lemma_unmarked_never_flagged(s: State, program: &Program, id: DeclId, expr: &Expr)
    requires
        lookup(program.decls@, id) matches Some(decl) && doc_marker(decl.attrs@) is None,
        calls_declaration(expr, id),
    ensures
        declared_tag_of(program, id) == SafetyTag::Unclassified,
        diagnose(s, program, expr) is None,
{
}

/// A call whose target is unclassified, or has no target, is never flagged.
pub proof fn lemma_unclassified_never_flagged(s: State, program: &Program, expr: &Expr)
    requires
        resolve(s.bindings, program, expr) matches Some(target) ==> target.tag
            == SafetyTag::Unclassified,
    ensures
        diagnose(s, program, expr) is None,
{
}

/// A call of a declaration marked non-realtime, in a realtime context, is
/// flagged, and the diagnostic names that declaration.
pub proof fn lemma_non_realtime_call_flagged(
    s: State,
    program: &Program,
    id: DeclId,
    expr: &Expr,
)
    requires
        in_realtime_context(s),
        id.spec_is_local(),
        lookup(program.decls@, id) matches Some(decl) && doc_marker(decl.attrs@) == Some(false),
        calls_declaration(expr, id),
    ensures
        diagnose(s, program, expr) matches Some(d) && d.callee == path_of(program, id) && (d.shape
            == CallShape::Method || d.shape == CallShape::Function),
{
}

/// Inside a body marked realtime, whatever was visited before, a call of a
/// declaration marked non-realtime gives a diagnostic that names it.
pub proof fn lemma_realtime_body_flags_non_realtime_call(
    before: State,
    program: &Program,
    body: &Declaration,
    visited: Seq<BodyItem>,
    id: DeclId,
    expr: &Expr,
)
    requires
        body.kind != DeclKind::Closure,
        doc_marker(body.attrs@) == Some(true),
        id.spec_is_local(),
        lookup(program.decls@, id) matches Some(decl) && doc_marker(decl.attrs@) == Some(false),
        calls_declaration(expr, id),
    ensures
        diagnose(run_state(enter_body(before, body), program, visited), program, expr) matches Some(
            d,
        ) && d.callee == path_of(program, id),
{
    lemma_run_keeps_context(enter_body(before, body), program, visited);
}

/// A call of a declaration marked realtime is never flagged.
pub proof fn lemma_realtime_call_not_flagged(
    s: State,
    program: &Program,
    id: DeclId,
    expr: &Expr,
)
    requires
        lookup(program.decls@, id) matches Some(decl) && doc_marker(decl.attrs@) == Some(true),
        calls_declaration(expr, id),
    ensures
        diagnose(s, program, expr) is None,
{
}

/// Nothing is flagged outside a realtime context.
pub proof fn lemma_silent_outside_realtime(s: State, program: &Program, expr: &Expr)
    requires
        !in_realtime_context(s),
    ensures
        diagnose(s, program, expr) is None,
{
}

/// A closure bound with a non-realtime override and then called in a
/// realtime context is flagged as a closure call under the binding's name.
pub proof fn lemma_non_realtime_closure_flagged(
    s: State,
    program: &Program,
    stmt: &LetStmt,
    call: &Expr,
    location: Location,
)
    requires
        in_realtime_context(s),
        stmt.binding is Some,
        closure_override(stmt.attrs@) == Some(SafetyTag::NonRealtime),
        calls_binding(call, stmt.binding->0@, location),
    ensures
        diagnose(bind(s, program, stmt), program, call) == Some(
            DiagnosticView { location, shape: CallShape::Closure, callee: stmt.binding->0@ },
        ),
{
}

/// `let dst = src;` gives `dst` the classification recorded for `src`, and
/// a call of `dst` afterwards is flagged exactly when a call of `src` was,
/// with the same shape.
pub proof fn lemma_propagation(
    s: State,
    program: &Program,
    stmt: &LetStmt,
    src: Seq<char>,
    call_src: &Expr,
    call_dst: &Expr,
    location: Location,
)
    requires
        stmt.binding is Some,
        closure_override(stmt.attrs@) is None,
        stmt.init matches Some(Res::Local(name)) && name@ == src,
        s.bindings.contains_key(src),
        calls_binding(call_src, src, location),
        calls_binding(call_dst, stmt.binding->0@, location),
    ensures
        bind(s, program, stmt).bindings[stmt.binding->0@] == s.bindings[src],
        diagnose(bind(s, program, stmt), program, call_dst) is Some <==> diagnose(
            s,
            program,
            call_src,
        ) is Some,
        diagnose(s, program, call_src) matches Some(d) ==> diagnose(
            bind(s, program, stmt),
            program,
            call_dst,
        ) == Some(
            DiagnosticView { location: d.location, shape: d.shape, callee: stmt.binding->0@ },
        ),
{
}

/// A binding that refers to a function marked non-realtime is flagged as
/// a function-reference call where it is called in a realtime context.
pub proof fn lemma_function_ref_flagged(
    s: State,
    program: &Program,
    stmt: &LetStmt,
    id: DeclId,
    call: &Expr,
    location: Location,
)
    requires
        in_realtime_context(s),
        stmt.binding is Some,
        closure_override(stmt.attrs@) is None,
        stmt.init matches Some(Res::Def(target, kind)) && target == id && (kind == DeclKind::Fn
            || kind == DeclKind::AssocFn),
        declared_tag_of(program, id) == SafetyTag::NonRealtime,
        calls_binding(call, stmt.binding->0@, location),
    ensures
        diagnose(bind(s, program, stmt), program, call) == Some(
            DiagnosticView { location, shape: CallShape::FunctionRef, callee: stmt.binding->0@ },
        ),
{
}

} // verus!
