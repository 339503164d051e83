//! The checker: its state, and what it does at each point of a traversal.

use vstd::prelude::*;
use crate::marker::{
    call_info, closure_discriminator, doc_marker, doc_marker_is_realtime,
    extract_call_info_from_doc_attrs,
};
use crate::model::{
    declared_tag, declared_tag_of, path_of, DeclId, DeclKind, Declaration, Expr, LetStmt,
    Location, Program, Res,
};
use crate::report::{report_if_violation, CallShape, Diagnostic, DiagnosticView};
use crate::store::{BindingKind, Classification, ClassificationStore};
use crate::tag::SafetyTag;

verus! {

/// The state of the checker as a mathematical value.
pub ghost struct State {
    /// The realtime bodies that the traversal is inside of.
    pub stack: Seq<DeclId>,
    /// The classifications of the bindings of the current body.
    pub bindings: Map<Seq<char>, Classification>,
}

/// Whether calls are checked in this state.
pub open spec fn in_realtime_context(s: State) -> bool {
    s.stack.len() > 0
}

/// The state on entry to the body of `decl`. A closure is no body of its own.
/// For any other declaration the bindings of the body before are forgotten,
/// and the context is realtime exactly when the declaration is marked so.
pub open spec fn enter_body(s: State, decl: &Declaration) -> State {
    if decl.kind == DeclKind::Closure {
        s
    } else {
        State {
            stack: if doc_marker(decl.attrs@) == Some(true) {
                seq![decl.id]
            } else {
                Seq::empty()
            },
            bindings: Map::empty(),
        }
    }
}

/// The state after the body of `decl` has been left.
pub open spec fn leave_body(s: State, decl: &Declaration) -> State {
    if decl.kind == DeclKind::Closure {
        s
    } else {
        State { stack: Seq::empty(), bindings: Map::empty() }
    }
}

/// The tag that the attribute texts of a `let` statement give to a closure:
/// `None` where they carry no well-formed override, or one for a named
/// target.
pub open spec fn closure_override(attrs: Seq<Vec<u8>>) -> Option<SafetyTag> {
    match call_info(attrs) {
        Some((name, tag)) => if name == closure_discriminator() {
            Some(tag)
        } else {
            None
        },
        None => None,
    }
}

/// The classification of the binding that a `let` statement introduces:
/// an override for a closure decides first; then a bare reference to a
/// function or method takes the tag of that declaration; then a bare
/// reference to a recorded binding takes that binding's classification;
/// anything else is unclassified.
pub open spec fn classify_let(
    bindings: Map<Seq<char>, Classification>,
    program: &Program,
    stmt: &LetStmt,
) -> Classification {
    if let Some(tag) = closure_override(stmt.attrs@) {
        Classification { kind: BindingKind::Closure, tag }
    } else {
        match stmt.init {
            Some(Res::Def(id, kind)) => if kind == DeclKind::Fn || kind == DeclKind::AssocFn {
                Classification {
                    kind: BindingKind::FunctionRef,
                    tag: declared_tag_of(program, id),
                }
            } else {
                Classification { kind: BindingKind::Other, tag: SafetyTag::Unclassified }
            },
            Some(Res::Local(src)) => if bindings.contains_key(src@) {
                bindings[src@]
            } else {
                Classification { kind: BindingKind::Other, tag: SafetyTag::Unclassified }
            },
            _ => Classification { kind: BindingKind::Other, tag: SafetyTag::Unclassified },
        }
    }
}

/// The state after a `let` statement: a statement that binds a plain name
/// records its classification under that name, replacing what was recorded
/// for it; any other statement changes nothing.
pub open spec fn bind(s: State, program: &Program, stmt: &LetStmt) -> State {
    match stmt.binding {
        Some(name) => State {
            stack: s.stack,
            bindings: s.bindings.insert(name@, classify_let(s.bindings, program, stmt)),
        },
        None => s,
    }
}

/// The target of a call, as far as it can be resolved.
pub ghost struct Target {
    pub shape: CallShape,
    pub tag: SafetyTag,
    pub callee: Seq<char>,
    pub location: Location,
}

/// Resolves a call: a method call goes to its method; a call of a name goes
/// to the recorded binding of that name, if it holds a closure or a function
/// reference; a call of a path goes to its declaration. Nothing else has a
/// target.
pub open spec fn resolve(
    bindings: Map<Seq<char>, Classification>,
    program: &Program,
    expr: &Expr,
) -> Option<Target> {
    match *expr {
        Expr::MethodCall { target: Some(id), location } => Some(
            Target {
                shape: CallShape::Method,
                tag: declared_tag_of(program, id),
                callee: path_of(program, id),
                location,
            },
        ),
        Expr::Call { callee: Res::Local(name), location } => if bindings.contains_key(name@) {
            match bindings[name@].kind {
                BindingKind::Closure => Some(
                    Target {
                        shape: CallShape::Closure,
                        tag: bindings[name@].tag,
                        callee: name@,
                        location,
                    },
                ),
                BindingKind::FunctionRef => Some(
                    Target {
                        shape: CallShape::FunctionRef,
                        tag: bindings[name@].tag,
                        callee: name@,
                        location,
                    },
                ),
                BindingKind::Other => None,
            }
        } else {
            None
        },
        Expr::Call { callee: Res::Def(id, _), location } => Some(
            Target {
                shape: CallShape::Function,
                tag: declared_tag_of(program, id),
                callee: path_of(program, id),
                location,
            },
        ),
        _ => None,
    }
}

/// The diagnostic that an expression gives in a state: one for a call whose
/// target is non-realtime while the context is realtime, none otherwise.
pub open spec fn diagnose(s: State, program: &Program, expr: &Expr) -> Option<DiagnosticView> {
    match resolve(s.bindings, program, expr) {
        Some(target) => if target.tag.violates(in_realtime_context(s)) {
            Some(
                DiagnosticView {
                    location: target.location,
                    shape: target.shape,
                    callee: target.callee,
                },
            )
        } else {
            None
        },
        None => None,
    }
}

/// Checks that realtime bodies call nothing that is non-realtime.
#[derive(Debug)]
pub struct RealtimeCallsNonrealtime {
    in_realtime_main_fn: Vec<DeclId>,
    store: ClassificationStore,
}

impl View for RealtimeCallsNonrealtime {
    type V = State;

    closed spec fn view(&self) -> State {
        State { stack: self.in_realtime_main_fn@, bindings: self.store@ }
    }
}

impl RealtimeCallsNonrealtime {
    /// A checker outside any body, with nothing recorded.
    pub fn new() -> (checker: RealtimeCallsNonrealtime)
        ensures
            checker@ == (State { stack: Seq::empty(), bindings: Map::empty() }),
    {
        RealtimeCallsNonrealtime {
            in_realtime_main_fn: Vec::new(),
            store: ClassificationStore::new(),
        }
    }

    /// Whether the traversal is inside a realtime body.
    pub fn in_realtime(&self) -> (inside: bool)
        ensures
            inside == in_realtime_context(self@),
    {
        !self.in_realtime_main_fn.is_empty()
    }

    /// The tag recorded for the binding `name` of the current body.
    pub fn get_binding(&self, name: &String) -> (tag: Option<SafetyTag>)
        ensures
            tag == (if self@.bindings.contains_key(name@) {
                Some(self@.bindings[name@].tag)
            } else {
                None
            }),
    {
        self.store.get_binding(name)
    }

    /// Enters the body of `decl`.
    pub fn check_fn(&mut self, decl: &Declaration)
        ensures
            final(self)@ == enter_body(old(self)@, decl),
    {
        match decl.kind {
            DeclKind::Closure => {},
            _ => {
                self.in_realtime_main_fn.clear();
                self.store.clear_body();
                match doc_marker_is_realtime(&decl.attrs) {
                    Some(true) => {
                        self.in_realtime_main_fn.push(decl.id);
                        assert(self.in_realtime_main_fn@ =~= seq![decl.id]);
                    },
                    _ => {},
                }
            },
        }
    }

    /// Leaves the body of `decl`.
    pub fn check_fn_post(&mut self, decl: &Declaration)
        ensures
            final(self)@ == leave_body(old(self)@, decl),
    {
        match decl.kind {
            DeclKind::Closure => {},
            _ => {
                self.in_realtime_main_fn.clear();
                self.store.clear_body();
            },
        }
    }

    /// Classifies the binding that a `let` statement introduces.
    pub fn classify(&self, program: &Program, stmt: &LetStmt) -> (class: Classification)
        ensures
            class == classify_let(self@.bindings, program, stmt),
    {
        let other = Classification { kind: BindingKind::Other, tag: SafetyTag::Unclassified };
        match extract_call_info_from_doc_attrs(&stmt.attrs) {
            Some(info) => {
                if info.is_closure() {
                    return Classification { kind: BindingKind::Closure, tag: info.tag };
                }
            },
            None => {},
        }
        match &stmt.init {
            Some(Res::Def(id, kind)) => match kind {
                DeclKind::Fn | DeclKind::AssocFn => Classification {
                    kind: BindingKind::FunctionRef,
                    tag: declared_tag(program, *id),
                },
                _ => other,
            },
            Some(Res::Local(src)) => match self.store.classification(src) {
                Some(class) => class,
                None => other,
            },
            _ => other,
        }
    }

    /// Visits a `let` statement and records the binding it introduces.
    pub fn check_stmt(&mut self, program: &Program, stmt: &LetStmt)
        ensures
            final(self)@ == bind(old(self)@, program, stmt),
    {
        match &stmt.binding {
            Some(name) => {
                let class = self.classify(program, stmt);
                self.store.set_binding(name.clone(), class.kind, class.tag);
            },
            None => {},
        }
    }

    /// Visits an expression and says whether it is a violation. The state
    /// of the checker stays as it is.
    pub fn check_expr(&self, program: &Program, expr: &Expr) -> (diagnostic: Option<Diagnostic>)
        ensures
            diagnostic is Some <==> diagnose(self@, program, expr) is Some,
            diagnostic matches Some(d) ==> diagnose(self@, program, expr) == Some(d@),
    {
        if !self.in_realtime() {
            return None;
        }
        match expr {
            Expr::MethodCall { target: Some(id), location } => report_if_violation(
                true,
                declared_tag(program, *id),
                *location,
                CallShape::Method,
                decl_path(program, *id),
            ),
            Expr::Call { callee: Res::Local(name), location } => {
                match self.store.classification(name) {
                    Some(class) => match class.kind {
                        BindingKind::Closure => report_if_violation(
                            true,
                            class.tag,
                            *location,
                            CallShape::Closure,
                            name.clone(),
                        ),
                        BindingKind::FunctionRef => report_if_violation(
                            true,
                            class.tag,
                            *location,
                            CallShape::FunctionRef,
                            name.clone(),
                        ),
                        BindingKind::Other => None,
                    },
                    None => None,
                }
            },
            Expr::Call { callee: Res::Def(id, _), location } => report_if_violation(
                true,
                declared_tag(program, *id),
                *location,
                CallShape::Function,
                decl_path(program, *id),
            ),
            _ => None,
        }
    }
}

/// The path of a declaration, empty where the program does not have it.
pub fn decl_path(program: &Program, id: DeclId) -> (text: String)
    ensures
        text@ == path_of(program, id),
{
    match program.get(id) {
        Some(decl) => decl.path.clone(),
        None => String::new(),
    }
}

} // verus!
