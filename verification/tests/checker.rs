use realtime_lint::checker::RealtimeCallsNonrealtime;
use realtime_lint::model::{
    callee_is_realtime, declared_tag, DeclId, DeclKind, Declaration, Expr, LetStmt, Location,
    Program, Res,
};
use realtime_lint::report::{report_if_violation, CallShape, Diagnostic};
use realtime_lint::store::{BindingKind, Classification, ClassificationStore};
use realtime_lint::tag::SafetyTag;
use realtime_lint::traversal::BodyItem;

fn id(index: u32) -> DeclId {
    DeclId { krate: 0, index }
}

fn decl(index: u32, kind: DeclKind, path: &str, attrs: &[&str]) -> Declaration {
    Declaration {
        id: id(index),
        kind,
        path: path.to_string(),
        attrs: attrs.iter().map(|s| s.as_bytes().to_vec()).collect(),
    }
}

fn at(lo: u32) -> Location {
    Location { lo, hi: lo + 1 }
}

fn call(index: u32, lo: u32) -> Expr {
    Expr::Call { callee: Res::Def(id(index), DeclKind::Fn), location: at(lo) }
}

fn call_local(name: &str, lo: u32) -> Expr {
    Expr::Call { callee: Res::Local(name.to_string()), location: at(lo) }
}

fn let_stmt(attrs: &[&str], name: &str, init: Option<Res>) -> LetStmt {
    LetStmt {
        attrs: attrs.iter().map(|s| s.as_bytes().to_vec()).collect(),
        binding: Some(name.to_string()),
        init,
    }
}

const RT_BODY: u32 = 1;
const PLAIN_BODY: u32 = 2;
const RT_FN: u32 = 3;
const SLOW_FN: u32 = 4;
const PLAIN_FN: u32 = 5;
const SLOW_METHOD: u32 = 6;

fn program() -> Program {
    let mut p = Program::new();
    p.declare(decl(RT_BODY, DeclKind::Fn, "app::audio", &[" docs", "rt:realtime"]));
    p.declare(decl(PLAIN_BODY, DeclKind::Fn, "app::setup", &[]));
    p.declare(decl(RT_FN, DeclKind::Fn, "lib::do_rt", &["rt:realtime"]));
    p.declare(decl(SLOW_FN, DeclKind::Fn, "lib::do_slow", &[" allocates", "rt:non_realtime"]));
    p.declare(decl(PLAIN_FN, DeclKind::Fn, "lib::helper", &[" no marker"]));
    p.declare(decl(
        SLOW_METHOD,
        DeclKind::AssocFn,
        "AudioProcessor::process_audio",
        &["rt:non_realtime"],
    ));
    p
}

fn in_body(p: &Program, index: u32) -> RealtimeCallsNonrealtime {
    let mut checker = RealtimeCallsNonrealtime::new();
    checker.check_fn(p.get(id(index)).unwrap());
    checker
}

fn summary(d: &Diagnostic) -> (u32, CallShape, String) {
    (d.location.lo, d.shape, d.callee.clone())
}

#[test]
fn unmarked_declaration_is_unclassified_and_never_flagged() {
    let p = program();
    assert_eq!(declared_tag(&p, id(PLAIN_FN)), SafetyTag::Unclassified);
    assert_eq!(callee_is_realtime(&p, id(PLAIN_FN)), None);
    let checker = in_body(&p, RT_BODY);
    assert!(checker.in_realtime());
    assert!(checker.check_expr(&p, &call(PLAIN_FN, 10)).is_none());
}

#[test]
fn unknown_and_external_declarations_are_unclassified() {
    let p = program();
    assert_eq!(declared_tag(&p, id(99)), SafetyTag::Unclassified);
    let mut q = Program::new();
    q.declare(Declaration {
        id: DeclId { krate: 7, index: 1 },
        kind: DeclKind::Fn,
        path: "other::slow".to_string(),
        attrs: vec![b"rt:non_realtime".to_vec()],
    });
    q.declare(decl(RT_BODY, DeclKind::Fn, "app::audio", &["rt:realtime"]));
    let external = DeclId { krate: 7, index: 1 };
    assert!(!external.is_local());
    assert_eq!(declared_tag(&q, external), SafetyTag::Unclassified);
    let checker = in_body(&q, RT_BODY);
    let e = Expr::Call { callee: Res::Def(external, DeclKind::Fn), location: at(3) };
    assert!(checker.check_expr(&q, &e).is_none());
}

#[test]
fn declared_tags_follow_the_markers() {
    let p = program();
    assert_eq!(declared_tag(&p, id(RT_FN)), SafetyTag::Realtime);
    assert_eq!(declared_tag(&p, id(SLOW_FN)), SafetyTag::NonRealtime);
    assert_eq!(callee_is_realtime(&p, id(RT_FN)), Some(true));
    assert_eq!(callee_is_realtime(&p, id(SLOW_FN)), Some(false));
}

#[test]
fn first_declaration_with_an_identity_is_found() {
    let mut p = Program::new();
    p.declare(decl(1, DeclKind::Fn, "first", &["rt:realtime"]));
    p.declare(decl(1, DeclKind::Fn, "second", &["rt:non_realtime"]));
    assert_eq!(p.get(id(1)).unwrap().path, "first");
    assert!(p.get(id(2)).is_none());
    assert_eq!(declared_tag(&p, id(1)), SafetyTag::Realtime);
}

#[test]
fn non_realtime_call_gives_one_diagnostic_per_call_site() {
    let p = program();
    let mut checker = RealtimeCallsNonrealtime::new();
    let items = vec![
        BodyItem::Expr(call(SLOW_FN, 10)),
        BodyItem::Expr(call(RT_FN, 20)),
        BodyItem::Expr(call(SLOW_FN, 30)),
    ];
    let out = checker.check_body(&p, p.get(id(RT_BODY)).unwrap(), &items);
    let got: Vec<_> = out.iter().map(summary).collect();
    assert_eq!(
        got,
        vec![
            (10, CallShape::Function, "lib::do_slow".to_string()),
            (30, CallShape::Function, "lib::do_slow".to_string()),
        ]
    );
    assert!(!checker.in_realtime());
}

#[test]
fn realtime_call_from_realtime_context_is_silent() {
    let p = program();
    let checker = in_body(&p, RT_BODY);
    assert!(checker.check_expr(&p, &call(RT_FN, 10)).is_none());
}

#[test]
fn nothing_is_flagged_outside_a_realtime_body() {
    let p = program();
    let checker = in_body(&p, PLAIN_BODY);
    assert!(!checker.in_realtime());
    assert!(checker.check_expr(&p, &call(SLOW_FN, 10)).is_none());
    let fresh = RealtimeCallsNonrealtime::new();
    assert!(fresh.check_expr(&p, &call(SLOW_FN, 10)).is_none());
}

#[test]
fn method_call_is_flagged_as_method() {
    let p = program();
    let checker = in_body(&p, RT_BODY);
    let e = Expr::MethodCall { target: Some(id(SLOW_METHOD)), location: at(5) };
    let d = checker.check_expr(&p, &e).unwrap();
    assert_eq!(summary(&d), (5, CallShape::Method, "AudioProcessor::process_audio".to_string()));
    assert_eq!(d.location, Location { lo: 5, hi: 6 });
    let unresolved = Expr::MethodCall { target: None, location: at(6) };
    assert!(checker.check_expr(&p, &unresolved).is_none());
    assert!(checker.check_expr(&p, &Expr::Other).is_none());
    let dynamic = Expr::Call { callee: Res::Unresolved, location: at(7) };
    assert!(checker.check_expr(&p, &dynamic).is_none());
}

#[test]
fn non_realtime_closure_is_flagged_as_closure_call() {
    let p = program();
    let mut checker = in_body(&p, RT_BODY);
    checker.check_stmt(&p, &let_stmt(&["rt:call-info:closure:nonrealtime"], "work", None));
    assert_eq!(checker.get_binding(&"work".to_string()), Some(SafetyTag::NonRealtime));
    let d = checker.check_expr(&p, &call_local("work", 40)).unwrap();
    assert_eq!(summary(&d), (40, CallShape::Closure, "work".to_string()));
    assert_eq!(d.message(), "Nonrealtime Closure call detected: work");
    assert!(checker.check_expr(&p, &call_local("work", 41)).is_some());
}

#[test]
fn realtime_closure_is_silent() {
    let p = program();
    let mut checker = in_body(&p, RT_BODY);
    checker.check_stmt(&p, &let_stmt(&["rt:call-info:closure:realtime"], "fast", None));
    assert_eq!(checker.get_binding(&"fast".to_string()), Some(SafetyTag::Realtime));
    assert!(checker.check_expr(&p, &call_local("fast", 40)).is_none());
}

#[test]
fn malformed_or_named_override_leaves_binding_unclassified() {
    let p = program();
    let mut checker = in_body(&p, RT_BODY);
    checker.check_stmt(&p, &let_stmt(&["rt:call-info:closure"], "a", None));
    checker.check_stmt(&p, &let_stmt(&["rt:call-info:closure:slow"], "b", None));
    checker.check_stmt(&p, &let_stmt(&["rt:call-info:do_slow:nonrealtime"], "c", None));
    for name in ["a", "b", "c"] {
        assert_eq!(checker.get_binding(&name.to_string()), Some(SafetyTag::Unclassified));
        assert!(checker.check_expr(&p, &call_local(name, 1)).is_none());
    }
    assert_eq!(checker.get_binding(&"d".to_string()), None);
    assert!(checker.check_expr(&p, &call_local("d", 1)).is_none());
}

#[test]
fn closure_override_wins_over_the_initialiser() {
    let p = program();
    let mut checker = in_body(&p, RT_BODY);
    checker.check_stmt(
        &p,
        &let_stmt(
            &["rt:call-info:closure:realtime"],
            "f",
            Some(Res::Def(id(SLOW_FN), DeclKind::Fn)),
        ),
    );
    let class = checker.classify(
        &p,
        &let_stmt(&["rt:call-info:closure:non_realtime"], "g", Some(Res::Local("f".to_string()))),
    );
    assert_eq!(class, Classification { kind: BindingKind::Closure, tag: SafetyTag::NonRealtime });
    assert_eq!(checker.get_binding(&"f".to_string()), Some(SafetyTag::Realtime));
}

#[test]
fn propagation_copies_the_classification() {
    let p = program();
    let mut checker = in_body(&p, RT_BODY);
    checker.check_stmt(&p, &let_stmt(&["rt:call-info:closure:nonrealtime"], "a", None));
    checker.check_stmt(&p, &let_stmt(&[], "b", Some(Res::Local("a".to_string()))));
    assert_eq!(checker.get_binding(&"b".to_string()), Some(SafetyTag::NonRealtime));
    let da = checker.check_expr(&p, &call_local("a", 9)).unwrap();
    let db = checker.check_expr(&p, &call_local("b", 9)).unwrap();
    assert_eq!(summary(&da), (9, CallShape::Closure, "a".to_string()));
    assert_eq!(summary(&db), (9, CallShape::Closure, "b".to_string()));
}

#[test]
fn propagation_from_an_unrecorded_name_is_unclassified() {
    let p = program();
    let mut checker = in_body(&p, RT_BODY);
    checker.check_stmt(&p, &let_stmt(&[], "b", Some(Res::Local("nowhere".to_string()))));
    assert_eq!(checker.get_binding(&"b".to_string()), Some(SafetyTag::Unclassified));
    assert!(checker.check_expr(&p, &call_local("b", 9)).is_none());
}

#[test]
fn most_recent_binding_wins() {
    let p = program();
    let mut checker = in_body(&p, RT_BODY);
    checker.check_stmt(&p, &let_stmt(&["rt:call-info:closure:nonrealtime"], "x", None));
    assert!(checker.check_expr(&p, &call_local("x", 1)).is_some());
    checker.check_stmt(&p, &let_stmt(&["rt:call-info:closure:realtime"], "x", None));
    assert!(checker.check_expr(&p, &call_local("x", 2)).is_none());
    checker.check_stmt(&p, &let_stmt(&[], "x", Some(Res::Def(id(SLOW_FN), DeclKind::Fn))));
    let d = checker.check_expr(&p, &call_local("x", 3)).unwrap();
    assert_eq!(d.shape, CallShape::FunctionRef);
    checker.check_stmt(&p, &let_stmt(&[], "x", None));
    assert_eq!(checker.get_binding(&"x".to_string()), Some(SafetyTag::Unclassified));
    assert!(checker.check_expr(&p, &call_local("x", 4)).is_none());
}

#[test]
fn statement_without_a_plain_name_records_nothing() {
    let p = program();
    let mut checker = in_body(&p, RT_BODY);
    checker.check_stmt(&p, &let_stmt(&["rt:call-info:closure:nonrealtime"], "x", None));
    let pattern = LetStmt {
        attrs: vec![b"rt:call-info:closure:realtime".to_vec()],
        binding: None,
        init: None,
    };
    checker.check_stmt(&p, &pattern);
    assert_eq!(checker.get_binding(&"x".to_string()), Some(SafetyTag::NonRealtime));
}

#[test]
fn reference_to_a_non_function_is_unclassified() {
    let p = program();
    let mut checker = in_body(&p, RT_BODY);
    checker.check_stmt(&p, &let_stmt(&[], "c", Some(Res::Def(id(SLOW_FN), DeclKind::Other))));
    assert_eq!(checker.get_binding(&"c".to_string()), Some(SafetyTag::Unclassified));
    checker.check_stmt(&p, &let_stmt(&[], "m", Some(Res::Def(id(SLOW_METHOD), DeclKind::AssocFn))));
    assert_eq!(checker.get_binding(&"m".to_string()), Some(SafetyTag::NonRealtime));
    checker.check_stmt(&p, &let_stmt(&[], "u", Some(Res::Def(id(PLAIN_FN), DeclKind::Fn))));
    assert_eq!(checker.get_binding(&"u".to_string()), Some(SafetyTag::Unclassified));
    checker.check_stmt(&p, &let_stmt(&[], "w", Some(Res::Unresolved)));
    assert_eq!(checker.get_binding(&"w".to_string()), Some(SafetyTag::Unclassified));
}

#[test]
fn bindings_do_not_leak_between_bodies() {
    let mut p = Program::new();
    p.declare(decl(1, DeclKind::Fn, "first", &["rt:realtime"]));
    p.declare(decl(2, DeclKind::Fn, "second", &["rt:realtime"]));
    p.declare(decl(3, DeclKind::Fn, "third", &["rt:realtime"]));
    let slow_x = vec![
        BodyItem::Let(let_stmt(&["rt:call-info:closure:nonrealtime"], "x", None)),
        BodyItem::Expr(call_local("x", 10)),
    ];
    let fast_x = vec![
        BodyItem::Let(let_stmt(&["rt:call-info:closure:realtime"], "x", None)),
        BodyItem::Expr(call_local("x", 20)),
    ];
    let bare_x = vec![BodyItem::Expr(call_local("x", 30))];

    let mut checker = RealtimeCallsNonrealtime::new();
    let a = checker.check_body(&p, p.get(id(1)).unwrap(), &slow_x);
    let b = checker.check_body(&p, p.get(id(2)).unwrap(), &fast_x);
    let c = checker.check_body(&p, p.get(id(3)).unwrap(), &bare_x);
    assert_eq!(a.len(), 1);
    assert_eq!(summary(&a[0]), (10, CallShape::Closure, "x".to_string()));
    assert_eq!(b.len(), 0);
    assert_eq!(c.len(), 0);

    let mut checker = RealtimeCallsNonrealtime::new();
    let b = checker.check_body(&p, p.get(id(2)).unwrap(), &fast_x);
    let a = checker.check_body(&p, p.get(id(1)).unwrap(), &slow_x);
    assert_eq!(b.len(), 0);
    assert_eq!(a.len(), 1);

    let mut checker = RealtimeCallsNonrealtime::new();
    checker.check_fn(p.get(id(1)).unwrap());
    checker.check_stmt(&p, &let_stmt(&["rt:call-info:closure:nonrealtime"], "x", None));
    checker.check_fn(p.get(id(3)).unwrap());
    assert_eq!(checker.get_binding(&"x".to_string()), None);
    assert!(checker.check_expr(&p, &call_local("x", 1)).is_none());
}

#[test]
fn realtime_body_calling_unmarked_then_marked_target() {
    let mut p = Program::new();
    p.declare(decl(1, DeclKind::Fn, "A", &["rt:realtime"]));
    p.declare(decl(2, DeclKind::Fn, "B", &[]));
    let items = vec![BodyItem::Expr(call(2, 10))];
    let mut checker = RealtimeCallsNonrealtime::new();
    let out = checker.check_body(&p, p.get(id(1)).unwrap(), &items);
    assert_eq!(out.len(), 0);

    let mut q = Program::new();
    q.declare(decl(1, DeclKind::Fn, "A", &["rt:realtime"]));
    q.declare(decl(2, DeclKind::Fn, "B", &["rt:non_realtime"]));
    let mut checker = RealtimeCallsNonrealtime::new();
    let out = checker.check_body(&q, q.get(id(1)).unwrap(), &items);
    assert_eq!(out.len(), 1);
    assert_eq!(summary(&out[0]), (10, CallShape::Function, "B".to_string()));
    assert_eq!(out[0].message(), "nonrealtime function call detected: B");
}

#[test]
fn function_reference_is_flagged_at_the_call_of_the_copy() {
    let p = program();
    let items = vec![
        BodyItem::Let(let_stmt(&[], "fp", Some(Res::Def(id(SLOW_FN), DeclKind::Fn)))),
        BodyItem::Let(let_stmt(&[], "fp2", Some(Res::Local("fp".to_string())))),
        BodyItem::Expr(call_local("fp2", 77)),
    ];
    let mut checker = RealtimeCallsNonrealtime::new();
    let out = checker.check_body(&p, p.get(id(RT_BODY)).unwrap(), &items);
    assert_eq!(out.len(), 1);
    assert_eq!(summary(&out[0]), (77, CallShape::FunctionRef, "fp2".to_string()));
    assert_eq!(out[0].message(), "Nonrealtime Fn-ptr call detected: fp2");
}

#[test]
fn sample_program_with_every_call_shape() {
    let mut p = Program::new();
    p.declare(decl(1, DeclKind::AssocFn, "AudioProcessor::process_audio", &["rt:non_realtime"]));
    p.declare(decl(2, DeclKind::Fn, "print_rt", &["rt:non_realtime"]));
    p.declare(decl(3, DeclKind::Fn, "main", &["rt:realtime"]));
    let items = vec![
        BodyItem::Let(let_stmt(&[], "processor", Some(Res::Def(id(9), DeclKind::Other)))),
        BodyItem::Expr(Expr::MethodCall { target: Some(id(1)), location: at(1) }),
        BodyItem::Expr(call(2, 2)),
        BodyItem::Let(let_stmt(&["rt:call-info:closure:non_realtime"], "print_with_closure", None)),
        BodyItem::Expr(call_local("print_with_closure", 3)),
        BodyItem::Let(let_stmt(&[], "fp", Some(Res::Def(id(2), DeclKind::Fn)))),
        BodyItem::Expr(call_local("fp", 4)),
        BodyItem::Let(let_stmt(&[], "other_fp", Some(Res::Local("fp".to_string())))),
        BodyItem::Expr(call_local("other_fp", 5)),
    ];
    let mut checker = RealtimeCallsNonrealtime::new();
    let out = checker.check_body(&p, p.get(id(3)).unwrap(), &items);
    let got: Vec<_> = out.iter().map(|d| (d.location.lo, d.message())).collect();
    assert_eq!(
        got,
        vec![
            (
                1,
                "realtime function calls a non-realtime method: AudioProcessor::process_audio"
                    .to_string()
            ),
            (2, "nonrealtime function call detected: print_rt".to_string()),
            (3, "Nonrealtime Closure call detected: print_with_closure".to_string()),
            (4, "Nonrealtime Fn-ptr call detected: fp".to_string()),
            (5, "Nonrealtime Fn-ptr call detected: other_fp".to_string()),
        ]
    );
}

#[test]
fn closure_is_no_body_of_its_own() {
    let p = program();
    let mut checker = in_body(&p, RT_BODY);
    checker.check_stmt(&p, &let_stmt(&["rt:call-info:closure:nonrealtime"], "x", None));
    let closure = decl(50, DeclKind::Closure, "app::audio::{closure#0}", &[]);
    checker.check_fn(&closure);
    assert!(checker.in_realtime());
    assert_eq!(checker.get_binding(&"x".to_string()), Some(SafetyTag::NonRealtime));
    checker.check_fn_post(&closure);
    assert!(checker.in_realtime());
    assert!(checker.check_expr(&p, &call_local("x", 1)).is_some());
    checker.check_fn_post(p.get(id(RT_BODY)).unwrap());
    assert!(!checker.in_realtime());
    assert_eq!(checker.get_binding(&"x".to_string()), None);
}

#[test]
fn entering_an_unmarked_body_ends_the_realtime_context() {
    let p = program();
    let mut checker = in_body(&p, RT_BODY);
    assert!(checker.in_realtime());
    checker.check_fn(p.get(id(PLAIN_BODY)).unwrap());
    assert!(!checker.in_realtime());
    checker.check_fn(p.get(id(SLOW_FN)).unwrap());
    assert!(!checker.in_realtime());
}

#[test]
fn store_operations() {
    let mut store = ClassificationStore::new();
    let a = "a".to_string();
    let b = "b".to_string();
    assert_eq!(store.get_binding(&a), None);
    store.set_binding(a.clone(), BindingKind::Closure, SafetyTag::NonRealtime);
    assert_eq!(store.get_binding(&a), Some(SafetyTag::NonRealtime));
    store.propagate(b.clone(), &a);
    assert_eq!(
        store.classification(&b),
        Some(Classification { kind: BindingKind::Closure, tag: SafetyTag::NonRealtime })
    );
    store.set_binding(a.clone(), BindingKind::FunctionRef, SafetyTag::Realtime);
    assert_eq!(store.get_binding(&a), Some(SafetyTag::Realtime));
    assert_eq!(store.get_binding(&b), Some(SafetyTag::NonRealtime));
    store.propagate("c".to_string(), &"missing".to_string());
    assert_eq!(store.get_binding(&"c".to_string()), None);
    store.clear_body();
    assert_eq!(store.get_binding(&a), None);
    assert_eq!(store.get_binding(&b), None);
}

#[test]
fn report_if_violation_needs_both_conditions() {
    let loc = at(3);
    let name = || "f".to_string();
    let d = report_if_violation(true, SafetyTag::NonRealtime, loc, CallShape::Function, name());
    assert_eq!(summary(&d.unwrap()), (3, CallShape::Function, "f".to_string()));
    assert!(report_if_violation(false, SafetyTag::NonRealtime, loc, CallShape::Function, name())
        .is_none());
    assert!(report_if_violation(true, SafetyTag::Realtime, loc, CallShape::Function, name())
        .is_none());
    assert!(report_if_violation(true, SafetyTag::Unclassified, loc, CallShape::Function, name())
        .is_none());
}

#[test]
fn diagnostics_are_warnings() {
    let d = report_if_violation(
        true,
        SafetyTag::NonRealtime,
        at(1),
        CallShape::Method,
        "T::m".to_string(),
    )
    .unwrap();
    assert_eq!(d.severity(), realtime_lint::report::Severity::Warning);
    assert_eq!(d.message(), "realtime function calls a non-realtime method: T::m");
}

#[test]
fn sample_caller_is_clean() {
    let p = realtime_lint::samples::sample_program();
    assert_eq!(p.decls.len(), 3);
    assert_eq!(p.decls[0].path, "A");
    assert_eq!(p.decls[1].path, "B");
    assert_eq!(p.decls[2].path, "test_realtime_call_nonrealtime");
    assert_eq!(declared_tag(&p, id(1)), SafetyTag::Realtime);
    assert_eq!(declared_tag(&p, id(2)), SafetyTag::Unclassified);
    assert_eq!(declared_tag(&p, id(3)), SafetyTag::Realtime);
    let out = realtime_lint::samples::test_realtime_call_nonrealtime();
    assert!(out.is_empty());
}
