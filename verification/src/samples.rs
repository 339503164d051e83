//! A small annotated program, checked from end to end.

use vstd::prelude::*;
use vstd::string::StringExecFns;
use crate::checker::{enter_body, RealtimeCallsNonrealtime, State};
use crate::marker::{doc_marker, realtime, realtime_marker};
use crate::model::{
    declared_tag_of, lookup, DeclId, DeclKind, Declaration, Expr, Location, Program, Res,
};
use crate::report::Diagnostic;
use crate::tag::SafetyTag;
use crate::text::occurs_at;
use crate::traversal::{run_diagnostics, run_state, views, BodyItem};

verus! {

/// The identity of the sample's realtime function `A`.
pub open spec fn sample_a() -> DeclId {
    DeclId { krate: 0, index: 1 }
}

/// The identity of the sample's unmarked function `B`.
pub open spec fn sample_b() -> DeclId {
    DeclId { krate: 0, index: 2 }
}

/// The identity of the sample's realtime function that calls `A` and `B`.
pub open spec fn sample_caller() -> DeclId {
    DeclId { krate: 0, index: 3 }
}

/// An attribute text that is the realtime marker holds that marker.
proof fn lemma_realtime_text_is_marked(attrs: Seq<Vec<u8>>)
    requires
        attrs.len() == 1,
        attrs[0]@ == realtime_marker(),
    ensures
        doc_marker(attrs) == Some(true),
{
    let text = realtime_marker();
    assert(text.subrange(0, text.len() as int) =~= text);
    assert(occurs_at(text, text, 0));
}

fn marked_realtime(index: u32, kind: DeclKind, path: &str) -> (decl: Declaration)
    ensures
        decl.id == (DeclId { krate: 0, index }),
        decl.kind == kind,
        decl.path@ == path@,
        decl.attrs@.len() == 1,
        decl.attrs@[0]@ == realtime_marker(),
        doc_marker(decl.attrs@) == Some(true),
{
    let mut attrs: Vec<Vec<u8>> = Vec::new();
    attrs.push(realtime());
    proof {
        lemma_realtime_text_is_marked(attrs@);
    }
    Declaration { id: DeclId { krate: 0, index }, kind, path: String::from_str(path), attrs }
}

/// The sample program: `A` is marked realtime, `B` carries no marker, and
/// the caller of both is marked realtime.
pub fn sample_program() -> (program: Program)
    ensures
        program.decls@.len() == 3,
        program.decls@[0].id == sample_a(),
        program.decls@[1].id == sample_b(),
        program.decls@[2].id == sample_caller(),
        forall|i: int| 0 <= i < 3 ==> (#[trigger] program.decls@[i]).kind == DeclKind::Fn,
        program.decls@[0].path@ == "A"@,
        program.decls@[1].path@ == "B"@,
        program.decls@[2].path@ == "test_realtime_call_nonrealtime"@,
        program.decls@[0].attrs@.len() == 1 && program.decls@[0].attrs@[0]@ == realtime_marker(),
        program.decls@[1].attrs@.len() == 0,
        program.decls@[2].attrs@.len() == 1 && program.decls@[2].attrs@[0]@ == realtime_marker(),
        declared_tag_of(&program, sample_a()) == SafetyTag::Realtime,
        declared_tag_of(&program, sample_b()) == SafetyTag::Unclassified,
        declared_tag_of(&program, sample_caller()) == SafetyTag::Realtime,
        lookup(program.decls@, sample_caller()) == Some(program.decls@[2]),
{
    let mut program = Program::new();
    program.declare(marked_realtime(1, DeclKind::Fn, "A"));
    program.declare(
        Declaration {
            id: DeclId { krate: 0, index: 2 },
            kind: DeclKind::Fn,
            path: String::from_str("B"),
            attrs: Vec::new(),
        },
    );
    program.declare(marked_realtime(3, DeclKind::Fn, "test_realtime_call_nonrealtime"));
    proof {
        reveal_with_fuel(lookup, 4);
        let decls = program.decls@;
        assert(decls.drop_first()[0] == decls[1]);
        assert(decls.drop_first().drop_first()[0] == decls[2]);
    }
    program
}

/// Checks the sample caller, whose body calls `A` and then `B`. Neither call
/// is a violation: `A` is realtime, and an unmarked target is never flagged.
pub fn test_realtime_call_nonrealtime() -> (out: Vec<Diagnostic>)
    ensures
        out@.len() == 0,
{
    let program = sample_program();
    let mut items: Vec<BodyItem> = Vec::new();
    items.push(
        BodyItem::Expr(
            Expr::Call {
                callee: Res::Def(DeclId { krate: 0, index: 1 }, DeclKind::Fn),
                location: Location { lo: 0, hi: 3 },
            },
        ),
    );
    items.push(
        BodyItem::Expr(
            Expr::Call {
                callee: Res::Def(DeclId { krate: 0, index: 2 }, DeclKind::Fn),
                location: Location { lo: 4, hi: 7 },
            },
        ),
    );
    let mut checker = RealtimeCallsNonrealtime::new();
    let out = match program.get(DeclId { krate: 0, index: 3 }) {
        Some(caller) => {
            let out = checker.check_body(&program, caller, &items);
            proof {
                let start = enter_body(
                    State { stack: Seq::empty(), bindings: Map::empty() },
                    caller,
                );
                reveal_with_fuel(run_diagnostics, 3);
                reveal_with_fuel(run_state, 3);
                let first = items@.drop_last();
                assert(first.last() == items@[0]);
                assert(first.drop_last().len() == 0);
                assert(run_diagnostics(start, &program, items@) =~= Seq::empty());
                assert(views(out@).len() == 0);
            }
            out
        },
        None => Vec::new(),
    };
    out
}

} // verus!
