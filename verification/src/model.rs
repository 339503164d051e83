//! The analysed program as plain values: declarations with their attribute
//! texts, and the statements and expressions that the checker visits.

use vstd::prelude::*;
use crate::marker::{doc_marker, doc_marker_is_realtime};
use crate::tag::{tag_of_marker, SafetyTag};

verus! {

/// The identity of a declaration: the crate it belongs to and its index
/// there. Crate 0 is the analysed program itself.
#[derive(Clone, Copy, Debug, PartialEq, Eq, Structural)]
pub struct DeclId {
    pub krate: u32,
    pub index: u32,
}

impl DeclId {
    /// Whether the declaration belongs to the analysed program.
    pub open spec fn spec_is_local(self) -> bool {
        self.krate == 0
    }

    /// Whether the declaration belongs to the analysed program.
    #[verifier::when_used_as_spec(spec_is_local)]
    pub fn is_local(self) -> (local: bool)
        ensures
            local == self.spec_is_local(),
    {
        self.krate == 0
    }
}

/// What kind of item a declaration is.
#[derive(Clone, Copy, Debug, PartialEq, Eq, Structural)]
pub enum DeclKind {
    /// A free function.
    Fn,
    /// A method or associated function of a trait or an impl.
    AssocFn,
    /// A closure literal.
    Closure,
    /// Anything that cannot be called as a function item.
    Other,
}

/// A declaration of the analysed program with its attribute texts.
#[derive(Debug)]
pub struct Declaration {
    pub id: DeclId,
    pub kind: DeclKind,
    pub path: String,
    pub attrs: Vec<Vec<u8>>,
}

/// A position in the source text, as a half-open range of byte offsets.
#[derive(Clone, Copy, Debug, PartialEq, Eq, Structural)]
pub struct Location {
    pub lo: u32,
    pub hi: u32,
}

/// What a bare path resolves to.
#[derive(Debug)]
pub enum Res {
    /// A local variable, by its name.
    Local(String),
    /// A declaration, with its kind.
    Def(DeclId, DeclKind),
    /// Nothing that the checker can trace.
    Unresolved,
}

/// A `let` statement.
#[derive(Debug)]
pub struct LetStmt {
    /// The attribute texts on the statement.
    pub attrs: Vec<Vec<u8>>,
    /// The name that the statement binds, where its pattern is a plain name.
    pub binding: Option<String>,
    /// What the initialiser resolves to, where it is a bare path.
    pub init: Option<Res>,
}

/// An expression, as far as the checker reads it.
#[derive(Debug)]
pub enum Expr {
    /// `receiver.method(..)`, with the method that the receiver's type gives.
    MethodCall { target: Option<DeclId>, location: Location },
    /// `callee(..)`, with what the callee resolves to.
    Call { callee: Res, location: Location },
    /// Any other expression.
    Other,
}

/// The declarations that the checker has source for.
#[derive(Debug)]
pub struct Program {
    pub decls: Vec<Declaration>,
}

/// The first declaration with the given identity.
pub open spec fn lookup(decls: Seq<Declaration>, id: DeclId) -> Option<Declaration>
    decreases decls.len(),
{
    if decls.len() == 0 {
        None
    } else if decls[0].id == id {
        Some(decls[0])
    } else {
        lookup(decls.drop_first(), id)
    }
}

/// The marker of the declaration with the given identity: `None` where the
/// declaration is outside the analysed program, unknown or unmarked.
pub open spec fn callee_marker(program: &Program, id: DeclId) -> Option<bool> {
    if !id.spec_is_local() {
        None
    } else {
        match lookup(program.decls@, id) {
            Some(decl) => doc_marker(decl.attrs@),
            None => None,
        }
    }
}

/// The classification of the declaration with the given identity.
pub open spec fn declared_tag_of(program: &Program, id: DeclId) -> SafetyTag {
    tag_of_marker(callee_marker(program, id))
}

/// The path of the declaration with the given identity, empty where the
/// program has no such declaration.
pub open spec fn path_of(program: &Program, id: DeclId) -> Seq<char> {
    match lookup(program.decls@, id) {
        Some(decl) => decl.path@,
        None => Seq::empty(),
    }
}

impl Program {
    /// A program without declarations.
    pub fn new() -> (program: Program)
        ensures
            program.decls@ == Seq::<Declaration>::empty(),
    {
        Program { decls: Vec::new() }
    }

    /// Adds a declaration after those already there.
    pub fn declare(&mut self, decl: Declaration)
        ensures
            final(self).decls@ == old(self).decls@.push(decl),
    {
        self.decls.push(decl);
    }

    /// The first declaration with the given identity.
    pub fn get(&self, id: DeclId) -> (found: Option<&Declaration>)
        ensures
            found is Some <==> lookup(self.decls@, id) is Some,
            found matches Some(decl) ==> lookup(self.decls@, id) == Some(*decl),
    {
        let mut i: usize = 0;
        assert(self.decls@.skip(0) =~= self.decls@);
        while i < self.decls.len()
            invariant
                i <= self.decls.len(),
                lookup(self.decls@, id) == lookup(self.decls@.skip(i as int), id),
            decreases self.decls.len() - i,
        {
            proof {
                let tail = self.decls@.skip(i as int);
                assert(tail[0] == self.decls@[i as int]);
                assert(tail.drop_first() =~= self.decls@.skip(i + 1));
            }
            if self.decls[i].id == id {
                return Some(&self.decls[i]);
            }
            i += 1;
        }
        None
    }
}

/// Reads the marker of a callee: `None` where the callee is outside the
/// analysed program, unknown or unmarked.
pub fn callee_is_realtime(program: &Program, id: DeclId) -> (marker: Option<bool>)
    ensures
        marker == callee_marker(program, id),
{
    if !id.is_local() {
        return None;
    }
    match program.get(id) {
        Some(decl) => doc_marker_is_realtime(&decl.attrs),
        None => None,
    }
}

/// The classification of a declaration: `Unclassified` where it carries no
/// marker or is not part of the analysed program.
pub fn declared_tag(program: &Program, id: DeclId) -> (tag: SafetyTag)
    ensures
        tag == declared_tag_of(program, id),
{
    SafetyTag::from_marker(callee_is_realtime(program, id))
}

/// A declaration of the program that carries no marker is unclassified.
pub proof fn lemma_unmarked_is_unclassified(program: &Program, id: DeclId)
    requires
        lookup(program.decls@, id) matches Some(decl) && doc_marker(decl.attrs@) is None,
    ensures
        declared_tag_of(program, id) == SafetyTag::Unclassified,
{
}

/// A declaration outside the analysed program is unclassified.
pub proof fn lemma_external_is_unclassified(program: &Program, id: DeclId)
    requires
        !id.spec_is_local(),
    ensures
        declared_tag_of(program, id) == SafetyTag::Unclassified,
{
}

} // verus!
