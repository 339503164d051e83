//! The classifications of the local bindings of one body.

use vstd::prelude::*;
use crate::tag::SafetyTag;

verus! {

/// How a binding came to hold a callable.
#[derive(Clone, Copy, Debug, PartialEq, Eq, Structural)]
pub enum BindingKind {
    /// A closure, classified by an override on its `let` statement.
    Closure,
    /// A reference to a declared function or method.
    FunctionRef,
    /// A value that the checker cannot trace to a callable.
    Other,
}

/// What the store records of one binding.
#[derive(Clone, Copy, Debug, PartialEq, Eq, Structural)]
pub struct Classification {
    pub kind: BindingKind,
    pub tag: SafetyTag,
}

/// One recorded binding.
#[derive(Debug)]
pub struct Binding {
    pub name: String,
    pub class: Classification,
}

/// The classifications that a list of recorded bindings gives to names: a
/// later binding of a name replaces an earlier one.
pub open spec fn bindings_of(entries: Seq<Binding>) -> Map<Seq<char>, Classification>
    decreases entries.len(),
{
    if entries.len() == 0 {
        Map::empty()
    } else {
        bindings_of(entries.drop_last()).insert(entries.last().name@, entries.last().class)
    }
}

/// Entries after `upto` that do not bind `name` do not change what the list
/// says of `name`.
proof fn lemma_later_entries(entries: Seq<Binding>, name: Seq<char>, upto: int)
    requires
        0 <= upto <= entries.len(),
        forall|j: int| upto <= j < entries.len() ==> entries[j].name@ != name,
    ensures
        bindings_of(entries).contains_key(name) == bindings_of(entries.take(upto)).contains_key(
            name,
        ),
        bindings_of(entries).contains_key(name) ==> bindings_of(entries)[name] == bindings_of(
            entries.take(upto),
        )[name],
    decreases entries.len(),
{
    if upto == entries.len() {
        assert(entries.take(upto) =~= entries);
    } else {
        let front = entries.drop_last();
        assert(front.take(upto) =~= entries.take(upto));
        lemma_later_entries(front, name, upto);
    }
}

/// The classifications of the bindings of the body under analysis, by name.
#[derive(Debug)]
pub struct ClassificationStore {
    entries: Vec<Binding>,
}

impl View for ClassificationStore {
    type V = Map<Seq<char>, Classification>;

    closed spec fn view(&self) -> Map<Seq<char>, Classification> {
        bindings_of(self.entries@)
    }
}

impl ClassificationStore {
    /// A store without bindings.
    pub fn new() -> (store: ClassificationStore)
        ensures
            store@ == Map::<Seq<char>, Classification>::empty(),
    {
        ClassificationStore { entries: Vec::new() }
    }

    /// Records a binding; an earlier binding of the same name is replaced.
    pub fn set_binding(&mut self, name: String, kind: BindingKind, tag: SafetyTag)
        ensures
            final(self)@ == old(self)@.insert(name@, Classification { kind, tag }),
    {
        self.entries.push(Binding { name, class: Classification { kind, tag } });
        assert(self.entries@.drop_last() =~= old(self).entries@);
    }

    /// What is recorded of the binding `name`.
    pub fn classification(&self, name: &String) -> (class: Option<Classification>)
        ensures
            class == (if self@.contains_key(name@) {
                Some(self@[name@])
            } else {
                None
            }),
    {
        let mut i: usize = self.entries.len();
        while i > 0
            invariant
                i <= self.entries.len(),
                forall|j: int| i <= j < self.entries.len() ==> self.entries@[j].name@ != name@,
            decreases i,
        {
            if self.entries[i - 1].name == *name {
                proof {
                    lemma_later_entries(self.entries@, name@, i as int);
                    let front = self.entries@.take(i as int);
                    assert(front.last() == self.entries@[i - 1]);
                }
                return Some(self.entries[i - 1].class);
            }
            i -= 1;
        }
        proof {
            lemma_later_entries(self.entries@, name@, 0);
        }
        None
    }

    /// The tag recorded for the binding `name`.
    pub fn get_binding(&self, name: &String) -> (tag: Option<SafetyTag>)
        ensures
            tag == (if self@.contains_key(name@) {
                Some(self@[name@].tag)
            } else {
                None
            }),
    {
        match self.classification(name) {
            Some(class) => Some(class.tag),
            None => None,
        }
    }

    /// Gives `dst` the classification recorded for `src`; where nothing is
    /// recorded for `src` the store stays as it is.
    pub fn propagate(&mut self, dst: String, src: &String)
        ensures
            final(self)@ == (if old(self)@.contains_key(src@) {
                old(self)@.insert(dst@, old(self)@[src@])
            } else {
                old(self)@
            }),
    {
        match self.classification(src) {
            Some(class) => self.set_binding(dst, class.kind, class.tag),
            None => {},
        }
    }

    /// Forgets every binding: called on entry to a new body.
    pub fn clear_body(&mut self)
        ensures
            final(self)@ == Map::<Seq<char>, Classification>::empty(),
    {
        self.entries.clear();
    }
}

} // verus!
