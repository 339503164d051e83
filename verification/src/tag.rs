//! The vocabulary of safety classifications.

use vstd::prelude::*;

verus! {

/// The safety classification of a callable.
#[derive(Clone, Copy, Debug, PartialEq, Eq, Structural)]
pub enum SafetyTag {
    /// Declared to meet hard timing constraints.
    Realtime,
    /// Declared as possibly allocating, blocking or doing I/O.
    NonRealtime,
    /// Nothing is known: never a reason for a diagnostic.
    Unclassified,
}

/// The tag that a marker reading stands for: `Some(true)` is realtime,
/// `Some(false)` is non-realtime, and no marker leaves the target unclassified.
pub open spec fn tag_of_marker(marker: Option<bool>) -> SafetyTag {
    match marker {
        Some(true) => SafetyTag::Realtime,
        Some(false) => SafetyTag::NonRealtime,
        None => SafetyTag::Unclassified,
    }
}

impl SafetyTag {
    /// Turns a marker reading into a tag.
    pub fn from_marker(marker: Option<bool>) -> (tag: SafetyTag)
        ensures
            tag == tag_of_marker(marker),
    {
        match marker {
            Some(true) => SafetyTag::Realtime,
            Some(false) => SafetyTag::NonRealtime,
            None => SafetyTag::Unclassified,
        }
    }

    /// Whether a call to a target with this tag is a violation in the given
    /// context: only a confirmed non-realtime target inside a realtime
    /// context is.
    pub open spec fn violates(self, in_realtime: bool) -> bool {
        in_realtime && self == SafetyTag::NonRealtime
    }
}

} // verus!
