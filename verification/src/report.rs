//! Diagnostics: when a call is a violation, and what is said of it.

use vstd::prelude::*;
use vstd::string::StringExecFns;
use crate::model::Location;
use crate::tag::SafetyTag;

verus! {

/// The shape of a call that a diagnostic speaks of.
#[derive(Clone, Copy, Debug, PartialEq, Eq, Structural)]
pub enum CallShape {
    /// `receiver.method(..)`.
    Method,
    /// A call through a binding that holds a closure.
    Closure,
    /// A call through a binding that holds a function reference.
    FunctionRef,
    /// A direct call of a declared function.
    Function,
}

/// How severe a diagnostic is. Every diagnostic of the checker is a warning;
/// whether warnings stop a build is for the caller to decide.
#[derive(Clone, Copy, Debug, PartialEq, Eq, Structural)]
pub enum Severity {
    Warning,
}

/// A warning about one call site.
#[derive(Debug)]
pub struct Diagnostic {
    /// Where the call stands.
    pub location: Location,
    /// The shape of the call.
    pub shape: CallShape,
    /// The path of the declaration called, or the name of the binding.
    pub callee: String,
}

/// A diagnostic as a mathematical value.
pub ghost struct DiagnosticView {
    pub location: Location,
    pub shape: CallShape,
    pub callee: Seq<char>,
}

impl View for Diagnostic {
    type V = DiagnosticView;

    open spec fn view(&self) -> DiagnosticView {
        DiagnosticView { location: self.location, shape: self.shape, callee: self.callee@ }
    }
}

/// The reason that a diagnostic gives for a call of the given shape.
pub open spec fn reason_text(shape: CallShape) -> Seq<char> {
    match shape {
        CallShape::Method => "realtime function calls a non-realtime method: "@,
        CallShape::Closure => "Nonrealtime Closure call detected: "@,
        CallShape::FunctionRef => "Nonrealtime Fn-ptr call detected: "@,
        CallShape::Function => "nonrealtime function call detected: "@,
    }
}

/// The message of a diagnostic: the reason, then the callee.
pub open spec fn message_text(shape: CallShape, callee: Seq<char>) -> Seq<char> {
    reason_text(shape) + callee
}

impl Diagnostic {
    /// The severity: always a warning.
    pub fn severity(&self) -> (level: Severity)
        ensures
            level == Severity::Warning,
    {
        Severity::Warning
    }

    /// The human-readable message.
    pub fn message(&self) -> (text: String)
        ensures
            text@ == message_text(self.shape, self.callee@),
    {
        let reason = match self.shape {
            CallShape::Method => "realtime function calls a non-realtime method: ",
            CallShape::Closure => "Nonrealtime Closure call detected: ",
            CallShape::FunctionRef => "Nonrealtime Fn-ptr call detected: ",
            CallShape::Function => "nonrealtime function call detected: ",
        };
        let mut text = String::from_str(reason);
        text.append(self.callee.as_str());
        text
    }
}

/// Emits a diagnostic for a call exactly when the call stands in a realtime
/// context and its callee is non-realtime.
pub fn report_if_violation(
    in_realtime: bool,
    callee_tag: SafetyTag,
    location: Location,
    shape: CallShape,
    callee: String,
) -> (diagnostic: Option<Diagnostic>)
    ensures
        diagnostic is Some <==> callee_tag.violates(in_realtime),
        diagnostic matches Some(d) ==> d@ == (DiagnosticView { location, shape, callee: callee@ }),
{
    if in_realtime && callee_tag == SafetyTag::NonRealtime {
        Some(Diagnostic { location, shape, callee })
    } else {
        None
    }
}

} // verus!
