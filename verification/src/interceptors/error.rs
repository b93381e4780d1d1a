//! Errors that hooks raise and that the dispatcher reports.

use super::hook::Hook;
use vstd::prelude::*;
use vstd::string::StringExecFns;

verus! {

/// An error raised by code that plugs into the runtime: a hook, a signer, a
/// resolver. The runtime passes it on without looking inside.
#[derive(Debug)]
pub struct BoxError {
    message: String,
}

impl View for BoxError {
    type V = Seq<char>;

    /// The error's message.
    closed spec fn view(&self) -> Seq<char> {
        self.message@
    }
}

impl BoxError {
    /// An error with the given message.
    pub fn new(message: &str) -> (r: Self)
        ensures
            r@ == message@,
    {
        BoxError { message: String::from_str(message) }
    }

    /// The error's message.
    pub fn message(&self) -> (r: &str)
        ensures
            r@ == self@,
    {
        self.message.as_str()
    }
}

/// What a dispatch pass failed with.
#[derive(Debug)]
pub enum InterceptorError {
    /// The named hook of some interceptor returned `source`.
    Hook { hook: Hook, source: BoxError },
    /// A modify hook handed the context back with a message of another
    /// logical type, or in a state that the hook's phase does not allow.
    TypeConstraint { hook: Hook },
}

impl InterceptorError {
    /// The hook point at which the error arose.
    pub fn hook(&self) -> (r: Hook)
        ensures
            r == match *self {
                InterceptorError::Hook { hook, .. } => hook,
                InterceptorError::TypeConstraint { hook } => hook,
            },
    {
        match self {
            InterceptorError::Hook { hook, .. } => *hook,
            InterceptorError::TypeConstraint { hook } => *hook,
        }
    }

    /// The error that the hook returned; none for a type-constraint violation.
    pub fn source(&self) -> (r: Option<&BoxError>)
        ensures
            match *self {
                InterceptorError::Hook { source, .. } => r == Some(&source),
                InterceptorError::TypeConstraint { .. } => r is None,
            },
    {
        match self {
            InterceptorError::Hook { source, .. } => Some(source),
            InterceptorError::TypeConstraint { .. } => None,
        }
    }

    /// Whether the error is a type-constraint violation, which no retry
    /// can mend.
    pub fn is_type_constraint(&self) -> (r: bool)
        ensures
            r == (*self is TypeConstraint),
    {
        match self {
            InterceptorError::Hook { .. } => false,
            InterceptorError::TypeConstraint { .. } => true,
        }
    }
}

} // verus!
