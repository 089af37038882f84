//! The library's error value: a kind that decisions look at, and the text
//! that the command-line adapter prints.
use vstd::prelude::*;

use crate::text::{chars_of, string_from};

verus! {

/// The error kinds that the product's decisions distinguish.
#[derive(Debug, Clone, Copy, PartialEq, Eq, Structural)]
pub enum FailureKind {
    NotFound,
    PermissionDenied,
    InvalidInput,
    Interrupted,
    TimedOut,
    Other,
}

/// An operational error: its kind and its message.
#[derive(Debug, Clone)]
pub struct Failure {
    pub kind: FailureKind,
    pub message: String,
}

pub struct FailureView {
    pub kind: FailureKind,
    pub message: Seq<char>,
}

impl View for Failure {
    type V = FailureView;

    open spec fn view(&self) -> FailureView {
        FailureView { kind: self.kind, message: self.message@ }
    }
}

impl Failure {
    /// A failure of the given kind whose message is `message`.
    pub fn new(kind: FailureKind, message: &str) -> (f: Failure)
        ensures
            f.kind == kind,
            f.message@ == message@,
    {
        Failure { kind, message: string_from(&chars_of(message)) }
    }

    /// A copy of this failure.
    pub fn duplicate(&self) -> (f: Failure)
        ensures
            f@ == self@,
    {
        Failure { kind: self.kind, message: self.message.clone() }
    }

    /// A failure of the given kind whose message is the given characters.
    pub fn with_text(kind: FailureKind, message: &Vec<char>) -> (f: Failure)
        ensures
            f.kind == kind,
            f.message@ == message@,
    {
        Failure { kind, message: string_from(message) }
    }
}

/// A rejected request.
pub fn invalid_input(message: &str) -> (f: Failure)
    ensures
        f.kind == FailureKind::InvalidInput,
        f.message@ == message@,
{
    Failure::new(FailureKind::InvalidInput, message)
}

} // verus!
