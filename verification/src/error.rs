//! Diagnostics of the compiler pass.

use vstd::prelude::*;
use vstd::string::StringExecFns;

verus! {

/// What is wrong where a `command` decorator has no argument.
pub const REASON_MISSING: &'static str = "a string literal is expected as its argument, and it has none";

/// What is wrong where a `command` decorator has several arguments.
pub const REASON_TOO_MANY: &'static str =
    "a string literal is expected as its only argument, and it has more than one";

/// What is wrong where the argument of a `command` decorator is no string.
pub const REASON_NOT_STRING: &'static str =
    "a string literal is expected as its argument, and it has something else";

/// How the message for a malformed decorator begins.
pub const MALFORMED_HEAD: &'static str = "malformed `command` decorator on `";

/// What follows the declaration in the message for a malformed decorator.
pub const MALFORMED_MID: &'static str = "`: ";

/// How the message for a duplicate label begins.
pub const DUPLICATE_HEAD: &'static str = "duplicate command label `";

/// What follows the label in the message for a duplicate label.
pub const DUPLICATE_MID: &'static str = "`: declared by `";

/// What stands between the two declarations in the message for a duplicate
/// label.
pub const DUPLICATE_AND: &'static str = "` and by `";

/// How the message for a duplicate label ends.
pub const DUPLICATE_END: &'static str = "`";

/// Why the argument list of a `command` decorator does not give a label.
#[derive(Clone, Copy, Debug, PartialEq, Eq, Structural)]
pub enum ArgumentError {
    /// The decorator has no argument.
    Missing,
    /// The decorator has more than one argument.
    TooMany,
    /// The sole argument is not a string literal.
    NotString,
}

impl ArgumentError {
    /// What is wrong, in words.
    pub open spec fn text(self) -> Seq<char> {
        match self {
            ArgumentError::Missing => REASON_MISSING@,
            ArgumentError::TooMany => REASON_TOO_MANY@,
            ArgumentError::NotString => REASON_NOT_STRING@,
        }
    }

    /// What is wrong, in words.
    pub fn describe(&self) -> (r: &'static str)
        ensures
            r@ == self.text(),
    {
        match self {
            ArgumentError::Missing => REASON_MISSING,
            ArgumentError::TooMany => REASON_TOO_MANY,
            ArgumentError::NotString => REASON_NOT_STRING,
        }
    }
}

/// A fatal error that aborts the pass over one dispatcher.
#[derive(Clone, Debug, PartialEq, Eq)]
pub enum CompileError {
    /// The `command` decorator of `declaration` carries no usable label.
    MalformedDecorator { declaration: String, reason: ArgumentError },
    /// The declarations `first` and `second` both claim `label`.
    DuplicateLabel { label: String, first: String, second: String },
}

/// Mathematical model of a [`CompileError`].
#[verifier::ext_equal]
pub ghost enum CompileErrorView {
    MalformedDecorator { declaration: Seq<char>, reason: ArgumentError },
    DuplicateLabel { label: Seq<char>, first: Seq<char>, second: Seq<char> },
}

impl View for CompileError {
    type V = CompileErrorView;

    open spec fn view(&self) -> CompileErrorView {
        match self {
            CompileError::MalformedDecorator { declaration, reason } => {
                CompileErrorView::MalformedDecorator { declaration: declaration@, reason: *reason }
            },
            CompileError::DuplicateLabel { label, first, second } => {
                CompileErrorView::DuplicateLabel { label: label@, first: first@, second: second@ }
            },
        }
    }
}

impl CompileErrorView {
    /// The diagnostic as a line of text. It names the declarations at fault.
    pub open spec fn message(self) -> Seq<char> {
        match self {
            CompileErrorView::MalformedDecorator { declaration, reason } => MALFORMED_HEAD@
                + declaration + MALFORMED_MID@ + reason.text(),
            CompileErrorView::DuplicateLabel { label, first, second } => DUPLICATE_HEAD@ + label
                + DUPLICATE_MID@ + first + DUPLICATE_AND@ + second + DUPLICATE_END@,
        }
    }
}

impl CompileError {
    /// The diagnostic as a line of text. It names the declarations at fault.
    pub fn message(&self) -> (r: String)
        ensures
            r@ == self@.message(),
    {
        match self {
            CompileError::MalformedDecorator { declaration, reason } => {
                let mut out = MALFORMED_HEAD.to_owned();
                out.append(declaration.as_str());
                out.append(MALFORMED_MID);
                out.append(reason.describe());
                out
            },
            CompileError::DuplicateLabel { label, first, second } => {
                let mut out = DUPLICATE_HEAD.to_owned();
                out.append(label.as_str());
                out.append(DUPLICATE_MID);
                out.append(first.as_str());
                out.append(DUPLICATE_AND);
                out.append(second.as_str());
                out.append(DUPLICATE_END);
                out
            },
        }
    }
}

} // verus!
