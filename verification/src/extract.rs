//! Which declarations are command handlers, and for which labels.

use crate::error::{ArgumentError, CompileErrorView};
use crate::syntax::{DeclarationKind, DeclarationView, DecoratorView};
use vstd::prelude::*;

verus! {

/// The prefix that marks a handler under the naming convention.
pub const PREFIX: &'static str = "command_";

/// The reserved name of the fallback handler under the naming convention.
pub const FALLBACK: &'static str = "command_unknown";

/// How handlers are told apart from the other declarations.
#[derive(Clone, Copy, Debug, PartialEq, Eq, Structural)]
pub enum Mode {
    /// A handler carries an outer decorator `command("<label>")`.
    Annotation,
    /// A handler is a method named `command_<label>`.
    NamingConvention,
}

/// A handler found among the declarations, with the label that selects it.
#[derive(Clone, Debug, PartialEq, Eq)]
pub struct HandlerDeclaration {
    pub declared_name: String,
    pub command_label: String,
    pub parameter_signature: String,
}

/// Mathematical model of a [`HandlerDeclaration`].
#[verifier::ext_equal]
pub ghost struct HandlerView {
    pub declared_name: Seq<char>,
    pub command_label: Seq<char>,
    pub parameter_signature: Seq<char>,
}

impl View for HandlerDeclaration {
    type V = HandlerView;

    open spec fn view(&self) -> HandlerView {
        HandlerView {
            declared_name: self.declared_name@,
            command_label: self.command_label@,
            parameter_signature: self.parameter_signature@,
        }
    }
}

impl DeepView for HandlerDeclaration {
    type V = HandlerView;

    open spec fn deep_view(&self) -> HandlerView {
        self@
    }
}

/// Whether one declaration is a command handler.
#[verifier::ext_equal]
pub ghost enum Qualification {
    /// Not a command handler.
    NotHandler,
    /// The handler for this label.
    Handler(Seq<char>),
    /// Marked as a handler, but without a usable label.
    Malformed(ArgumentError),
}

/// Reads the decorators from position `from` on. The first outer `command`
/// decorator decides; whatever follows it is not looked at.
pub open spec fn scan_from(decorators: Seq<DecoratorView>, from: int) -> Qualification
    decreases decorators.len() - from,
{
    if from < 0 || from >= decorators.len() {
        Qualification::NotHandler
    } else if decorators[from].is_command_marker() {
        match decorators[from].command_label() {
            Ok(label) => Qualification::Handler(label),
            Err(reason) => Qualification::Malformed(reason),
        }
    } else {
        scan_from(decorators, from + 1)
    }
}

/// The label that the naming convention gives a method of this name: what
/// follows the prefix `command_`, unless the name is the reserved one of the
/// fallback handler.
pub open spec fn named_label(name: Seq<char>) -> Option<Seq<char>> {
    if PREFIX@.is_prefix_of(name) && name != FALLBACK@ {
        Some(name.skip(PREFIX@.len() as int))
    } else {
        None
    }
}

impl DeclarationView {
    /// What the decorators say about this declaration.
    pub open spec fn scan(self) -> Qualification {
        scan_from(self.decorators, 0)
    }

    /// Whether this declaration is a command handler under `mode`, and for
    /// which label. Only methods qualify.
    pub open spec fn qualification(self, mode: Mode) -> Qualification {
        if self.kind != DeclarationKind::Method {
            Qualification::NotHandler
        } else {
            match mode {
                Mode::Annotation => self.scan(),
                Mode::NamingConvention => match named_label(self.name) {
                    Some(label) => Qualification::Handler(label),
                    None => Qualification::NotHandler,
                },
            }
        }
    }

    /// The record of this declaration as the handler for `label`.
    pub open spec fn handler(self, label: Seq<char>) -> HandlerView {
        HandlerView {
            declared_name: self.name,
            command_label: label,
            parameter_signature: self.parameters,
        }
    }
}

/// The diagnostic for a declaration whose `command` decorator is malformed.
pub open spec fn malformed(declaration: DeclarationView, reason: ArgumentError) -> CompileErrorView {
    CompileErrorView::MalformedDecorator { declaration: declaration.name, reason }
}

/// The handler records of `items` in declaration order, or the diagnostic for
/// the first declaration that is marked as a handler without a usable label.
pub open spec fn extract(mode: Mode, items: Seq<DeclarationView>) -> Result<
    Seq<HandlerView>,
    CompileErrorView,
>
    decreases items.len(),
{
    if items.len() == 0 {
        Ok(Seq::empty())
    } else {
        match extract(mode, items.drop_last()) {
            Err(e) => Err(e),
            Ok(handlers) => match items.last().qualification(mode) {
                Qualification::NotHandler => Ok(handlers),
                Qualification::Handler(label) => Ok(handlers.push(items.last().handler(label))),
                Qualification::Malformed(reason) => Err(malformed(items.last(), reason)),
            },
        }
    }
}

/// Extending the declarations by one more changes the outcome as that one
/// declaration says.
pub proof fn lemma_extract_step(mode: Mode, items: Seq<DeclarationView>, n: int)
    requires
        0 <= n < items.len(),
    ensures
        extract(mode, items.take(n + 1)) == match extract(mode, items.take(n)) {
            Err(e) => Err(e),
            Ok(handlers) => match items[n].qualification(mode) {
                Qualification::NotHandler => Ok(handlers),
                Qualification::Handler(label) => Ok(handlers.push(items[n].handler(label))),
                Qualification::Malformed(reason) => Err(malformed(items[n], reason)),
            },
        },
{
    assert(items.take(n + 1).drop_last() =~= items.take(n));
    assert(items.take(n + 1).last() == items[n]);
}

/// A diagnostic raised on a prefix of the declarations is the diagnostic of
/// the whole.
pub proof fn lemma_extract_error_persists(mode: Mode, items: Seq<DeclarationView>, n: int)
    requires
        0 <= n <= items.len(),
        extract(mode, items.take(n)) is Err,
    ensures
        extract(mode, items) == extract(mode, items.take(n)),
    decreases items.len() - n,
{
    if n == items.len() {
        assert(items.take(n) =~= items);
    } else {
        lemma_extract_step(mode, items, n);
        lemma_extract_error_persists(mode, items, n + 1);
    }
}

} // verus!
