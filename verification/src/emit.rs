//! The synthesized `handle_command` method: an exact match over the command
//! table with a default branch.

use crate::table::{table_of, CommandTable, EntryView};
use vstd::prelude::*;

verus! {

/// Where an unmatched command goes.
#[derive(Debug, PartialEq, Eq)]
pub enum Fallback {
    /// To a one-shot callback that the caller of `handle_command` passes in.
    Callback,
    /// To the method of this reserved name among the dispatcher's own.
    ReservedMethod(String),
}

/// Mathematical model of a [`Fallback`].
#[verifier::ext_equal]
pub ghost enum FallbackView {
    Callback,
    ReservedMethod(Seq<char>),
}

impl View for Fallback {
    type V = FallbackView;

    open spec fn view(&self) -> FallbackView {
        match self {
            Fallback::Callback => FallbackView::Callback,
            Fallback::ReservedMethod(name) => FallbackView::ReservedMethod(name@),
        }
    }
}

/// The one call that `handle_command` makes for a command.
#[derive(Debug, PartialEq, Eq)]
pub enum Invocation<'a> {
    /// `self.<handler>(args)`
    Handler { handler: &'a str, args: &'a [String] },
    /// `fallback(command, args)`, the callback being the caller's.
    Callback { command: &'a str, args: &'a [String] },
    /// `self.<handler>(command, args)`, the handler being the reserved one.
    Reserved { handler: &'a str, command: &'a str, args: &'a [String] },
}

/// Mathematical model of an [`Invocation`].
#[verifier::ext_equal]
pub ghost enum InvocationView {
    Handler { handler: Seq<char>, args: Seq<Seq<char>> },
    Callback { command: Seq<char>, args: Seq<Seq<char>> },
    Reserved { handler: Seq<char>, command: Seq<char>, args: Seq<Seq<char>> },
}

impl<'a> View for Invocation<'a> {
    type V = InvocationView;

    open spec fn view(&self) -> InvocationView {
        match self {
            Invocation::Handler { handler, args } => InvocationView::Handler {
                handler: handler@,
                args: args.deep_view(),
            },
            Invocation::Callback { command, args } => InvocationView::Callback {
                command: command@,
                args: args.deep_view(),
            },
            Invocation::Reserved { handler, command, args } => InvocationView::Reserved {
                handler: handler@,
                command: command@,
                args: args.deep_view(),
            },
        }
    }
}

impl<'a> Invocation<'a> {
    /// The argument list that is handed on.
    pub open spec fn forwarded(self) -> &'a [String] {
        match self {
            Invocation::Handler { args, .. } => args,
            Invocation::Callback { args, .. } => args,
            Invocation::Reserved { args, .. } => args,
        }
    }
}

/// The synthesized method.
#[derive(Debug, PartialEq, Eq)]
pub struct DispatchMethod {
    pub table: CommandTable,
    pub fallback: Fallback,
}

/// Mathematical model of a [`DispatchMethod`]: the match arms in the order
/// in which they are laid out, and the default branch.
#[verifier::ext_equal]
pub ghost struct DispatchView {
    pub arms: Seq<EntryView>,
    pub fallback: FallbackView,
}

impl DispatchView {
    /// The call that the method makes for `command` with `args`: the handler
    /// entered for exactly this command, or else the fallback.
    pub open spec fn dispatch(self, command: Seq<char>, args: Seq<Seq<char>>) -> InvocationView {
        let table = table_of(self.arms);
        if table.dom().contains(command) {
            InvocationView::Handler { handler: table[command], args }
        } else {
            match self.fallback {
                FallbackView::Callback => InvocationView::Callback { command, args },
                FallbackView::ReservedMethod(handler) => InvocationView::Reserved {
                    handler,
                    command,
                    args,
                },
            }
        }
    }
}

impl View for DispatchMethod {
    type V = DispatchView;

    open spec fn view(&self) -> DispatchView {
        DispatchView { arms: self.table.entries(), fallback: self.fallback@ }
    }
}

impl DispatchMethod {
    /// Synthesizes the method for a command table and a fallback.
    pub fn emit(table: CommandTable, fallback: Fallback) -> (r: DispatchMethod)
        ensures
            r@ == (DispatchView { arms: table.entries(), fallback: fallback@ }),
    {
        DispatchMethod { table, fallback }
    }

    /// What the synthesized method does when it runs: it selects the one
    /// call to make for `command` and hands `command_args` on as they are.
    pub fn handle_command<'a>(&'a self, command: &'a str, command_args: &'a [String]) -> (r:
        Invocation<'a>)
        ensures
            r@ == self@.dispatch(command@, command_args.deep_view()),
            r.forwarded() == command_args,
    {
        match self.table.lookup(command) {
            Some(handler) => Invocation::Handler { handler: handler.as_str(), args: command_args },
            None => match &self.fallback {
                Fallback::Callback => Invocation::Callback { command, args: command_args },
                Fallback::ReservedMethod(name) => Invocation::Reserved {
                    handler: name.as_str(),
                    command,
                    args: command_args,
                },
            },
        }
    }
}

} // verus!
