//! The compiler pass over one dispatcher: extraction, table, emission and
//! rewrite, in that order.

use crate::emit::{DispatchMethod, DispatchView, Fallback, FallbackView};
use crate::error::{CompileError, CompileErrorView};
use crate::extract::{extract, HandlerDeclaration, HandlerView, Mode, FALLBACK};
use crate::finder::CommandFuncFinder;
use crate::naming::find_named_handlers;
use crate::rewrite::{augmented, ItemView};
use crate::syntax::{Declaration, DeclarationView};
use crate::table::{build_spec, entries_of, CommandTable};
use vstd::prelude::*;

verus! {

/// The fallback that goes with each mode.
pub open spec fn fallback_of(mode: Mode) -> FallbackView {
    match mode {
        Mode::Annotation => FallbackView::Callback,
        Mode::NamingConvention => FallbackView::ReservedMethod(FALLBACK@),
    }
}

/// The method synthesized for the handler records, or the diagnostic for the
/// first label that occurs twice.
pub open spec fn synthesized(mode: Mode, handlers: Seq<HandlerView>) -> Result<
    DispatchView,
    CompileErrorView,
> {
    match build_spec(entries_of(handlers)) {
        Ok(arms) => Ok(DispatchView { arms, fallback: fallback_of(mode) }),
        Err(diagnostic) => Err(diagnostic),
    }
}

/// The method that the pass synthesizes for the declarations of one
/// dispatcher, or the diagnostic that aborts the pass.
pub open spec fn dispatch_method(mode: Mode, items: Seq<DeclarationView>) -> Result<
    DispatchView,
    CompileErrorView,
> {
    match extract(mode, items) {
        Ok(handlers) => synthesized(mode, handlers),
        Err(diagnostic) => Err(diagnostic),
    }
}

/// The outcome of the whole pass: the augmented declaration set, or the
/// diagnostic that aborts the pass.
pub open spec fn expansion(mode: Mode, items: Seq<DeclarationView>) -> Result<
    Seq<ItemView>,
    CompileErrorView,
> {
    match dispatch_method(mode, items) {
        Ok(method) => Ok(augmented(method, items)),
        Err(diagnostic) => Err(diagnostic),
    }
}

/// The fallback that goes with `mode`.
pub fn fallback_for(mode: Mode) -> (r: Fallback)
    ensures
        r@ == fallback_of(mode),
{
    match mode {
        Mode::Annotation => Fallback::Callback,
        Mode::NamingConvention => Fallback::ReservedMethod(FALLBACK.to_owned()),
    }
}

/// Builds the command table from the handler records and synthesizes the
/// method that dispatches over it.
pub fn synthesize(mode: Mode, handlers: &Vec<HandlerDeclaration>) -> (r: Result<
    DispatchMethod,
    CompileError,
>)
    ensures
        match synthesized(mode, handlers.deep_view()) {
            Ok(method) => r matches Ok(m) && m@ == method,
            Err(diagnostic) => r matches Err(e) && e@ == diagnostic,
        },
{
    match CommandTable::build(handlers) {
        Ok(table) => Ok(DispatchMethod::emit(table, fallback_for(mode))),
        Err(e) => Err(e),
    }
}

/// Finds the handlers among the declarations as `mode` says, builds the
/// command table and synthesizes the method that dispatches over it.
pub fn synthesize_from(mode: Mode, items: &Vec<Declaration>) -> (r: Result<
    DispatchMethod,
    CompileError,
>)
    ensures
        match dispatch_method(mode, items.deep_view()) {
            Ok(method) => r matches Ok(m) && m@ == method,
            Err(diagnostic) => r matches Err(e) && e@ == diagnostic,
        },
{
    match mode {
        Mode::Annotation => {
            let mut visitor = CommandFuncFinder::new();
            match visitor.visit_item_impl(items) {
                Ok(()) => {
                    synthesize(mode, &visitor.handlers)
                },
                Err(e) => Err(e),
            }
        },
        Mode::NamingConvention => {
            let handlers = find_named_handlers(items);
            synthesize(mode, &handlers)
        },
    }
}

} // verus!
