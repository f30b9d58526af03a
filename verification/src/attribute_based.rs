//! Dispatch by explicit annotation: a handler carries `command("<label>")`,
//! and unmatched commands go to a callback of the caller.

use crate::error::CompileError;
use crate::extract::Mode;
use crate::finder::CommandFuncFinder;
use crate::pass::{expansion, synthesize};
use crate::rewrite::{rewrite, Item};
use crate::syntax::{Argument, Declaration};
use vstd::prelude::*;

verus! {

/// The marker decorator itself changes nothing: the declaration it stands on
/// is kept as it is.
pub fn command(_attr: Vec<Argument>, item: Declaration) -> (r: Declaration)
    ensures
        r == item,
{
    item
}

/// Augments the declarations of one dispatcher with the `handle_command`
/// method that dispatches to its annotated handlers.
pub fn command_handler(_attr: Vec<Argument>, item: Vec<Declaration>) -> (r: Result<
    Vec<Item>,
    CompileError,
>)
    ensures
        match expansion(Mode::Annotation, item.deep_view()) {
            Ok(out) => r matches Ok(v) && v.deep_view() == out,
            Err(diagnostic) => r matches Err(e) && e@ == diagnostic,
        },
{
    let mut visitor = CommandFuncFinder::new();
    match visitor.visit_item_impl(&item) {
        Ok(()) => {
            match synthesize(Mode::Annotation, &visitor.handlers) {
                Ok(method) => Ok(rewrite(method, item)),
                Err(e) => Err(e),
            }
        },
        Err(e) => Err(e),
    }
}

} // verus!
