//! Dispatch by naming convention: a handler is a method named
//! `command_<label>`, and unmatched commands go to `command_unknown`.

use crate::error::CompileError;
use crate::extract::Mode;
use crate::naming::find_named_handlers;
use crate::pass::{expansion, synthesize};
use crate::rewrite::{rewrite, Item};
use crate::syntax::{Argument, Declaration};
use vstd::prelude::*;

verus! {

/// The marker decorator itself changes nothing: the declaration it stands on
/// is kept as it is.
pub fn command_func(_attr: Vec<Argument>, item: Declaration) -> (r: Declaration)
    ensures
        r == item,
{
    item
}

/// Augments the declarations of one dispatcher with the `handle_command`
/// method that dispatches to its methods named `command_<label>`.
pub fn command_handler(_attr: Vec<Argument>, item: Vec<Declaration>) -> (r: Result<
    Vec<Item>,
    CompileError,
>)
    ensures
        match expansion(Mode::NamingConvention, item.deep_view()) {
            Ok(out) => r matches Ok(v) && v.deep_view() == out,
            Err(diagnostic) => r matches Err(e) && e@ == diagnostic,
        },
{
    let handlers = find_named_handlers(&item);
    match synthesize(Mode::NamingConvention, &handlers) {
        Ok(method) => Ok(rewrite(method, item)),
        Err(e) => Err(e),
    }
}

} // verus!
