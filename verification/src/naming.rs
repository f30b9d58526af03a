//! Metadata extraction for dispatchers whose handlers are named
//! `command_<label>`.

use crate::extract::{
    extract, lemma_extract_step, named_label, HandlerDeclaration, HandlerView, Mode, FALLBACK,
    PREFIX,
};
use crate::syntax::{Declaration, DeclarationKind};
use vstd::prelude::*;
use vstd::string::StrSliceExecFns;

verus! {

/// The command label that the naming convention gives a method called
/// `name`, if it gives one.
pub fn label_of_name(name: &str) -> (r: Option<String>)
    ensures
        match named_label(name@) {
            Some(label) => r matches Some(s) && s@ == label,
            None => r is None,
        },
{
    let n = name.unicode_len();
    let p = PREFIX.unicode_len();
    if n < p {
        return None;
    }
    let head = name.substring_char(0, p).to_owned();
    if head == PREFIX.to_owned() {
        if name.to_owned() == FALLBACK.to_owned() {
            None
        } else {
            let label = name.substring_char(p, n).to_owned();
            Some(label)
        }
    } else {
        None
    }
}

/// The handlers among the methods of `items` under the naming convention, in
/// declaration order.
pub fn find_named_handlers(items: &Vec<Declaration>) -> (r: Vec<HandlerDeclaration>)
    ensures
        extract(Mode::NamingConvention, items.deep_view()) == Ok::<
            Seq<HandlerView>,
            crate::error::CompileErrorView,
        >(r.deep_view()),
{
    let mut handlers: Vec<HandlerDeclaration> = Vec::new();
    let ghost all = items.deep_view();
    let mut i: usize = 0;
    while i < items.len()
        invariant
            i <= items.len(),
            all == items.deep_view(),
            extract(Mode::NamingConvention, all.take(i as int)) matches Ok(found)
                && handlers.deep_view() == found,
        decreases items.len() - i,
    {
        proof {
            lemma_extract_step(Mode::NamingConvention, all, i as int);
        }
        match items[i].kind {
            DeclarationKind::Method => {
                match label_of_name(items[i].name.as_str()) {
                    Some(label) => {
                        handlers.push(
                            HandlerDeclaration {
                                declared_name: items[i].name.clone(),
                                command_label: label,
                                parameter_signature: items[i].parameters.clone(),
                            },
                        );
                    },
                    None => {},
                }
            },
            DeclarationKind::Other => {},
        }
        i += 1;
    }
    assert(all.take(i as int) =~= all);
    handlers
}

} // verus!
