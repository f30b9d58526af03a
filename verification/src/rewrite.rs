//! Placing the synthesized method in front of the original declarations.

use crate::emit::{DispatchMethod, DispatchView};
use crate::syntax::{Declaration, DeclarationView};
use vstd::prelude::*;

verus! {

/// One item of the augmented declaration set.
#[derive(Debug, PartialEq, Eq)]
pub enum Item {
    /// The synthesized `handle_command` method.
    Synthesized(DispatchMethod),
    /// A declaration of the dispatcher, as it was.
    Original(Declaration),
}

/// Mathematical model of an [`Item`].
#[verifier::ext_equal]
pub ghost enum ItemView {
    Synthesized(DispatchView),
    Original(DeclarationView),
}

impl View for Item {
    type V = ItemView;

    open spec fn view(&self) -> ItemView {
        match self {
            Item::Synthesized(method) => ItemView::Synthesized(method@),
            Item::Original(declaration) => ItemView::Original(declaration@),
        }
    }
}

impl DeepView for Item {
    type V = ItemView;

    open spec fn deep_view(&self) -> ItemView {
        self@
    }
}

/// The augmented declaration set: the synthesized method, then every
/// original declaration in its place.
pub open spec fn augmented(method: DispatchView, items: Seq<DeclarationView>) -> Seq<ItemView> {
    Seq::new(
        items.len() + 1,
        |i: int|
            if i == 0 {
                ItemView::Synthesized(method)
            } else {
                ItemView::Original(items[i - 1])
            },
    )
}

/// Merges the synthesized method into the declarations of its dispatcher.
pub fn rewrite(method: DispatchMethod, items: Vec<Declaration>) -> (r: Vec<Item>)
    ensures
        r.deep_view() == augmented(method@, items.deep_view()),
{
    let ghost wanted = augmented(method@, items.deep_view());
    let mut new_items: Vec<Item> = Vec::new();
    new_items.push(Item::Synthesized(method));
    for declaration in it: items
        invariant
            wanted.len() == it.seq().len() + 1,
            forall|k: int| 0 <= k < it.seq().len() ==> wanted[k + 1] == ItemView::Original(
                (#[trigger] it.seq()[k])@,
            ),
            new_items.deep_view() == wanted.take(it.index() + 1),
    {
        let ghost before = new_items.deep_view();
        new_items.push(Item::Original(declaration));
        assert(new_items.deep_view() =~= before.push(wanted[it.index() + 1]));
    }
    new_items
}

} // verus!
