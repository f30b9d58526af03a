//! What holds of every dispatcher that the pass accepts, and of every one
//! that it rejects.

use crate::emit::{DispatchView, InvocationView};
use crate::error::CompileErrorView;
use crate::extract::{
    extract, malformed, scan_from, HandlerView, Mode, Qualification, FALLBACK,
};
use crate::pass::{dispatch_method, expansion, synthesized};
use crate::render::{escaped, lemma_escaped_is_injective, quoted};
use crate::rewrite::ItemView;
use crate::syntax::{DeclarationView, DecoratorView};
use crate::table::{
    entries_of, first_duplicate, has_label, labels_distinct, lemma_build_spec_rejects,
    lemma_first_duplicate_exists, lemma_table_of_row, table_of,
};
use vstd::prelude::*;

verus! {

/// Decorator `j` is the first outer `command` decorator.
pub open spec fn first_marker(decorators: Seq<DecoratorView>, j: int) -> bool {
    &&& 0 <= j < decorators.len()
    &&& decorators[j].is_command_marker()
    &&& forall|k: int| 0 <= k < j ==> !(#[trigger] decorators[k]).is_command_marker()
}

/// The first outer `command` decorator decides alone whether its
/// declaration is a handler: its label is the label, and a fault in it is
/// the fault. What stands before it and what follows it do not matter.
pub proof fn lemma_first_marker_decides(decorators: Seq<DecoratorView>, j: int)
    requires
        first_marker(decorators, j),
    ensures
        scan_from(decorators, 0) == match decorators[j].command_label() {
            Ok(label) => Qualification::Handler(label),
            Err(reason) => Qualification::Malformed(reason),
        },
{
    lemma_scan_skips(decorators, 0, j);
}

/// Without an outer `command` decorator a declaration is no handler.
pub proof fn lemma_unmarked_is_no_handler(decorators: Seq<DecoratorView>)
    requires
        forall|k: int| 0 <= k < decorators.len() ==> !(#[trigger] decorators[k]).is_command_marker(),
    ensures
        scan_from(decorators, 0) == Qualification::NotHandler,
{
    lemma_scan_skips(decorators, 0, decorators.len() as int);
}

/// Reading from `from` on is reading from `to` on, where nothing between
/// them is an outer `command` decorator.
pub proof fn lemma_scan_skips(decorators: Seq<DecoratorView>, from: int, to: int)
    requires
        0 <= from <= to <= decorators.len(),
        forall|k: int| from <= k < to ==> !(#[trigger] decorators[k]).is_command_marker(),
    ensures
        scan_from(decorators, from) == scan_from(decorators, to),
    decreases to - from,
{
    if from < to {
        lemma_scan_skips(decorators, from + 1, to);
    }
}

/// Declaration `i` is the first that is marked as a handler without a
/// usable label.
pub open spec fn first_malformed(mode: Mode, items: Seq<DeclarationView>, i: int) -> bool {
    &&& 0 <= i < items.len()
    &&& items[i].qualification(mode) is Malformed
    &&& forall|k: int| 0 <= k < i ==> !((#[trigger] items[k]).qualification(mode) is Malformed)
}

/// Extraction succeeds on every prefix that holds no malformed declaration.
pub proof fn lemma_extract_succeeds(mode: Mode, items: Seq<DeclarationView>)
    requires
        forall|k: int| 0 <= k < items.len() ==> !((#[trigger] items[k]).qualification(mode) is Malformed),
    ensures
        extract(mode, items) is Ok,
    decreases items.len(),
{
    if items.len() > 0 {
        let rest = items.drop_last();
        assert forall|k: int| 0 <= k < rest.len() implies !((#[trigger] rest[k]).qualification(
            mode,
        ) is Malformed) by {
            assert(rest[k] == items[k]);
        }
        lemma_extract_succeeds(mode, rest);
        assert(items.last() == items[items.len() - 1]);
    }
}

/// The first malformed declaration aborts the pass, and the diagnostic
/// names it.
pub proof fn lemma_first_malformed_is_reported(mode: Mode, items: Seq<DeclarationView>, i: int)
    requires
        first_malformed(mode, items, i),
    ensures
        extract(mode, items) == Err::<Seq<HandlerView>, CompileErrorView>(
            malformed(items[i], items[i].qualification(mode)->Malformed_0),
        ),
        dispatch_method(mode, items) == Err::<DispatchView, CompileErrorView>(
            malformed(items[i], items[i].qualification(mode)->Malformed_0),
        ),
{
    let before = items.take(i);
    assert forall|k: int| 0 <= k < before.len() implies !((#[trigger] before[k]).qualification(
        mode,
    ) is Malformed) by {
        assert(before[k] == items[k]);
    }
    lemma_extract_succeeds(mode, before);
    crate::extract::lemma_extract_step(mode, items, i);
    crate::extract::lemma_extract_error_persists(mode, items, i + 1);
}

/// Extraction fails exactly where some declaration is malformed.
pub proof fn lemma_extract_fails_iff(mode: Mode, items: Seq<DeclarationView>)
    ensures
        extract(mode, items) is Err <==> exists|i: int|
            0 <= i < items.len() && (#[trigger] items[i]).qualification(mode) is Malformed,
    decreases items.len(),
{
    if items.len() > 0 {
        let rest = items.drop_last();
        lemma_extract_fails_iff(mode, rest);
        assert(items.last() == items[items.len() - 1]);
        if extract(mode, rest) is Err {
            let i = choose|i: int|
                0 <= i < rest.len() && (#[trigger] rest[i]).qualification(mode) is Malformed;
            assert(items[i] == rest[i]);
        }
        if exists|i: int|
            0 <= i < items.len() && (#[trigger] items[i]).qualification(mode) is Malformed {
            let i = choose|i: int|
                0 <= i < items.len() && (#[trigger] items[i]).qualification(mode) is Malformed;
            if i < rest.len() {
                assert(rest[i] == items[i]);
            }
        }
    }
}

/// Under the naming convention no declaration is malformed: extraction
/// always succeeds, and only a repeated label can abort the pass.
pub proof fn lemma_naming_convention_extracts(items: Seq<DeclarationView>)
    ensures
        extract(Mode::NamingConvention, items) is Ok,
{
    lemma_extract_succeeds(Mode::NamingConvention, items);
}

/// Some declaration of `items` is the handler that the record stands for.
pub open spec fn declared(mode: Mode, items: Seq<DeclarationView>, record: HandlerView) -> bool {
    exists|i: int|
        0 <= i < items.len() && (#[trigger] items[i]).qualification(mode) == Qualification::Handler(
            record.command_label,
        ) && items[i].handler(record.command_label) == record
}

/// Every handler record stems from a declaration that qualifies for the
/// record's label.
pub proof fn lemma_record_is_declared(mode: Mode, items: Seq<DeclarationView>, k: int)
    requires
        extract(mode, items) is Ok,
        0 <= k < extract(mode, items)->Ok_0.len(),
    ensures
        declared(mode, items, extract(mode, items)->Ok_0[k]),
    decreases items.len(),
{
    let rest = items.drop_last();
    let earlier = extract(mode, rest)->Ok_0;
    if k < earlier.len() {
        lemma_record_is_declared(mode, rest, k);
        let i = choose|i: int|
            0 <= i < rest.len() && (#[trigger] rest[i]).qualification(mode)
                == Qualification::Handler(earlier[k].command_label) && rest[i].handler(
                earlier[k].command_label,
            ) == earlier[k];
        assert(items[i] == rest[i]);
    } else {
        assert(items[items.len() - 1] == items.last());
    }
}

/// Every declaration that qualifies as a handler has its record.
pub proof fn lemma_handler_is_recorded(mode: Mode, items: Seq<DeclarationView>, i: int)
    requires
        extract(mode, items) is Ok,
        0 <= i < items.len(),
        items[i].qualification(mode) is Handler,
    ensures
        extract(mode, items)->Ok_0.contains(
            items[i].handler(items[i].qualification(mode)->Handler_0),
        ),
    decreases items.len(),
{
    let rest = items.drop_last();
    let earlier = extract(mode, rest)->Ok_0;
    let found = extract(mode, items)->Ok_0;
    let record = items[i].handler(items[i].qualification(mode)->Handler_0);
    if i < rest.len() {
        assert(rest[i] == items[i]);
        lemma_handler_is_recorded(mode, rest, i);
        let k = choose|k: int| 0 <= k < earlier.len() && earlier[k] == record;
        assert(found[k] == record);
    } else {
        assert(found[found.len() - 1] == record);
    }
}

/// The pass succeeds exactly where no declaration is malformed and no label
/// is claimed twice.
pub proof fn lemma_pass_succeeds_iff(mode: Mode, items: Seq<DeclarationView>)
    ensures
        expansion(mode, items) is Ok <==> (extract(mode, items) matches Ok(handlers)
            && labels_distinct(entries_of(handlers))),
        expansion(mode, items) is Ok <==> dispatch_method(mode, items) is Ok,
{
}

/// With distinct labels, a command that is the label of a handler makes the
/// synthesized method call exactly that handler, with the arguments as given.
pub proof fn lemma_label_invokes_its_handler(
    mode: Mode,
    handlers: Seq<HandlerView>,
    k: int,
    args: Seq<Seq<char>>,
)
    requires
        labels_distinct(entries_of(handlers)),
        0 <= k < handlers.len(),
    ensures
        synthesized(mode, handlers) is Ok,
        synthesized(mode, handlers)->Ok_0.dispatch(handlers[k].command_label, args) == (
        InvocationView::Handler { handler: handlers[k].declared_name, args }),
{
    lemma_table_of_row(entries_of(handlers), k);
}

/// The same, from the declarations: where the pass succeeds, the label of
/// each handler among the declarations makes the synthesized method call
/// that declaration, with the arguments as given.
pub proof fn lemma_declared_handler_is_invoked(
    mode: Mode,
    items: Seq<DeclarationView>,
    i: int,
    args: Seq<Seq<char>>,
)
    requires
        dispatch_method(mode, items) is Ok,
        0 <= i < items.len(),
        items[i].qualification(mode) is Handler,
    ensures
        dispatch_method(mode, items)->Ok_0.dispatch(
            items[i].qualification(mode)->Handler_0,
            args,
        ) == (InvocationView::Handler { handler: items[i].name, args }),
{
    let handlers = extract(mode, items)->Ok_0;
    let record = items[i].handler(items[i].qualification(mode)->Handler_0);
    lemma_handler_is_recorded(mode, items, i);
    let k = choose|k: int| 0 <= k < handlers.len() && handlers[k] == record;
    lemma_label_invokes_its_handler(mode, handlers, k, args);
}

/// The call that the fallback of `mode` stands for.
pub open spec fn fallback_call(mode: Mode, command: Seq<char>, args: Seq<Seq<char>>) -> InvocationView {
    match mode {
        Mode::Annotation => InvocationView::Callback { command, args },
        Mode::NamingConvention => InvocationView::Reserved { handler: FALLBACK@, command, args },
    }
}

/// A command that is no handler's label makes the synthesized method call
/// the fallback, with the command and the arguments as given, and no
/// handler.
pub proof fn lemma_unknown_command_falls_back(
    mode: Mode,
    handlers: Seq<HandlerView>,
    command: Seq<char>,
    args: Seq<Seq<char>>,
)
    requires
        labels_distinct(entries_of(handlers)),
        forall|k: int| 0 <= k < handlers.len() ==> (#[trigger] handlers[k]).command_label != command,
    ensures
        synthesized(mode, handlers) is Ok,
        synthesized(mode, handlers)->Ok_0.dispatch(command, args) == fallback_call(
            mode,
            command,
            args,
        ),
{
    let entries = entries_of(handlers);
    if has_label(entries, command) {
        let i = choose|i: int| 0 <= i < entries.len() && #[trigger] entries[i].label == command;
        assert(handlers[i].command_label == command);
    }
}

/// The same, from the declarations: where the pass succeeds, a command that
/// no declaration qualifies for goes to the fallback.
pub proof fn lemma_undeclared_command_falls_back(
    mode: Mode,
    items: Seq<DeclarationView>,
    command: Seq<char>,
    args: Seq<Seq<char>>,
)
    requires
        dispatch_method(mode, items) is Ok,
        forall|i: int|
            0 <= i < items.len() ==> (#[trigger] items[i]).qualification(mode)
                != Qualification::Handler(command),
    ensures
        dispatch_method(mode, items)->Ok_0.dispatch(command, args) == fallback_call(
            mode,
            command,
            args,
        ),
{
    let handlers = extract(mode, items)->Ok_0;
    assert forall|k: int| 0 <= k < handlers.len() implies (#[trigger] handlers[k]).command_label
        != command by {
        lemma_record_is_declared(mode, items, k);
    }
    lemma_unknown_command_falls_back(mode, handlers, command, args);
}

/// Every row of the synthesized method's table resolves to a handler that
/// exists among the declarations.
pub proof fn lemma_rows_resolve_to_declarations(mode: Mode, items: Seq<DeclarationView>, k: int)
    requires
        dispatch_method(mode, items) is Ok,
        0 <= k < dispatch_method(mode, items)->Ok_0.arms.len(),
    ensures
        exists|i: int|
            0 <= i < items.len() && (#[trigger] items[i]).qualification(mode)
                == Qualification::Handler(dispatch_method(mode, items)->Ok_0.arms[k].label)
                && items[i].name == dispatch_method(mode, items)->Ok_0.arms[k].handler,
{
    let handlers = extract(mode, items)->Ok_0;
    lemma_record_is_declared(mode, items, k);
    let i = choose|i: int|
        0 <= i < items.len() && (#[trigger] items[i]).qualification(mode)
            == Qualification::Handler(handlers[k].command_label) && items[i].handler(
            handlers[k].command_label,
        ) == handlers[k];
    assert(items[i].name == handlers[k].declared_name);
}

/// Two handlers with one label are always rejected, and the diagnostic names
/// the label's first repetition: the earliest record that repeats a label,
/// and the record that it repeats.
pub proof fn lemma_duplicate_label_is_rejected(
    mode: Mode,
    handlers: Seq<HandlerView>,
    i: int,
    j: int,
)
    requires
        0 <= i < j < handlers.len(),
        handlers[i].command_label == handlers[j].command_label,
    ensures
        synthesized(mode, handlers) is Err,
        exists|a: int, b: int|
            {
                &&& #[trigger] first_duplicate(entries_of(handlers), a, b)
                &&& b <= j
                &&& synthesized(mode, handlers) == Err::<DispatchView, CompileErrorView>(
                    CompileErrorView::DuplicateLabel {
                        label: handlers[b].command_label,
                        first: handlers[a].declared_name,
                        second: handlers[b].declared_name,
                    },
                )
            },
{
    let entries = entries_of(handlers);
    assert(entries[i].label == entries[j].label);
    assert(entries.take(0) =~= Seq::empty());
    lemma_first_duplicate_exists(entries, 0);
    let (a, b) = choose|a: int, b: int| first_duplicate(entries, a, b);
    lemma_build_spec_rejects(entries, a, b);
    if j < b {
        assert(entries.take(b)[i].label != entries.take(b)[j].label);
    }
}

/// Where extraction succeeds on declarations of which two qualify for one
/// label, the labels of the handler records are not distinct.
pub proof fn lemma_shared_label_is_recorded_twice(
    mode: Mode,
    items: Seq<DeclarationView>,
    i: int,
    j: int,
)
    requires
        0 <= i < j < items.len(),
        items[i].qualification(mode) is Handler,
        items[j].qualification(mode) == items[i].qualification(mode),
        extract(mode, items) is Ok,
    ensures
        !labels_distinct(entries_of(extract(mode, items)->Ok_0)),
    decreases items.len(),
{
    let label = items[i].qualification(mode)->Handler_0;
    let rest = items.drop_last();
    let earlier = extract(mode, rest)->Ok_0;
    let found = extract(mode, items)->Ok_0;
    assert(rest[i] == items[i]);
    if j < rest.len() {
        assert(rest[j] == items[j]);
        lemma_shared_label_is_recorded_twice(mode, rest, i, j);
        let (a, b) = choose|a: int, b: int|
            0 <= a < b < entries_of(earlier).len() && entries_of(earlier)[a].label == entries_of(
                earlier,
            )[b].label;
        assert(found[a] == earlier[a]);
        assert(found[b] == earlier[b]);
        assert(entries_of(found)[a].label == entries_of(found)[b].label);
    } else {
        assert(items.last() == items[j]);
        lemma_handler_is_recorded(mode, rest, i);
        let k = choose|k: int| 0 <= k < earlier.len() && earlier[k] == rest[i].handler(label);
        assert(found[k] == earlier[k]);
        assert(found[earlier.len() as int] == items[j].handler(label));
        assert(entries_of(found)[k].label == entries_of(found)[earlier.len() as int].label);
    }
}

/// Two declarations that qualify for one label abort the pass, whatever
/// else the dispatcher declares.
pub proof fn lemma_shared_label_is_rejected(mode: Mode, items: Seq<DeclarationView>, i: int, j: int)
    requires
        0 <= i < j < items.len(),
        items[i].qualification(mode) is Handler,
        items[j].qualification(mode) == items[i].qualification(mode),
    ensures
        dispatch_method(mode, items) is Err,
        expansion(mode, items) is Err,
{
    if extract(mode, items) is Ok {
        lemma_shared_label_is_recorded_twice(mode, items, i, j);
    }
}

/// The pass is a function of the declarations: two runs on the same input
/// end alike, down to the layout of the synthesized method.
pub proof fn lemma_same_input_same_output(
    mode: Mode,
    items: Seq<DeclarationView>,
    first: Result<Seq<ItemView>, CompileErrorView>,
    second: Result<Seq<ItemView>, CompileErrorView>,
)
    requires
        first == expansion(mode, items),
        second == expansion(mode, items),
    ensures
        first == second,
        first matches Ok(out) ==> out[0] == second->Ok_0[0] && out[0] == ItemView::Synthesized(
            dispatch_method(mode, items)->Ok_0,
        ),
{
}

/// Where the pass succeeds, the synthesized method comes first and every
/// original declaration follows unchanged and in its order, whether it is a
/// handler or not.
pub proof fn lemma_declarations_are_kept(mode: Mode, items: Seq<DeclarationView>, i: int)
    requires
        expansion(mode, items) is Ok,
        0 <= i < items.len(),
    ensures
        expansion(mode, items)->Ok_0.len() == items.len() + 1,
        expansion(mode, items)->Ok_0[0] is Synthesized,
        expansion(mode, items)->Ok_0[i + 1] == ItemView::Original(items[i]),
{
}

/// With distinct labels at most one arm of the synthesized method matches a
/// command, and where one matches, its handler is the one that is called.
pub proof fn lemma_at_most_one_arm_matches(
    method: DispatchView,
    command: Seq<char>,
    args: Seq<Seq<char>>,
    i: int,
    j: int,
)
    requires
        labels_distinct(method.arms),
        0 <= i < method.arms.len(),
        0 <= j < method.arms.len(),
        method.arms[i].label == command,
        method.arms[j].label == command,
    ensures
        i == j,
        method.dispatch(command, args) == (InvocationView::Handler {
            handler: method.arms[i].handler,
            args,
        }),
{
    lemma_table_of_row(method.arms, i);
}

/// With distinct labels no two arms of the synthesized method are written
/// with the same pattern.
pub proof fn lemma_patterns_are_distinct(method: DispatchView, i: int, j: int)
    requires
        labels_distinct(method.arms),
        0 <= i < j < method.arms.len(),
    ensures
        quoted(method.arms[i].label) != quoted(method.arms[j].label),
{
    let one = method.arms[i].label;
    let other = method.arms[j].label;
    if quoted(one) == quoted(other) {
        reveal_strlit("\"");
        let first = escaped(one);
        let second = escaped(other);
        assert(quoted(one).len() == first.len() + 2);
        assert(quoted(other).len() == second.len() + 2);
        assert(first =~= quoted(one).subrange(1, 1 + first.len() as int));
        assert(second =~= quoted(other).subrange(1, 1 + second.len() as int));
        assert(first == second);
        lemma_escaped_is_injective(one, other);
    }
}

/// The order of the rows does not matter to dispatch: two methods whose rows
/// stand for the same mapping, with the same fallback, make the same call.
pub proof fn lemma_layout_does_not_matter(
    one: DispatchView,
    other: DispatchView,
    command: Seq<char>,
    args: Seq<Seq<char>>,
)
    requires
        table_of(one.arms) == table_of(other.arms),
        one.fallback == other.fallback,
    ensures
        one.dispatch(command, args) == other.dispatch(command, args),
{
}

} // verus!
