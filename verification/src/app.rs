//! A small dispatcher with two commands, dispatched by naming convention.

use crate::emit::{DispatchView, FallbackView, InvocationView};
use crate::error::CompileErrorView;
use crate::extract::{extract, lemma_extract_step, named_label, HandlerView, Mode};
use crate::pass::dispatch_method;
use crate::syntax::{Declaration, DeclarationKind, DeclarationView};
use crate::table::{entries_of, lemma_table_of_row, table_of, EntryView};
use vstd::prelude::*;

verus! {

/// The line that `command_one` has printed.
pub const RAN_ONE: &'static str = "You ran command one";

/// The line that `command_two` has printed.
pub const RAN_TWO: &'static str = "You ran command two";

/// What running a command comes to. Printing is left to the caller.
#[derive(Debug, PartialEq, Eq)]
pub enum Reply<'a> {
    /// A handler ran; this is its line of output.
    Line(&'static str),
    /// No handler is written for the command: the fallback got it.
    Unknown { command: &'a str, args: &'a [String] },
}

/// The example dispatcher.
#[derive(Debug)]
pub struct App {}

impl App {
    /// The dispatcher; it holds no state.
    pub fn new() -> (r: App)
        ensures
            r == (App {  }),
    {
        App {  }
    }

    /// The methods of this dispatcher, in the order in which they are
    /// declared.
    pub open spec fn declared() -> Seq<DeclarationView> {
        seq![
            method("new"@, ""@),
            method("command_one"@, "&self, _command_args: &[String]"@),
            method("command_two"@, "&self, _command_args: &[String]"@),
            method("command_unknown"@, "&self, command: &str, command_args: &[String]"@),
            method("run"@, "&self, command: &str, command_args: &[String]"@),
        ]
    }

    /// The methods of this dispatcher, in the order in which they are
    /// declared.
    pub fn declarations() -> (r: Vec<Declaration>)
        ensures
            r.deep_view() == App::declared(),
    {
        let mut items: Vec<Declaration> = Vec::new();
        items.push(declare("new", ""));
        items.push(declare("command_one", "&self, _command_args: &[String]"));
        items.push(declare("command_two", "&self, _command_args: &[String]"));
        items.push(declare("command_unknown", "&self, command: &str, command_args: &[String]"));
        items.push(declare("run", "&self, command: &str, command_args: &[String]"));
        assert(items.deep_view() =~= App::declared());
        items
    }

    /// The handler for `one`.
    pub fn command_one(&self, _command_args: &[String]) -> (r: Reply<'static>)
        ensures
            r matches Reply::Line(line) && line@ == RAN_ONE@,
    {
        Reply::Line(RAN_ONE)
    }

    /// The handler for `two`.
    pub fn command_two(&self, _command_args: &[String]) -> (r: Reply<'static>)
        ensures
            r matches Reply::Line(line) && line@ == RAN_TWO@,
    {
        Reply::Line(RAN_TWO)
    }

    /// The fallback: it hands the command and its arguments back as unknown.
    pub fn command_unknown<'a>(&self, command: &'a str, command_args: &'a [String]) -> (r: Reply<'a>)
        ensures
            r == (Reply::Unknown { command, args: command_args }),
    {
        Reply::Unknown { command, args: command_args }
    }

    /// The dispatch method of this dispatcher, written out.
    pub fn handle_command<'a>(&self, command: &'a str, command_args: &'a [String]) -> (r: Reply<'a>)
        ensures
            App::reply(command, command_args, r),
    {
        let wanted = command.to_owned();
        if wanted == "one".to_owned() {
            self.command_one(command_args)
        } else if wanted == "two".to_owned() {
            self.command_two(command_args)
        } else {
            self.command_unknown(command, command_args)
        }
    }

    /// `reply` is what running `command` with `args` comes to.
    pub open spec fn reply(command: &str, args: &[String], reply: Reply) -> bool {
        if command@ == "one"@ {
            reply matches Reply::Line(line) && line@ == RAN_ONE@
        } else if command@ == "two"@ {
            reply matches Reply::Line(line) && line@ == RAN_TWO@
        } else {
            reply == (Reply::Unknown { command, args })
        }
    }

    /// Runs one command: `one` and `two` have handlers, every other command
    /// goes to the fallback with the command and its arguments as given.
    pub fn run<'a>(&self, command: &'a str, command_args: &'a [String]) -> (r: Reply<'a>)
        ensures
            App::reply(command, command_args, r),
    {
        self.handle_command(command, command_args)
    }
}

/// What the naming convention makes of the names of the example's methods.
pub proof fn lemma_app_labels()
    ensures
        named_label("new"@) is None,
        named_label("run"@) is None,
        named_label("command_unknown"@) is None,
        named_label("command_one"@) == Some("one"@),
        named_label("command_two"@) == Some("two"@),
        "one"@ != "two"@,
{
    reveal_strlit("new");
    reveal_strlit("run");
    reveal_strlit("command_");
    reveal_strlit("command_unknown");
    reveal_strlit("command_one");
    reveal_strlit("command_two");
    reveal_strlit("one");
    reveal_strlit("two");
    assert("command_one"@.skip(8) =~= "one"@);
    assert("command_two"@.skip(8) =~= "two"@);
    assert("command_"@ =~= "command_one"@.subrange(0, 8));
    assert("command_"@ =~= "command_two"@.subrange(0, 8));
    assert("new"@.len() == 3);
    assert("run"@.len() == 3);
    assert("one"@[0] == 'o');
    assert("two"@[0] == 't');
}

/// The method that the pass synthesizes for the example: `one` and `two`
/// go to their handlers, everything else to `command_unknown`.
pub open spec fn app_method() -> DispatchView {
    DispatchView {
        arms: seq![
            EntryView { label: "one"@, handler: "command_one"@ },
            EntryView { label: "two"@, handler: "command_two"@ },
        ],
        fallback: FallbackView::ReservedMethod("command_unknown"@),
    }
}

/// The pass accepts the example and synthesizes [`app_method`] for it.
pub proof fn lemma_app_is_accepted()
    ensures
        dispatch_method(Mode::NamingConvention, App::declared()) == Ok::<
            DispatchView,
            CompileErrorView,
        >(app_method()),
{
    lemma_app_labels();
    let items = App::declared();
    let mode = Mode::NamingConvention;
    lemma_extract_step(mode, items, 0);
    lemma_extract_step(mode, items, 1);
    lemma_extract_step(mode, items, 2);
    lemma_extract_step(mode, items, 3);
    lemma_extract_step(mode, items, 4);
    assert(items.take(5) =~= items);
    assert(extract(mode, items.take(0)) == Ok::<Seq<HandlerView>, CompileErrorView>(Seq::empty()));
    let handlers = extract(mode, items)->Ok_0;
    assert(handlers =~= seq![items[1].handler("one"@), items[2].handler("two"@)]);
    assert(entries_of(handlers) =~= app_method().arms);
}

/// The synthesized method of the example makes the calls that
/// [`App::run`] answers for: `command_one` for `one`, `command_two` for
/// `two`, and `command_unknown` with the command for every other command.
pub proof fn lemma_app_routes(command: Seq<char>, args: Seq<Seq<char>>)
    ensures
        app_method().dispatch(command, args) == if command == "one"@ {
            InvocationView::Handler { handler: "command_one"@, args }
        } else if command == "two"@ {
            InvocationView::Handler { handler: "command_two"@, args }
        } else {
            InvocationView::Reserved { handler: "command_unknown"@, command, args }
        },
{
    lemma_app_labels();
    let arms = app_method().arms;
    lemma_table_of_row(arms, 0);
    lemma_table_of_row(arms, 1);
    if table_of(arms).dom().contains(command) {
        let i = choose|i: int| 0 <= i < arms.len() && #[trigger] arms[i].label == command;
        assert(i == 0 || i == 1);
    }
}

/// The model of a method without decorators.
pub open spec fn method(name: Seq<char>, parameters: Seq<char>) -> DeclarationView {
    DeclarationView { kind: DeclarationKind::Method, name, parameters, decorators: Seq::empty() }
}

/// A method without decorators.
pub fn declare(name: &str, parameters: &str) -> (r: Declaration)
    ensures
        r@ == method(name@, parameters@),
{
    let declaration = Declaration {
        kind: DeclarationKind::Method,
        name: name.to_owned(),
        parameters: parameters.to_owned(),
        decorators: Vec::new(),
    };
    assert(declaration.decorators.deep_view() =~= Seq::empty());
    declaration
}

} // verus!
