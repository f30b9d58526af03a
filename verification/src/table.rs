//! The command table: each command label with the handler that answers it.

use crate::error::{CompileError, CompileErrorView};
use crate::extract::{HandlerDeclaration, HandlerView};
use vstd::prelude::*;

verus! {

/// One row of the command table.
#[derive(Debug, PartialEq, Eq)]
pub struct Entry {
    pub label: String,
    pub handler: String,
}

/// Mathematical model of an [`Entry`].
#[verifier::ext_equal]
pub ghost struct EntryView {
    pub label: Seq<char>,
    pub handler: Seq<char>,
}

impl View for Entry {
    type V = EntryView;

    open spec fn view(&self) -> EntryView {
        EntryView { label: self.label@, handler: self.handler@ }
    }
}

impl DeepView for Entry {
    type V = EntryView;

    open spec fn deep_view(&self) -> EntryView {
        self@
    }
}

/// The table rows that the handler records ask for, one per record and in
/// the same order.
pub open spec fn entries_of(handlers: Seq<HandlerView>) -> Seq<EntryView> {
    Seq::new(
        handlers.len(),
        |i: int| EntryView { label: handlers[i].command_label, handler: handlers[i].declared_name },
    )
}

/// No two rows carry the same label.
pub open spec fn labels_distinct(entries: Seq<EntryView>) -> bool {
    forall|i: int, j: int| 0 <= i < j < entries.len() ==> entries[i].label != entries[j].label
}

/// Row `j` is the earliest row that repeats the label of a row before it,
/// and row `i` is that row.
pub open spec fn first_duplicate(entries: Seq<EntryView>, i: int, j: int) -> bool {
    &&& 0 <= i < j < entries.len()
    &&& entries[i].label == entries[j].label
    &&& labels_distinct(entries.take(j))
}

/// The diagnostic for two rows with the same label.
pub open spec fn duplicate_label(first: EntryView, second: EntryView) -> CompileErrorView {
    CompileErrorView::DuplicateLabel {
        label: second.label,
        first: first.handler,
        second: second.handler,
    }
}

/// Two row pairs that both are the first duplicate are the same pair.
pub proof fn lemma_first_duplicate_unique(entries: Seq<EntryView>, i: int, j: int, a: int, b: int)
    requires
        first_duplicate(entries, i, j),
        first_duplicate(entries, a, b),
    ensures
        i == a,
        j == b,
{
    if j < b {
        assert(entries.take(b)[i].label != entries.take(b)[j].label);
    } else if b < j {
        assert(entries.take(j)[a].label != entries.take(j)[b].label);
    } else if i < a {
        assert(entries.take(j)[i].label != entries.take(j)[a].label);
    } else if a < i {
        assert(entries.take(j)[a].label != entries.take(j)[i].label);
    }
}

/// Rows whose first `n` labels are distinct, but not all of them, hold a
/// first duplicate.
pub proof fn lemma_first_duplicate_exists(entries: Seq<EntryView>, n: int)
    requires
        0 <= n <= entries.len(),
        labels_distinct(entries.take(n)),
        !labels_distinct(entries),
    ensures
        exists|i: int, j: int| first_duplicate(entries, i, j),
    decreases entries.len() - n,
{
    if n == entries.len() {
        assert(entries.take(n) =~= entries);
    } else {
        let next = entries.take(n + 1);
        if labels_distinct(next) {
            lemma_first_duplicate_exists(entries, n + 1);
        } else {
            let (a, b) = choose|a: int, b: int|
                0 <= a < b < next.len() && next[a].label == next[b].label;
            if b < n {
                assert(entries.take(n)[a].label != entries.take(n)[b].label);
            }
            assert(first_duplicate(entries, a, n));
        }
    }
}

/// The table rows for the given rows: the rows themselves where their
/// labels are distinct, and else the diagnostic for the first duplicate.
pub open spec fn build_spec(entries: Seq<EntryView>) -> Result<Seq<EntryView>, CompileErrorView> {
    if labels_distinct(entries) {
        Ok(entries)
    } else {
        let (i, j) = choose|i: int, j: int| first_duplicate(entries, i, j);
        Err(duplicate_label(entries[i], entries[j]))
    }
}

/// A first duplicate decides the diagnostic.
pub proof fn lemma_build_spec_rejects(entries: Seq<EntryView>, i: int, j: int)
    requires
        first_duplicate(entries, i, j),
    ensures
        build_spec(entries) == Err::<Seq<EntryView>, CompileErrorView>(
            duplicate_label(entries[i], entries[j]),
        ),
{
    assert(entries.take(j).len() == j);
    let (a, b) = choose|a: int, b: int| first_duplicate(entries, a, b);
    lemma_first_duplicate_unique(entries, i, j, a, b);
}

/// Some row carries `label`.
pub open spec fn has_label(entries: Seq<EntryView>, label: Seq<char>) -> bool {
    exists|i: int| 0 <= i < entries.len() && #[trigger] entries[i].label == label
}

/// The mapping that the rows stand for.
pub open spec fn table_of(entries: Seq<EntryView>) -> Map<Seq<char>, Seq<char>> {
    Map::new(
        |label: Seq<char>| has_label(entries, label),
        |label: Seq<char>|
            entries[choose|i: int| 0 <= i < entries.len() && #[trigger] entries[i].label == label].handler,
    )
}

/// Where the labels are distinct, each row's label maps to that row's handler.
pub proof fn lemma_table_of_row(entries: Seq<EntryView>, i: int)
    requires
        labels_distinct(entries),
        0 <= i < entries.len(),
    ensures
        table_of(entries).dom().contains(entries[i].label),
        table_of(entries)[entries[i].label] == entries[i].handler,
{
    let label = entries[i].label;
    let k = choose|k: int| 0 <= k < entries.len() && #[trigger] entries[k].label == label;
    if k < i {
        assert(entries[k].label != entries[i].label);
    } else if i < k {
        assert(entries[i].label != entries[k].label);
    }
}

/// A mapping from command label to the name of the handler declared for it.
/// No label occurs twice.
#[derive(Debug, PartialEq, Eq)]
pub struct CommandTable {
    entries: Vec<Entry>,
}

impl View for CommandTable {
    type V = Map<Seq<char>, Seq<char>>;

    open spec fn view(&self) -> Map<Seq<char>, Seq<char>> {
        table_of(self.entries())
    }
}

impl CommandTable {
    /// No label occurs twice.
    #[verifier::type_invariant]
    spec fn well_formed(self) -> bool {
        labels_distinct(self.entries.deep_view())
    }

    /// The rows in the order in which they were entered. The order decides
    /// the layout of emitted code and nothing else.
    pub closed spec fn entries(self) -> Seq<EntryView> {
        self.entries.deep_view()
    }

    /// The rows of the table.
    pub fn rows(&self) -> (r: &Vec<Entry>)
        ensures
            r.deep_view() == self.entries(),
            labels_distinct(self.entries()),
    {
        proof {
            use_type_invariant(self);
        }
        &self.entries
    }

    /// The number of labels.
    pub fn len(&self) -> (r: usize)
        ensures
            r == self.entries().len(),
    {
        self.entries.len()
    }

    /// The handler entered for exactly this label, if there is one.
    pub fn lookup(&self, label: &str) -> (r: Option<&String>)
        ensures
            match r {
                Some(handler) => self@.dom().contains(label@) && handler@ == self@[label@],
                None => !self@.dom().contains(label@),
            },
    {
        proof {
            use_type_invariant(self);
        }
        let wanted = label.to_owned();
        let mut i: usize = 0;
        while i < self.entries.len()
            invariant
                i <= self.entries.len(),
                wanted@ == label@,
                labels_distinct(self.entries.deep_view()),
                forall|k: int| 0 <= k < i ==> (#[trigger] self.entries.deep_view()[k]).label != label@,
            decreases self.entries.len() - i,
        {
            if self.entries[i].label == wanted {
                proof {
                    assert(self.entries.deep_view()[i as int].label == label@);
                    lemma_table_of_row(self.entries.deep_view(), i as int);
                }
                return Some(&self.entries[i].handler);
            }
            i += 1;
        }
        None
    }

    /// Enters the handler records into a table. Two records with the same
    /// label are rejected, with a diagnostic that names both declarations.
    pub fn build(handlers: &Vec<HandlerDeclaration>) -> (r: Result<CommandTable, CompileError>)
        ensures
            match build_spec(entries_of(handlers.deep_view())) {
                Ok(entries) => r matches Ok(table) && table.entries() == entries,
                Err(diagnostic) => r matches Err(e) && e@ == diagnostic,
            },
    {
        let ghost wanted = entries_of(handlers.deep_view());
        let mut entries: Vec<Entry> = Vec::new();
        let mut j: usize = 0;
        while j < handlers.len()
            invariant
                j <= handlers.len(),
                entries.len() == j,
                wanted == entries_of(handlers.deep_view()),
                entries.deep_view() == wanted.take(j as int),
                labels_distinct(wanted.take(j as int)),
            decreases handlers.len() - j,
        {
            let mut i: usize = 0;
            while i < j
                invariant
                    i <= j < handlers.len(),
                    entries.len() == j,
                    wanted == entries_of(handlers.deep_view()),
                    entries.deep_view() == wanted.take(j as int),
                    labels_distinct(wanted.take(j as int)),
                    forall|k: int| 0 <= k < i ==> (#[trigger] wanted[k]).label != wanted[j as int].label,
                decreases j - i,
            {
                assert(entries.deep_view()[i as int] == wanted[i as int]);
                if entries[i].label == handlers[j].command_label {
                    let e = CompileError::DuplicateLabel {
                        label: handlers[j].command_label.clone(),
                        first: entries[i].handler.clone(),
                        second: handlers[j].declared_name.clone(),
                    };
                    proof {
                        assert(first_duplicate(wanted, i as int, j as int));
                        assert(e@ == duplicate_label(wanted[i as int], wanted[j as int]));
                        lemma_build_spec_rejects(wanted, i as int, j as int);
                    }
                    return Err(e);
                }
                i += 1;
            }
            let ghost rows = entries.deep_view();
            entries.push(
                Entry {
                    label: handlers[j].command_label.clone(),
                    handler: handlers[j].declared_name.clone(),
                },
            );
            proof {
                let before = wanted.take(j as int);
                let after = wanted.take(j as int + 1);
                assert(entries.deep_view() =~= rows.push(wanted[j as int]));
                assert(entries.deep_view() =~= after);
                assert forall|a: int, b: int| 0 <= a < b < after.len() implies after[a].label
                    != after[b].label by {
                    if b < j {
                        assert(before[a].label != before[b].label);
                    }
                }
            }
            j += 1;
        }
        assert(wanted.take(j as int) =~= wanted);
        Ok(CommandTable { entries })
    }
}

} // verus!
