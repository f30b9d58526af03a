//! Metadata extraction for dispatchers whose handlers carry an explicit
//! `command("<label>")` decorator.

use crate::error::{ArgumentError, CompileError};
use crate::extract::{
    extract, lemma_extract_error_persists, lemma_extract_step, malformed, scan_from,
    HandlerDeclaration, HandlerView, Mode, Qualification,
};
use crate::syntax::{Declaration, DeclarationKind, Decorator};
use vstd::prelude::*;

verus! {

/// Walks declarations and collects the handlers among them.
#[derive(Debug)]
pub struct CommandFuncFinder {
    /// The label honored for the declaration under visit, once one was found.
    pub current: Option<String>,
    /// The handlers found so far, in declaration order.
    pub handlers: Vec<HandlerDeclaration>,
}

/// Mathematical model of a [`CommandFuncFinder`].
#[verifier::ext_equal]
pub ghost struct FinderView {
    pub current: Option<Seq<char>>,
    pub handlers: Seq<HandlerView>,
}

impl View for CommandFuncFinder {
    type V = FinderView;

    open spec fn view(&self) -> FinderView {
        FinderView {
            current: match self.current {
                Some(label) => Some(label@),
                None => None,
            },
            handlers: self.handlers.deep_view(),
        }
    }
}

impl CommandFuncFinder {
    /// A finder that has seen nothing yet.
    pub fn new() -> (r: CommandFuncFinder)
        ensures
            r@.current is None,
            r@.handlers == Seq::<HandlerView>::empty(),
    {
        CommandFuncFinder { current: None, handlers: Vec::new() }
    }

    /// Visits one decorator of the declaration under visit. The first outer
    /// `command` decorator sets the label or fails; once a label is set,
    /// further decorators are ignored.
    pub fn visit_attribute(&mut self, node: &Decorator) -> (r: Result<(), ArgumentError>)
        ensures
            old(self)@.current is Some || !node@.is_command_marker() ==> r is Ok && final(self)@
                == old(self)@,
            old(self)@.current is None && node@.is_command_marker() ==> match node@.command_label() {
                Ok(label) => r is Ok && final(self)@ == (FinderView {
                    current: Some(label),
                    handlers: old(self)@.handlers,
                }),
                Err(reason) => r == Err::<(), ArgumentError>(reason) && final(self)@ == old(self)@,
            },
    {
        if self.current.is_none() && node.is_command_marker() {
            match node.command_label() {
                Ok(label) => {
                    self.current = Some(label);
                    Ok(())
                },
                Err(reason) => Err(reason),
            }
        } else {
            Ok(())
        }
    }

    /// Visits one declaration: reads its decorators in order and, where they
    /// give a label, records the declaration as the handler for it.
    pub fn visit_impl_item_method(&mut self, node: &Declaration) -> (r: Result<(), CompileError>)
        ensures
            final(self)@.current is None,
            match node@.scan() {
                Qualification::NotHandler => r is Ok && final(self)@.handlers == old(self)@.handlers,
                Qualification::Handler(label) => r is Ok && final(self)@.handlers == old(self)@.handlers.push(
                    node@.handler(label),
                ),
                Qualification::Malformed(reason) => {
                    &&& final(self)@.handlers == old(self)@.handlers
                    &&& r matches Err(e)
                    &&& e@ == malformed(node@, reason)
                },
            },
    {
        self.current = None;
        let mut j: usize = 0;
        while j < node.decorators.len()
            invariant
                j <= node.decorators.len(),
                self@.handlers == old(self)@.handlers,
                node@.scan() == match self@.current {
                    Some(label) => Qualification::Handler(label),
                    None => scan_from(node@.decorators, j as int),
                },
            decreases node.decorators.len() - j,
        {
            match self.visit_attribute(&node.decorators[j]) {
                Ok(()) => {},
                Err(reason) => {
                    self.current = None;
                    return Err(
                        CompileError::MalformedDecorator { declaration: node.name.clone(), reason },
                    );
                },
            }
            j += 1;
        }
        match self.current.take() {
            Some(label) => {
                self.handlers.push(
                    HandlerDeclaration {
                        declared_name: node.name.clone(),
                        command_label: label,
                        parameter_signature: node.parameters.clone(),
                    },
                );
            },
            None => {},
        }
        Ok(())
    }

    /// Visits the declarations of one dispatcher in order and records the
    /// handlers among its methods. On a diagnostic nothing is recorded.
    pub fn visit_item_impl(&mut self, items: &Vec<Declaration>) -> (r: Result<(), CompileError>)
        ensures
            final(self)@.current is None,
            match extract(Mode::Annotation, items.deep_view()) {
                Ok(found) => r is Ok && final(self)@.handlers == old(self)@.handlers + found,
                Err(diagnostic) => {
                    &&& final(self)@.handlers == old(self)@.handlers
                    &&& r matches Err(e)
                    &&& e@ == diagnostic
                },
            },
    {
        self.current = None;
        let kept = self.handlers.len();
        let ghost all = items.deep_view();
        let mut i: usize = 0;
        while i < items.len()
            invariant
                i <= items.len(),
                all == items.deep_view(),
                kept == old(self)@.handlers.len(),
                self@.current is None,
                extract(Mode::Annotation, all.take(i as int)) matches Ok(found) && self@.handlers
                    == old(self)@.handlers + found,
            decreases items.len() - i,
        {
            proof {
                lemma_extract_step(Mode::Annotation, all, i as int);
            }
            match items[i].kind {
                DeclarationKind::Method => {
                    match self.visit_impl_item_method(&items[i]) {
                        Ok(()) => {},
                        Err(e) => {
                            proof {
                                lemma_extract_error_persists(Mode::Annotation, all, i as int + 1);
                            }
                            let ghost before = self.handlers.deep_view();
                            self.handlers.truncate(kept);
                            assert(self.handlers.deep_view() =~= before.take(kept as int));
                            return Err(e);
                        },
                    }
                },
                DeclarationKind::Other => {},
            }
            i += 1;
        }
        assert(all.take(i as int) =~= all);
        Ok(())
    }
}

} // verus!
