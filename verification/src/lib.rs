//! Build-time command dispatch.
//!
//! A dispatcher type declares handler methods. A handler is tied to a command
//! label either by an explicit `command("<label>")` decorator or by the naming
//! convention `command_<label>`. This crate finds the handlers among the
//! declarations of one dispatcher, builds the command table, synthesizes the
//! `handle_command` method that routes a command string to its handler, and
//! places that method in front of the untouched original declarations.
//!
//! The pass works on declarations held as plain data ([`syntax`]):
//!
//! - [`finder`] and [`naming`] find the handlers, [`extract`] says which
//!   declarations those are;
//! - [`table`] enters them into the command table and rejects a label that
//!   occurs twice;
//! - [`emit`] is the synthesized method and what it does for a command,
//!   [`render`] its source text;
//! - [`rewrite`] merges it into the declarations;
//! - [`attribute_based`] and [`name_based`] run the pass in either mode,
//!   [`pass`] says what its outcome is, and [`laws`] what holds of it;
//! - [`item_impl`] runs the pass on an `impl` block parsed by `syn`;
//! - [`app`] is a small dispatcher with two commands.

pub mod app;
pub mod attribute_based;
pub mod emit;
pub mod error;
pub mod extract;
pub mod finder;
pub mod item_impl;
pub mod laws;
pub mod name_based;
pub mod naming;
pub mod pass;
pub mod render;
pub mod rewrite;
pub mod syntax;
pub mod table;
