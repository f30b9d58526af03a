use command_dispatch::emit::{DispatchMethod, Fallback, Invocation};
use command_dispatch::error::{ArgumentError, CompileError};
use command_dispatch::extract::{HandlerDeclaration, Mode};
use command_dispatch::pass::{fallback_for, synthesize, synthesize_from};
use command_dispatch::render::{push_arm, push_quoted};
use command_dispatch::rewrite::{rewrite, Item};
use command_dispatch::syntax::{Declaration, DeclarationKind};
use command_dispatch::table::{CommandTable, Entry};

fn record(name: &str, label: &str) -> HandlerDeclaration {
    HandlerDeclaration {
        declared_name: name.to_string(),
        command_label: label.to_string(),
        parameter_signature: String::new(),
    }
}

fn plain(name: &str) -> Declaration {
    Declaration {
        kind: DeclarationKind::Method,
        name: name.to_string(),
        parameters: "&self".to_string(),
        decorators: vec![],
    }
}

#[test]
fn build_enters_each_record_once() {
    let table = CommandTable::build(&vec![record("a", "x"), record("b", "y"), record("a", "z")]).unwrap();
    assert_eq!(table.len(), 3);
    assert_eq!(table.lookup("x").map(String::as_str), Some("a"));
    assert_eq!(table.lookup("y").map(String::as_str), Some("b"));
    assert_eq!(table.lookup("z").map(String::as_str), Some("a"));
    assert_eq!(table.lookup("a"), None);
    assert_eq!(table.lookup(""), None);
    assert_eq!(
        table.rows(),
        &vec![
            Entry { label: "x".to_string(), handler: "a".to_string() },
            Entry { label: "y".to_string(), handler: "b".to_string() },
            Entry { label: "z".to_string(), handler: "a".to_string() },
        ]
    );
}

#[test]
fn build_of_nothing_is_the_empty_table() {
    let table = CommandTable::build(&vec![]).unwrap();
    assert_eq!(table.len(), 0);
    assert_eq!(table.lookup("x"), None);
}

#[test]
fn build_rejects_the_first_repetition() {
    let records = vec![
        record("a", "x"),
        record("b", "y"),
        record("c", "y"),
        record("d", "x"),
        record("e", "y"),
    ];
    assert_eq!(
        CommandTable::build(&records),
        Err(CompileError::DuplicateLabel {
            label: "y".to_string(),
            first: "b".to_string(),
            second: "c".to_string(),
        })
    );
}

#[test]
fn build_tells_labels_apart_exactly() {
    let records = vec![record("a", "x"), record("b", "X"), record("c", "x "), record("d", "")];
    assert_eq!(CommandTable::build(&records).unwrap().len(), 4);
}

#[test]
fn emit_keeps_table_and_fallback() {
    let table = CommandTable::build(&vec![record("a", "x")]).unwrap();
    let method = DispatchMethod::emit(table, Fallback::ReservedMethod("other".to_string()));
    assert_eq!(method.table.len(), 1);
    assert_eq!(method.fallback, Fallback::ReservedMethod("other".to_string()));
    let args: Vec<String> = vec![];
    assert_eq!(
        method.handle_command("y", &args),
        Invocation::Reserved { handler: "other", command: "y", args: &args }
    );
    assert_eq!(method.handle_command("x", &args), Invocation::Handler { handler: "a", args: &args });
}

#[test]
fn fallback_goes_with_the_mode() {
    assert_eq!(fallback_for(Mode::Annotation), Fallback::Callback);
    assert_eq!(
        fallback_for(Mode::NamingConvention),
        Fallback::ReservedMethod("command_unknown".to_string())
    );
}

#[test]
fn synthesize_builds_the_method_or_rejects() {
    let method = synthesize(Mode::Annotation, &vec![record("a", "x")]).unwrap();
    assert_eq!(method.fallback, Fallback::Callback);
    assert_eq!(method.table.lookup("x").map(String::as_str), Some("a"));
    assert_eq!(
        synthesize(Mode::NamingConvention, &vec![record("a", "x"), record("b", "x")]),
        Err(CompileError::DuplicateLabel {
            label: "x".to_string(),
            first: "a".to_string(),
            second: "b".to_string(),
        })
    );
}

#[test]
fn synthesize_from_goes_by_the_mode() {
    let items = vec![plain("command_go"), plain("stop")];
    let named = synthesize_from(Mode::NamingConvention, &items).unwrap();
    assert_eq!(named.table.lookup("go").map(String::as_str), Some("command_go"));
    let annotated = synthesize_from(Mode::Annotation, &items).unwrap();
    assert_eq!(annotated.table.len(), 0);
}

#[test]
fn rewrite_puts_the_method_first() {
    let method = synthesize(Mode::Annotation, &vec![record("a", "x")]).unwrap();
    let same = synthesize(Mode::Annotation, &vec![record("a", "x")]).unwrap();
    let out = rewrite(method, vec![plain("a"), plain("b")]);
    assert_eq!(
        out,
        vec![Item::Synthesized(same), Item::Original(plain("a")), Item::Original(plain("b"))]
    );
    let method = synthesize(Mode::Annotation, &vec![]).unwrap();
    assert_eq!(rewrite(method, vec![]).len(), 1);
}

#[test]
fn push_quoted_appends_a_literal() {
    let mut out = "x = ".to_string();
    push_quoted(&mut out, "one");
    assert_eq!(out, "x = \"one\"");
    let mut out = String::new();
    push_quoted(&mut out, "");
    assert_eq!(out, "\"\"");
    let mut out = String::new();
    push_quoted(&mut out, " ~\u{1f}\u{7f}\"\\\u{0}\u{d7ff}\u{e000}");
    assert_eq!(
        out,
        "\" ~\\u{00001f}\\u{00007f}\\u{000022}\\u{00005c}\\u{000000}\\u{00d7ff}\\u{00e000}\""
    );
}

#[test]
fn push_arm_appends_pattern_and_call() {
    let mut out = "{ ".to_string();
    push_arm(&mut out, &Entry { label: "go".to_string(), handler: "command_go".to_string() });
    assert_eq!(out, "{ \"go\" => self.command_go(command_args), ");
}

#[test]
fn messages_name_the_declarations() {
    assert_eq!(
        CompileError::DuplicateLabel {
            label: "go".to_string(),
            first: "a".to_string(),
            second: "b".to_string(),
        }
        .message(),
        "duplicate command label `go`: declared by `a` and by `b`"
    );
    assert_eq!(
        CompileError::MalformedDecorator {
            declaration: "a".to_string(),
            reason: ArgumentError::Missing,
        }
        .message(),
        "malformed `command` decorator on `a`: a string literal is expected as its argument, and it has none"
    );
    assert_eq!(
        ArgumentError::TooMany.describe(),
        "a string literal is expected as its only argument, and it has more than one"
    );
    assert_eq!(
        ArgumentError::NotString.describe(),
        "a string literal is expected as its argument, and it has something else"
    );
}
