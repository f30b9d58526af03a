use command_dispatch::error::{ArgumentError, CompileError};
use command_dispatch::extract::HandlerDeclaration;
use command_dispatch::finder::CommandFuncFinder;
use command_dispatch::naming::{find_named_handlers, label_of_name};
use command_dispatch::syntax::{Argument, Declaration, DeclarationKind, Decorator, DecoratorStyle};

fn command(arguments: Vec<Argument>) -> Decorator {
    Decorator { style: DecoratorStyle::Outer, name: "command".to_string(), arguments }
}

fn method_of(name: &str, decorators: Vec<Decorator>) -> Declaration {
    Declaration {
        kind: DeclarationKind::Method,
        name: name.to_string(),
        parameters: "&self".to_string(),
        decorators,
    }
}

fn record(name: &str, label: &str) -> HandlerDeclaration {
    HandlerDeclaration {
        declared_name: name.to_string(),
        command_label: label.to_string(),
        parameter_signature: "&self".to_string(),
    }
}

#[test]
fn new_finder_has_seen_nothing() {
    let finder = CommandFuncFinder::new();
    assert_eq!(finder.current, None);
    assert!(finder.handlers.is_empty());
}

#[test]
fn visit_attribute_takes_the_first_label_only() {
    let mut finder = CommandFuncFinder::new();
    assert_eq!(finder.visit_attribute(&command(vec![Argument::Str("a".to_string())])), Ok(()));
    assert_eq!(finder.current, Some("a".to_string()));
    assert_eq!(finder.visit_attribute(&command(vec![Argument::Str("b".to_string())])), Ok(()));
    assert_eq!(finder.current, Some("a".to_string()));
    assert_eq!(finder.visit_attribute(&command(vec![])), Ok(()));
    assert_eq!(finder.current, Some("a".to_string()));
    assert!(finder.handlers.is_empty());
}

#[test]
fn visit_attribute_reports_each_argument_error() {
    let mut finder = CommandFuncFinder::new();
    assert_eq!(finder.visit_attribute(&command(vec![])), Err(ArgumentError::Missing));
    assert_eq!(finder.visit_attribute(&command(vec![Argument::Other])), Err(ArgumentError::NotString));
    assert_eq!(
        finder.visit_attribute(&command(vec![Argument::Other, Argument::Other])),
        Err(ArgumentError::TooMany)
    );
    assert_eq!(finder.current, None);
}

#[test]
fn command_label_is_the_value_of_the_sole_string() {
    assert_eq!(command(vec![Argument::Str("with space".to_string())]).command_label(), Ok("with space".to_string()));
    assert_eq!(command(vec![Argument::Str(String::new())]).command_label(), Ok(String::new()));
    assert!(command(vec![]).is_command_marker());
    let mut inner = command(vec![]);
    inner.style = DecoratorStyle::Inner;
    assert!(!inner.is_command_marker());
    let mut other = command(vec![]);
    other.name = "Command".to_string();
    assert!(!other.is_command_marker());
}

#[test]
fn visit_impl_item_method_records_the_handler() {
    let mut finder = CommandFuncFinder::new();
    let plain = method_of("plain", vec![]);
    assert_eq!(finder.visit_impl_item_method(&plain), Ok(()));
    assert!(finder.handlers.is_empty());
    let handler = method_of("handle_one", vec![command(vec![Argument::Str("one".to_string())])]);
    assert_eq!(finder.visit_impl_item_method(&handler), Ok(()));
    assert_eq!(finder.handlers, vec![record("handle_one", "one")]);
    assert_eq!(finder.current, None);
    let broken = method_of("broken", vec![command(vec![Argument::Other])]);
    assert_eq!(
        finder.visit_impl_item_method(&broken),
        Err(CompileError::MalformedDecorator {
            declaration: "broken".to_string(),
            reason: ArgumentError::NotString,
        })
    );
    assert_eq!(finder.handlers, vec![record("handle_one", "one")]);
}

#[test]
fn visit_item_impl_records_in_declaration_order() {
    let mut finder = CommandFuncFinder::new();
    let items = vec![
        method_of("b", vec![command(vec![Argument::Str("second".to_string())])]),
        method_of("skip", vec![]),
        method_of("a", vec![command(vec![Argument::Str("first".to_string())])]),
    ];
    assert_eq!(finder.visit_item_impl(&items), Ok(()));
    assert_eq!(finder.handlers, vec![record("b", "second"), record("a", "first")]);
}

#[test]
fn visit_item_impl_records_nothing_on_a_diagnostic() {
    let mut finder = CommandFuncFinder::new();
    let good = vec![method_of("kept", vec![command(vec![Argument::Str("k".to_string())])])];
    assert_eq!(finder.visit_item_impl(&good), Ok(()));
    let bad = vec![
        method_of("a", vec![command(vec![Argument::Str("x".to_string())])]),
        method_of("b", vec![command(vec![])]),
        method_of("c", vec![command(vec![Argument::Other])]),
    ];
    assert_eq!(
        finder.visit_item_impl(&bad),
        Err(CompileError::MalformedDecorator {
            declaration: "b".to_string(),
            reason: ArgumentError::Missing,
        })
    );
    assert_eq!(finder.handlers, vec![record("kept", "k")]);
}

#[test]
fn label_of_name_strips_the_prefix() {
    assert_eq!(label_of_name("command_one"), Some("one".to_string()));
    assert_eq!(label_of_name("command_"), Some(String::new()));
    assert_eq!(label_of_name("command_unknown_x"), Some("unknown_x".to_string()));
    assert_eq!(label_of_name("command_command_"), Some("command_".to_string()));
    assert_eq!(label_of_name("command_\u{e9}t\u{e9}"), Some("\u{e9}t\u{e9}".to_string()));
}

#[test]
fn label_of_name_rejects_other_names() {
    assert_eq!(label_of_name("command_unknown"), None);
    assert_eq!(label_of_name("command"), None);
    assert_eq!(label_of_name(""), None);
    assert_eq!(label_of_name("xcommand_one"), None);
    assert_eq!(label_of_name("Command_one"), None);
    assert_eq!(label_of_name("run"), None);
    assert_eq!(label_of_name("\u{e9}\u{e9}\u{e9}\u{e9}\u{e9}\u{e9}\u{e9}\u{e9}x"), None);
}

#[test]
fn find_named_handlers_skips_the_fallback_and_the_rest() {
    let items = vec![
        method_of("new", vec![]),
        method_of("command_two", vec![]),
        method_of("command_unknown", vec![]),
        method_of("command_one", vec![]),
    ];
    assert_eq!(
        find_named_handlers(&items),
        vec![record("command_two", "two"), record("command_one", "one")]
    );
}
