use command_dispatch::error::{ArgumentError, CompileError};
use command_dispatch::extract::Mode;
use command_dispatch::syntax::{Argument, Declaration, DeclarationKind, Decorator, DecoratorStyle};
use command_dispatch::item_impl::{expand, method_source, read_declarations, splice, ExpandError};
use quote::ToTokens;

const ANNOTATED: &str = r#"
impl App {
    pub fn new() -> App { App {} }

    #[command("one")]
    fn handle_one(&self, _command_args: &[String]) { println!("You ran command one"); }

    #[inline]
    #[command("two")]
    #[command("ignored")]
    fn handle_two(&self, _command_args: &[String]) { println!("You ran command two"); }

    pub fn run<F>(&self, command: &str, command_args: &[String], f: F)
    where F: FnOnce(&str, &[String])
    {
        self.handle_command(command, command_args, f)
    }
}
"#;

const NAMED: &str = r#"
impl App {
    const LIMIT: usize = 3;
    pub fn new() -> App { App {} }
    fn command_one(&self, _command_args: &[String]) { println!("You ran command one"); }
    fn command_two(&self, _command_args: &[String]) { println!("You ran command two"); }
    fn command_unknown(&self, command: &str, command_args: &[String]) { todo!() }
    pub fn run(&self, command: &str, command_args: &[String]) {
        self.handle_command(command, command_args)
    }
}
"#;

fn parse(source: &str) -> syn::ItemImpl {
    syn::parse_str::<syn::ItemImpl>(source).unwrap()
}

fn printed(item: &syn::ImplItem) -> String {
    item.to_token_stream().to_string()
}

fn outer(name: &str, arguments: Vec<Argument>) -> Decorator {
    Decorator { style: DecoratorStyle::Outer, name: name.to_string(), arguments }
}

fn text(value: &str) -> Argument {
    Argument::Str(value.to_string())
}

fn declarations_of(source: &str) -> Vec<Declaration> {
    read_declarations(&parse(source))
}

#[test]
fn read_declarations_gives_methods_with_their_attributes() {
    let items = declarations_of(ANNOTATED);
    assert_eq!(items.len(), 4);
    assert_eq!(
        items[0],
        Declaration {
            kind: DeclarationKind::Method,
            name: "new".to_string(),
            parameters: String::new(),
            decorators: vec![],
        }
    );
    assert_eq!(items[1].name, "handle_one");
    assert_eq!(items[1].decorators, vec![outer("command", vec![text("one")])]);
    assert_eq!(
        items[2].decorators,
        vec![
            outer("inline", vec![]),
            outer("command", vec![text("two")]),
            outer("command", vec![text("ignored")]),
        ]
    );
    assert_eq!(items[3].name, "run");
    assert_eq!(
        syn::parse_str::<syn::Signature>(&format!("fn run({})", items[3].parameters))
            .unwrap()
            .inputs
            .len(),
        4
    );
}

#[test]
fn read_declarations_keeps_other_items_as_such() {
    let items = declarations_of(NAMED);
    assert_eq!(items.len(), 6);
    assert_eq!(
        items[0],
        Declaration {
            kind: DeclarationKind::Other,
            name: String::new(),
            parameters: String::new(),
            decorators: vec![],
        }
    );
    assert_eq!(items[2].kind, DeclarationKind::Method);
    assert_eq!(items[2].name, "command_one");
}

#[test]
fn read_declarations_unescapes_string_literals() {
    let items = declarations_of(
        r##"impl A { #[command("a\tb\u{e9}\"")] fn x(&self) {} #[command(r#"raw"one"#)] fn y(&self) {} }"##,
    );
    assert_eq!(items[0].decorators[0].arguments, vec![text("a\tb\u{e9}\"")]);
    assert_eq!(items[1].decorators[0].arguments, vec![text("raw\"one")]);
}

#[test]
fn read_declarations_tells_argument_kinds_apart() {
    let items = declarations_of(
        r#"impl A {
            #[command] fn a(&self) {}
            #[command()] fn b(&self) {}
            #[command = "x"] fn c(&self) {}
            #[command(5)] fn d(&self) {}
            #[command(name)] fn e(&self) {}
            #[command("x", "y")] fn f(&self) {}
            #[command(b"x")] fn g(&self) {}
            #[command(+)] fn h(&self) {}
            #[a::command("x")] fn i(&self) {}
            #[r#command("x")] fn j(&self) {}
        }"#,
    );
    let arguments: Vec<Vec<Argument>> =
        items.iter().map(|d| d.decorators[0].arguments.iter().map(|a| match a {
            Argument::Str(s) => Argument::Str(s.clone()),
            Argument::Other => Argument::Other,
        }).collect()).collect();
    assert_eq!(arguments[0], vec![]);
    assert_eq!(arguments[1], vec![]);
    assert_eq!(arguments[2], vec![]);
    assert_eq!(arguments[3], vec![Argument::Other]);
    assert_eq!(arguments[4], vec![Argument::Other]);
    assert_eq!(arguments[5], vec![text("x"), text("y")]);
    assert_eq!(arguments[6], vec![Argument::Other]);
    assert_eq!(arguments[7], vec![Argument::Other]);
    assert_eq!(items[8].decorators[0].name, "");
    assert_eq!(items[9].decorators[0].name, "r#command");
    assert!(!items[8].decorators[0].is_command_marker());
    assert!(!items[9].decorators[0].is_command_marker());
    assert!(items[0].decorators[0].is_command_marker());
}

#[test]
fn read_declarations_tells_inner_attributes_apart() {
    let items = declarations_of(r#"impl A { fn a(&self) { #![command("x")] } }"#);
    assert_eq!(items[0].decorators.len(), 1);
    assert_eq!(items[0].decorators[0].style, DecoratorStyle::Inner);
    assert!(!items[0].decorators[0].is_command_marker());
}

#[test]
fn method_source_of_annotated_block() {
    assert_eq!(
        method_source(Mode::Annotation, &parse(ANNOTATED)).unwrap(),
        "fn handle_command<F>(&self, command: &str, command_args: &[String], f: F) \
         where F: FnOnce(&str, &[String]) { match command { \
         \"one\" => self.handle_one(command_args), \
         \"two\" => self.handle_two(command_args), \
         _ => f(command, command_args) } }"
    );
}

#[test]
fn method_source_of_named_block() {
    assert_eq!(
        method_source(Mode::NamingConvention, &parse(NAMED)).unwrap(),
        "fn handle_command(&self, command: &str, command_args: &[String]) { match command { \
         \"one\" => self.command_one(command_args), \
         \"two\" => self.command_two(command_args), \
         _ => self.command_unknown(command, command_args) } }"
    );
}

#[test]
fn expand_puts_the_method_first_and_keeps_the_items() {
    for (mode, source) in [(Mode::Annotation, ANNOTATED), (Mode::NamingConvention, NAMED)] {
        let before = parse(source);
        let out = expand(mode, parse(source)).unwrap();
        assert_eq!(out.items.len(), before.items.len() + 1);
        match &out.items[0] {
            syn::ImplItem::Method(m) => assert_eq!(m.sig.ident.to_string(), "handle_command"),
            _ => panic!("the synthesized method comes first"),
        }
        for (i, item) in before.items.iter().enumerate() {
            assert_eq!(printed(&out.items[i + 1]), printed(item));
        }
        assert_eq!(out.self_ty.to_token_stream().to_string(), "App");
        assert_eq!(
            read_declarations(&out)[1..],
            read_declarations(&before)[..]
        );
    }
}

#[test]
fn expanded_method_matches_on_the_labels() {
    let out = expand(Mode::Annotation, parse(ANNOTATED)).unwrap();
    let expected = syn::parse_str::<syn::ImplItemMethod>(
        r#"fn handle_command<F>(&self, command: &str, command_args: &[String], f: F)
        where F: FnOnce(&str, &[String])
        {
            match command {
                "one" => self.handle_one(command_args),
                "two" => self.handle_two(command_args),
                _ => f(command, command_args)
            }
        }"#,
    )
    .unwrap();
    assert_eq!(printed(&out.items[0]), expected.to_token_stream().to_string());
}

#[test]
fn expanded_label_keeps_its_value() {
    let source = r##"impl A { #[command("say \"hi\"\\\n\u{e9}\u{1F600} ~")] fn greet(&self, a: &[String]) {} }"##;
    let out = expand(Mode::Annotation, parse(source)).unwrap();
    let method = match &out.items[0] {
        syn::ImplItem::Method(m) => m,
        _ => panic!("the synthesized method comes first"),
    };
    let body = match &method.block.stmts[0] {
        syn::Stmt::Expr(syn::Expr::Match(m)) => m,
        _ => panic!("the body is one match"),
    };
    assert_eq!(body.arms.len(), 2);
    match &body.arms[0].pat {
        syn::Pat::Lit(p) => match &*p.expr {
            syn::Expr::Lit(syn::ExprLit { lit: syn::Lit::Str(s), .. }) => {
                assert_eq!(s.value(), "say \"hi\"\\\n\u{e9}\u{1F600} ~");
                assert_eq!(
                    s.token().to_string(),
                    "\"say \\u{000022}hi\\u{000022}\\u{00005c}\\u{00000a}\\u{0000e9}\\u{01f600} ~\""
                );
            }
            _ => panic!("the pattern is a string literal"),
        },
        _ => panic!("the pattern is a literal"),
    }
}

#[test]
fn expand_reports_the_diagnostics_of_the_pass() {
    let duplicate = r#"impl A { #[command("x")] fn a(&self) {} #[command("x")] fn b(&self) {} }"#;
    assert_eq!(
        expand(Mode::Annotation, parse(duplicate)).err(),
        Some(ExpandError::Rejected(CompileError::DuplicateLabel {
            label: "x".to_string(),
            first: "a".to_string(),
            second: "b".to_string(),
        }))
    );
    let malformed = r#"impl A { #[command(7)] fn a(&self) {} }"#;
    assert_eq!(
        expand(Mode::Annotation, parse(malformed)).err(),
        Some(ExpandError::Rejected(CompileError::MalformedDecorator {
            declaration: "a".to_string(),
            reason: ArgumentError::NotString,
        }))
    );
    assert!(expand(Mode::NamingConvention, parse(malformed)).is_ok());
}

#[test]
fn splice_reports_a_parse_error_with_its_message() {
    let parsed = syn::parse_str::<syn::ImplItemMethod>("fn broken(");
    let message = parsed.as_ref().err().unwrap().to_string();
    assert_eq!(splice(parse(NAMED), parsed).err(), Some(ExpandError::Emission(message)));
}

#[test]
fn splice_puts_any_method_first() {
    let method = syn::parse_str::<syn::ImplItemMethod>("fn extra(&self) {}");
    let out = splice(parse(NAMED), method).ok().unwrap();
    assert_eq!(out.items.len(), 7);
    assert_eq!(read_declarations(&out)[0].name, "extra");
    assert_eq!(read_declarations(&out)[3].name, "command_one");
}

#[test]
fn expand_twice_gives_the_same_tokens() {
    for (mode, source) in [(Mode::Annotation, ANNOTATED), (Mode::NamingConvention, NAMED)] {
        let first = expand(mode, parse(source)).unwrap();
        let second = expand(mode, parse(source)).unwrap();
        assert_eq!(first.to_token_stream().to_string(), second.to_token_stream().to_string());
        assert_eq!(method_source(mode, &parse(source)), method_source(mode, &parse(source)));
    }
}

#[test]
fn expand_of_an_empty_block_adds_the_method() {
    let out = expand(Mode::Annotation, parse("impl A {}")).unwrap();
    assert_eq!(out.items.len(), 1);
    assert_eq!(read_declarations(&out)[0].name, "handle_command");
    assert_eq!(read_declarations(&out)[0].kind, DeclarationKind::Method);
}

#[test]
fn read_declarations_reads_a_literal_of_an_unknown_kind_as_other() {
    let items = declarations_of(
        r#"impl A {
            #[command(c"one")] fn a(&self) {}
            #[command("one", c"two")] fn b(&self) {}
            #[command(cr"one")] fn c(&self) {}
        }"#,
    );
    assert_eq!(items[0].decorators[0].arguments, vec![Argument::Other]);
    assert_eq!(items[1].decorators[0].arguments, vec![text("one"), Argument::Other]);
    assert_eq!(items[2].decorators[0].arguments, vec![Argument::Other]);
}

#[test]
fn read_declarations_leaves_other_attributes_unread() {
    let items = declarations_of(
        r#"impl A {
            #[other(c"x")]
            #[doc = c"x"]
            #[cfg(feature = "x")]
            #[command("go")]
            fn a(&self) { #![command(c"inner")] }
        }"#,
    );
    assert_eq!(
        items[0].decorators,
        vec![
            outer("other", vec![]),
            outer("doc", vec![]),
            outer("cfg", vec![]),
            outer("command", vec![text("go")]),
            Decorator { style: DecoratorStyle::Inner, name: "command".to_string(), arguments: vec![] },
        ]
    );
}

#[test]
fn read_declarations_parts_arguments_at_commas() {
    let items = declarations_of(
        r#"impl A {
            #[command("one",)] fn a(&self) {}
            #[command(,)] fn b(&self) {}
            #[command("a" "b")] fn c(&self) {}
            #[command("a", , "b")] fn d(&self) {}
            #[command(("a"))] fn e(&self) {}
            #[command["a"]] fn f(&self) {}
            #[command("a") "b"] fn g(&self) {}
            #[command("a"suffix)] fn h(&self) {}
        }"#,
    );
    assert_eq!(items[0].decorators[0].arguments, vec![text("one")]);
    assert_eq!(items[1].decorators[0].arguments, vec![Argument::Other]);
    assert_eq!(items[2].decorators[0].arguments, vec![Argument::Other]);
    assert_eq!(items[3].decorators[0].arguments, vec![text("a"), Argument::Other, text("b")]);
    assert_eq!(items[4].decorators[0].arguments, vec![Argument::Other]);
    assert_eq!(items[5].decorators[0].arguments, vec![]);
    assert_eq!(items[6].decorators[0].arguments, vec![]);
    assert_eq!(items[7].decorators[0].arguments, vec![text("a")]);
}

#[test]
fn expand_names_the_declaration_whose_argument_is_an_unknown_literal() {
    let source = r#"impl A { #[command("ok")] fn a(&self) {} #[command(c"one")] fn b(&self) {} }"#;
    assert_eq!(
        expand(Mode::Annotation, parse(source)).err(),
        Some(ExpandError::Rejected(CompileError::MalformedDecorator {
            declaration: "b".to_string(),
            reason: ArgumentError::NotString,
        }))
    );
    assert_eq!(
        method_source(Mode::Annotation, &parse(source)),
        Err(CompileError::MalformedDecorator {
            declaration: "b".to_string(),
            reason: ArgumentError::NotString,
        })
    );
}

#[test]
fn expand_passes_over_unknown_literals_outside_command_attributes() {
    let source = r#"impl A {
        #[other(c"x")]
        #[command("go")]
        fn a(&self) {}
        #[doc = c"x"]
        fn command_b(&self) {}
        fn command_unknown(&self, command: &str, command_args: &[String]) {}
    }"#;
    for mode in [Mode::Annotation, Mode::NamingConvention] {
        let before = parse(source);
        let out = expand(mode, parse(source)).unwrap();
        assert_eq!(out.items.len(), 4);
        for (i, item) in before.items.iter().enumerate() {
            assert_eq!(printed(&out.items[i + 1]), printed(item));
        }
    }
}

#[test]
fn expand_keeps_the_header_of_the_block() {
    let source = r#"#[allow(dead_code)] unsafe impl<'a, T: Clone> Marker<T> for Holder<'a, T> where T: Copy {
        fn command_a(&self) {}
    }"#;
    let out = expand(Mode::NamingConvention, parse(source)).unwrap();
    let mut emptied = out;
    emptied.items.clear();
    let mut header = parse(source);
    header.items.clear();
    assert_eq!(emptied.to_token_stream().to_string(), header.to_token_stream().to_string());
}

#[test]
fn expand_calls_raw_identifiers_as_they_are_written() {
    let source = r#"impl A { #[command("type")] fn r#type(&self, a: &[String]) {} }"#;
    let out = expand(Mode::Annotation, parse(source)).unwrap();
    assert!(method_source(Mode::Annotation, &parse(source))
        .unwrap()
        .contains("\"type\" => self.r#type(command_args), "));
    assert_eq!(read_declarations(&out)[1].name, "r#type");
}
