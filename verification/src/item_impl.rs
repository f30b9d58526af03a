//! The pass on a parsed `impl` block: reading its declarations, and putting
//! the synthesized method in front of its items.

use crate::emit::{DispatchView, FallbackView};
use crate::error::{CompileError, CompileErrorView};
use crate::extract::{Mode, FALLBACK};
use crate::laws::lemma_rows_resolve_to_declarations;
use crate::pass::{dispatch_method, synthesize_from};
use crate::syntax::{
    is_identifier, Argument, ArgumentView, Declaration, DeclarationKind, DeclarationView,
    Decorator, DecoratorStyle, DecoratorView, COMMAND,
};
use proc_macro2::{Delimiter, TokenStream, TokenTree};
use quote::ToTokens;
use vstd::prelude::*;
use vstd::string::StrSliceExecFns;

verus! {

/// `syn::ItemImpl`: a parsed `impl` block.
#[verifier::external_type_specification]
#[verifier::external_body]
pub struct ExItemImpl(syn::ItemImpl);

/// `syn::ImplItem`: one item of a parsed `impl` block.
#[verifier::external_type_specification]
#[verifier::external_body]
pub struct ExImplItem(syn::ImplItem);

/// `syn::ImplItemMethod`: a parsed method of an `impl` block.
#[verifier::external_type_specification]
#[verifier::external_body]
pub struct ExImplItemMethod(syn::ImplItemMethod);

/// `syn::Error`: why a text did not parse.
#[verifier::external_type_specification]
#[verifier::external_body]
pub struct ExError(syn::Error);

/// One token of an attribute's argument list, as far as it is looked at.
#[derive(Debug, PartialEq, Eq)]
pub enum Token {
    /// A literal, held by its text as written.
    Literal(String),
    /// A punctuation character.
    Punct(char),
    /// An identifier or a group.
    Other,
}

/// Mathematical model of a [`Token`].
#[verifier::ext_equal]
pub ghost enum TokenView {
    Literal(Seq<char>),
    Punct(char),
    Other,
}

impl View for Token {
    type V = TokenView;

    open spec fn view(&self) -> TokenView {
        match self {
            Token::Literal(text) => TokenView::Literal(text@),
            Token::Punct(c) => TokenView::Punct(*c),
            Token::Other => TokenView::Other,
        }
    }
}

/// What one token of an argument list holds.
#[verifier::ext_equal]
pub ghost enum TokenReading {
    /// A literal: its text as written and, for a string literal, the value
    /// that it stands for.
    Literal { text: Seq<char>, value: Seq<char> },
    /// A punctuation character.
    Punct(char),
    /// An identifier or a group.
    Other,
}

impl TokenReading {
    /// The token without the value of its literal.
    pub open spec fn shape(self) -> TokenView {
        match self {
            TokenReading::Literal { text, value } => TokenView::Literal(text),
            TokenReading::Punct(c) => TokenView::Punct(c),
            TokenReading::Other => TokenView::Other,
        }
    }

    /// The comma that parts two arguments.
    pub open spec fn is_comma(self) -> bool {
        self matches TokenReading::Punct(c) && c as u32 == 0x2c
    }
}

/// What one attribute holds: its style, the identifier that its path
/// consists of (empty where the path is more than one identifier), and the
/// tokens between the parentheses where the path is followed by one
/// parenthesized group and nothing else.
#[verifier::ext_equal]
pub ghost struct AttributeReading {
    pub style: DecoratorStyle,
    pub name: Seq<char>,
    pub arguments: Option<Seq<TokenReading>>,
}

/// What one item of an `impl` block holds. A method is given with its
/// identifier, the tokens of its parameters as printed and its attributes;
/// any other item has the kind `Other`, empty texts and no attributes. The
/// tokens are those of the whole item as printed.
#[verifier::ext_equal]
pub ghost struct ItemReading {
    pub kind: DeclarationKind,
    pub name: Seq<char>,
    pub parameters: Seq<char>,
    pub attributes: Seq<AttributeReading>,
    pub tokens: Seq<char>,
}

/// What the items of an `impl` block hold, in source order.
pub uninterp spec fn reading_of(item_impl: syn::ItemImpl) -> Seq<ItemReading>;

/// What an `impl` block holds beside its items: its attributes, generics,
/// trait and type, as printed.
pub uninterp spec fn header_of(item_impl: syn::ItemImpl) -> Seq<char>;

/// What one item holds.
pub uninterp spec fn item_reading(item: syn::ImplItem) -> ItemReading;

/// What a method holds, read as an item of an `impl` block is read.
pub uninterp spec fn method_reading(method: syn::ImplItemMethod) -> ItemReading;

/// What a source text holds where it parses as a method of an `impl` block,
/// and nothing where it does not.
pub uninterp spec fn parsed_method(source: Seq<char>) -> Option<ItemReading>;

/// The message that a parse error displays.
pub uninterp spec fn error_text(error: syn::Error) -> Seq<char>;

/// The text of a literal that is a string literal: it begins with a quote,
/// or with the `r` of a raw string.
pub open spec fn is_string_text(text: Seq<char>) -> bool {
    text.len() > 0 && (text[0] as u32 == 0x22 || text[0] as u32 == 0x72)
}

/// The argument that the tokens between two commas stand for: the value of
/// a string literal where they are one string literal, and else `Other`.
pub open spec fn argument_of(tokens: Seq<TokenReading>) -> ArgumentView {
    if tokens.len() == 1 {
        match tokens[0] {
            TokenReading::Literal { text, value } => if is_string_text(text) {
                ArgumentView::Str(value)
            } else {
                ArgumentView::Other
            },
            _ => ArgumentView::Other,
        }
    } else {
        ArgumentView::Other
    }
}

/// The arguments in `tokens` from position `from` on, the argument under
/// way having begun at `start`. Commas part the arguments, and a comma
/// after the last one adds none.
pub open spec fn arguments_from(tokens: Seq<TokenReading>, from: int, start: int) -> Seq<
    ArgumentView,
>
    decreases tokens.len() - from,
{
    if from < 0 || from >= tokens.len() {
        if start < from {
            seq![argument_of(tokens.subrange(start, from))]
        } else {
            Seq::empty()
        }
    } else if tokens[from].is_comma() {
        seq![argument_of(tokens.subrange(start, from))] + arguments_from(
            tokens,
            from + 1,
            from + 1,
        )
    } else {
        arguments_from(tokens, from + 1, start)
    }
}

impl AttributeReading {
    /// An outer attribute named `command`: the only kind whose arguments
    /// are read.
    pub open spec fn is_command_marker(self) -> bool {
        self.style == DecoratorStyle::Outer && self.name == COMMAND@
    }

    /// The arguments that are read from this attribute.
    pub open spec fn arguments_read(self) -> Seq<ArgumentView> {
        if self.is_command_marker() {
            match self.arguments {
                Some(tokens) => arguments_from(tokens, 0, 0),
                None => Seq::empty(),
            }
        } else {
            Seq::empty()
        }
    }

    /// The decorator that this attribute is read as.
    pub open spec fn decorator(self) -> DecoratorView {
        DecoratorView { style: self.style, name: self.name, arguments: self.arguments_read() }
    }
}

impl ItemReading {
    /// The decorators that the attributes are read as.
    pub open spec fn decorators(self) -> Seq<DecoratorView> {
        Seq::new(self.attributes.len(), |j: int| self.attributes[j].decorator())
    }

    /// The declaration that this item is read as.
    pub open spec fn declaration(self) -> DeclarationView {
        DeclarationView {
            kind: self.kind,
            name: self.name,
            parameters: self.parameters,
            decorators: self.decorators(),
        }
    }
}

/// The declarations that the items are read as.
pub open spec fn declarations_of(items: Seq<ItemReading>) -> Seq<DeclarationView> {
    Seq::new(items.len(), |i: int| items[i].declaration())
}

/// The declarations of an `impl` block, as the pass reads them: one per
/// item, in source order.
pub open spec fn declarations_in(item_impl: syn::ItemImpl) -> Seq<DeclarationView> {
    declarations_of(reading_of(item_impl))
}

/// Every method among the declarations is named by an identifier.
pub open spec fn methods_are_identifiers(items: Seq<DeclarationView>) -> bool {
    forall|i: int|
        0 <= i < items.len() && (#[trigger] items[i]).kind == DeclarationKind::Method
            ==> is_identifier(items[i].name)
}

impl DispatchView {
    /// Every method that the synthesized method calls is named by an
    /// identifier.
    pub open spec fn calls_identifiers(self) -> bool {
        &&& forall|k: int| 0 <= k < self.arms.len() ==> is_identifier((#[trigger] self.arms[k]).handler)
        &&& self.fallback matches FallbackView::ReservedMethod(name) ==> is_identifier(name)
    }
}

/// The text is the source of a synthesized method that calls methods named
/// by identifiers.
pub open spec fn is_method_source(text: Seq<char>) -> bool {
    exists|method: DispatchView| #[trigger] method.source() == text && method.calls_identifiers()
}

/// The number of items of the block: `items.len()` of `syn::ItemImpl`.
#[verifier::external_body]
fn declaration_count(item_impl: &syn::ItemImpl) -> (r: usize)
    ensures
        r == reading_of(*item_impl).len(),
{
    item_impl.items.len()
}

/// Item `i` without its attributes. For `syn::ImplItem::Method` the name is
/// `sig.ident` as text, which is the text of an identifier, and the
/// parameters are the tokens of `sig.inputs` as text; any other item has
/// the kind `Other` and empty texts.
#[verifier::external_body]
fn declaration_head(item_impl: &syn::ItemImpl, i: usize) -> (r: Declaration)
    requires
        i < reading_of(*item_impl).len(),
    ensures
        r@.kind == reading_of(*item_impl)[i as int].kind,
        r@.name == reading_of(*item_impl)[i as int].name,
        r@.parameters == reading_of(*item_impl)[i as int].parameters,
        r@.decorators == Seq::<DecoratorView>::empty(),
        r@.kind == DeclarationKind::Method ==> is_identifier(r@.name),
{
    let (kind, name, parameters) = match &item_impl.items[i] {
        syn::ImplItem::Method(m) => (
            DeclarationKind::Method,
            m.sig.ident.to_string(),
            m.sig.inputs.to_token_stream().to_string(),
        ),
        _ => (DeclarationKind::Other, String::new(), String::new()),
    };
    Declaration { kind, name, parameters, decorators: Vec::new() }
}

/// The number of attributes of item `i`: `attrs.len()` of a method, and 0 for
/// any other item.
#[verifier::external_body]
fn decorator_count(item_impl: &syn::ItemImpl, i: usize) -> (r: usize)
    requires
        i < reading_of(*item_impl).len(),
    ensures
        r == reading_of(*item_impl)[i as int].attributes.len(),
{
    match &item_impl.items[i] {
        syn::ImplItem::Method(m) => m.attrs.len(),
        _ => 0,
    }
}

/// Attribute `j` of item `i` without its arguments. The style is that of
/// `syn::Attribute`; the name is the identifier that `Path::get_ident` finds
/// in the attribute's path, as text, and empty where it finds none.
#[verifier::external_body]
fn decorator_head(item_impl: &syn::ItemImpl, i: usize, j: usize) -> (r: Decorator)
    requires
        i < reading_of(*item_impl).len(),
        j < reading_of(*item_impl)[i as int].attributes.len(),
    ensures
        r@.style == reading_of(*item_impl)[i as int].attributes[j as int].style,
        r@.name == reading_of(*item_impl)[i as int].attributes[j as int].name,
        r@.arguments == Seq::<ArgumentView>::empty(),
{
    let attrs: &[syn::Attribute] = match &item_impl.items[i] {
        syn::ImplItem::Method(m) => &m.attrs,
        _ => &[],
    };
    let style = match attrs[j].style {
        syn::AttrStyle::Outer => DecoratorStyle::Outer,
        syn::AttrStyle::Inner(_) => DecoratorStyle::Inner,
    };
    let name = attrs[j].path.get_ident().map(|id| id.to_string()).unwrap_or_default();
    Decorator { style, name, arguments: Vec::new() }
}

/// The number of tokens between the parentheses of attribute `j` of item
/// `i`, where the `tokens` of the `syn::Attribute` are one
/// `proc_macro2::TokenTree::Group` in parentheses and nothing else, and
/// `None` where they are anything else. No token is parsed.
#[verifier::external_body]
fn argument_token_count(item_impl: &syn::ItemImpl, i: usize, j: usize) -> (r: Option<usize>)
    requires
        i < reading_of(*item_impl).len(),
        j < reading_of(*item_impl)[i as int].attributes.len(),
    ensures
        match reading_of(*item_impl)[i as int].attributes[j as int].arguments {
            Some(tokens) => r == Some(tokens.len() as usize) && tokens.len() <= usize::MAX,
            None => r is None,
        },
{
    let attrs: &[syn::Attribute] = match &item_impl.items[i] {
        syn::ImplItem::Method(m) => &m.attrs,
        _ => &[],
    };
    let mut trees = attrs[j].tokens.clone().into_iter();
    match (trees.next(), trees.next()) {
        (Some(TokenTree::Group(group)), None) => match group.delimiter() {
            Delimiter::Parenthesis => Some(group.stream().into_iter().count()),
            _ => None,
        },
        _ => None,
    }
}

/// Token `t` between the parentheses of attribute `j` of item `i`: a
/// `proc_macro2::Literal` with its text as displayed, a
/// `proc_macro2::Punct` with `as_char`, and `Other` for an identifier or a
/// group. No token is parsed.
#[verifier::external_body]
fn argument_token(item_impl: &syn::ItemImpl, i: usize, j: usize, t: usize) -> (r: Token)
    requires
        i < reading_of(*item_impl).len(),
        j < reading_of(*item_impl)[i as int].attributes.len(),
        reading_of(*item_impl)[i as int].attributes[j as int].arguments is Some,
        t < reading_of(*item_impl)[i as int].attributes[j as int].arguments->Some_0.len(),
    ensures
        r@ == reading_of(*item_impl)[i as int].attributes[j as int].arguments->Some_0[t as int].shape(),
{
    let attrs: &[syn::Attribute] = match &item_impl.items[i] {
        syn::ImplItem::Method(m) => &m.attrs,
        _ => &[],
    };
    let inner = match attrs[j].tokens.clone().into_iter().next() {
        Some(TokenTree::Group(group)) => group.stream(),
        _ => TokenStream::new(),
    };
    match inner.into_iter().nth(t) {
        Some(TokenTree::Literal(literal)) => Token::Literal(literal.to_string()),
        Some(TokenTree::Punct(punct)) => Token::Punct(punct.as_char()),
        _ => Token::Other,
    }
}

/// The value of the string literal that is token `t` between the
/// parentheses of attribute `j` of item `i`: `LitStr::value` of what
/// `syn::Lit::new` makes of the literal. The literal must be a string
/// literal: `syn::Lit::new` does not return on a literal of a kind that it
/// does not know.
#[verifier::external_body]
fn string_literal_value(item_impl: &syn::ItemImpl, i: usize, j: usize, t: usize) -> (r: String)
    requires
        i < reading_of(*item_impl).len(),
        j < reading_of(*item_impl)[i as int].attributes.len(),
        reading_of(*item_impl)[i as int].attributes[j as int].arguments is Some,
        t < reading_of(*item_impl)[i as int].attributes[j as int].arguments->Some_0.len(),
        reading_of(*item_impl)[i as int].attributes[j as int].arguments->Some_0[t as int] matches TokenReading::Literal {
            text,
            value,
        } && is_string_text(text),
    ensures
        r@ == reading_of(*item_impl)[i as int].attributes[j as int].arguments->Some_0[t as int]->value,
{
    let attrs: &[syn::Attribute] = match &item_impl.items[i] {
        syn::ImplItem::Method(m) => &m.attrs,
        _ => &[],
    };
    let inner = match attrs[j].tokens.clone().into_iter().next() {
        Some(TokenTree::Group(group)) => group.stream(),
        _ => TokenStream::new(),
    };
    match inner.into_iter().nth(t) {
        Some(TokenTree::Literal(literal)) => match syn::Lit::new(literal) {
            syn::Lit::Str(text) => text.value(),
            _ => String::new(),
        },
        _ => String::new(),
    }
}

/// Parses a method from source text with `syn::parse_str`. The text must be
/// the source of a synthesized method that calls methods named by
/// identifiers: such a text holds no literal but string literals, and the
/// parser does not return on a literal of a kind that it does not know.
#[verifier::external_body]
fn parse_method(source: &str) -> (r: Result<syn::ImplItemMethod, syn::Error>)
    requires
        is_method_source(source@),
    ensures
        match r {
            Ok(method) => parsed_method(source@) == Some(method_reading(method)),
            Err(_) => parsed_method(source@) is None,
        },
{
    syn::parse_str::<syn::ImplItemMethod>(source)
}

/// The message of a parse error: what `Display` of `syn::Error` writes.
#[verifier::external_body]
fn error_message(error: &syn::Error) -> (r: String)
    ensures
        r@ == error_text(*error),
{
    error.to_string()
}

/// Takes the items out of the block: the block without items, and the
/// items of `syn::ItemImpl` in their order.
#[verifier::external_body]
fn take_items(item_impl: syn::ItemImpl) -> (r: (syn::ItemImpl, Vec<syn::ImplItem>))
    ensures
        header_of(r.0) == header_of(item_impl),
        r.1@.len() == reading_of(item_impl).len(),
        forall|i: int|
            0 <= i < r.1@.len() ==> item_reading(#[trigger] r.1@[i]) == reading_of(item_impl)[i],
{
    let mut item_impl = item_impl;
    let items = std::mem::take(&mut item_impl.items);
    (item_impl, items)
}

/// The method as an item: `syn::ImplItem::Method`.
#[verifier::external_body]
fn method_item(method: syn::ImplItemMethod) -> (r: syn::ImplItem)
    ensures
        item_reading(r) == method_reading(method),
{
    syn::ImplItem::Method(method)
}

/// The block with `items` as its items: a `syn::ItemImpl` whose other
/// fields are those of `item_impl`.
#[verifier::external_body]
fn put_items(item_impl: syn::ItemImpl, items: Vec<syn::ImplItem>) -> (r: syn::ItemImpl)
    ensures
        header_of(r) == header_of(item_impl),
        reading_of(r).len() == items@.len(),
        forall|i: int|
            0 <= i < items@.len() ==> (#[trigger] reading_of(r)[i]) == item_reading(items@[i]),
{
    syn::ItemImpl { items, ..item_impl }
}

/// Reads the argument that the tokens from `start` up to `end` stand for.
fn read_argument(item_impl: &syn::ItemImpl, i: usize, j: usize, start: usize, end: usize) -> (r:
    Argument)
    requires
        i < reading_of(*item_impl).len(),
        j < reading_of(*item_impl)[i as int].attributes.len(),
        reading_of(*item_impl)[i as int].attributes[j as int].arguments is Some,
        start <= end <= reading_of(*item_impl)[i as int].attributes[j as int].arguments->Some_0.len(),
    ensures
        r@ == argument_of(
            reading_of(*item_impl)[i as int].attributes[j as int].arguments->Some_0.subrange(
                start as int,
                end as int,
            ),
        ),
{
    if end - start != 1 {
        return Argument::Other;
    }
    match argument_token(item_impl, i, j, start) {
        Token::Literal(text) => {
            if text.as_str().unicode_len() == 0 {
                return Argument::Other;
            }
            let code: u32 = text.as_str().get_char(0) as u32;
            if code == 0x22 || code == 0x72 {
                Argument::Str(string_literal_value(item_impl, i, j, start))
            } else {
                Argument::Other
            }
        },
        _ => Argument::Other,
    }
}

/// Reads the arguments of attribute `j` of item `i` from its tokens.
fn read_arguments(item_impl: &syn::ItemImpl, i: usize, j: usize) -> (r: Vec<Argument>)
    requires
        i < reading_of(*item_impl).len(),
        j < reading_of(*item_impl)[i as int].attributes.len(),
    ensures
        r.deep_view() == match reading_of(*item_impl)[i as int].attributes[j as int].arguments {
            Some(tokens) => arguments_from(tokens, 0, 0),
            None => Seq::empty(),
        },
{
    let mut arguments: Vec<Argument> = Vec::new();
    let n = match argument_token_count(item_impl, i, j) {
        Some(n) => n,
        None => {
            assert(arguments.deep_view() =~= Seq::empty());
            return arguments;
        },
    };
    let ghost tokens = reading_of(*item_impl)[i as int].attributes[j as int].arguments->Some_0;
    let mut start: usize = 0;
    let mut t: usize = 0;
    assert(arguments.deep_view() + arguments_from(tokens, 0, 0) =~= arguments_from(tokens, 0, 0));
    while t < n
        invariant
            start <= t <= n,
            n == tokens.len(),
            i < reading_of(*item_impl).len(),
            j < reading_of(*item_impl)[i as int].attributes.len(),
            reading_of(*item_impl)[i as int].attributes[j as int].arguments == Some(tokens),
            arguments_from(tokens, 0, 0) == arguments.deep_view() + arguments_from(
                tokens,
                t as int,
                start as int,
            ),
        decreases n - t,
    {
        let comma = match argument_token(item_impl, i, j, t) {
            Token::Punct(c) => c as u32 == 0x2c,
            _ => false,
        };
        if comma {
            let ghost before = arguments.deep_view();
            let argument = read_argument(item_impl, i, j, start, t);
            arguments.push(argument);
            assert(arguments.deep_view() =~= before.push(argument@));
            assert(arguments.deep_view() + arguments_from(tokens, t as int + 1, t as int + 1)
                =~= before + arguments_from(tokens, t as int, start as int));
            start = t + 1;
        }
        t += 1;
    }
    if start < n {
        let ghost before = arguments.deep_view();
        let argument = read_argument(item_impl, i, j, start, n);
        arguments.push(argument);
        assert(arguments.deep_view() =~= before.push(argument@));
    }
    assert(arguments.deep_view() =~= arguments_from(tokens, 0, 0));
    arguments
}

/// Reads the attributes of item `i`. Arguments are read of outer
/// attributes named `command` and of no other.
fn read_decorators(item_impl: &syn::ItemImpl, i: usize) -> (r: Vec<Decorator>)
    requires
        i < reading_of(*item_impl).len(),
    ensures
        r.deep_view() == reading_of(*item_impl)[i as int].decorators(),
{
    let ghost wanted = reading_of(*item_impl)[i as int].decorators();
    let n = decorator_count(item_impl, i);
    let mut decorators: Vec<Decorator> = Vec::new();
    let mut j: usize = 0;
    while j < n
        invariant
            j <= n,
            n == wanted.len(),
            i < reading_of(*item_impl).len(),
            wanted == reading_of(*item_impl)[i as int].decorators(),
            decorators.deep_view() == wanted.take(j as int),
        decreases n - j,
    {
        let mut decorator = decorator_head(item_impl, i, j);
        if decorator.is_command_marker() {
            decorator.arguments = read_arguments(item_impl, i, j);
        }
        assert(decorator@ =~~= wanted[j as int]);
        let ghost before = decorators.deep_view();
        decorators.push(decorator);
        assert(decorators.deep_view() =~= before.push(wanted[j as int]));
        j += 1;
    }
    decorators
}

/// Reads the declarations of a parsed `impl` block. No attribute is parsed
/// but outer attributes named `command`, and of those no token but string
/// literals.
pub fn read_declarations(item_impl: &syn::ItemImpl) -> (r: Vec<Declaration>)
    ensures
        r.deep_view() == declarations_in(*item_impl),
        methods_are_identifiers(r.deep_view()),
{
    let ghost wanted = declarations_in(*item_impl);
    let n = declaration_count(item_impl);
    let mut items: Vec<Declaration> = Vec::new();
    let mut i: usize = 0;
    while i < n
        invariant
            i <= n,
            n == wanted.len(),
            wanted == declarations_in(*item_impl),
            items.deep_view() == wanted.take(i as int),
            methods_are_identifiers(items.deep_view()),
        decreases n - i,
    {
        let mut declaration = declaration_head(item_impl, i);
        declaration.decorators = read_decorators(item_impl, i);
        assert(declaration@ =~~= wanted[i as int]);
        let ghost before = items.deep_view();
        items.push(declaration);
        assert(items.deep_view() =~= before.push(wanted[i as int]));
        i += 1;
    }
    assert(wanted.take(n as int) =~= wanted);
    items
}

/// Why a parsed `impl` block could not be augmented.
#[derive(Debug, PartialEq, Eq)]
pub enum ExpandError {
    /// The pass rejected the declarations.
    Rejected(CompileError),
    /// The source text of the synthesized method did not parse; the message
    /// is the parser's.
    Emission(String),
}

/// Mathematical model of an [`ExpandError`].
#[verifier::ext_equal]
pub ghost enum ExpandErrorView {
    Rejected(CompileErrorView),
    Emission(Seq<char>),
}

impl View for ExpandError {
    type V = ExpandErrorView;

    open spec fn view(&self) -> ExpandErrorView {
        match self {
            ExpandError::Rejected(diagnostic) => ExpandErrorView::Rejected(diagnostic@),
            ExpandError::Emission(message) => ExpandErrorView::Emission(message@),
        }
    }
}

/// The reserved name of the fallback handler is an identifier.
pub proof fn lemma_fallback_is_identifier()
    ensures
        is_identifier(FALLBACK@),
{
    reveal_strlit("command_unknown");
}

/// Where every method among the declarations is named by an identifier, the
/// method that the pass synthesizes calls methods named by identifiers.
pub proof fn lemma_calls_identifiers(mode: Mode, items: Seq<DeclarationView>)
    requires
        methods_are_identifiers(items),
        dispatch_method(mode, items) is Ok,
    ensures
        dispatch_method(mode, items)->Ok_0.calls_identifiers(),
{
    let method = dispatch_method(mode, items)->Ok_0;
    lemma_fallback_is_identifier();
    assert forall|k: int| 0 <= k < method.arms.len() implies is_identifier(
        (#[trigger] method.arms[k]).handler,
    ) by {
        lemma_rows_resolve_to_declarations(mode, items, k);
    }
}

/// The source text of the method that the pass synthesizes for a parsed
/// `impl` block, or the diagnostic that aborts the pass.
pub fn method_source(mode: Mode, item_impl: &syn::ItemImpl) -> (r: Result<String, CompileError>)
    ensures
        match dispatch_method(mode, declarations_in(*item_impl)) {
            Ok(method) => r matches Ok(text) && text@ == method.source(),
            Err(diagnostic) => r matches Err(e) && e@ == diagnostic,
        },
{
    let items = read_declarations(item_impl);
    match synthesize_from(mode, &items) {
        Ok(method) => Ok(method.render()),
        Err(e) => Err(e),
    }
}

/// Putting one item in front of the items of a block puts the declaration
/// that it is read as in front of the declarations of the block.
pub proof fn lemma_declarations_of_prepend(first: ItemReading, items: Seq<ItemReading>)
    ensures
        declarations_of(seq![first] + items) == seq![first.declaration()] + declarations_of(items),
{
    assert(declarations_of(seq![first] + items) =~= seq![first.declaration()] + declarations_of(
        items,
    ));
}

/// Puts a parsed method in front of the items of the block, or reports why
/// there is no parsed method. The items and the rest of the block stay as
/// they are.
pub fn splice(item_impl: syn::ItemImpl, parsed: Result<syn::ImplItemMethod, syn::Error>) -> (r:
    Result<syn::ItemImpl, ExpandError>)
    ensures
        match parsed {
            Ok(method) => {
                &&& r matches Ok(out)
                &&& reading_of(out) == seq![method_reading(method)] + reading_of(item_impl)
                &&& header_of(out) == header_of(item_impl)
            },
            Err(error) => r matches Err(e) && e@ == ExpandErrorView::Emission(error_text(error)),
        },
{
    match parsed {
        Ok(method) => {
            let (frame, mut items) = take_items(item_impl);
            let mut new_items: Vec<syn::ImplItem> = Vec::new();
            new_items.push(method_item(method));
            new_items.append(&mut items);
            let out = put_items(frame, new_items);
            assert(reading_of(out) =~= seq![method_reading(method)] + reading_of(item_impl));
            Ok(out)
        },
        Err(error) => Err(ExpandError::Emission(error_message(&error))),
    }
}

/// Runs the pass on a parsed `impl` block. Where the pass accepts the
/// declarations, the source text of the synthesized method is parsed and
/// the method put in front of the items; the items and the rest of the
/// block stay as they are.
pub fn expand(mode: Mode, item_impl: syn::ItemImpl) -> (r: Result<syn::ItemImpl, ExpandError>)
    ensures
        match dispatch_method(mode, declarations_in(item_impl)) {
            Err(diagnostic) => r matches Err(e) && e@ == ExpandErrorView::Rejected(diagnostic),
            Ok(method) => match parsed_method(method.source()) {
                Some(first) => {
                    &&& r matches Ok(out)
                    &&& reading_of(out) == seq![first] + reading_of(item_impl)
                    &&& header_of(out) == header_of(item_impl)
                    &&& declarations_in(out) == seq![first.declaration()] + declarations_in(
                        item_impl,
                    )
                },
                None => r matches Err(e) && e is Emission,
            },
        },
{
    let items = read_declarations(&item_impl);
    match synthesize_from(mode, &items) {
        Ok(method) => {
            proof {
                lemma_calls_identifiers(mode, items.deep_view());
                assert(is_method_source(method@.source()));
                if parsed_method(method@.source()) is Some {
                    lemma_declarations_of_prepend(
                        parsed_method(method@.source())->Some_0,
                        reading_of(item_impl),
                    );
                }
            }
            let text = method.render();
            splice(item_impl, parse_method(text.as_str()))
        },
        Err(e) => Err(ExpandError::Rejected(e)),
    }
}

} // verus!
