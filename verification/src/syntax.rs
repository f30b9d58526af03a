//! The declarations of one dispatcher, as the compiler pass reads them.

use crate::error::ArgumentError;
use vstd::prelude::*;

verus! {

/// The name of the decorator that ties a handler to its command label.
pub const COMMAND: &'static str = "command";

/// A character that an identifier can begin with: an ASCII letter, the
/// underscore, or any character beyond ASCII.
pub open spec fn identifier_start(c: char) -> bool {
    ||| 0x41 <= c as u32 <= 0x5a
    ||| 0x61 <= c as u32 <= 0x7a
    ||| c as u32 == 0x5f
    ||| c as u32 >= 0x80
}

/// A character that an identifier can go on with: one that it can begin
/// with, or an ASCII digit.
pub open spec fn identifier_continue(c: char) -> bool {
    identifier_start(c) || 0x30 <= c as u32 <= 0x39
}

/// A text made of identifier characters alone, the first of them no digit.
pub open spec fn plain_identifier(name: Seq<char>) -> bool {
    &&& name.len() > 0
    &&& identifier_start(name[0])
    &&& forall|i: int| 0 < i < name.len() ==> identifier_continue(#[trigger] name[i])
}

/// The text of an identifier: a plain one, or a raw one, which is a plain
/// one behind `r#`.
pub open spec fn is_identifier(name: Seq<char>) -> bool {
    ||| plain_identifier(name)
    ||| name.len() > 2 && name[0] == 'r' && name[1] == '#' && plain_identifier(name.skip(2))
}

/// Where a decorator is written: in front of the item it decorates, or inside it.
#[derive(Clone, Copy, Debug, PartialEq, Eq, Structural)]
pub enum DecoratorStyle {
    Outer,
    Inner,
}

/// One argument of a decorator's argument list.
#[derive(Clone, Debug, PartialEq, Eq)]
pub enum Argument {
    /// A string literal, held by its value.
    Str(String),
    /// Anything that is not a string literal.
    Other,
}

/// Mathematical model of an [`Argument`].
#[verifier::ext_equal]
pub ghost enum ArgumentView {
    Str(Seq<char>),
    Other,
}

impl View for Argument {
    type V = ArgumentView;

    open spec fn view(&self) -> ArgumentView {
        match self {
            Argument::Str(s) => ArgumentView::Str(s@),
            Argument::Other => ArgumentView::Other,
        }
    }
}

impl DeepView for Argument {
    type V = ArgumentView;

    open spec fn deep_view(&self) -> ArgumentView {
        self@
    }
}

/// A decorator attached to a declaration, such as `#[command("one")]`.
#[derive(Clone, Debug, PartialEq, Eq)]
pub struct Decorator {
    pub style: DecoratorStyle,
    /// The identifier that the decorator's path consists of; empty where the
    /// path is more than one identifier.
    pub name: String,
    /// The parenthesized arguments; empty where the decorator has none.
    pub arguments: Vec<Argument>,
}

/// Mathematical model of a [`Decorator`].
#[verifier::ext_equal]
pub ghost struct DecoratorView {
    pub style: DecoratorStyle,
    pub name: Seq<char>,
    pub arguments: Seq<ArgumentView>,
}

impl View for Decorator {
    type V = DecoratorView;

    open spec fn view(&self) -> DecoratorView {
        DecoratorView {
            style: self.style,
            name: self.name@,
            arguments: self.arguments.deep_view(),
        }
    }
}

impl DecoratorView {
    /// An outer decorator named `command`.
    pub open spec fn is_command_marker(self) -> bool {
        self.style == DecoratorStyle::Outer && self.name == COMMAND@
    }

    /// The label that the argument list gives: the value of its sole
    /// argument, where that is a string literal.
    pub open spec fn command_label(self) -> Result<Seq<char>, ArgumentError> {
        if self.arguments.len() == 0 {
            Err(ArgumentError::Missing)
        } else if self.arguments.len() > 1 {
            Err(ArgumentError::TooMany)
        } else {
            match self.arguments[0] {
                ArgumentView::Str(label) => Ok(label),
                ArgumentView::Other => Err(ArgumentError::NotString),
            }
        }
    }
}

impl Decorator {
    /// Whether this is an outer decorator named `command`.
    pub fn is_command_marker(&self) -> (r: bool)
        ensures
            r == self@.is_command_marker(),
    {
        let marker = COMMAND.to_owned();
        match self.style {
            DecoratorStyle::Outer => self.name == marker,
            DecoratorStyle::Inner => false,
        }
    }

    /// Parses the argument list as that of a `command` decorator.
    pub fn command_label(&self) -> (r: Result<String, ArgumentError>)
        ensures
            match self@.command_label() {
                Ok(label) => r matches Ok(s) && s@ == label,
                Err(e) => r == Err::<String, ArgumentError>(e),
            },
    {
        if self.arguments.len() == 0 {
            Err(ArgumentError::Missing)
        } else if self.arguments.len() > 1 {
            Err(ArgumentError::TooMany)
        } else {
            match &self.arguments[0] {
                Argument::Str(label) => Ok(label.clone()),
                Argument::Other => Err(ArgumentError::NotString),
            }
        }
    }
}

impl DeepView for Decorator {
    type V = DecoratorView;

    open spec fn deep_view(&self) -> DecoratorView {
        self@
    }
}

/// What kind of item a declaration is.
#[derive(Clone, Copy, Debug, PartialEq, Eq, Structural)]
pub enum DeclarationKind {
    /// A method; only methods can be command handlers.
    Method,
    /// Any other item of the dispatcher, such as a constant or a type.
    Other,
}

/// One declaration inside the dispatcher's method collection.
#[derive(Clone, Debug, PartialEq, Eq)]
pub struct Declaration {
    pub kind: DeclarationKind,
    /// The declared identifier.
    pub name: String,
    /// The parameters as they stand between the parentheses.
    pub parameters: String,
    /// The decorators in source order.
    pub decorators: Vec<Decorator>,
}

/// Mathematical model of a [`Declaration`].
#[verifier::ext_equal]
pub ghost struct DeclarationView {
    pub kind: DeclarationKind,
    pub name: Seq<char>,
    pub parameters: Seq<char>,
    pub decorators: Seq<DecoratorView>,
}

impl View for Declaration {
    type V = DeclarationView;

    open spec fn view(&self) -> DeclarationView {
        DeclarationView {
            kind: self.kind,
            name: self.name@,
            parameters: self.parameters@,
            decorators: self.decorators.deep_view(),
        }
    }
}

impl DeepView for Declaration {
    type V = DeclarationView;

    open spec fn deep_view(&self) -> DeclarationView {
        self@
    }
}

} // verus!
