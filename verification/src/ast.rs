//! The slice of the syntax tree that the pruning pass inspects.
//!
//! The pass reads only a narrow shape out of each declaration: its ordered
//! attribute list, the tag and argument shape of each attribute, the
//! declaration's kind, and the simple names of callables, type definitions
//! and namespaces. These types hold exactly that shape as plain values.

use vstd::prelude::*;

verus! {

/// An execution profile that a compilation targets. Declarations may be
/// restricted to one profile through a `Config` attribute.
#[derive(Clone, Copy, Debug, PartialEq, Eq, Structural)]
pub enum TargetProfile {
    /// The restricted hardware profile.
    Base,
    /// The full simulator profile.
    Full,
}

/// What `TargetProfile::parse` returns: the profile whose name is `s`, or
/// `None` when no profile carries that name.
pub open spec fn spec_parse_profile(s: Seq<char>) -> Option<TargetProfile> {
    if s == "Base"@ {
        Option::Some(TargetProfile::Base)
    } else if s == "Full"@ {
        Option::Some(TargetProfile::Full)
    } else {
        Option::None
    }
}

impl TargetProfile {
    /// Parses a profile from its name. An unrecognized name is not an error
    /// of the pruning pass: callers treat it permissively.
    pub fn parse(name: &String) -> (r: Option<TargetProfile>)
        ensures
            r == spec_parse_profile(name@),
    {
        let base: String = "Base".to_owned();
        let full: String = "Full".to_owned();
        if *name == base {
            Option::Some(TargetProfile::Base)
        } else if *name == full {
            Option::Some(TargetProfile::Full)
        } else {
            Option::None
        }
    }
}

/// The shape of an attribute's argument expression, as far as this pass
/// looks at it. Only a parenthesized bare identifier is ever inspected;
/// every other shape is opaque.
#[derive(Debug, PartialEq)]
pub enum AttrArg {
    /// A parenthesized reference to a single bare identifier: `(Name)`.
    ParenIdent(String),
    /// A parenthesized expression of any other shape.
    ParenOther,
    /// A non-parenthesized expression.
    Other,
}

/// A source-level annotation attached to a declaration: a tag and an
/// argument expression. Only attributes tagged `Config` matter to this pass.
#[derive(Debug, PartialEq)]
pub struct Attr {
    pub name: String,
    pub arg: AttrArg,
}

/// The kind of a top-level declaration. Callables and type definitions carry
/// a simple name; every other construct is opaque to this pass.
#[derive(Debug, PartialEq)]
pub enum ItemKind {
    /// A callable declaration and its name.
    Callable(String),
    /// A type definition and its name.
    TypeDefinition(String),
    /// Any other construct; never logged by the pass.
    Other,
}

/// A top-level declaration: its ordered attribute list and its kind.
#[derive(Debug, PartialEq)]
pub struct Item {
    pub attrs: Vec<Attr>,
    pub kind: ItemKind,
}

/// A namespace: its name and its ordered sequence of declarations. The pass
/// mutates exactly the `items` sequence, in place.
#[derive(Debug, PartialEq)]
pub struct Namespace {
    pub name: String,
    pub items: Vec<Item>,
}

/// Whether a declaration of this kind binds a symbol that the pass tracks:
/// exactly the callables and the type definitions.
pub open spec fn is_named(kind: ItemKind) -> bool {
    !(kind is Other)
}

/// The simple name a tracked declaration contributes to name resolution.
/// Meaningful only when `is_named` holds of the kind.
pub open spec fn symbol_name(kind: ItemKind) -> Seq<char> {
    match kind {
        ItemKind::Callable(name) => name@,
        ItemKind::TypeDefinition(name) => name@,
        ItemKind::Other => Seq::empty(),
    }
}

} // verus!
