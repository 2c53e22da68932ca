//! Diagnostics: why a declaration could not be translated.
use vstd::prelude::*;
use crate::source::Location;

verus! {

/// A construct that has no representation in the target model.
#[derive(Debug)]
pub enum Construct {
    /// A union type, with its text.
    UnionType(String),
    AnyType,
    /// A type name that is not in scope.
    UnresolvedName(String),
    /// A type the loader could describe only by its text.
    OtherType(String),
    PropertySignature,
    IndexSignature,
    CallSignature,
    /// A construct signature where a plain function is expected.
    ConstructSignature,
    /// A generic function among host bindings, which cannot be generic.
    GenericFunction,
    OptionalParameter,
    /// A method whose key is not a plain identifier.
    ComputedName,
}

#[derive(Debug)]
pub enum DiagnosticKind {
    UnsupportedConstruct(Construct),
    /// A member translates to the method name of an earlier member. The
    /// diagnostic names the later member; a constructor has no name of its
    /// own (`None`), and its method is `new`.
    NameConflict,
}

/// A diagnostic: what failed, the name of the member, parameter or generic
/// concerned (if it has one), and where it stands in the input.
#[derive(Debug)]
pub struct Diagnostic {
    pub kind: DiagnosticKind,
    pub name: Option<String>,
    pub loc: Location,
}

} // verus!
