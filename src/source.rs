//! The declaration model that the translator reads: interfaces, namespaces,
//! members, parameters and type references, as a loader hands them over.
use vstd::prelude::*;

verus! {

/// A position in the input text.
#[derive(Clone, Copy, Debug, PartialEq, Eq, Structural)]
pub struct Location {
    pub line: u32,
    pub column: u32,
}

/// The primitive types of the declaration language.
#[derive(Clone, Copy, Debug, PartialEq, Eq, Structural)]
pub enum Primitive {
    Str,
    Number,
    Boolean,
    Void,
    Any,
}

/// A reference to a type in a declaration.
#[derive(Debug)]
pub enum TypeRef {
    Primitive(Primitive),
    /// A named type, possibly instantiated with type arguments (`Name<A, B>`).
    Named { name: String, args: Vec<TypeRef> },
    /// A function type `(a: A, b: B) => R`; only the parameter types matter.
    Function { params: Vec<TypeRef>, ret: Box<TypeRef> },
    Array(Box<TypeRef>),
    /// A union type: its members and its text.
    Union { members: Vec<TypeRef>, text: String },
    /// Anything the loader could not describe otherwise, with its text.
    Unsupported(String),
}

} // verus!

verus! {

/// A type parameter, with its `extends` constraint if it has one.
#[derive(Debug)]
pub struct TypeParam {
    pub name: String,
    pub constraint: Option<TypeRef>,
    pub loc: Location,
}

/// A parameter of a method or function.
#[derive(Debug)]
pub struct Param {
    pub name: String,
    pub ty: TypeRef,
    pub optional: bool,
}

/// The kinds of interface member.
#[derive(Clone, Copy, Debug, PartialEq, Eq, Structural)]
pub enum MemberKind {
    Method,
    Construct,
    Property,
    Index,
    Call,
}

/// A member of an interface, or a function of a namespace (kind `Method`).
/// `name` is `None` where the member has no plain identifier as its key.
#[derive(Debug)]
pub struct Member {
    pub kind: MemberKind,
    pub name: Option<String>,
    pub type_params: Vec<TypeParam>,
    pub params: Vec<Param>,
    pub return_type: Option<TypeRef>,
    pub loc: Location,
}

/// An interface declaration.
#[derive(Debug)]
pub struct InterfaceDecl {
    pub name: String,
    pub generics: Vec<TypeParam>,
    pub extends: Vec<TypeRef>,
    pub members: Vec<Member>,
    pub loc: Location,
}

/// A namespace: its functions and the namespaces nested in it.
#[derive(Debug)]
pub struct NamespaceDecl {
    pub name: String,
    pub functions: Vec<Member>,
    pub namespaces: Vec<NamespaceDecl>,
}

} // verus!

verus! {

/// A whole declaration file: its interfaces and top-level namespaces, and
/// the type names the loader knows besides its interfaces (classes, type
/// aliases, enums and the like).
#[derive(Debug)]
pub struct SourceFile {
    pub known: Vec<String>,
    pub interfaces: Vec<InterfaceDecl>,
    pub namespaces: Vec<NamespaceDecl>,
}

} // verus!
