//! The declaration model that the translator produces, and its mathematical view.
use vstd::prelude::*;

verus! {

/// A type of the target language.
#[derive(Debug)]
pub enum TargetType {
    /// A borrowed text reference.
    Str,
    /// A 64-bit float.
    F64,
    Bool,
    Unit,
    /// The implementing type itself, as returned by a constructor.
    SelfType,
    Named { name: String, args: Vec<TargetType> },
    Sequence(Box<TargetType>),
    /// A value callable with these argument types, returning `ret`.
    Callable { params: Vec<TargetType>, ret: Box<TargetType> },
    /// A callback registered with the host. The value is a registration
    /// handle: the callback stays registered while the handle lives, and the
    /// caller must keep it alive for as long as the host may invoke it.
    CallbackHandle { params: Vec<TargetType>, ret: Box<TargetType> },
}

/// The mathematical form of a [`TargetType`].
pub enum TType {
    Str,
    F64,
    Bool,
    Unit,
    SelfType,
    Named(Seq<char>, Seq<TType>),
    Sequence(Box<TType>),
    Callable(Seq<TType>, Box<TType>),
    CallbackHandle(Seq<TType>, Box<TType>),
}

pub open spec fn ttype_view(t: TargetType) -> TType
    decreases t,
{
    match t {
        TargetType::Str => TType::Str,
        TargetType::F64 => TType::F64,
        TargetType::Bool => TType::Bool,
        TargetType::Unit => TType::Unit,
        TargetType::SelfType => TType::SelfType,
        TargetType::Named { name, args } => TType::Named(name@, ttype_views(args@)),
        TargetType::Sequence(e) => TType::Sequence(Box::new(ttype_view(*e))),
        TargetType::Callable { params, ret } => TType::Callable(
            ttype_views(params@),
            Box::new(ttype_view(*ret)),
        ),
        TargetType::CallbackHandle { params, ret } => TType::CallbackHandle(
            ttype_views(params@),
            Box::new(ttype_view(*ret)),
        ),
    }
}

pub open spec fn ttype_views(s: Seq<TargetType>) -> Seq<TType>
    decreases s,
{
    if s.len() == 0 {
        Seq::empty()
    } else {
        ttype_views(s.subrange(0, s.len() - 1)).push(ttype_view(s[s.len() - 1]))
    }
}

impl View for TargetType {
    type V = TType;

    open spec fn view(&self) -> TType {
        ttype_view(*self)
    }
}

/// A generic parameter; `bound` is `None` for an unbounded generic.
#[derive(Debug)]
pub struct TargetGeneric {
    pub name: String,
    pub bound: Option<TargetType>,
}

pub struct GenericV {
    pub name: Seq<char>,
    pub bound: Option<TType>,
}

impl View for TargetGeneric {
    type V = GenericV;

    open spec fn view(&self) -> GenericV {
        GenericV {
            name: self.name@,
            bound: match self.bound {
                Some(b) => Some(b@),
                None => None,
            },
        }
    }
}

/// A named, typed parameter.
#[derive(Debug)]
pub struct TargetParam {
    pub name: String,
    pub ty: TargetType,
}

impl View for TargetParam {
    type V = (Seq<char>, TType);

    open spec fn view(&self) -> (Seq<char>, TType) {
        (self.name@, self.ty@)
    }
}

/// A method of a capability declaration.
#[derive(Debug)]
pub struct TargetMethod {
    pub name: String,
    pub generics: Vec<TargetGeneric>,
    pub params: Vec<TargetParam>,
    pub ret: TargetType,
}

pub struct MethodV {
    pub name: Seq<char>,
    pub generics: Seq<GenericV>,
    pub params: Seq<(Seq<char>, TType)>,
    pub ret: TType,
}

impl View for TargetMethod {
    type V = MethodV;

    open spec fn view(&self) -> MethodV {
        MethodV {
            name: self.name@,
            generics: self.generics@.map_values(|g: TargetGeneric| g@),
            params: self.params@.map_values(|p: TargetParam| p@),
            ret: self.ret@,
        }
    }
}

/// A capability declaration: a trait with generics, supertraits (the
/// translated `extends` clause) and methods in source order.
#[derive(Debug)]
pub struct TargetCapabilityDecl {
    pub name: String,
    pub generics: Vec<TargetGeneric>,
    pub supertraits: Vec<TargetType>,
    pub methods: Vec<TargetMethod>,
}

pub struct DeclV {
    pub name: Seq<char>,
    pub generics: Seq<GenericV>,
    pub supertraits: Seq<TType>,
    pub methods: Seq<MethodV>,
}

impl View for TargetCapabilityDecl {
    type V = DeclV;

    open spec fn view(&self) -> DeclV {
        DeclV {
            name: self.name@,
            generics: self.generics@.map_values(|g: TargetGeneric| g@),
            supertraits: ttype_views(self.supertraits@),
            methods: self.methods@.map_values(|m: TargetMethod| m@),
        }
    }
}

/// A binding to a host function. `modules` is the full namespace path;
/// `host_alias` is its last segment, the name under which the host exposes
/// the function's immediate namespace. A parameter of type
/// [`TargetType::CallbackHandle`] must be kept alive by the caller for as
/// long as the host may invoke the callback.
#[derive(Debug)]
pub struct FunctionBinding {
    pub name: String,
    pub params: Vec<TargetParam>,
    pub ret: TargetType,
    pub modules: Vec<String>,
    pub host_alias: String,
}

pub struct BindingV {
    pub name: Seq<char>,
    pub params: Seq<(Seq<char>, TType)>,
    pub ret: TType,
    pub modules: Seq<Seq<char>>,
    pub host_alias: Seq<char>,
}

impl View for FunctionBinding {
    type V = BindingV;

    open spec fn view(&self) -> BindingV {
        BindingV {
            name: self.name@,
            params: self.params@.map_values(|p: TargetParam| p@),
            ret: self.ret@,
            modules: self.modules@.map_values(|s: String| s@),
            host_alias: self.host_alias@,
        }
    }
}

/// The bindings of one namespace, nested as the namespaces are. Each
/// function has its binding or the diagnostic that stopped it.
#[derive(Debug)]
pub struct NamespaceBindingTree {
    pub path_segments: Vec<String>,
    pub functions: Vec<Result<FunctionBinding, crate::diag::Diagnostic>>,
    pub children: Vec<NamespaceBindingTree>,
}

/// The mathematical form of a [`NamespaceBindingTree`].
pub struct TreeV {
    pub path: Seq<Seq<char>>,
    pub functions: Seq<Result<BindingV, crate::diag::Diagnostic>>,
    pub children: Seq<TreeV>,
}

pub open spec fn binding_view(r: Result<FunctionBinding, crate::diag::Diagnostic>) -> Result<
    BindingV,
    crate::diag::Diagnostic,
> {
    match r {
        Ok(b) => Ok(b@),
        Err(e) => Err(e),
    }
}

pub open spec fn tree_view(t: NamespaceBindingTree) -> TreeV
    decreases t,
{
    TreeV {
        path: t.path_segments@.map_values(|s: String| s@),
        functions: t.functions@.map_values(|r: Result<FunctionBinding, crate::diag::Diagnostic>| binding_view(r)),
        children: tree_views(t.children@),
    }
}

pub open spec fn tree_views(s: Seq<NamespaceBindingTree>) -> Seq<TreeV>
    decreases s,
{
    if s.len() == 0 {
        Seq::empty()
    } else {
        tree_views(s.subrange(0, s.len() - 1)).push(tree_view(s[s.len() - 1]))
    }
}

impl View for NamespaceBindingTree {
    type V = TreeV;

    open spec fn view(&self) -> TreeV {
        tree_view(*self)
    }
}

} // verus!
