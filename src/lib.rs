//! Translation of ambient interface and namespace declarations into
//! statically typed capability declarations and namespaced host bindings.
use vstd::prelude::*;

pub mod source;
pub mod target;
pub mod diag;
pub mod mapper;
pub mod results;
pub mod translate;
pub mod ffi;
pub mod engine;
pub mod laws;



use crate::diag::{Construct, Diagnostic};
use crate::engine::{file_spec, translate_file, Translation};
use crate::mapper::{map_spec, map_type, type_result};
use crate::source::{InterfaceDecl, Member, SourceFile, TypeParam, TypeRef};
use crate::target::{TargetCapabilityDecl, TargetMethod, TargetType};
use crate::target::TargetGeneric;
use crate::translate::{
    assemble_interface, decl_result, decl_spec, generic_result, generic_spec, method_result, method_spec, translate_generic,
    translate_member,
};

verus! {

/// Conversion of a declaration into its target form. A declaration
/// converted on its own sees no type names from outside it: a type
/// reference or type parameter sees none, a member only its own type parameters, an interface
/// its own name and type parameters. A whole file sees all of its names.
pub trait Ts2Rs {
    type Out;

    /// Converts the declaration.
    fn ts2rs(&self) -> Self::Out;
}

impl Ts2Rs for TypeRef {
    type Out = Result<TargetType, Construct>;

    fn ts2rs(&self) -> (r: Result<TargetType, Construct>)
        ensures
            type_result(r, map_spec(*self, Seq::empty())),
    {
        let scope: Vec<String> = Vec::new();
        proof {
            assert(scope@ =~= Seq::<String>::empty());
        }
        map_type(self, &scope)
    }
}

impl Ts2Rs for TypeParam {
    type Out = Result<TargetGeneric, Diagnostic>;

    fn ts2rs(&self) -> (r: Result<TargetGeneric, Diagnostic>)
        ensures
            generic_result(r, generic_spec(*self, self.loc, Seq::empty())),
    {
        let scope: Vec<String> = Vec::new();
        proof {
            assert(scope@ =~= Seq::<String>::empty());
        }
        translate_generic(self, self.loc, &scope)
    }
}

impl Ts2Rs for Member {
    type Out = Result<TargetMethod, Vec<Diagnostic>>;

    fn ts2rs(&self) -> (r: Result<TargetMethod, Vec<Diagnostic>>)
        ensures
            method_result(r, method_spec(*self, Seq::empty())),
    {
        let scope: Vec<String> = Vec::new();
        proof {
            assert(scope@ =~= Seq::<String>::empty());
        }
        translate_member(self, &scope)
    }
}

impl Ts2Rs for InterfaceDecl {
    type Out = Result<TargetCapabilityDecl, Vec<Diagnostic>>;

    fn ts2rs(&self) -> (r: Result<TargetCapabilityDecl, Vec<Diagnostic>>)
        ensures
            decl_result(r, decl_spec(*self, seq![self.name])),
    {
        let scope = vec![self.name.clone()];
        proof {
            assert(scope@ =~= seq![self.name]);
        }
        assemble_interface(self, &scope)
    }
}

impl Ts2Rs for SourceFile {
    type Out = Translation;

    fn ts2rs(&self) -> (r: Translation)
        ensures
            r@ == file_spec(*self),
    {
        translate_file(self)
    }
}

} // verus!
