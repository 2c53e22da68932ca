//! Translation of a whole file. Each declaration stands or fails alone, so
//! one bad interface does not keep the others from being translated, and
//! every diagnostic of the run is reported.
use vstd::prelude::*;
use crate::diag::Diagnostic;
use crate::ffi::{translate_namespaces, trees_spec};
use crate::source::{InterfaceDecl, SourceFile};
use crate::target::{DeclV, NamespaceBindingTree, TargetCapabilityDecl, TreeV, tree_views};
use crate::translate::{assemble_interface, decl_spec};

verus! {

/// The translation of a file: for each interface its capability
/// declaration or diagnostic, in order; for each top-level namespace its
/// binding tree, in order.
#[derive(Debug)]
pub struct Translation {
    pub interfaces: Vec<Result<TargetCapabilityDecl, Vec<Diagnostic>>>,
    pub namespaces: Vec<NamespaceBindingTree>,
}

pub struct TranslationV {
    pub interfaces: Seq<Result<DeclV, Seq<Diagnostic>>>,
    pub namespaces: Seq<TreeV>,
}

pub open spec fn decl_view(r: Result<TargetCapabilityDecl, Vec<Diagnostic>>) -> Result<DeclV, Seq<Diagnostic>> {
    match r {
        Ok(d) => Ok(d@),
        Err(e) => Err(e@),
    }
}

impl View for Translation {
    type V = TranslationV;

    open spec fn view(&self) -> TranslationV {
        TranslationV {
            interfaces: self.interfaces@.map_values(|r: Result<TargetCapabilityDecl, Vec<Diagnostic>>| decl_view(r)),
            namespaces: tree_views(self.namespaces@),
        }
    }
}

/// The type names in scope throughout a file: the names the loader knows
/// and the names of the file's interfaces.
pub open spec fn file_scope(src: SourceFile) -> Seq<String> {
    src.known@ + src.interfaces@.map_values(|d: InterfaceDecl| d.name)
}

/// What a file translates to.
pub open spec fn file_spec(src: SourceFile) -> TranslationV {
    TranslationV {
        interfaces: src.interfaces@.map_values(|d: InterfaceDecl| decl_spec(d, file_scope(src))),
        namespaces: trees_spec(src.namespaces@, Seq::empty(), file_scope(src)),
    }
}

fn file_names(src: &SourceFile) -> (r: Vec<String>)
    ensures
        r@ == file_scope(*src),
{
    let mut out: Vec<String> = Vec::new();
    let mut i: usize = 0;
    while i < src.known.len()
        invariant
            i <= src.known@.len(),
            out@ == src.known@.subrange(0, i as int),
        decreases src.known@.len() - i,
    {
        out.push(src.known[i].clone());
        i = i + 1;
    }
    let ghost names = src.interfaces@.map_values(|d: InterfaceDecl| d.name);
    let mut j: usize = 0;
    proof {
        assert(src.known@.subrange(0, src.known@.len() as int) =~= src.known@);
    }
    while j < src.interfaces.len()
        invariant
            j <= src.interfaces@.len(),
            names == src.interfaces@.map_values(|d: InterfaceDecl| d.name),
            out@ =~= src.known@ + names.subrange(0, j as int),
        decreases src.interfaces@.len() - j,
    {
        proof {
            assert(names.subrange(0, j + 1) =~= names.subrange(0, j as int).push(names[j as int]));
        }
        out.push(src.interfaces[j].name.clone());
        j = j + 1;
    }
    proof {
        assert(names.subrange(0, src.interfaces@.len() as int) =~= names);
    }
    out
}

/// Translates every interface and namespace of a file.
pub fn translate_file(src: &SourceFile) -> (r: Translation)
    ensures
        r@ == file_spec(*src),
{
    let scope = file_names(src);
    let ghost ds = src.interfaces@.map_values(|d: InterfaceDecl| decl_spec(d, file_scope(*src)));
    let mut interfaces: Vec<Result<TargetCapabilityDecl, Vec<Diagnostic>>> = Vec::new();
    let mut i: usize = 0;
    while i < src.interfaces.len()
        invariant
            i <= src.interfaces@.len(),
            scope@ == file_scope(*src),
            ds == src.interfaces@.map_values(|d: InterfaceDecl| decl_spec(d, file_scope(*src))),
            interfaces@.map_values(|r: Result<TargetCapabilityDecl, Vec<Diagnostic>>| decl_view(r))
                =~= ds.subrange(0, i as int),
        decreases src.interfaces@.len() - i,
    {
        let d = assemble_interface(&src.interfaces[i], &scope);
        let ghost before = interfaces@;
        interfaces.push(d);
        proof {
            assert(interfaces@.map_values(|r: Result<TargetCapabilityDecl, Vec<Diagnostic>>| decl_view(r))
                =~= before.map_values(|r: Result<TargetCapabilityDecl, Vec<Diagnostic>>| decl_view(r)).push(
                decl_view(d),
            ));
            assert(ds.subrange(0, i + 1) =~= ds.subrange(0, i as int).push(ds[i as int]));
        }
        i = i + 1;
    }
    let top: Vec<String> = Vec::new();
    let namespaces = translate_namespaces(&src.namespaces, &top, &scope);
    proof {
        assert(ds.subrange(0, src.interfaces@.len() as int) =~= ds);
        assert(top@ =~= Seq::<String>::empty());
    }
    Translation { interfaces, namespaces }
}

} // verus!
