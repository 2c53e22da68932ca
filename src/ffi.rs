//! Translation of namespaced function declarations into host bindings.
use vstd::prelude::*;
use crate::diag::{Construct, Diagnostic, DiagnosticKind};
use crate::results::{collect, lemma_collect_failure, lemma_collect_step};
use crate::source::{Location, Member, MemberKind, NamespaceDecl, Param};
use crate::target::{BindingV, FunctionBinding, NamespaceBindingTree, TargetParam, TargetType, TreeV, TType, binding_view, tree_views};
use crate::translate::{clone_name, param_spec, return_spec, translate_param, translate_return, unsupported};

verus! {

/// A function-typed parameter becomes a registration handle for a callback.
pub open spec fn handle_of(t: TType) -> TType {
    match t {
        TType::Callable(ps, r) => TType::CallbackHandle(ps, r),
        _ => t,
    }
}

pub open spec fn binding_param_spec(p: Param, loc: Location, scope: Seq<String>) -> Result<(Seq<char>, TType), Diagnostic> {
    match param_spec(p, loc, scope) {
        Ok((n, t)) => Ok((n, handle_of(t))),
        Err(e) => Err(e),
    }
}

pub open spec fn binding_params_spec(s: Seq<Param>, loc: Location, scope: Seq<String>) -> Result<Seq<(Seq<char>, TType)>, Diagnostic> {
    collect(s.map_values(|p: Param| binding_param_spec(p, loc, scope)))
}

/// A namespace function as a host binding under `path`: refused unless it
/// is a plain, named, non-generic function; then its parameters in order
/// and its return type, translated as for methods.
pub open spec fn binding_spec(path: Seq<String>, f: Member, scope: Seq<String>) -> Result<BindingV, Diagnostic> {
    match f.kind {
        MemberKind::Property => Err(unsupported(Construct::PropertySignature, f.name, f.loc)),
        MemberKind::Index => Err(unsupported(Construct::IndexSignature, f.name, f.loc)),
        MemberKind::Call => Err(unsupported(Construct::CallSignature, f.name, f.loc)),
        MemberKind::Construct => Err(unsupported(Construct::ConstructSignature, f.name, f.loc)),
        MemberKind::Method => match f.name {
            None => Err(unsupported(Construct::ComputedName, None, f.loc)),
            Some(name) => if f.type_params@.len() > 0 {
                Err(unsupported(Construct::GenericFunction, f.name, f.loc))
            } else {
                match binding_params_spec(f.params@, f.loc, scope) {
                    Err(e) => Err(e),
                    Ok(ps) => match return_spec(f, scope) {
                        Err(e) => Err(e),
                        Ok(r) => Ok(
                            BindingV {
                                name: name@,
                                params: ps,
                                ret: r,
                                modules: path.map_values(|s: String| s@),
                                host_alias: path.last()@,
                            },
                        ),
                    },
                }
            },
        },
    }
}

pub open spec fn binding_result(r: Result<FunctionBinding, Diagnostic>, m: Result<BindingV, Diagnostic>) -> bool {
    match r {
        Ok(b) => m == Ok::<BindingV, Diagnostic>(b@),
        Err(e) => m == Err::<BindingV, Diagnostic>(e),
    }
}

fn into_handle(t: TargetType) -> (r: TargetType)
    ensures
        r@ == handle_of(t@),
{
    match t {
        TargetType::Callable { params, ret } => TargetType::CallbackHandle { params, ret },
        other => other,
    }
}

fn translate_binding_params(s: &Vec<Param>, loc: Location, scope: &Vec<String>) -> (r: Result<Vec<TargetParam>, Diagnostic>)
    ensures
        match r {
            Ok(v) => binding_params_spec(s@, loc, scope@) == Ok::<Seq<(Seq<char>, TType)>, Diagnostic>(
                v@.map_values(|p: TargetParam| p@),
            ),
            Err(e) => binding_params_spec(s@, loc, scope@) == Err::<Seq<(Seq<char>, TType)>, Diagnostic>(e),
        },
{
    let ghost rs = s@.map_values(|p: Param| binding_param_spec(p, loc, scope@));
    let mut out: Vec<TargetParam> = Vec::new();
    let mut i: usize = 0;
    proof {
        assert(out@.map_values(|p: TargetParam| p@) =~= Seq::<(Seq<char>, TType)>::empty());
        assert(rs.subrange(0, 0) =~= Seq::<Result<(Seq<char>, TType), Diagnostic>>::empty());
    }
    while i < s.len()
        invariant
            i <= s@.len(),
            rs == s@.map_values(|p: Param| binding_param_spec(p, loc, scope@)),
            collect(rs.subrange(0, i as int)) == Ok::<Seq<(Seq<char>, TType)>, Diagnostic>(
                out@.map_values(|p: TargetParam| p@),
            ),
        decreases s@.len() - i,
    {
        match translate_param(&s[i], loc, scope) {
            Ok(t) => {
                let t = TargetParam { name: t.name, ty: into_handle(t.ty) };
                proof {
                    lemma_collect_step(rs, i as int, out@.map_values(|p: TargetParam| p@), t@);
                }
                let ghost before = out@;
                let ghost tv = t@;
                out.push(t);
                proof {
                    assert(out@.map_values(|p: TargetParam| p@) =~= before.map_values(
                        |p: TargetParam| p@,
                    ).push(tv));
                }
            },
            Err(e) => {
                proof {
                    lemma_collect_failure(rs, i as int, out@.map_values(|p: TargetParam| p@), e);
                }
                return Err(e);
            },
        }
        i = i + 1;
    }
    proof {
        assert(rs.subrange(0, s@.len() as int) =~= rs);
    }
    Ok(out)
}

fn clone_path(path: &Vec<String>) -> (r: Vec<String>)
    ensures
        r@ == path@,
{
    let mut out: Vec<String> = Vec::new();
    let mut i: usize = 0;
    while i < path.len()
        invariant
            i <= path@.len(),
            out@ == path@.subrange(0, i as int),
        decreases path@.len() - i,
    {
        out.push(path[i].clone());
        i = i + 1;
    }
    proof {
        assert(path@.subrange(0, path@.len() as int) =~= path@);
    }
    out
}

/// Translates a function declared under the namespace path `path` into a
/// host binding. Its module path is the whole of `path`, its host alias the
/// last segment; a function-typed parameter becomes a callback handle.
pub fn assemble_function(path: &Vec<String>, f: &Member, scope: &Vec<String>) -> (r: Result<FunctionBinding, Diagnostic>)
    requires
        path@.len() > 0,
    ensures
        binding_result(r, binding_spec(path@, *f, scope@)),
{
    let c = match f.kind {
        MemberKind::Property => Some(Construct::PropertySignature),
        MemberKind::Index => Some(Construct::IndexSignature),
        MemberKind::Call => Some(Construct::CallSignature),
        MemberKind::Construct => Some(Construct::ConstructSignature),
        MemberKind::Method => None,
    };
    if let Some(c) = c {
        return Err(Diagnostic {
            kind: DiagnosticKind::UnsupportedConstruct(c),
            name: clone_name(&f.name),
            loc: f.loc,
        });
    }
    let name = match &f.name {
        Some(n) => n.clone(),
        None => {
            return Err(Diagnostic {
                kind: DiagnosticKind::UnsupportedConstruct(Construct::ComputedName),
                name: None,
                loc: f.loc,
            });
        },
    };
    if f.type_params.len() > 0 {
        return Err(Diagnostic {
            kind: DiagnosticKind::UnsupportedConstruct(Construct::GenericFunction),
            name: Some(name),
            loc: f.loc,
        });
    }
    let params = match translate_binding_params(&f.params, f.loc, scope) {
        Ok(p) => p,
        Err(e) => {
            return Err(e);
        },
    };
    let ret = match translate_return(f, scope) {
        Ok(t) => t,
        Err(e) => {
            return Err(e);
        },
    };
    let modules = clone_path(path);
    let host_alias = path[path.len() - 1].clone();
    let r = FunctionBinding { name, params, ret, modules, host_alias };
    proof {
        assert(r@.modules =~= path@.map_values(|s: String| s@));
    }
    Ok(r)
}

/// The bindings of a namespace declared under `parent`: its path is
/// `parent` and its own name; each function has its binding or diagnostic,
/// in order; each nested namespace has its subtree, in order.
pub open spec fn tree_spec(ns: NamespaceDecl, parent: Seq<String>, scope: Seq<String>) -> TreeV
    decreases ns,
{
    let path = parent.push(ns.name);
    TreeV {
        path: path.map_values(|s: String| s@),
        functions: ns.functions@.map_values(|f: Member| binding_spec(path, f, scope)),
        children: trees_spec(ns.namespaces@, path, scope),
    }
}

pub open spec fn trees_spec(s: Seq<NamespaceDecl>, parent: Seq<String>, scope: Seq<String>) -> Seq<TreeV>
    decreases s,
{
    if s.len() == 0 {
        Seq::empty()
    } else {
        trees_spec(s.subrange(0, s.len() - 1), parent, scope).push(tree_spec(s[s.len() - 1], parent, scope))
    }
}

/// Translates a namespace declared under `parent` (empty at top level) and
/// everything nested in it. A function that fails keeps its diagnostic and
/// does not stop the others.
pub fn translate_namespace(ns: &NamespaceDecl, parent: &Vec<String>, scope: &Vec<String>) -> (r: NamespaceBindingTree)
    ensures
        r@ == tree_spec(*ns, parent@, scope@),
    decreases ns,
{
    let mut path = clone_path(parent);
    path.push(ns.name.clone());
    let ghost fs = ns.functions@.map_values(|f: Member| binding_spec(path@, f, scope@));
    let mut functions: Vec<Result<FunctionBinding, Diagnostic>> = Vec::new();
    let mut i: usize = 0;
    while i < ns.functions.len()
        invariant
            i <= ns.functions@.len(),
            path@.len() > 0,
            fs == ns.functions@.map_values(|f: Member| binding_spec(path@, f, scope@)),
            functions@.map_values(|r: Result<FunctionBinding, Diagnostic>| binding_view(r))
                =~= fs.subrange(0, i as int),
        decreases ns.functions@.len() - i,
    {
        let b = assemble_function(&path, &ns.functions[i], scope);
        let ghost before = functions@;
        functions.push(b);
        proof {
            assert(functions@.map_values(|r: Result<FunctionBinding, Diagnostic>| binding_view(r))
                =~= before.map_values(|r: Result<FunctionBinding, Diagnostic>| binding_view(r)).push(
                binding_view(b),
            ));
            assert(fs.subrange(0, i + 1) =~= fs.subrange(0, i as int).push(fs[i as int]));
        }
        i = i + 1;
    }
    let children = translate_namespaces(&ns.namespaces, &path, scope);
    let r = NamespaceBindingTree { path_segments: path, functions, children };
    proof {
        assert(fs.subrange(0, ns.functions@.len() as int) =~= fs);
    }
    r
}

/// Translates sibling namespaces in order.
pub fn translate_namespaces(s: &Vec<NamespaceDecl>, parent: &Vec<String>, scope: &Vec<String>) -> (r: Vec<NamespaceBindingTree>)
    ensures
        tree_views(r@) == trees_spec(s@, parent@, scope@),
    decreases s,
{
    let mut out: Vec<NamespaceBindingTree> = Vec::new();
    let mut i: usize = 0;
    while i < s.len()
        invariant
            i <= s@.len(),
            tree_views(out@) == trees_spec(s@.subrange(0, i as int), parent@, scope@),
        decreases s@.len() - i,
    {
        proof {
            assert(s@.subrange(0, i + 1).subrange(0, i as int) =~= s@.subrange(0, i as int));
            assert(s@.subrange(0, i + 1)[i as int] == s@[i as int]);
        }
        let t = translate_namespace(&s[i], parent, scope);
        let ghost before = out@;
        out.push(t);
        proof {
            assert(out@.subrange(0, out@.len() - 1) =~= before);
        }
        i = i + 1;
    }
    proof {
        assert(s@.subrange(0, s@.len() as int) =~= s@);
    }
    out
}

} // verus!
