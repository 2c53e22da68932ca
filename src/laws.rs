//! Laws of the translation, stated over the specifications that the
//! translating functions meet.
use vstd::prelude::*;
use crate::diag::{Construct, Diagnostic, DiagnosticKind};
use crate::engine::{file_spec, Translation};
use crate::ffi::{binding_param_spec, binding_spec, tree_spec, trees_spec};
use crate::mapper::{in_scope, map_list_spec, map_spec};
use crate::results::{concat, errs, lemma_concat_contains, lemma_errs_contains, lemma_no_errs, oks};
use crate::source::{InterfaceDecl, Location, Member, MemberKind, NamespaceDecl, Param, Primitive, SourceFile, TypeParam, TypeRef};
use crate::target::{DeclV, GenericV, MethodV, TType};
use crate::translate::{
    conflict_name, conflicts, decl_errs, decl_scope, decl_spec, method_scope, ext_results, generic_results, generic_spec, member_results,
    method_errs, method_name_spec, method_spec, param_results, param_spec, unsupported,
};

verus! {

/// The construct by which a member kind is refused in an interface, if it is.
pub open spec fn refused_kind(k: MemberKind) -> Option<Construct> {
    match k {
        MemberKind::Property => Some(Construct::PropertySignature),
        MemberKind::Index => Some(Construct::IndexSignature),
        MemberKind::Call => Some(Construct::CallSignature),
        _ => None,
    }
}

/// Translating the same file twice gives the same translation.
pub proof fn law_deterministic(a: SourceFile, b: SourceFile, r1: Translation, r2: Translation)
    requires
        a == b,
        r1@ == file_spec(a),
        r2@ == file_spec(b),
    ensures
        r1@ == r2@,
{
}

/// A failing member yields at least one diagnostic.
proof fn lemma_member_err_nonempty(m: Member, scope: Seq<String>)
    ensures
        method_spec(m, scope) matches Err(es) ==> es.len() > 0,
{
}

/// Every diagnostic of a failing member is a diagnostic of its interface,
/// which therefore fails.
pub proof fn law_all_or_nothing(d: InterfaceDecl, known: Seq<String>, k: int)
    requires
        0 <= k < d.members@.len(),
        method_spec(d.members@[k], decl_scope(d, known)) is Err,
    ensures
        decl_spec(d, known) is Err,
        forall|j: int|
            0 <= j < method_spec(d.members@[k], decl_scope(d, known))->Err_0.len() ==> decl_spec(d, known)->Err_0.contains(
                #[trigger] method_spec(d.members@[k], decl_scope(d, known))->Err_0[j],
            ),
{
    let ms = member_results(d.members@, decl_scope(d, known));
    assert(ms[k] == method_spec(d.members@[k], decl_scope(d, known)));
    lemma_member_err_nonempty(d.members@[k], decl_scope(d, known));
    lemma_errs_contains(ms, k);
    let es = errs(ms);
    let w = choose|w: int| 0 <= w < es.len() && es[w] == ms[k]->Err_0;
    let a = errs(generic_results(d.generics@, d.loc, decl_scope(d, known))) + errs(ext_results(d, decl_scope(d, known)));
    assert forall|j: int| 0 <= j < method_spec(d.members@[k], decl_scope(d, known))->Err_0.len() implies decl_spec(
        d,
        known,
    )->Err_0.contains(#[trigger] method_spec(d.members@[k], decl_scope(d, known))->Err_0[j]) by {
        lemma_concat_contains(es, w, j);
        let v = choose|v: int| 0 <= v < concat(es).len() && concat(es)[v] == es[w][j];
        assert(decl_errs(d, known)[a.len() + v] == es[w][j]);
    }
    lemma_concat_contains(es, w, 0);
}

/// A translated interface has one method per member, in member order, each
/// the translation of that member under that member's name.
pub proof fn law_method_order(d: InterfaceDecl, known: Seq<String>)
    requires
        decl_spec(d, known) is Ok,
    ensures
        decl_spec(d, known)->Ok_0.methods.len() == d.members@.len(),
        forall|i: int|
            0 <= i < d.members@.len() ==> method_spec(d.members@[i], decl_scope(d, known)) == Ok::<MethodV, Seq<Diagnostic>>(
                #[trigger] decl_spec(d, known)->Ok_0.methods[i],
            ),
        forall|i: int|
            0 <= i < d.members@.len() ==> method_name_spec(d.members@[i]) == Some(
                (#[trigger] decl_spec(d, known)->Ok_0.methods[i]).name,
            ),
{
    let ms = member_results(d.members@, decl_scope(d, known));
    assert forall|i: int| 0 <= i < ms.len() implies #[trigger] ms[i] is Ok by {
        assert(ms[i] == method_spec(d.members@[i], decl_scope(d, known)));
        if method_spec(d.members@[i], decl_scope(d, known)) is Err {
            law_all_or_nothing(d, known, i);
        }
    }
    lemma_no_errs(ms);
    assert forall|i: int| 0 <= i < d.members@.len() implies method_spec(d.members@[i], decl_scope(d, known)) == Ok::<
        MethodV,
        Seq<Diagnostic>,
    >(#[trigger] decl_spec(d, known)->Ok_0.methods[i]) by {
        assert(ms[i] == method_spec(d.members@[i], decl_scope(d, known)));
    }
}

/// An interface with a property, index or call signature fails, with a
/// diagnostic giving the member kind, the member's name and its location.
pub proof fn law_rejects_member_kind(d: InterfaceDecl, known: Seq<String>, k: int)
    requires
        0 <= k < d.members@.len(),
        refused_kind(d.members@[k].kind) is Some,
    ensures
        decl_spec(d, known) is Err,
        decl_spec(d, known)->Err_0.contains(
            unsupported(refused_kind(d.members@[k].kind)->Some_0, d.members@[k].name, d.members@[k].loc),
        ),
{
    law_all_or_nothing(d, known, k);
    assert(method_spec(d.members@[k], decl_scope(d, known))->Err_0[0] == unsupported(
        refused_kind(d.members@[k].kind)->Some_0,
        d.members@[k].name,
        d.members@[k].loc,
    ));
}

/// A method with an optional parameter fails, with a diagnostic naming
/// that parameter.
pub proof fn law_rejects_optional_param(m: Member, scope: Seq<String>, k: int)
    requires
        m.kind == MemberKind::Method || m.kind == MemberKind::Construct,
        0 <= k < m.params@.len(),
        m.params@[k].optional,
    ensures
        method_spec(m, scope) is Err,
        method_spec(m, scope)->Err_0.contains(unsupported(Construct::OptionalParameter, Some(m.params@[k].name), m.loc)),
{
    let sc = method_scope(m, scope);
    let ps = param_results(m.params@, m.loc, sc);
    assert(ps[k] == param_spec(m.params@[k], m.loc, sc));
    lemma_errs_contains(ps, k);
    let e = errs(ps);
    let w = choose|w: int| 0 <= w < e.len() && e[w] == ps[k]->Err_0;
    let name_errs = if method_name_spec(m) is None {
        seq![unsupported(Construct::ComputedName, None, m.loc)]
    } else {
        Seq::empty()
    };
    let a = name_errs + errs(generic_results(m.type_params@, m.loc, sc));
    assert(method_errs(m, scope)[a.len() + w] == e[w]);
}

/// An interface with a method that has an optional parameter fails, with a
/// diagnostic naming that parameter.
pub proof fn law_optional_param_fails_interface(d: InterfaceDecl, known: Seq<String>, i: int, k: int)
    requires
        0 <= i < d.members@.len(),
        d.members@[i].kind == MemberKind::Method || d.members@[i].kind == MemberKind::Construct,
        0 <= k < d.members@[i].params@.len(),
        d.members@[i].params@[k].optional,
    ensures
        decl_spec(d, known) is Err,
        decl_spec(d, known)->Err_0.contains(
            unsupported(Construct::OptionalParameter, Some(d.members@[i].params@[k].name), d.members@[i].loc),
        ),
{
    let m = d.members@[i];
    law_rejects_optional_param(m, decl_scope(d, known), k);
    law_all_or_nothing(d, known, i);
    let x = unsupported(Construct::OptionalParameter, Some(m.params@[k].name), m.loc);
    let j = choose|j: int| 0 <= j < method_spec(m, decl_scope(d, known))->Err_0.len() && method_spec(m, decl_scope(d, known))->Err_0[j] == x;
    assert(method_spec(d.members@[i], decl_scope(d, known))->Err_0[j] == x);
}

proof fn lemma_conflicts_extend(ms: Seq<Member>, k: int, x: Diagnostic)
    requires
        0 <= k <= ms.len(),
        conflicts(ms.subrange(0, k)).contains(x),
    ensures
        conflicts(ms).contains(x),
    decreases ms.len() - k,
{
    if k == ms.len() {
        assert(ms.subrange(0, k) =~= ms);
    } else {
        let p = ms.subrange(0, k + 1);
        assert(p.subrange(0, k) =~= ms.subrange(0, k));
        let w = choose|w: int| 0 <= w < conflicts(ms.subrange(0, k)).len() && conflicts(ms.subrange(0, k))[w] == x;
        assert(conflicts(p)[w] == x);
        lemma_conflicts_extend(ms, k + 1, x);
    }
}

/// A member whose method name repeats an earlier member's fails its
/// interface with a name conflict at that member.
pub proof fn law_name_conflict(d: InterfaceDecl, known: Seq<String>, i: int, j: int)
    requires
        0 <= i < j < d.members@.len(),
        conflict_name(d.members@[j]) is Some,
        conflict_name(d.members@[i]) == conflict_name(d.members@[j]),
    ensures
        decl_spec(d, known) is Err,
        decl_spec(d, known)->Err_0.contains(
            Diagnostic { kind: DiagnosticKind::NameConflict, name: d.members@[j].name, loc: d.members@[j].loc },
        ),
{
    let ms = d.members@;
    let p = ms.subrange(0, j + 1);
    let x = Diagnostic { kind: DiagnosticKind::NameConflict, name: ms[j].name, loc: ms[j].loc };
    assert(p[i] == ms[i] && p[j] == ms[j]);
    assert(conflict_name(p[i]) == conflict_name(p[p.len() - 1]));
    let c = conflicts(p);
    assert(c[c.len() - 1] == x);
    lemma_conflicts_extend(ms, j + 1, x);
    let w = choose|w: int| 0 <= w < conflicts(ms).len() && conflicts(ms)[w] == x;
    let a = errs(generic_results(d.generics@, d.loc, decl_scope(d, known))) + errs(ext_results(d, decl_scope(d, known))) + concat(errs(member_results(ms, decl_scope(d, known))));
    assert(decl_errs(d, known)[a.len() + w] == x);
}

/// The methods of a translated interface have pairwise distinct names.
pub proof fn law_unique_names(d: InterfaceDecl, known: Seq<String>)
    requires
        decl_spec(d, known) is Ok,
    ensures
        forall|i: int, j: int|
            0 <= i < j < decl_spec(d, known)->Ok_0.methods.len() ==> #[trigger] decl_spec(d, known)->Ok_0.methods[i].name
                != #[trigger] decl_spec(d, known)->Ok_0.methods[j].name,
{
    law_method_order(d, known);
    let ms = decl_spec(d, known)->Ok_0.methods;
    assert forall|i: int, j: int| 0 <= i < j < ms.len() implies #[trigger] ms[i].name != #[trigger] ms[j].name by {
        let a = d.members@[i];
        let b = d.members@[j];
        assert(method_spec(a, decl_scope(d, known)) == Ok::<MethodV, Seq<Diagnostic>>(ms[i]));
        assert(method_spec(b, decl_scope(d, known)) == Ok::<MethodV, Seq<Diagnostic>>(ms[j]));
        if ms[i].name == ms[j].name {
            assert(conflict_name(a) == conflict_name(b));
            law_name_conflict(d, known, i, j);
        }
    }
}

/// `interface I<T extends U> { m(x: T): R }` translates to one generic `T`
/// bounded by the mapping of `U`, no supertraits, and one method `m` with no
/// generics, one parameter `x` of the target type `T`, and the mapping of
/// `R` as its return type (where `U` and `R` map).
pub proof fn law_generic_round_trip(d: InterfaceDecl, known: Seq<String>)
    requires
        d.generics@.len() == 1,
        d.generics@[0].constraint matches Some(u) && map_spec(u, decl_scope(d, known)) is Ok,
        d.extends@.len() == 0,
        d.members@.len() == 1,
        d.members@[0].kind == MemberKind::Method,
        d.members@[0].name is Some,
        d.members@[0].type_params@.len() == 0,
        d.members@[0].params@.len() == 1,
        !d.members@[0].params@[0].optional,
        d.members@[0].params@[0].ty matches TypeRef::Named { name, args } && name == d.generics@[0].name
            && args@.len() == 0,
        d.members@[0].return_type matches Some(r) && map_spec(
            r,
            method_scope(d.members@[0], decl_scope(d, known)),
        ) is Ok,
    ensures
        ({
            let t = d.generics@[0];
            let m = d.members@[0];
            let x = m.params@[0];
            decl_spec(d, known) == Ok::<DeclV, Seq<Diagnostic>>(
                DeclV {
                    name: d.name@,
                    generics: seq![GenericV { name: t.name@, bound: Some(map_spec(t.constraint->Some_0, decl_scope(d, known))->Ok_0) }],
                    supertraits: Seq::empty(),
                    methods: seq![
                        MethodV {
                            name: m.name->Some_0@,
                            generics: Seq::empty(),
                            params: seq![(x.name@, TType::Named(t.name@, Seq::empty()))],
                            ret: map_spec(m.return_type->Some_0, method_scope(m, decl_scope(d, known)))->Ok_0,
                        },
                    ],
                },
            )
        }),
{
    let t = d.generics@[0];
    let m = d.members@[0];
    let x = m.params@[0];
    let sc = decl_scope(d, known);
    let msc = method_scope(m, sc);
    assert(msc[known.len() as int] == t.name);
    assert(in_scope(t.name, msc));
    let gs = generic_results(d.generics@, d.loc, sc);
    assert(gs.subrange(0, 0) =~= Seq::<Result<GenericV, Diagnostic>>::empty());
    let g = generic_spec(t, d.loc, sc)->Ok_0;
    assert(gs[0] == generic_spec(t, d.loc, sc));
    assert(generic_spec(t, d.loc, sc) is Ok);
    assert(oks(gs.subrange(0, 0)) =~= Seq::<GenericV>::empty());
    assert(errs(gs.subrange(0, 0)) =~= Seq::<Diagnostic>::empty());
    assert(oks(gs) =~= seq![g]);
    assert(errs(gs) =~= Seq::<Diagnostic>::empty());
    assert(ext_results(d, sc) =~= Seq::<Result<TType, Diagnostic>>::empty());
    if let TypeRef::Named { name, args } = x.ty {
        assert(map_list_spec(args@, msc) == Ok::<Seq<TType>, Construct>(Seq::empty()));
    }
    let ts = generic_results(m.type_params@, m.loc, msc);
    assert(ts =~= Seq::<Result<GenericV, Diagnostic>>::empty());
    let ps = param_results(m.params@, m.loc, msc);
    assert(ps.subrange(0, 0) =~= Seq::<Result<(Seq<char>, TType), Diagnostic>>::empty());
    let xv = param_spec(x, m.loc, msc)->Ok_0;
    assert(ps[0] == param_spec(x, m.loc, msc));
    assert(param_spec(x, m.loc, msc) is Ok);
    assert(oks(ps.subrange(0, 0)) =~= Seq::<(Seq<char>, TType)>::empty());
    assert(errs(ps.subrange(0, 0)) =~= Seq::<Diagnostic>::empty());
    assert(oks(ps) =~= seq![xv]);
    assert(errs(ps) =~= Seq::<Diagnostic>::empty());
    assert(method_errs(m, sc) =~= Seq::<Diagnostic>::empty());
    let mv = method_spec(m, sc)->Ok_0;
    let ms = member_results(d.members@, sc);
    assert(ms.subrange(0, 0) =~= Seq::<Result<MethodV, Seq<Diagnostic>>>::empty());
    assert(ms[0] == method_spec(m, sc));
    assert(method_spec(m, sc) is Ok);
    assert(oks(ms.subrange(0, 0)) =~= Seq::<MethodV>::empty());
    assert(errs(ms.subrange(0, 0)) =~= Seq::<Seq<Diagnostic>>::empty());
    assert(oks(ms) =~= seq![mv]);
    assert(errs(ms) =~= Seq::<Seq<Diagnostic>>::empty());
    assert(concat(errs(ms)) =~= Seq::<Diagnostic>::empty());
    assert(d.members@.subrange(0, 0) =~= Seq::<Member>::empty());
    assert(conflicts(d.members@.subrange(0, 0)) =~= Seq::<Diagnostic>::empty());
    assert(conflicts(d.members@) =~= Seq::<Diagnostic>::empty());
    assert(decl_errs(d, known) =~= Seq::<Diagnostic>::empty());
}

/// A type parameter without constraint always translates, to an unbounded
/// generic of the same name.
pub proof fn law_unbounded_generic(p: TypeParam, loc: Location, scope: Seq<String>)
    requires
        p.constraint is None,
    ensures
        generic_spec(p, loc, scope) == Ok::<GenericV, Diagnostic>(GenericV { name: p.name@, bound: None }),
{
}

/// A type parameter with a constraint that maps translates to a generic of
/// the same name bounded by exactly that mapping.
pub proof fn law_bounded_generic(p: TypeParam, loc: Location, scope: Seq<String>)
    requires
        p.constraint matches Some(u) && map_spec(u, scope) is Ok,
    ensures
        generic_spec(p, loc, scope) == Ok::<GenericV, Diagnostic>(
            GenericV { name: p.name@, bound: Some(map_spec(p.constraint->Some_0, scope)->Ok_0) },
        ),
{
}

/// Type parameters none of which has a constraint give no diagnostic.
pub proof fn law_unbounded_generics(s: Seq<TypeParam>, loc: Location, scope: Seq<String>)
    requires
        forall|i: int| 0 <= i < s.len() ==> (#[trigger] s[i]).constraint is None,
    ensures
        errs(generic_results(s, loc, scope)).len() == 0,
{
    let rs = generic_results(s, loc, scope);
    assert forall|i: int| 0 <= i < rs.len() implies #[trigger] rs[i] is Ok by {
        assert(rs[i] == generic_spec(s[i], loc, scope));
    }
    lemma_no_errs(rs);
}

proof fn lemma_trees_index(s: Seq<NamespaceDecl>, parent: Seq<String>, scope: Seq<String>)
    ensures
        trees_spec(s, parent, scope).len() == s.len(),
        forall|i: int| 0 <= i < s.len() ==> #[trigger] trees_spec(s, parent, scope)[i] == tree_spec(s[i], parent, scope),
    decreases s.len(),
{
    if s.len() > 0 {
        let p = s.subrange(0, s.len() - 1);
        lemma_trees_index(p, parent, scope);
        assert forall|i: int| 0 <= i < s.len() implies #[trigger] trees_spec(s, parent, scope)[i] == tree_spec(
            s[i],
            parent,
            scope,
        ) by {
            if i < s.len() - 1 {
                assert(p[i] == s[i]);
            }
        }
    }
}

/// A function declared in namespace `b` nested in top-level namespace `a`
/// gets, where it translates, the module path `[a, b]` and the host alias `b`.
pub proof fn law_namespace_nesting(a: NamespaceDecl, scope: Seq<String>, i: int, j: int)
    requires
        0 <= i < a.namespaces@.len(),
        0 <= j < a.namespaces@[i].functions@.len(),
        binding_spec(seq![a.name, a.namespaces@[i].name], a.namespaces@[i].functions@[j], scope) is Ok,
    ensures
        ({
            let b = a.namespaces@[i];
            let t = tree_spec(a, Seq::empty(), scope);
            &&& t.children[i].functions[j] == binding_spec(seq![a.name, b.name], b.functions@[j], scope)
            &&& t.children[i].functions[j]->Ok_0.modules == seq![a.name@, b.name@]
            &&& t.children[i].functions[j]->Ok_0.host_alias == b.name@
        }),
{
    let b = a.namespaces@[i];
    let path = Seq::<String>::empty().push(a.name);
    assert(path =~= seq![a.name]);
    lemma_trees_index(a.namespaces@, path, scope);
    assert(path.push(b.name) =~= seq![a.name, b.name]);
    let full = seq![a.name, b.name];
    assert(full.map_values(|s: String| s@) =~= seq![a.name@, b.name@]);
}

/// A parameter whose type is a function of no arguments returning nothing
/// becomes, in a host binding, a callback registration handle of that
/// signature, which the caller must keep alive while the host may call it.
pub proof fn law_callback_handle(p: Param, loc: Location, scope: Seq<String>)
    requires
        !p.optional,
        p.ty matches TypeRef::Function { params, ret } && params@.len() == 0 && *ret == TypeRef::Primitive(
            Primitive::Void,
        ),
    ensures
        binding_param_spec(p, loc, scope) == Ok::<(Seq<char>, TType), Diagnostic>(
            (p.name@, TType::CallbackHandle(Seq::empty(), Box::new(TType::Unit))),
        ),
{
    if let TypeRef::Function { params, ret } = p.ty {
        assert(map_list_spec(params@, scope) == Ok::<Seq<TType>, crate::diag::Construct>(Seq::empty()));
        assert(map_spec(*ret, scope) == Ok::<TType, crate::diag::Construct>(TType::Unit));
    }
}

/// A named type that is not in scope is refused, naming it.
pub proof fn law_unresolved_name(t: TypeRef, scope: Seq<String>)
    requires
        t matches TypeRef::Named { name, args } && !in_scope(name, scope),
    ensures
        map_spec(t, scope) == Err::<TType, Construct>(Construct::UnresolvedName(t->name)),
{
}

} // verus!
