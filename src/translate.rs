//! Translation of generics, signatures and whole interfaces into capability
//! declarations.
//!
//! Policies applied uniformly:
//! - a construct signature becomes an associated function `new` that returns
//!   the implementing type (`Self`);
//! - each type of an `extends` clause becomes a supertrait bound;
//! - a declaration is translated whole or not at all, and a failing one
//!   reports every diagnostic it has, in source order.
use vstd::prelude::*;
use crate::diag::{Construct, Diagnostic, DiagnosticKind};
use crate::mapper::{map_spec, map_type};
use crate::results::{concat, errs, oks};
use crate::source::{InterfaceDecl, Location, Member, MemberKind, Param, TypeParam, TypeRef};
use crate::target::{DeclV, GenericV, MethodV, TargetCapabilityDecl, TargetGeneric, TargetMethod, TargetParam, TargetType, TType, ttype_views};

verus! {

/// The diagnostic for an unsupported construct.
pub open spec fn unsupported(c: Construct, name: Option<String>, loc: Location) -> Diagnostic {
    Diagnostic { kind: DiagnosticKind::UnsupportedConstruct(c), name, loc }
}

/// A type parameter as a target generic: its constraint mapped to a bound,
/// or no bound at all where it has no constraint.
pub open spec fn generic_spec(p: TypeParam, loc: Location, scope: Seq<String>) -> Result<GenericV, Diagnostic> {
    match p.constraint {
        None => Ok(GenericV { name: p.name@, bound: None }),
        Some(c) => match map_spec(c, scope) {
            Ok(b) => Ok(GenericV { name: p.name@, bound: Some(b) }),
            Err(e) => Err(unsupported(e, Some(p.name), loc)),
        },
    }
}

pub open spec fn generic_results(s: Seq<TypeParam>, loc: Location, scope: Seq<String>) -> Seq<Result<GenericV, Diagnostic>> {
    s.map_values(|p: TypeParam| generic_spec(p, loc, scope))
}

/// A parameter: refused where optional, else its type mapped.
pub open spec fn param_spec(p: Param, loc: Location, scope: Seq<String>) -> Result<(Seq<char>, TType), Diagnostic> {
    if p.optional {
        Err(unsupported(Construct::OptionalParameter, Some(p.name), loc))
    } else {
        match map_spec(p.ty, scope) {
            Ok(t) => Ok((p.name@, t)),
            Err(e) => Err(unsupported(e, Some(p.name), loc)),
        }
    }
}

pub open spec fn param_results(s: Seq<Param>, loc: Location, scope: Seq<String>) -> Seq<Result<(Seq<char>, TType), Diagnostic>> {
    s.map_values(|p: Param| param_spec(p, loc, scope))
}

/// The return type of a member: unit where absent, `Self` for a constructor.
pub open spec fn return_spec(m: Member, scope: Seq<String>) -> Result<TType, Diagnostic> {
    if m.kind == MemberKind::Construct {
        Ok(TType::SelfType)
    } else {
        match m.return_type {
            None => Ok(TType::Unit),
            Some(t) => match map_spec(t, scope) {
                Ok(r) => Ok(r),
                Err(e) => Err(unsupported(e, m.name, m.loc)),
            },
        }
    }
}

/// The name a member's method gets, where it has one.
pub open spec fn method_name_spec(m: Member) -> Option<Seq<char>> {
    if m.kind == MemberKind::Construct {
        Some("new"@)
    } else {
        match m.name {
            Some(n) => Some(n@),
            None => None,
        }
    }
}

/// The type names in scope inside a member: those around it and its own
/// type parameters.
pub open spec fn method_scope(m: Member, scope: Seq<String>) -> Seq<String> {
    scope + m.type_params@.map_values(|p: TypeParam| p.name)
}

/// The type names in scope inside an interface: the names known around it
/// and its own type parameters.
pub open spec fn decl_scope(d: InterfaceDecl, known: Seq<String>) -> Seq<String> {
    known + d.generics@.map_values(|p: TypeParam| p.name)
}

/// The scope extended by the names of some type parameters.
pub fn extend_scope(scope: &Vec<String>, ps: &Vec<TypeParam>) -> (r: Vec<String>)
    ensures
        r@ == scope@ + ps@.map_values(|p: TypeParam| p.name),
{
    let mut out: Vec<String> = Vec::new();
    let mut i: usize = 0;
    while i < scope.len()
        invariant
            i <= scope@.len(),
            out@ == scope@.subrange(0, i as int),
        decreases scope@.len() - i,
    {
        out.push(scope[i].clone());
        i = i + 1;
    }
    let mut j: usize = 0;
    while j < ps.len()
        invariant
            j <= ps@.len(),
            out@ == scope@ + ps@.subrange(0, j as int).map_values(|p: TypeParam| p.name),
        decreases ps@.len() - j,
    {
        proof {
            assert(ps@.subrange(0, j + 1).map_values(|p: TypeParam| p.name) =~= ps@.subrange(
                0,
                j as int,
            ).map_values(|p: TypeParam| p.name).push(ps@[j as int].name));
        }
        out.push(ps[j].name.clone());
        j = j + 1;
    }
    proof {
        assert(ps@.subrange(0, ps@.len() as int) =~= ps@);
    }
    out
}

/// The diagnostics of a method-like member: a missing name, then each
/// failing generic and parameter in order, then a failing return type.
pub open spec fn method_errs(m: Member, scope: Seq<String>) -> Seq<Diagnostic> {
    let sc = method_scope(m, scope);
    let name_errs = if method_name_spec(m) is None {
        seq![unsupported(Construct::ComputedName, None, m.loc)]
    } else {
        Seq::empty()
    };
    let ret_errs = match return_spec(m, sc) {
        Err(e) => seq![e],
        Ok(_) => Seq::empty(),
    };
    name_errs + errs(generic_results(m.type_params@, m.loc, sc)) + errs(param_results(m.params@, m.loc, sc))
        + ret_errs
}

/// A member as a target method. Property, index and call signatures are
/// refused; otherwise the member fails with all of its diagnostics, or
/// becomes a method of its name, generics, parameters and return type.
pub open spec fn method_spec(m: Member, scope: Seq<String>) -> Result<MethodV, Seq<Diagnostic>> {
    let sc = method_scope(m, scope);
    match m.kind {
        MemberKind::Property => Err(seq![unsupported(Construct::PropertySignature, m.name, m.loc)]),
        MemberKind::Index => Err(seq![unsupported(Construct::IndexSignature, m.name, m.loc)]),
        MemberKind::Call => Err(seq![unsupported(Construct::CallSignature, m.name, m.loc)]),
        _ => if method_errs(m, scope).len() == 0 {
            Ok(
                MethodV {
                    name: method_name_spec(m)->Some_0,
                    generics: oks(generic_results(m.type_params@, m.loc, sc)),
                    params: oks(param_results(m.params@, m.loc, sc)),
                    ret: return_spec(m, sc)->Ok_0,
                },
            )
        } else {
            Err(method_errs(m, scope))
        },
    }
}

pub open spec fn generic_result(r: Result<TargetGeneric, Diagnostic>, m: Result<GenericV, Diagnostic>) -> bool {
    match r {
        Ok(g) => m == Ok::<GenericV, Diagnostic>(g@),
        Err(e) => m == Err::<GenericV, Diagnostic>(e),
    }
}

pub open spec fn method_result(r: Result<TargetMethod, Vec<Diagnostic>>, m: Result<MethodV, Seq<Diagnostic>>) -> bool {
    match r {
        Ok(t) => m == Ok::<MethodV, Seq<Diagnostic>>(t@),
        Err(e) => m == Err::<MethodV, Seq<Diagnostic>>(e@),
    }
}

pub(crate) fn clone_name(n: &Option<String>) -> (r: Option<String>)
    ensures
        r == *n,
{
    match n {
        Some(s) => Some(s.clone()),
        None => None,
    }
}

/// Translates one type parameter. A parameter without constraint is an
/// unbounded generic, which is a success.
pub fn translate_generic(p: &TypeParam, loc: Location, scope: &Vec<String>) -> (r: Result<TargetGeneric, Diagnostic>)
    ensures
        generic_result(r, generic_spec(*p, loc, scope@)),
{
    match &p.constraint {
        None => Ok(TargetGeneric { name: p.name.clone(), bound: None }),
        Some(c) => match map_type(c, scope) {
            Ok(b) => Ok(TargetGeneric { name: p.name.clone(), bound: Some(b) }),
            Err(e) => Err(Diagnostic {
                kind: DiagnosticKind::UnsupportedConstruct(e),
                name: Some(p.name.clone()),
                loc,
            }),
        },
    }
}

/// Translates type parameters in order: the generics of those that
/// translate, and the diagnostics of those that do not.
pub fn translate_generics(s: &Vec<TypeParam>, loc: Location, scope: &Vec<String>) -> (r: (Vec<TargetGeneric>, Vec<Diagnostic>))
    ensures
        r.0@.map_values(|g: TargetGeneric| g@) == oks(generic_results(s@, loc, scope@)),
        r.1@ == errs(generic_results(s@, loc, scope@)),
{
    let ghost rs = generic_results(s@, loc, scope@);
    let mut out: Vec<TargetGeneric> = Vec::new();
    let mut bad: Vec<Diagnostic> = Vec::new();
    let mut i: usize = 0;
    proof {
        assert(out@.map_values(|g: TargetGeneric| g@) =~= Seq::<GenericV>::empty());
        assert(rs.subrange(0, 0) =~= Seq::<Result<GenericV, Diagnostic>>::empty());
    }
    while i < s.len()
        invariant
            i <= s@.len(),
            rs == generic_results(s@, loc, scope@),
            oks(rs.subrange(0, i as int)) == out@.map_values(|g: TargetGeneric| g@),
            errs(rs.subrange(0, i as int)) == bad@,
        decreases s@.len() - i,
    {
        proof {
            assert(rs.subrange(0, i + 1).subrange(0, i as int) =~= rs.subrange(0, i as int));
        }
        match translate_generic(&s[i], loc, scope) {
            Ok(g) => {
                let ghost before = out@;
                let ghost gv = g@;
                out.push(g);
                proof {
                    assert(out@.map_values(|g: TargetGeneric| g@) =~= before.map_values(
                        |g: TargetGeneric| g@,
                    ).push(gv));
                }
            },
            Err(e) => {
                bad.push(e);
            },
        }
        i = i + 1;
    }
    proof {
        assert(rs.subrange(0, s@.len() as int) =~= rs);
    }
    (out, bad)
}

/// Translates one parameter; an optional parameter is refused, naming it.
pub fn translate_param(p: &Param, loc: Location, scope: &Vec<String>) -> (r: Result<TargetParam, Diagnostic>)
    ensures
        match r {
            Ok(t) => param_spec(*p, loc, scope@) == Ok::<(Seq<char>, TType), Diagnostic>(t@),
            Err(e) => param_spec(*p, loc, scope@) == Err::<(Seq<char>, TType), Diagnostic>(e),
        },
{
    if p.optional {
        return Err(Diagnostic {
            kind: DiagnosticKind::UnsupportedConstruct(Construct::OptionalParameter),
            name: Some(p.name.clone()),
            loc,
        });
    }
    match map_type(&p.ty, scope) {
        Ok(t) => Ok(TargetParam { name: p.name.clone(), ty: t }),
        Err(e) => Err(Diagnostic {
            kind: DiagnosticKind::UnsupportedConstruct(e),
            name: Some(p.name.clone()),
            loc,
        }),
    }
}

/// Translates parameters in declared order: the parameters that translate,
/// and the diagnostics of those that do not.
pub fn translate_params(s: &Vec<Param>, loc: Location, scope: &Vec<String>) -> (r: (Vec<TargetParam>, Vec<Diagnostic>))
    ensures
        r.0@.map_values(|p: TargetParam| p@) == oks(param_results(s@, loc, scope@)),
        r.1@ == errs(param_results(s@, loc, scope@)),
{
    let ghost rs = param_results(s@, loc, scope@);
    let mut out: Vec<TargetParam> = Vec::new();
    let mut bad: Vec<Diagnostic> = Vec::new();
    let mut i: usize = 0;
    proof {
        assert(out@.map_values(|p: TargetParam| p@) =~= Seq::<(Seq<char>, TType)>::empty());
        assert(rs.subrange(0, 0) =~= Seq::<Result<(Seq<char>, TType), Diagnostic>>::empty());
    }
    while i < s.len()
        invariant
            i <= s@.len(),
            rs == param_results(s@, loc, scope@),
            oks(rs.subrange(0, i as int)) == out@.map_values(|p: TargetParam| p@),
            errs(rs.subrange(0, i as int)) == bad@,
        decreases s@.len() - i,
    {
        proof {
            assert(rs.subrange(0, i + 1).subrange(0, i as int) =~= rs.subrange(0, i as int));
        }
        match translate_param(&s[i], loc, scope) {
            Ok(t) => {
                let ghost before = out@;
                let ghost tv = t@;
                out.push(t);
                proof {
                    assert(out@.map_values(|p: TargetParam| p@) =~= before.map_values(
                        |p: TargetParam| p@,
                    ).push(tv));
                }
            },
            Err(e) => {
                bad.push(e);
            },
        }
        i = i + 1;
    }
    proof {
        assert(rs.subrange(0, s@.len() as int) =~= rs);
    }
    (out, bad)
}

pub(crate) fn translate_return(m: &Member, scope: &Vec<String>) -> (r: Result<TargetType, Diagnostic>)
    ensures
        match r {
            Ok(t) => return_spec(*m, scope@) == Ok::<TType, Diagnostic>(t@),
            Err(e) => return_spec(*m, scope@) == Err::<TType, Diagnostic>(e),
        },
{
    if m.kind == MemberKind::Construct {
        return Ok(TargetType::SelfType);
    }
    match &m.return_type {
        None => Ok(TargetType::Unit),
        Some(t) => match map_type(t, scope) {
            Ok(r) => Ok(r),
            Err(e) => Err(Diagnostic {
                kind: DiagnosticKind::UnsupportedConstruct(e),
                name: clone_name(&m.name),
                loc: m.loc,
            }),
        },
    }
}

fn method_name(m: &Member) -> (r: Option<String>)
    ensures
        r matches Some(n) ==> method_name_spec(*m) == Some(n@),
        r is None ==> method_name_spec(*m) is None,
{
    if m.kind == MemberKind::Construct {
        Some("new".to_owned())
    } else {
        clone_name(&m.name)
    }
}

/// Translates one member into a method. Property, index and call
/// signatures fail, naming the member; otherwise every missing name,
/// failing generic, failing parameter and failing return type is reported.
pub fn translate_member(m: &Member, scope: &Vec<String>) -> (r: Result<TargetMethod, Vec<Diagnostic>>)
    ensures
        method_result(r, method_spec(*m, scope@)),
{
    let c = match m.kind {
        MemberKind::Property => Some(Construct::PropertySignature),
        MemberKind::Index => Some(Construct::IndexSignature),
        MemberKind::Call => Some(Construct::CallSignature),
        _ => None,
    };
    if let Some(c) = c {
        let d = Diagnostic {
            kind: DiagnosticKind::UnsupportedConstruct(c),
            name: clone_name(&m.name),
            loc: m.loc,
        };
        let v = vec![d];
        proof {
            assert(v@ =~= seq![d]);
        }
        return Err(v);
    }
    let name = method_name(m);
    let mut bad: Vec<Diagnostic> = Vec::new();
    if name.is_none() {
        bad.push(Diagnostic {
            kind: DiagnosticKind::UnsupportedConstruct(Construct::ComputedName),
            name: None,
            loc: m.loc,
        });
    }
    let ghost name_errs = bad@;
    let sc = extend_scope(scope, &m.type_params);
    let (generics, mut gbad) = translate_generics(&m.type_params, m.loc, &sc);
    bad.append(&mut gbad);
    let (params, mut pbad) = translate_params(&m.params, m.loc, &sc);
    bad.append(&mut pbad);
    let ret = translate_return(m, &sc);
    let ghost before = bad@;
    let ret = match ret {
        Ok(t) => Some(t),
        Err(e) => {
            bad.push(e);
            None
        },
    };
    proof {
        assert(bad@ =~= method_errs(*m, scope@));
    }
    if bad.len() > 0 {
        return Err(bad);
    }
    match (name, ret) {
        (Some(name), Some(ret)) => Ok(TargetMethod { name, generics, params, ret }),
        _ => Err(bad),
    }
}

/// An `extends` type as a supertrait; a failure names the interface.
pub open spec fn ext_spec(t: TypeRef, name: String, loc: Location, scope: Seq<String>) -> Result<TType, Diagnostic> {
    match map_spec(t, scope) {
        Ok(x) => Ok(x),
        Err(c) => Err(unsupported(c, Some(name), loc)),
    }
}

pub open spec fn ext_results(d: InterfaceDecl, scope: Seq<String>) -> Seq<Result<TType, Diagnostic>> {
    d.extends@.map_values(|t: TypeRef| ext_spec(t, d.name, d.loc, scope))
}

pub open spec fn member_results(s: Seq<Member>, scope: Seq<String>) -> Seq<Result<MethodV, Seq<Diagnostic>>> {
    s.map_values(|m: Member| method_spec(m, scope))
}

/// The method name a member competes for, where it becomes a method.
pub open spec fn conflict_name(m: Member) -> Option<Seq<char>> {
    if m.kind == MemberKind::Method || m.kind == MemberKind::Construct {
        method_name_spec(m)
    } else {
        None
    }
}

/// A name conflict for each member whose method name repeats an earlier one.
pub open spec fn conflicts(ms: Seq<Member>) -> Seq<Diagnostic>
    decreases ms.len(),
{
    if ms.len() == 0 {
        Seq::empty()
    } else {
        let last = ms[ms.len() - 1];
        conflicts(ms.subrange(0, ms.len() - 1)) + if conflict_name(last) is Some && exists|i: int|
            0 <= i < ms.len() - 1 && #[trigger] conflict_name(ms[i]) == conflict_name(last) {
            seq![Diagnostic { kind: DiagnosticKind::NameConflict, name: last.name, loc: last.loc }]
        } else {
            Seq::empty()
        }
    }
}

/// Every diagnostic of an interface, in source order: failing generics,
/// failing `extends` types, failing members, then name conflicts.
pub open spec fn decl_errs(d: InterfaceDecl, known: Seq<String>) -> Seq<Diagnostic> {
    let sc = decl_scope(d, known);
    errs(generic_results(d.generics@, d.loc, sc)) + errs(ext_results(d, sc)) + concat(
        errs(member_results(d.members@, sc)),
    ) + conflicts(d.members@)
}

/// An interface as a capability declaration: whole where it has no
/// diagnostic, else all of its diagnostics.
pub open spec fn decl_spec(d: InterfaceDecl, known: Seq<String>) -> Result<DeclV, Seq<Diagnostic>> {
    let sc = decl_scope(d, known);
    if decl_errs(d, known).len() == 0 {
        Ok(
            DeclV {
                name: d.name@,
                generics: oks(generic_results(d.generics@, d.loc, sc)),
                supertraits: oks(ext_results(d, sc)),
                methods: oks(member_results(d.members@, sc)),
            },
        )
    } else {
        Err(decl_errs(d, known))
    }
}

pub open spec fn decl_result(
    r: Result<TargetCapabilityDecl, Vec<Diagnostic>>,
    m: Result<DeclV, Seq<Diagnostic>>,
) -> bool {
    match r {
        Ok(t) => m == Ok::<DeclV, Seq<Diagnostic>>(t@),
        Err(e) => m == Err::<DeclV, Seq<Diagnostic>>(e@),
    }
}

fn translate_extends(d: &InterfaceDecl, scope: &Vec<String>) -> (r: (Vec<TargetType>, Vec<Diagnostic>))
    ensures
        ttype_views(r.0@) == oks(ext_results(*d, scope@)),
        r.1@ == errs(ext_results(*d, scope@)),
{
    let ghost rs = ext_results(*d, scope@);
    let s = &d.extends;
    let mut out: Vec<TargetType> = Vec::new();
    let mut bad: Vec<Diagnostic> = Vec::new();
    let mut i: usize = 0;
    proof {
        assert(rs.subrange(0, 0) =~= Seq::<Result<TType, Diagnostic>>::empty());
    }
    while i < s.len()
        invariant
            i <= s@.len(),
            s == &d.extends,
            rs == ext_results(*d, scope@),
            oks(rs.subrange(0, i as int)) == ttype_views(out@),
            errs(rs.subrange(0, i as int)) == bad@,
        decreases s@.len() - i,
    {
        proof {
            assert(rs.subrange(0, i + 1).subrange(0, i as int) =~= rs.subrange(0, i as int));
        }
        match map_type(&s[i], scope) {
            Ok(t) => {
                let ghost before = out@;
                out.push(t);
                proof {
                    assert(out@.subrange(0, out@.len() - 1) =~= before);
                }
            },
            Err(c) => {
                bad.push(Diagnostic {
                    kind: DiagnosticKind::UnsupportedConstruct(c),
                    name: Some(d.name.clone()),
                    loc: d.loc,
                });
            },
        }
        i = i + 1;
    }
    proof {
        assert(rs.subrange(0, s@.len() as int) =~= rs);
    }
    (out, bad)
}

fn translate_members(s: &Vec<Member>, scope: &Vec<String>) -> (r: (Vec<TargetMethod>, Vec<Diagnostic>))
    ensures
        r.0@.map_values(|m: TargetMethod| m@) == oks(member_results(s@, scope@)),
        r.1@ == concat(errs(member_results(s@, scope@))),
{
    let ghost rs = member_results(s@, scope@);
    let mut out: Vec<TargetMethod> = Vec::new();
    let mut bad: Vec<Diagnostic> = Vec::new();
    let mut i: usize = 0;
    proof {
        assert(out@.map_values(|m: TargetMethod| m@) =~= Seq::<MethodV>::empty());
        assert(rs.subrange(0, 0) =~= Seq::<Result<MethodV, Seq<Diagnostic>>>::empty());
    }
    while i < s.len()
        invariant
            i <= s@.len(),
            rs == member_results(s@, scope@),
            oks(rs.subrange(0, i as int)) == out@.map_values(|m: TargetMethod| m@),
            concat(errs(rs.subrange(0, i as int))) == bad@,
        decreases s@.len() - i,
    {
        proof {
            assert(rs.subrange(0, i + 1).subrange(0, i as int) =~= rs.subrange(0, i as int));
        }
        match translate_member(&s[i], scope) {
            Ok(t) => {
                let ghost before = out@;
                let ghost tv = t@;
                out.push(t);
                proof {
                    assert(out@.map_values(|m: TargetMethod| m@) =~= before.map_values(
                        |m: TargetMethod| m@,
                    ).push(tv));
                }
            },
            Err(mut es) => {
                let ghost ev = es@;
                bad.append(&mut es);
                proof {
                    let e = errs(rs.subrange(0, i + 1));
                    assert(e == errs(rs.subrange(0, i as int)).push(ev));
                    assert(e.subrange(0, e.len() - 1) =~= errs(rs.subrange(0, i as int)));
                }
            },
        }
        i = i + 1;
    }
    proof {
        assert(rs.subrange(0, s@.len() as int) =~= rs);
    }
    (out, bad)
}

fn conflict_name_of(m: &Member) -> (r: Option<String>)
    ensures
        r matches Some(n) ==> conflict_name(*m) == Some(n@),
        r is None ==> conflict_name(*m) is None,
{
    if m.kind == MemberKind::Method || m.kind == MemberKind::Construct {
        method_name(m)
    } else {
        None
    }
}

/// A name conflict for each member whose method name repeats an earlier one.
fn find_conflicts(ms: &Vec<Member>) -> (r: Vec<Diagnostic>)
    ensures
        r@ == conflicts(ms@),
{
    let mut out: Vec<Diagnostic> = Vec::new();
    let mut j: usize = 0;
    proof {
        assert(ms@.subrange(0, 0) =~= Seq::<Member>::empty());
    }
    while j < ms.len()
        invariant
            j <= ms@.len(),
            out@ == conflicts(ms@.subrange(0, j as int)),
        decreases ms@.len() - j,
    {
        let ghost p = ms@.subrange(0, j + 1);
        proof {
            assert(p.subrange(0, j as int) =~= ms@.subrange(0, j as int));
            assert(p[j as int] == ms@[j as int]);
        }
        let nj = conflict_name_of(&ms[j]);
        let mut found = false;
        if let Some(n) = &nj {
            let mut i: usize = 0;
            while i < j && !found
                invariant
                    i <= j < ms@.len(),
                    conflict_name(ms@[j as int]) == Some(n@),
                    !found ==> forall|k: int| 0 <= k < i ==> conflict_name(ms@[k]) != conflict_name(ms@[j as int]),
                    found ==> exists|k: int| 0 <= k < j && conflict_name(ms@[k]) == conflict_name(ms@[j as int]),
                decreases j - i,
            {
                if let Some(o) = conflict_name_of(&ms[i]) {
                    if o == *n {
                        found = true;
                    }
                }
                i = i + 1;
            }
        }
        proof {
            if found {
                let k = choose|k: int| 0 <= k < j && conflict_name(ms@[k]) == conflict_name(ms@[j as int]);
                assert(p[k] == ms@[k]);
            } else if nj is Some {
                assert forall|k: int| 0 <= k < p.len() - 1 implies #[trigger] conflict_name(p[k]) != conflict_name(p[p.len() - 1]) by {
                    assert(p[k] == ms@[k]);
                }
            }
        }
        if found {
            let ghost before = out@;
            let d = Diagnostic {
                kind: DiagnosticKind::NameConflict,
                name: clone_name(&ms[j].name),
                loc: ms[j].loc,
            };
            out.push(d);
            proof {
                assert(out@ =~= before + seq![d]);
            }
        } else {
            proof {
                assert(out@ =~= out@ + Seq::<Diagnostic>::empty());
            }
        }
        j = j + 1;
    }
    proof {
        assert(ms@.subrange(0, ms@.len() as int) =~= ms@);
    }
    out
}

/// Translates an interface into a capability declaration, whole or not at
/// all. A failing interface reports every failing generic, `extends` type
/// and member, and every repeated method name, in source order.
pub fn assemble_interface(d: &InterfaceDecl, known: &Vec<String>) -> (r: Result<TargetCapabilityDecl, Vec<Diagnostic>>)
    ensures
        decl_result(r, decl_spec(*d, known@)),
{
    let sc = extend_scope(known, &d.generics);
    let (generics, mut bad) = translate_generics(&d.generics, d.loc, &sc);
    let (supertraits, mut xbad) = translate_extends(d, &sc);
    bad.append(&mut xbad);
    let (methods, mut mbad) = translate_members(&d.members, &sc);
    bad.append(&mut mbad);
    let mut cbad = find_conflicts(&d.members);
    bad.append(&mut cbad);
    proof {
        assert(bad@ =~= decl_errs(*d, known@));
    }
    if bad.len() > 0 {
        return Err(bad);
    }
    Ok(TargetCapabilityDecl { name: d.name.clone(), generics, supertraits, methods })
}

} // verus!
