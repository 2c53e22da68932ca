//! The type mapper: one mapping from source type references to target types,
//! shared by every translator.
use vstd::prelude::*;
use crate::diag::Construct;
use crate::source::{Primitive, TypeRef};
use crate::target::{TargetType, TType, ttype_views};

verus! {

/// Whether a name is among the names in scope.
pub open spec fn in_scope(name: String, scope: Seq<String>) -> bool {
    exists|i: int| 0 <= i < scope.len() && #[trigger] scope[i]@ == name@
}

/// What a type reference maps to, given the type names in scope, or the construct that stops it.
pub open spec fn map_spec(t: TypeRef, scope: Seq<String>) -> Result<TType, Construct>
    decreases t,
{
    match t {
        TypeRef::Primitive(p) => match p {
            Primitive::Str => Ok(TType::Str),
            Primitive::Number => Ok(TType::F64),
            Primitive::Boolean => Ok(TType::Bool),
            Primitive::Void => Ok(TType::Unit),
            Primitive::Any => Err(Construct::AnyType),
        },
        TypeRef::Named { name, args } => if !in_scope(name, scope) {
            Err(Construct::UnresolvedName(name))
        } else {
            match map_list_spec(args@, scope) {
                Ok(v) => Ok(TType::Named(name@, v)),
                Err(e) => Err(e),
            }
        },
        TypeRef::Function { params, ret } => match map_list_spec(params@, scope) {
            Ok(v) => match map_spec(*ret, scope) {
                Ok(r) => Ok(TType::Callable(v, Box::new(r))),
                Err(e) => Err(e),
            },
            Err(e) => Err(e),
        },
        TypeRef::Array(e) => match map_spec(*e, scope) {
            Ok(r) => Ok(TType::Sequence(Box::new(r))),
            Err(c) => Err(c),
        },
        TypeRef::Union { text, .. } => Err(Construct::UnionType(text)),
        TypeRef::Unsupported(text) => Err(Construct::OtherType(text)),
    }
}

/// A list of type references mapped in order; the first failure wins.
pub open spec fn map_list_spec(s: Seq<TypeRef>, scope: Seq<String>) -> Result<Seq<TType>, Construct>
    decreases s,
{
    if s.len() == 0 {
        Ok(Seq::empty())
    } else {
        match map_list_spec(s.subrange(0, s.len() - 1), scope) {
            Ok(v) => match map_spec(s[s.len() - 1], scope) {
                Ok(r) => Ok(v.push(r)),
                Err(e) => Err(e),
            },
            Err(e) => Err(e),
        }
    }
}

/// A failure on a prefix of a list is the failure of the whole list.
proof fn lemma_prefix_failure(s: Seq<TypeRef>, scope: Seq<String>, k: int)
    requires
        0 <= k <= s.len(),
        map_list_spec(s.subrange(0, k), scope) is Err,
    ensures
        map_list_spec(s, scope) == map_list_spec(s.subrange(0, k), scope),
    decreases s.len() - k,
{
    if k == s.len() {
        assert(s.subrange(0, k) =~= s);
    } else {
        assert(s.subrange(0, k + 1).subrange(0, k) =~= s.subrange(0, k));
        assert(map_list_spec(s.subrange(0, k + 1), scope) == map_list_spec(s.subrange(0, k), scope));
        lemma_prefix_failure(s, scope, k + 1);
    }
}

/// Relates a translation result to its mathematical form.
pub open spec fn type_result(r: Result<TargetType, Construct>, m: Result<TType, Construct>) -> bool {
    match r {
        Ok(t) => m == Ok::<TType, Construct>(t@),
        Err(e) => m == Err::<TType, Construct>(e),
    }
}

pub open spec fn list_result(r: Result<Vec<TargetType>, Construct>, m: Result<Seq<TType>, Construct>) -> bool {
    match r {
        Ok(v) => m == Ok::<Seq<TType>, Construct>(ttype_views(v@)),
        Err(e) => m == Err::<Seq<TType>, Construct>(e),
    }
}

fn is_in_scope(name: &String, scope: &Vec<String>) -> (r: bool)
    ensures
        r == in_scope(*name, scope@),
{
    let mut i: usize = 0;
    while i < scope.len()
        invariant
            i <= scope@.len(),
            forall|k: int| 0 <= k < i ==> scope@[k]@ != name@,
        decreases scope@.len() - i,
    {
        if scope[i] == *name {
            return true;
        }
        i = i + 1;
    }
    false
}

/// Maps a source type reference to a target type. Unions, `any` and types
/// the loader could not describe are refused, never approximated.
pub fn map_type(t: &TypeRef, scope: &Vec<String>) -> (r: Result<TargetType, Construct>)
    ensures
        type_result(r, map_spec(*t, scope@)),
    decreases t,
{
    match t {
        TypeRef::Primitive(p) => match p {
            Primitive::Str => Ok(TargetType::Str),
            Primitive::Number => Ok(TargetType::F64),
            Primitive::Boolean => Ok(TargetType::Bool),
            Primitive::Void => Ok(TargetType::Unit),
            Primitive::Any => Err(Construct::AnyType),
        },
        TypeRef::Named { name, args } => if !is_in_scope(name, scope) {
            Err(Construct::UnresolvedName(name.clone()))
        } else {
            match map_types(args, scope) {
            Ok(v) => {
                let r = TargetType::Named { name: name.clone(), args: v };
                proof {
                    assert(r@ == TType::Named(name@, ttype_views(v@)));
                }
                Ok(r)
            },
            Err(e) => Err(e),
            }
        },
        TypeRef::Function { params, ret } => match map_types(params, scope) {
            Ok(v) => match map_type(ret, scope) {
                Ok(rt) => {
                    let r = TargetType::Callable { params: v, ret: Box::new(rt) };
                    Ok(r)
                },
                Err(e) => Err(e),
            },
            Err(e) => Err(e),
        },
        TypeRef::Array(e) => match map_type(e, scope) {
            Ok(rt) => Ok(TargetType::Sequence(Box::new(rt))),
            Err(c) => Err(c),
        },
        TypeRef::Union { text, .. } => Err(Construct::UnionType(text.clone())),
        TypeRef::Unsupported(text) => Err(Construct::OtherType(text.clone())),
    }
}

/// Maps a list of type references in order, stopping at the first failure.
pub fn map_types(s: &Vec<TypeRef>, scope: &Vec<String>) -> (r: Result<Vec<TargetType>, Construct>)
    ensures
        list_result(r, map_list_spec(s@, scope@)),
    decreases s,
{
    let mut out: Vec<TargetType> = Vec::new();
    let mut i: usize = 0;
    while i < s.len()
        invariant
            i <= s@.len(),
            map_list_spec(s@.subrange(0, i as int), scope@) == Ok::<Seq<TType>, Construct>(ttype_views(out@)),
        decreases s@.len() - i,
    {
        proof {
            assert(s@.subrange(0, i + 1).subrange(0, i as int) =~= s@.subrange(0, i as int));
            assert(s@.subrange(0, i + 1)[i as int] == s@[i as int]);
        }
        match map_type(&s[i], scope) {
            Ok(t) => {
                let ghost before = out@;
                out.push(t);
                proof {
                    assert(out@.subrange(0, out@.len() - 1) =~= before);
                }
            },
            Err(e) => {
                proof {
                    lemma_prefix_failure(s@, scope@, i + 1);
                }
                return Err(e);
            },
        }
        i = i + 1;
    }
    proof {
        assert(s@.subrange(0, s@.len() as int) =~= s@);
    }
    Ok(out)
}

} // verus!
