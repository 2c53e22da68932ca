use ts2rs::diag::{Construct, Diagnostic, DiagnosticKind};
use ts2rs::engine::translate_file;
use ts2rs::ffi::{assemble_function, translate_namespace};
use ts2rs::mapper::map_type;
use ts2rs::source::{
    InterfaceDecl, Location, Member, MemberKind, NamespaceDecl, Param, Primitive, SourceFile, TypeParam,
    TypeRef,
};
use ts2rs::target::{TargetType, TargetCapabilityDecl};
use ts2rs::translate::{assemble_interface, translate_generic, translate_member};
use ts2rs::Ts2Rs;

fn scope() -> Vec<String> {
    ["Base", "Map", "Box", "Pair", "Parent", "Thenable"].iter().map(|s| s.to_string()).collect()
}

fn at(line: u32) -> Location {
    Location { line, column: 1 }
}

fn named(name: &str, args: Vec<TypeRef>) -> TypeRef {
    TypeRef::Named { name: name.to_string(), args }
}

fn prim(p: Primitive) -> TypeRef {
    TypeRef::Primitive(p)
}

fn param(name: &str, ty: TypeRef) -> Param {
    Param { name: name.to_string(), ty, optional: false }
}

fn method(name: &str, params: Vec<Param>, ret: Option<TypeRef>, line: u32) -> Member {
    Member {
        kind: MemberKind::Method,
        name: Some(name.to_string()),
        type_params: vec![],
        params,
        return_type: ret,
        loc: at(line),
    }
}

fn member(kind: MemberKind, name: &str, line: u32) -> Member {
    Member {
        kind,
        name: Some(name.to_string()),
        type_params: vec![],
        params: vec![],
        return_type: Some(prim(Primitive::Number)),
        loc: at(line),
    }
}

fn interface(name: &str, generics: Vec<TypeParam>, members: Vec<Member>) -> InterfaceDecl {
    InterfaceDecl { name: name.to_string(), generics, extends: vec![], members, loc: at(1) }
}

fn thenable() -> InterfaceDecl {
    let callback = TypeRef::Function {
        params: vec![named("T", vec![])],
        ret: Box::new(named("TResult", vec![])),
    };
    let then = Member {
        kind: MemberKind::Method,
        name: Some("then".to_string()),
        type_params: vec![TypeParam { name: "TResult".to_string(), constraint: None, loc: at(1) }],
        params: vec![Param { name: "onfulfilled".to_string(), ty: callback, optional: true }],
        return_type: Some(named("Thenable", vec![named("TResult", vec![])])),
        loc: at(2),
    };
    interface("Thenable", vec![TypeParam { name: "T".to_string(), constraint: None, loc: at(1) }], vec![then])
}

fn unsupported_named(d: &Diagnostic) -> (&Construct, Option<&str>) {
    match &d.kind {
        DiagnosticKind::UnsupportedConstruct(c) => (c, d.name.as_deref()),
        DiagnosticKind::NameConflict => panic!("expected an unsupported construct, got {:?}", d),
    }
}

fn ok_decl(r: Result<TargetCapabilityDecl, Vec<Diagnostic>>) -> TargetCapabilityDecl {
    match r {
        Ok(d) => d,
        Err(e) => panic!("translation failed: {:?}", e),
    }
}

#[test]
fn thenable_optional_parameter_is_rejected() {
    let mut es = assemble_interface(&thenable(), &scope()).unwrap_err();
    assert_eq!(es.len(), 1);
    let e = es.remove(0);
    let (c, name) = unsupported_named(&e);
    assert!(matches!(c, Construct::OptionalParameter));
    assert_eq!(name, Some("onfulfilled"));
    assert_eq!(e.loc, at(2));
}

#[test]
fn translating_twice_gives_identical_output() {
    let file = || SourceFile {
        known: vec![],
        interfaces: vec![
            thenable(),
            interface("Greeter", vec![], vec![method("greet", vec![param("who", prim(Primitive::Str))], None, 3)]),
        ],
        namespaces: vec![NamespaceDecl {
            name: "window".to_string(),
            functions: vec![method("showInformationMessage", vec![param("s", prim(Primitive::Str))], None, 9)],
            namespaces: vec![],
        }],
    };
    let a = format!("{:?}", translate_file(&file()));
    let b = format!("{:?}", translate_file(&file()));
    assert_eq!(a, b);
}

#[test]
fn methods_keep_member_order() {
    let names = ["zeta", "alpha", "mid", "beta"];
    let members = names
        .iter()
        .enumerate()
        .map(|(i, n)| method(n, vec![], None, i as u32 + 2))
        .collect();
    let d = ok_decl(assemble_interface(&interface("Ordered", vec![], members), &scope()));
    let out: Vec<&str> = d.methods.iter().map(|m| m.name.as_str()).collect();
    assert_eq!(out, names.to_vec());
}

#[test]
fn generic_round_trip() {
    let t = TypeParam { name: "T".to_string(), constraint: Some(named("Base", vec![])), loc: at(1) };
    let m = method("m", vec![param("x", named("T", vec![]))], Some(prim(Primitive::Boolean)), 2);
    let d = ok_decl(assemble_interface(&interface("I", vec![t], vec![m]), &scope()));
    assert_eq!(d.name, "I");
    assert_eq!(d.generics.len(), 1);
    assert_eq!(d.generics[0].name, "T");
    assert!(matches!(&d.generics[0].bound, Some(TargetType::Named { name, args }) if name == "Base" && args.is_empty()));
    assert_eq!(d.methods.len(), 1);
    let m = &d.methods[0];
    assert_eq!(m.name, "m");
    assert!(m.generics.is_empty());
    assert_eq!(m.params.len(), 1);
    assert_eq!(m.params[0].name, "x");
    assert!(matches!(&m.params[0].ty, TargetType::Named { name, args } if name == "T" && args.is_empty()));
    assert!(matches!(m.ret, TargetType::Bool));
}

#[test]
fn unbounded_generic_translates() {
    let g = translate_generic(&TypeParam { name: "T".to_string(), constraint: None, loc: at(1) }, at(1), &scope()).unwrap();
    assert_eq!(g.name, "T");
    assert!(g.bound.is_none());
    let d = assemble_interface(&thenable_without_optional(), &scope()).unwrap();
    assert!(d.generics[0].bound.is_none());
    assert!(d.methods[0].generics[0].bound.is_none());
}

fn thenable_without_optional() -> InterfaceDecl {
    let mut d = thenable();
    d.members[0].params[0].optional = false;
    d
}

#[test]
fn property_signature_is_rejected() {
    let d = interface("P", vec![], vec![method("ok", vec![], None, 2), member(MemberKind::Property, "size", 3)]);
    let e = assemble_interface(&d, &scope()).unwrap_err().remove(0);
    let (c, name) = unsupported_named(&e);
    assert!(matches!(c, Construct::PropertySignature));
    assert_eq!(name, Some("size"));
    assert_eq!(e.loc, at(3));
}

#[test]
fn index_signature_is_rejected() {
    let d = interface("P", vec![], vec![member(MemberKind::Index, "key", 2)]);
    let e = assemble_interface(&d, &scope()).unwrap_err().remove(0);
    assert!(matches!(unsupported_named(&e), (Construct::IndexSignature, Some("key"))));
}

#[test]
fn call_signature_is_rejected() {
    let d = interface("P", vec![], vec![method("a", vec![], None, 2), member(MemberKind::Call, "call", 4)]);
    let e = assemble_interface(&d, &scope()).unwrap_err().remove(0);
    assert!(matches!(unsupported_named(&e), (Construct::CallSignature, Some("call"))));
    assert_eq!(e.loc, at(4));
}

#[test]
fn optional_parameter_is_named() {
    let mut m = method("f", vec![param("a", prim(Primitive::Number)), param("b", prim(Primitive::Str))], None, 5);
    m.params[1].optional = true;
    let e = translate_member(&m, &scope()).unwrap_err().remove(0);
    assert!(matches!(unsupported_named(&e), (Construct::OptionalParameter, Some("b"))));
}

#[test]
fn nested_namespace_binding_path_and_alias() {
    let b = NamespaceDecl {
        name: "b".to_string(),
        functions: vec![method("f", vec![param("n", prim(Primitive::Number))], Some(prim(Primitive::Str)), 2)],
        namespaces: vec![],
    };
    let a = NamespaceDecl { name: "a".to_string(), functions: vec![], namespaces: vec![b] };
    let t = translate_namespace(&a, &vec![], &scope());
    assert_eq!(t.path_segments, vec!["a".to_string()]);
    assert!(t.functions.is_empty());
    let child = &t.children[0];
    assert_eq!(child.path_segments, vec!["a".to_string(), "b".to_string()]);
    let f = child.functions[0].as_ref().unwrap();
    assert_eq!(f.name, "f");
    assert_eq!(f.modules, vec!["a".to_string(), "b".to_string()]);
    assert_eq!(f.host_alias, "b");
    assert!(matches!(f.params[0].ty, TargetType::F64));
    assert!(matches!(f.ret, TargetType::Str));
}

#[test]
fn callback_parameter_becomes_registration_handle() {
    let cb = TypeRef::Function { params: vec![], ret: Box::new(prim(Primitive::Void)) };
    let f = method("registerCommand", vec![param("s", prim(Primitive::Str)), param("f", cb)], None, 7);
    let path = vec!["vscode".to_string(), "commands".to_string()];
    let b = assemble_function(&path, &f, &scope()).unwrap();
    assert_eq!(b.host_alias, "commands");
    assert!(matches!(b.params[0].ty, TargetType::Str));
    match &b.params[1].ty {
        TargetType::CallbackHandle { params, ret } => {
            assert!(params.is_empty());
            assert!(matches!(**ret, TargetType::Unit));
        },
        other => panic!("expected a callback handle, got {:?}", other),
    }
    assert!(matches!(b.ret, TargetType::Unit));
}

#[test]
fn function_type_in_interface_is_callable() {
    let cb = TypeRef::Function { params: vec![prim(Primitive::Number)], ret: Box::new(prim(Primitive::Boolean)) };
    let m = translate_member(&method("on", vec![param("f", cb)], None, 2), &scope()).unwrap();
    match &m.params[0].ty {
        TargetType::Callable { params, ret } => {
            assert!(matches!(params[..], [TargetType::F64]));
            assert!(matches!(**ret, TargetType::Bool));
        },
        other => panic!("expected a callable, got {:?}", other),
    }
}

#[test]
fn duplicate_method_names_conflict() {
    let d = interface("D", vec![], vec![
        method("a", vec![], None, 2),
        method("b", vec![], None, 3),
        method("a", vec![], None, 4),
    ]);
    let es = assemble_interface(&d, &scope()).unwrap_err();
    assert_eq!(es.len(), 1);
    let e = &es[0];
    assert!(matches!(e.kind, DiagnosticKind::NameConflict));
    assert_eq!(e.name.as_deref(), Some("a"));
    assert_eq!(e.loc, at(4));
}

#[test]
fn primitive_mapping() {
    assert!(matches!(map_type(&prim(Primitive::Str), &scope()), Ok(TargetType::Str)));
    assert!(matches!(map_type(&prim(Primitive::Number), &scope()), Ok(TargetType::F64)));
    assert!(matches!(map_type(&prim(Primitive::Boolean), &scope()), Ok(TargetType::Bool)));
    assert!(matches!(map_type(&prim(Primitive::Void), &scope()), Ok(TargetType::Unit)));
    assert!(matches!(map_type(&prim(Primitive::Any), &scope()), Err(Construct::AnyType)));
}

#[test]
fn nested_types_map_recursively() {
    let t = named("Map", vec![prim(Primitive::Str), TypeRef::Array(Box::new(prim(Primitive::Number)))]);
    match map_type(&t, &scope()).unwrap() {
        TargetType::Named { name, args } => {
            assert_eq!(name, "Map");
            assert!(matches!(args[0], TargetType::Str));
            assert!(matches!(&args[1], TargetType::Sequence(e) if matches!(**e, TargetType::F64)));
        },
        other => panic!("unexpected {:?}", other),
    }
}

#[test]
fn union_and_unknown_types_are_refused() {
    let u = TypeRef::Union { members: vec![prim(Primitive::Str), prim(Primitive::Number)], text: "string | number".to_string() };
    assert!(matches!(map_type(&u, &scope()), Err(Construct::UnionType(t)) if t == "string | number"));
    let deep = named("Box", vec![prim(Primitive::Str), TypeRef::Unsupported("keyof T".to_string())]);
    assert!(matches!(map_type(&deep, &scope()), Err(Construct::OtherType(s)) if s == "keyof T"));
    let m = method("g", vec![], Some(u), 6);
    let e = translate_member(&m, &scope()).unwrap_err().remove(0);
    assert!(matches!(unsupported_named(&e), (Construct::UnionType(_), Some("g"))));
}

#[test]
fn first_failing_argument_wins() {
    let t = named("Pair", vec![prim(Primitive::Any), TypeRef::Union { members: vec![], text: String::new() }]);
    assert!(matches!(map_type(&t, &scope()), Err(Construct::AnyType)));
}

#[test]
fn constructor_returns_self() {
    let mut c = member(MemberKind::Construct, "ignored", 2);
    c.name = None;
    c.params = vec![param("n", prim(Primitive::Number))];
    let m = translate_member(&c, &scope()).unwrap();
    assert_eq!(m.name, "new");
    assert!(matches!(m.ret, TargetType::SelfType));
}

#[test]
fn extends_become_supertraits() {
    let mut d = interface("Child", vec![], vec![method("m", vec![], None, 2)]);
    d.extends = vec![named("Parent", vec![])];
    let out = ok_decl(assemble_interface(&d, &scope()));
    assert!(matches!(&out.supertraits[..], [TargetType::Named { name, .. }] if name == "Parent"));
    d.extends = vec![prim(Primitive::Any)];
    let e = assemble_interface(&d, &scope()).unwrap_err().remove(0);
    assert!(matches!(unsupported_named(&e), (Construct::AnyType, Some("Child"))));
}

#[test]
fn computed_member_name_is_refused() {
    let mut m = method("x", vec![], None, 3);
    m.name = None;
    let e = translate_member(&m, &scope()).unwrap_err().remove(0);
    assert!(matches!(unsupported_named(&e), (Construct::ComputedName, None)));
}

#[test]
fn bad_generic_constraint_names_the_generic() {
    let g = TypeParam { name: "K".to_string(), constraint: Some(TypeRef::Union { members: vec![], text: String::new() }), loc: at(1) };
    let e = translate_generic(&g, at(8), &scope()).unwrap_err();
    assert!(matches!(unsupported_named(&e), (Construct::UnionType(_), Some("K"))));
    assert_eq!(e.loc, at(8));
}

#[test]
fn binding_refuses_generic_and_non_function_members() {
    let path = vec!["ns".to_string()];
    let mut f = method("g", vec![], None, 2);
    f.type_params = vec![TypeParam { name: "T".to_string(), constraint: None, loc: at(1) }];
    let e = assemble_function(&path, &f, &scope()).unwrap_err();
    assert!(matches!(unsupported_named(&e), (Construct::GenericFunction, Some("g"))));
    let e = assemble_function(&path, &member(MemberKind::Construct, "c", 3), &scope()).unwrap_err();
    assert!(matches!(unsupported_named(&e), (Construct::ConstructSignature, Some("c"))));
    let mut o = method("o", vec![param("x", prim(Primitive::Str))], None, 4);
    o.params[0].optional = true;
    let e = assemble_function(&path, &o, &scope()).unwrap_err();
    assert!(matches!(unsupported_named(&e), (Construct::OptionalParameter, Some("x"))));
}

#[test]
fn one_bad_declaration_does_not_stop_the_others() {
    let file = SourceFile {
        known: vec![],
        interfaces: vec![
            thenable(),
            interface("Good", vec![], vec![method("run", vec![], None, 5)]),
        ],
        namespaces: vec![NamespaceDecl {
            name: "window".to_string(),
            functions: vec![
                method("bad", vec![param("u", TypeRef::Union { members: vec![], text: String::new() })], None, 8),
                method("good", vec![], None, 9),
            ],
            namespaces: vec![],
        }],
    };
    let r = file.ts2rs();
    assert!(r.interfaces[0].is_err());
    assert_eq!(r.interfaces[1].as_ref().unwrap().name, "Good");
    let fs = &r.namespaces[0].functions;
    assert!(fs[0].is_err());
    assert_eq!(fs[1].as_ref().unwrap().name, "good");
}

#[test]
fn trait_conversions_agree_with_functions() {
    assert!(matches!(prim(Primitive::Number).ts2rs(), Ok(TargetType::F64)));
    let m = method("m", vec![], None, 2).ts2rs().unwrap();
    assert_eq!(m.name, "m");
    assert!(thenable().ts2rs().is_err());
}

fn optional(name: &str, ty: TypeRef) -> Param {
    Param { name: name.to_string(), ty, optional: true }
}

fn names_of(es: &[Diagnostic]) -> Vec<Option<&str>> {
    es.iter().map(|e| e.name.as_deref()).collect()
}

#[test]
fn every_failing_parameter_is_reported() {
    let m = method("f", vec![param("a", prim(Primitive::Any)), optional("b", prim(Primitive::Number))], None, 2);
    let es = translate_member(&m, &scope()).unwrap_err();
    assert_eq!(es.len(), 2);
    assert!(matches!(unsupported_named(&es[0]), (Construct::AnyType, Some("a"))));
    assert!(matches!(unsupported_named(&es[1]), (Construct::OptionalParameter, Some("b"))));
}

#[test]
fn every_failing_member_is_reported() {
    let d = interface("I", vec![], vec![
        method("f", vec![optional("a", prim(Primitive::Number))], None, 2),
        method("g", vec![optional("b", prim(Primitive::Number))], None, 3),
        member(MemberKind::Property, "y", 4),
    ]);
    let es = assemble_interface(&d, &scope()).unwrap_err();
    assert_eq!(names_of(&es), vec![Some("a"), Some("b"), Some("y")]);
    assert!(matches!(unsupported_named(&es[2]), (Construct::PropertySignature, Some("y"))));
}

#[test]
fn name_conflict_is_reported_beside_other_failures() {
    let d = interface("I", vec![], vec![
        method("f", vec![], None, 2),
        method("f", vec![], None, 3),
        method("h", vec![param("x", prim(Primitive::Any))], None, 4),
    ]);
    let es = assemble_interface(&d, &scope()).unwrap_err();
    assert_eq!(es.len(), 2);
    assert!(matches!(unsupported_named(&es[0]), (Construct::AnyType, Some("x"))));
    assert!(matches!(es[1].kind, DiagnosticKind::NameConflict));
    assert_eq!(es[1].name.as_deref(), Some("f"));
    assert_eq!(es[1].loc, at(3));
}

#[test]
fn unresolved_names_are_refused() {
    assert!(matches!(map_type(&named("Unknown", vec![]), &scope()), Err(Construct::UnresolvedName(n)) if n == "Unknown"));
    let m = method("f", vec![param("x", named("Unknown", vec![]))], Some(prim(Primitive::Void)), 2);
    let es = translate_member(&m, &scope()).unwrap_err();
    assert_eq!(es.len(), 1);
    assert!(matches!(unsupported_named(&es[0]), (Construct::UnresolvedName(n), Some("x")) if n == "Unknown"));
    let g = translate_generic(&TypeParam { name: "T".to_string(), constraint: None, loc: at(1) }, at(1), &vec![]).unwrap();
    assert_eq!(g.name, "T");
}

#[test]
fn method_generics_are_in_scope_only_inside_the_method() {
    let mut m = method("id", vec![param("x", named("U", vec![]))], Some(named("U", vec![])), 2);
    m.type_params = vec![TypeParam { name: "U".to_string(), constraint: None, loc: at(1) }];
    assert!(translate_member(&m, &vec![]).is_ok());
    let d = interface("I", vec![], vec![m, method("g", vec![param("y", named("U", vec![]))], None, 3)]);
    let es = assemble_interface(&d, &vec![]).unwrap_err();
    assert!(matches!(unsupported_named(&es[0]), (Construct::UnresolvedName(n), Some("y")) if n == "U"));
}

#[test]
fn file_names_and_known_names_are_in_scope() {
    let file = SourceFile {
        known: vec!["Alias".to_string()],
        interfaces: vec![
            interface("A", vec![], vec![method("b", vec![], Some(named("B", vec![])), 2)]),
            interface("B", vec![], vec![method("a", vec![param("x", named("Alias", vec![]))], Some(named("Missing", vec![])), 4)]),
        ],
        namespaces: vec![NamespaceDecl {
            name: "ns".to_string(),
            functions: vec![method("make", vec![], Some(named("A", vec![])), 6)],
            namespaces: vec![],
        }],
    };
    let r = translate_file(&file);
    assert!(r.interfaces[0].is_ok());
    let es = r.interfaces[1].as_ref().unwrap_err();
    assert!(matches!(unsupported_named(&es[0]), (Construct::UnresolvedName(n), Some("a")) if n == "Missing"));
    assert!(r.namespaces[0].functions[0].is_ok());
}

#[test]
fn type_parameter_converts_on_its_own() {
    let t = TypeParam { name: "T".to_string(), constraint: None, loc: at(3) };
    let g = t.ts2rs().unwrap();
    assert_eq!(g.name, "T");
    assert!(g.bound.is_none());
    let b = TypeParam { name: "K".to_string(), constraint: Some(prim(Primitive::Number)), loc: at(4) };
    assert!(matches!(b.ts2rs().unwrap().bound, Some(TargetType::F64)));
    let u = TypeParam { name: "K".to_string(), constraint: Some(named("Other", vec![])), loc: at(5) };
    assert_eq!(u.ts2rs().unwrap_err().loc, at(5));
}
