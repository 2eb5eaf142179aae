use swift_bridge_ir::bridged_type::{BridgedType, CustomBridgedType};
use swift_bridge_ir::type_declarations::{
    HostLang, OpaqueForeignTypeDeclaration, SharedEnum, SharedStruct, SharedTypeDeclaration,
    TypeDeclaration, TypeDeclarations,
};
use swift_bridge_ir::error::Error;

fn opaque_decl(name: &str, host_lang: HostLang) -> TypeDeclaration {
    TypeDeclaration::Opaque(OpaqueForeignTypeDeclaration {
        ty: name.to_string(),
        host_lang,
        already_declared: false,
        doc_comment: None,
        generics: Vec::new(),
    })
}

#[test]
fn registry_iteration_order_equals_declaration_order() {
    let mut registry = TypeDeclarations::new();
    registry.insert("B".to_string(), opaque_decl("B", HostLang::Rust)).unwrap();
    registry.insert("A".to_string(), opaque_decl("A", HostLang::Swift)).unwrap();
    registry.insert("C".to_string(), opaque_decl("C", HostLang::Rust)).unwrap();

    let names: Vec<String> = registry.types().iter().map(|d| d.name().clone()).collect();
    assert_eq!(names, vec!["B".to_string(), "A".to_string(), "C".to_string()]);
}

#[test]
fn registry_lookup_finds_declarations_by_name() {
    let mut registry = TypeDeclarations::new();
    registry.insert("A".to_string(), opaque_decl("A", HostLang::Swift)).unwrap();
    assert!(registry.get(&"A".to_string()).is_some());
    assert!(registry.get(&"B".to_string()).is_none());
}

#[test]
fn registry_rejects_duplicate_names() {
    let mut registry = TypeDeclarations::new();
    registry.insert("A".to_string(), opaque_decl("A", HostLang::Rust)).unwrap();
    match registry.insert("A".to_string(), opaque_decl("A", HostLang::Rust)) {
        Err(Error::DuplicateTypeName(name)) => assert_eq!(name, "A"),
        _ => panic!("expected a duplicate type name error"),
    }
    assert_eq!(registry.len(), 1);
}

#[test]
fn registry_reports_conflicting_owning_sides() {
    let mut registry = TypeDeclarations::new();
    registry.insert("A".to_string(), opaque_decl("A", HostLang::Rust)).unwrap();
    match registry.insert("A".to_string(), opaque_decl("A", HostLang::Swift)) {
        Err(Error::AmbiguousOwnership(name)) => assert_eq!(name, "A"),
        _ => panic!("expected an ambiguous ownership error"),
    }
}

#[test]
fn free_symbol_names_are_derived_from_the_prefix_and_type_name() {
    let decl = OpaqueForeignTypeDeclaration {
        ty: "MyType".to_string(),
        host_lang: HostLang::Swift,
        already_declared: false,
        doc_comment: None,
        generics: Vec::new(),
    };
    assert_eq!(decl.free_link_name(), "__swift_bridge__$MyType$_free");
    assert_eq!(decl.free_func_name(), "__swift_bridge__MyType__free");
    assert_eq!(decl.ty_name_ident(), "MyType");
}

#[test]
fn to_bridged_type_attaches_use_site_facts_to_opaque_types() {
    let decl = opaque_decl("MyType", HostLang::Rust);
    match decl.to_bridged_type(true, true) {
        BridgedType::Foreign(CustomBridgedType::Opaque(o)) => {
            assert_eq!(o.ty, "MyType");
            assert_eq!(o.host_lang, HostLang::Rust);
            assert!(o.reference);
            assert!(o.mutable);
        },
        _ => panic!("expected an opaque bridged type"),
    }
}

#[test]
fn unwrap_accessors_return_the_declared_type() {
    let s = TypeDeclaration::Shared(SharedTypeDeclaration::Struct(SharedStruct {
        name: "Point".to_string(),
        swift_repr: swift_bridge_ir::type_declarations::StructSwiftRepr::Structure,
        fields: Vec::new(),
    }));
    assert_eq!(s.unwrap_shared_struct().name, "Point");

    let e = TypeDeclaration::Shared(SharedTypeDeclaration::Enum(SharedEnum {
        name: "Direction".to_string(),
        variants: Vec::new(),
    }));
    assert_eq!(e.unwrap_shared_enum().name, "Direction");

    let o = opaque_decl("MyType", HostLang::Swift);
    assert_eq!(o.unwrap_opaque().ty, "MyType");
}

#[test]
fn error_descriptions_name_the_kind_and_type() {
    assert_eq!(
        Error::DuplicateTypeName("A".to_string()).describe(),
        "duplicate type name: A"
    );
    assert_eq!(
        Error::UnresolvedType("B".to_string()).describe(),
        "unresolved type: B"
    );
    assert_eq!(
        Error::AmbiguousOwnership("C".to_string()).describe(),
        "ambiguous ownership for type: C"
    );
}
