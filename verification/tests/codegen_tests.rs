use swift_bridge_ir::codegen::{generate, BridgeFn, BridgeModule, Param};
use swift_bridge_ir::error::Error;
use swift_bridge_ir::type_declarations::{
    HostLang, OpaqueForeignTypeDeclaration, SharedEnum, SharedStruct, SharedTypeDeclaration,
    StructField, StructSwiftRepr, TypeDeclaration, TypeExpr,
};

fn opaque(name: &str, host_lang: HostLang, already_declared: bool) -> TypeDeclaration {
    TypeDeclaration::Opaque(OpaqueForeignTypeDeclaration {
        ty: name.to_string(),
        host_lang,
        already_declared,
        doc_comment: None,
        generics: Vec::new(),
    })
}

fn freestanding_fn(name: &str, arg: &str, host_lang: HostLang) -> BridgeFn {
    BridgeFn {
        name: name.to_string(),
        params: vec![Param {
            name: "arg".to_string(),
            ty: TypeExpr::Path(arg.to_string()),
        }],
        ret: None,
        host_lang,
        cfg_feature: None,
    }
}

/// A module declaring one native-owned opaque type and one host-implemented
/// function taking it by value.
fn owned_opaque_rust_type_arg_module() -> BridgeModule {
    BridgeModule {
        types: vec![opaque("MyType", HostLang::Rust, false)],
        functions: vec![freestanding_fn("some_function", "MyType", HostLang::Swift)],
        enabled_crate_features: Vec::new(),
    }
}

/// A module declaring one host-owned opaque type and one host-implemented
/// function taking it by value.
fn owned_opaque_swift_type_arg_module() -> BridgeModule {
    BridgeModule {
        types: vec![opaque("MyType", HostLang::Swift, false)],
        functions: vec![freestanding_fn("some_function", "MyType", HostLang::Swift)],
        enabled_crate_features: Vec::new(),
    }
}

#[test]
fn extern_swift_freestanding_fn_with_owned_opaque_rust_type_arg() {
    let module = owned_opaque_rust_type_arg_module();
    let generated = generate(&module).unwrap();

    let expected_rust_wrapper = "pub fn some_function(arg: super::MyType) {\n    \
unsafe { __swift_bridge__some_function(Box::into_raw(Box::new(arg)) as *mut super::MyType) }\n}";
    assert!(generated.rust.contains(expected_rust_wrapper));

    let expected_rust_link = "#[link_name = \"__swift_bridge__$some_function\"]\n    \
fn __swift_bridge__some_function(arg: *mut super::MyType);";
    assert!(generated.rust.contains(expected_rust_link));

    let expected_swift = "@_cdecl(\"__swift_bridge__$some_function\")\n\
func __swift_bridge__some_function(_ arg: UnsafeMutableRawPointer) {\n    \
some_function(arg: MyType(ptr: arg))\n}";
    assert!(generated.swift.contains(expected_swift));

    assert_eq!(generated.c_header.trim(), "typedef struct MyType MyType;");
}

#[test]
fn extern_swift_freestanding_fn_with_owned_opaque_swift_type_arg() {
    let module = owned_opaque_swift_type_arg_module();
    let generated = generate(&module).unwrap();

    let expected_rust_wrapper = "pub fn some_function(arg: MyType) {\n    \
unsafe { __swift_bridge__some_function(arg) }\n}";
    assert!(generated.rust.contains(expected_rust_wrapper));

    let expected_handle = "#[repr(C)]\npub struct MyType(*mut std::ffi::c_void);";
    assert!(generated.rust.contains(expected_handle));

    let expected_drop = "impl Drop for MyType {\n    fn drop(&mut self) {\n        \
unsafe { __swift_bridge__MyType__free(self.0) }\n    }\n}";
    assert!(generated.rust.contains(expected_drop));

    let expected_free_link = "#[link_name = \"__swift_bridge__$MyType$_free\"]\n    \
fn __swift_bridge__MyType__free(this: *mut std::ffi::c_void);";
    assert!(generated.rust.contains(expected_free_link));

    let expected_swift = "@_cdecl(\"__swift_bridge__$some_function\")\n\
func __swift_bridge__some_function(_ arg: __private__PointerToSwiftType) {\n    \
some_function(arg: Unmanaged<MyType>.fromOpaque(arg.ptr).takeRetainedValue())\n}";
    assert!(generated.swift.contains(expected_swift));

    assert_eq!(generated.c_header.trim(), "");
}

#[test]
fn generation_is_deterministic() {
    let first = generate(&owned_opaque_rust_type_arg_module()).unwrap();
    let second = generate(&owned_opaque_rust_type_arg_module()).unwrap();
    assert_eq!(first.rust, second.rust);
    assert_eq!(first.swift, second.swift);
    assert_eq!(first.c_header, second.c_header);
}

#[test]
fn already_declared_removes_header_typedef_and_keeps_glue() {
    let plain = generate(&owned_opaque_rust_type_arg_module()).unwrap();

    let mut module = owned_opaque_rust_type_arg_module();
    module.types[0] = opaque("MyType", HostLang::Rust, true);
    let marked = generate(&module).unwrap();

    assert!(plain.c_header.contains("typedef struct MyType MyType;"));
    assert!(!marked.c_header.contains("typedef struct MyType MyType;"));
    assert_eq!(plain.rust, marked.rust);
    assert_eq!(plain.swift, marked.swift);
}

#[test]
fn unresolvable_type_yields_unresolved_type_and_no_output() {
    let module = BridgeModule {
        types: Vec::new(),
        functions: vec![freestanding_fn("some_function", "Nonsense", HostLang::Swift)],
        enabled_crate_features: Vec::new(),
    };
    match generate(&module) {
        Err(Error::UnresolvedType(name)) => assert_eq!(name, "Nonsense"),
        _ => panic!("expected an unresolved type error"),
    }
}

#[test]
fn duplicate_type_name_is_fatal() {
    let module = BridgeModule {
        types: vec![
            opaque("MyType", HostLang::Rust, false),
            opaque("MyType", HostLang::Rust, false),
        ],
        functions: Vec::new(),
        enabled_crate_features: Vec::new(),
    };
    match generate(&module) {
        Err(Error::DuplicateTypeName(name)) => assert_eq!(name, "MyType"),
        _ => panic!("expected a duplicate type name error"),
    }
}

#[test]
fn conflicting_owning_sides_are_ambiguous() {
    let module = BridgeModule {
        types: vec![
            opaque("MyType", HostLang::Rust, false),
            opaque("MyType", HostLang::Swift, false),
        ],
        functions: Vec::new(),
        enabled_crate_features: Vec::new(),
    };
    match generate(&module) {
        Err(Error::AmbiguousOwnership(name)) => assert_eq!(name, "MyType"),
        _ => panic!("expected an ambiguous ownership error"),
    }
}

fn point_struct() -> TypeDeclaration {
    TypeDeclaration::Shared(SharedTypeDeclaration::Struct(SharedStruct {
        name: "Point".to_string(),
        swift_repr: StructSwiftRepr::Structure,
        fields: vec![
            StructField {
                name: "x".to_string(),
                ty: TypeExpr::Path("u8".to_string()),
            },
            StructField {
                name: "y".to_string(),
                ty: TypeExpr::Path("bool".to_string()),
            },
        ],
    }))
}

#[test]
fn shared_struct_field_order_is_preserved_everywhere() {
    let module = BridgeModule {
        types: vec![point_struct()],
        functions: Vec::new(),
        enabled_crate_features: Vec::new(),
    };
    let generated = generate(&module).unwrap();

    let expected_rust =
        "#[repr(C)]\npub struct Point {\n    pub x: u8,\n    pub y: bool,\n}";
    assert!(generated.rust.contains(expected_rust));

    let expected_swift =
        "public struct Point {\n    public var x: UInt8\n    public var y: Bool\n}";
    assert!(generated.swift.contains(expected_swift));

    let expected_header =
        "typedef struct Point {\n    uint8_t x;\n    bool y;\n} Point;";
    assert!(generated.c_header.contains(expected_header));
}

#[test]
fn class_repr_struct_has_no_header_mirror() {
    let module = BridgeModule {
        types: vec![TypeDeclaration::Shared(SharedTypeDeclaration::Struct(SharedStruct {
            name: "Point".to_string(),
            swift_repr: StructSwiftRepr::Class,
            fields: vec![StructField {
                name: "x".to_string(),
                ty: TypeExpr::Path("u8".to_string()),
            }],
        }))],
        functions: Vec::new(),
        enabled_crate_features: Vec::new(),
    };
    let generated = generate(&module).unwrap();
    assert_eq!(generated.c_header.trim(), "");
    assert!(generated.rust.contains("pub struct Point"));
}

#[test]
fn shared_enum_variant_order_is_preserved() {
    let module = BridgeModule {
        types: vec![TypeDeclaration::Shared(SharedTypeDeclaration::Enum(SharedEnum {
            name: "Direction".to_string(),
            variants: vec!["North".to_string(), "South".to_string()],
        }))],
        functions: Vec::new(),
        enabled_crate_features: Vec::new(),
    };
    let generated = generate(&module).unwrap();
    assert!(generated
        .rust
        .contains("#[repr(C)]\npub enum Direction {\n    North,\n    South,\n}"));
    assert!(generated
        .swift
        .contains("public enum Direction {\n    case North\n    case South\n}"));
    assert!(generated
        .c_header
        .contains("typedef enum Direction {\n    North,\n    South,\n} Direction;"));
}

#[test]
fn unresolvable_struct_field_is_fatal() {
    let module = BridgeModule {
        types: vec![TypeDeclaration::Shared(SharedTypeDeclaration::Struct(SharedStruct {
            name: "Point".to_string(),
            swift_repr: StructSwiftRepr::Structure,
            fields: vec![StructField {
                name: "x".to_string(),
                ty: TypeExpr::Path("Nonsense".to_string()),
            }],
        }))],
        functions: Vec::new(),
        enabled_crate_features: Vec::new(),
    };
    match generate(&module) {
        Err(Error::UnresolvedType(name)) => assert_eq!(name, "Nonsense"),
        _ => panic!("expected an unresolved type error"),
    }
}

#[test]
fn feature_gated_function_is_compiled_out() {
    let mut module = owned_opaque_rust_type_arg_module();
    module.functions[0].cfg_feature = Some("extra".to_string());
    let gated_off = generate(&module).unwrap();
    assert!(!gated_off.rust.contains("some_function"));
    assert!(!gated_off.swift.contains("some_function"));

    module.enabled_crate_features.push("extra".to_string());
    let gated_on = generate(&module).unwrap();
    assert!(gated_on.rust.contains("some_function"));
    assert!(gated_on.swift.contains("some_function"));
}

#[test]
fn native_implemented_function_gets_export_and_host_caller() {
    let module = BridgeModule {
        types: vec![opaque("MyType", HostLang::Rust, false)],
        functions: vec![freestanding_fn("make_noise", "MyType", HostLang::Rust)],
        enabled_crate_features: Vec::new(),
    };
    let generated = generate(&module).unwrap();
    assert!(generated.rust.contains("#[export_name = \"__swift_bridge__$make_noise\"]"));
    assert!(generated
        .rust
        .contains("pub extern \"C\" fn __swift_bridge__make_noise(arg: *mut super::MyType)"));
    assert!(generated.rust.contains("super::make_noise(*Box::from_raw(arg))"));
    assert!(generated.swift.contains("public func make_noise(_ arg: MyType)"));
}

#[test]
fn string_and_builtin_arguments_use_fixed_encodings() {
    let module = BridgeModule {
        types: Vec::new(),
        functions: vec![BridgeFn {
            name: "greet".to_string(),
            params: vec![
                Param {
                    name: "name".to_string(),
                    ty: TypeExpr::Path("String".to_string()),
                },
                Param {
                    name: "count".to_string(),
                    ty: TypeExpr::Path("u32".to_string()),
                },
            ],
            ret: None,
            host_lang: HostLang::Swift,
            cfg_feature: None,
        }],
        enabled_crate_features: Vec::new(),
    };
    let generated = generate(&module).unwrap();
    assert!(generated.rust.contains("pub fn greet(name: String, count: u32)"));
    assert!(generated
        .rust
        .contains("swift_bridge::string::RustString(name).box_into_raw()"));
    assert!(generated
        .swift
        .contains("greet(name: RustString(ptr: name).toString(), count: count)"));
}

#[test]
fn borrowed_opaque_argument_emits_no_transfer_glue() {
    let module = BridgeModule {
        types: vec![opaque("MyType", HostLang::Rust, false)],
        functions: vec![BridgeFn {
            name: "peek".to_string(),
            params: vec![Param {
                name: "arg".to_string(),
                ty: TypeExpr::Reference {
                    mutable: false,
                    name: "MyType".to_string(),
                },
            }],
            ret: None,
            host_lang: HostLang::Swift,
            cfg_feature: None,
        }],
        enabled_crate_features: Vec::new(),
    };
    let generated = generate(&module).unwrap();
    assert!(generated.rust.contains("pub fn peek(arg: &super::MyType)"));
    assert!(generated.rust.contains("arg as *const super::MyType"));
    assert!(!generated.rust.contains("Box::into_raw"));
    assert!(generated.swift.contains("peek(arg: MyTypeRef(ptr: arg))"));
}
