use vstd::prelude::*;
use vstd::string::StringExecFns;
use crate::bridged_type::{BridgedType, BridgedTypeV, BuiltinKind, BuiltinType, CustomBridgedType,
    CustomBridgedTypeV, SharedType, SharedTypeV};
use crate::type_declarations::HostLang;

verus! {

/// The native-side name of a scalar builtin.
pub open spec fn spec_rust_scalar_name(k: BuiltinKind) -> Seq<char> {
    match k {
        BuiltinKind::U8 => "u8"@,
        BuiltinKind::I8 => "i8"@,
        BuiltinKind::U16 => "u16"@,
        BuiltinKind::I16 => "i16"@,
        BuiltinKind::U32 => "u32"@,
        BuiltinKind::I32 => "i32"@,
        BuiltinKind::U64 => "u64"@,
        BuiltinKind::I64 => "i64"@,
        BuiltinKind::Usize => "usize"@,
        BuiltinKind::Isize => "isize"@,
        BuiltinKind::Bool => "bool"@,
        BuiltinKind::Str => "String"@,
    }
}

pub fn rust_scalar_name(k: BuiltinKind) -> (r: String)
    ensures
        r@ == spec_rust_scalar_name(k),
{
    match k {
        BuiltinKind::U8 => String::from_str("u8"),
        BuiltinKind::I8 => String::from_str("i8"),
        BuiltinKind::U16 => String::from_str("u16"),
        BuiltinKind::I16 => String::from_str("i16"),
        BuiltinKind::U32 => String::from_str("u32"),
        BuiltinKind::I32 => String::from_str("i32"),
        BuiltinKind::U64 => String::from_str("u64"),
        BuiltinKind::I64 => String::from_str("i64"),
        BuiltinKind::Usize => String::from_str("usize"),
        BuiltinKind::Isize => String::from_str("isize"),
        BuiltinKind::Bool => String::from_str("bool"),
        BuiltinKind::Str => String::from_str("String"),
    }
}

/// The host-side name of a scalar builtin.
pub open spec fn spec_swift_scalar_name(k: BuiltinKind) -> Seq<char> {
    match k {
        BuiltinKind::U8 => "UInt8"@,
        BuiltinKind::I8 => "Int8"@,
        BuiltinKind::U16 => "UInt16"@,
        BuiltinKind::I16 => "Int16"@,
        BuiltinKind::U32 => "UInt32"@,
        BuiltinKind::I32 => "Int32"@,
        BuiltinKind::U64 => "UInt64"@,
        BuiltinKind::I64 => "Int64"@,
        BuiltinKind::Usize => "UInt"@,
        BuiltinKind::Isize => "Int"@,
        BuiltinKind::Bool => "Bool"@,
        BuiltinKind::Str => "RustString"@,
    }
}

pub fn swift_scalar_name(k: BuiltinKind) -> (r: String)
    ensures
        r@ == spec_swift_scalar_name(k),
{
    match k {
        BuiltinKind::U8 => String::from_str("UInt8"),
        BuiltinKind::I8 => String::from_str("Int8"),
        BuiltinKind::U16 => String::from_str("UInt16"),
        BuiltinKind::I16 => String::from_str("Int16"),
        BuiltinKind::U32 => String::from_str("UInt32"),
        BuiltinKind::I32 => String::from_str("Int32"),
        BuiltinKind::U64 => String::from_str("UInt64"),
        BuiltinKind::I64 => String::from_str("Int64"),
        BuiltinKind::Usize => String::from_str("UInt"),
        BuiltinKind::Isize => String::from_str("Int"),
        BuiltinKind::Bool => String::from_str("Bool"),
        BuiltinKind::Str => String::from_str("RustString"),
    }
}

/// The ABI-header (C) name of a scalar builtin.  Strings cross the boundary
/// behind a pointer to a length-prefixed buffer.
pub open spec fn spec_c_scalar_name(k: BuiltinKind) -> Seq<char> {
    match k {
        BuiltinKind::U8 => "uint8_t"@,
        BuiltinKind::I8 => "int8_t"@,
        BuiltinKind::U16 => "uint16_t"@,
        BuiltinKind::I16 => "int16_t"@,
        BuiltinKind::U32 => "uint32_t"@,
        BuiltinKind::I32 => "int32_t"@,
        BuiltinKind::U64 => "uint64_t"@,
        BuiltinKind::I64 => "int64_t"@,
        BuiltinKind::Usize => "uintptr_t"@,
        BuiltinKind::Isize => "intptr_t"@,
        BuiltinKind::Bool => "bool"@,
        BuiltinKind::Str => "void*"@,
    }
}

pub fn c_scalar_name(k: BuiltinKind) -> (r: String)
    ensures
        r@ == spec_c_scalar_name(k),
{
    match k {
        BuiltinKind::U8 => String::from_str("uint8_t"),
        BuiltinKind::I8 => String::from_str("int8_t"),
        BuiltinKind::U16 => String::from_str("uint16_t"),
        BuiltinKind::I16 => String::from_str("int16_t"),
        BuiltinKind::U32 => String::from_str("uint32_t"),
        BuiltinKind::I32 => String::from_str("int32_t"),
        BuiltinKind::U64 => String::from_str("uint64_t"),
        BuiltinKind::I64 => String::from_str("int64_t"),
        BuiltinKind::Usize => String::from_str("uintptr_t"),
        BuiltinKind::Isize => String::from_str("intptr_t"),
        BuiltinKind::Bool => String::from_str("bool"),
        BuiltinKind::Str => String::from_str("void*"),
    }
}

/// The capitalized spelling of a scalar builtin, used to derive the names of
/// the generated presence-flag-plus-payload optional wrapper shapes.
pub open spec fn spec_camel_scalar_name(k: BuiltinKind) -> Seq<char> {
    match k {
        BuiltinKind::U8 => "U8"@,
        BuiltinKind::I8 => "I8"@,
        BuiltinKind::U16 => "U16"@,
        BuiltinKind::I16 => "I16"@,
        BuiltinKind::U32 => "U32"@,
        BuiltinKind::I32 => "I32"@,
        BuiltinKind::U64 => "U64"@,
        BuiltinKind::I64 => "I64"@,
        BuiltinKind::Usize => "Usize"@,
        BuiltinKind::Isize => "Isize"@,
        BuiltinKind::Bool => "Bool"@,
        BuiltinKind::Str => "String"@,
    }
}

pub fn camel_scalar_name(k: BuiltinKind) -> (r: String)
    ensures
        r@ == spec_camel_scalar_name(k),
{
    match k {
        BuiltinKind::U8 => String::from_str("U8"),
        BuiltinKind::I8 => String::from_str("I8"),
        BuiltinKind::U16 => String::from_str("U16"),
        BuiltinKind::I16 => String::from_str("I16"),
        BuiltinKind::U32 => String::from_str("U32"),
        BuiltinKind::I32 => String::from_str("I32"),
        BuiltinKind::U64 => String::from_str("U64"),
        BuiltinKind::I64 => String::from_str("I64"),
        BuiltinKind::Usize => String::from_str("Usize"),
        BuiltinKind::Isize => String::from_str("Isize"),
        BuiltinKind::Bool => String::from_str("Bool"),
        BuiltinKind::Str => String::from_str("String"),
    }
}

/// The type text a native-side public wrapper declares for a parameter or
/// return of this bridged type: the user-facing native type.
pub open spec fn spec_native_user_type_text(b: BridgedTypeV) -> Seq<char> {
    match b {
        BridgedTypeV::Builtin(BuiltinType::Scalar(k)) => spec_rust_scalar_name(k),
        BridgedTypeV::Builtin(BuiltinType::OptionOf(k)) => "Option<"@ + spec_rust_scalar_name(k)
            + ">"@,
        BridgedTypeV::Builtin(BuiltinType::VecOf(k)) => "Vec<"@ + spec_rust_scalar_name(k) + ">"@,
        BridgedTypeV::Foreign(CustomBridgedTypeV::Shared(SharedTypeV::Struct(s))) => s.name,
        BridgedTypeV::Foreign(CustomBridgedTypeV::Shared(SharedTypeV::Enum(e))) => e.name,
        BridgedTypeV::Foreign(CustomBridgedTypeV::Opaque(o)) => {
            if o.host_lang == HostLang::Rust {
                if !o.reference {
                    "super::"@ + o.ty
                } else if o.mutable {
                    "&mut super::"@ + o.ty
                } else {
                    "&super::"@ + o.ty
                }
            } else {
                if !o.reference {
                    o.ty
                } else if o.mutable {
                    "&mut "@ + o.ty
                } else {
                    "&"@ + o.ty
                }
            }
        },
    }
}

pub fn native_user_type_text(b: &BridgedType) -> (r: String)
    ensures
        r@ == spec_native_user_type_text(b@),
{
    match b {
        BridgedType::Builtin(BuiltinType::Scalar(k)) => rust_scalar_name(*k),
        BridgedType::Builtin(BuiltinType::OptionOf(k)) => {
            let mut out = String::from_str("Option<");
            out.append(rust_scalar_name(*k).as_str());
            out.append(">");
            out
        },
        BridgedType::Builtin(BuiltinType::VecOf(k)) => {
            let mut out = String::from_str("Vec<");
            out.append(rust_scalar_name(*k).as_str());
            out.append(">");
            out
        },
        BridgedType::Foreign(CustomBridgedType::Shared(SharedType::Struct(s))) => s.name.clone(),
        BridgedType::Foreign(CustomBridgedType::Shared(SharedType::Enum(e))) => e.name.clone(),
        BridgedType::Foreign(CustomBridgedType::Opaque(o)) => {
            let mut out = if o.host_lang == HostLang::Rust {
                if !o.reference {
                    String::from_str("super::")
                } else if o.mutable {
                    String::from_str("&mut super::")
                } else {
                    String::from_str("&super::")
                }
            } else {
                if !o.reference {
                    String::new()
                } else if o.mutable {
                    String::from_str("&mut ")
                } else {
                    String::from_str("&")
                }
            };
            out.append(o.ty.as_str());
            proof {
                if o.host_lang != HostLang::Rust && !o.reference {
                    assert(out@ =~= o.ty@);
                }
            }
            out
        },
    }
}

/// The type text the native side's linkage declaration uses for this bridged
/// type at the boundary.
pub open spec fn spec_native_ffi_type_text(b: BridgedTypeV) -> Seq<char> {
    match b {
        BridgedTypeV::Builtin(BuiltinType::Scalar(BuiltinKind::Str)) => {
            "*mut swift_bridge::string::RustString"@
        },
        BridgedTypeV::Builtin(BuiltinType::Scalar(k)) => spec_rust_scalar_name(k),
        BridgedTypeV::Builtin(BuiltinType::OptionOf(k)) => "swift_bridge::option::Option"@
            + spec_camel_scalar_name(k),
        BridgedTypeV::Builtin(BuiltinType::VecOf(k)) => "*mut Vec<"@ + spec_rust_scalar_name(k)
            + ">"@,
        BridgedTypeV::Foreign(CustomBridgedTypeV::Shared(SharedTypeV::Struct(s))) => s.name,
        BridgedTypeV::Foreign(CustomBridgedTypeV::Shared(SharedTypeV::Enum(e))) => e.name,
        BridgedTypeV::Foreign(CustomBridgedTypeV::Opaque(o)) => {
            if o.host_lang == HostLang::Rust {
                if !o.reference || o.mutable {
                    "*mut super::"@ + o.ty
                } else {
                    "*const super::"@ + o.ty
                }
            } else {
                if !o.reference {
                    o.ty
                } else {
                    "*mut std::ffi::c_void"@
                }
            }
        },
    }
}

pub fn native_ffi_type_text(b: &BridgedType) -> (r: String)
    ensures
        r@ == spec_native_ffi_type_text(b@),
{
    match b {
        BridgedType::Builtin(BuiltinType::Scalar(BuiltinKind::Str)) => {
            String::from_str("*mut swift_bridge::string::RustString")
        },
        BridgedType::Builtin(BuiltinType::Scalar(k)) => rust_scalar_name(*k),
        BridgedType::Builtin(BuiltinType::OptionOf(k)) => {
            let mut out = String::from_str("swift_bridge::option::Option");
            out.append(camel_scalar_name(*k).as_str());
            out
        },
        BridgedType::Builtin(BuiltinType::VecOf(k)) => {
            let mut out = String::from_str("*mut Vec<");
            out.append(rust_scalar_name(*k).as_str());
            out.append(">");
            out
        },
        BridgedType::Foreign(CustomBridgedType::Shared(SharedType::Struct(s))) => s.name.clone(),
        BridgedType::Foreign(CustomBridgedType::Shared(SharedType::Enum(e))) => e.name.clone(),
        BridgedType::Foreign(CustomBridgedType::Opaque(o)) => {
            if o.host_lang == HostLang::Rust {
                let mut out = if !o.reference || o.mutable {
                    String::from_str("*mut super::")
                } else {
                    String::from_str("*const super::")
                };
                out.append(o.ty.as_str());
                out
            } else {
                if !o.reference {
                    o.ty.clone()
                } else {
                    String::from_str("*mut std::ffi::c_void")
                }
            }
        },
    }
}

/// The expression the native-side wrapper builds from argument text `arg` to
/// hand this bridged type across the boundary.  Passing a native-owned
/// opaque value heap-allocates it, transferring ownership out of the
/// caller's stack frame; borrowed usages only thread a pointer through.
pub open spec fn spec_native_to_ffi_expr(b: BridgedTypeV, arg: Seq<char>) -> Seq<char> {
    match b {
        BridgedTypeV::Builtin(BuiltinType::Scalar(BuiltinKind::Str)) => {
            "swift_bridge::string::RustString("@ + arg + ").box_into_raw()"@
        },
        BridgedTypeV::Builtin(BuiltinType::Scalar(k)) => arg,
        BridgedTypeV::Builtin(BuiltinType::OptionOf(k)) => arg + ".into_ffi_repr()"@,
        BridgedTypeV::Builtin(BuiltinType::VecOf(k)) => "Box::into_raw(Box::new("@ + arg + "))"@,
        BridgedTypeV::Foreign(CustomBridgedTypeV::Shared(s)) => arg,
        BridgedTypeV::Foreign(CustomBridgedTypeV::Opaque(o)) => {
            if o.host_lang == HostLang::Rust {
                if !o.reference {
                    "Box::into_raw(Box::new("@ + arg + ")) as *mut super::"@ + o.ty
                } else if o.mutable {
                    arg + " as *mut super::"@ + o.ty
                } else {
                    arg + " as *const super::"@ + o.ty
                }
            } else {
                if !o.reference {
                    arg
                } else {
                    arg + ".0"@
                }
            }
        },
    }
}

pub fn native_to_ffi_expr(b: &BridgedType, arg: &String) -> (r: String)
    ensures
        r@ == spec_native_to_ffi_expr(b@, arg@),
{
    match b {
        BridgedType::Builtin(BuiltinType::Scalar(BuiltinKind::Str)) => {
            let mut out = String::from_str("swift_bridge::string::RustString(");
            out.append(arg.as_str());
            out.append(").box_into_raw()");
            out
        },
        BridgedType::Builtin(BuiltinType::Scalar(_)) => arg.clone(),
        BridgedType::Builtin(BuiltinType::OptionOf(_)) => {
            let mut out = arg.clone();
            out.append(".into_ffi_repr()");
            out
        },
        BridgedType::Builtin(BuiltinType::VecOf(_)) => {
            let mut out = String::from_str("Box::into_raw(Box::new(");
            out.append(arg.as_str());
            out.append("))");
            out
        },
        BridgedType::Foreign(CustomBridgedType::Shared(_)) => arg.clone(),
        BridgedType::Foreign(CustomBridgedType::Opaque(o)) => {
            if o.host_lang == HostLang::Rust {
                if !o.reference {
                    let mut out = String::from_str("Box::into_raw(Box::new(");
                    out.append(arg.as_str());
                    out.append(")) as *mut super::");
                    out.append(o.ty.as_str());
                    proof {
                        assert(out@ =~= "Box::into_raw(Box::new("@ + arg@ + ")) as *mut super::"@
                            + o.ty@);
                    }
                    out
                } else if o.mutable {
                    let mut out = arg.clone();
                    out.append(" as *mut super::");
                    out.append(o.ty.as_str());
                    out
                } else {
                    let mut out = arg.clone();
                    out.append(" as *const super::");
                    out.append(o.ty.as_str());
                    out
                }
            } else {
                if !o.reference {
                    arg.clone()
                } else {
                    let mut out = arg.clone();
                    out.append(".0");
                    out
                }
            }
        },
    }
}

/// The expression the native side builds from boundary value text `arg` to
/// recover the user-facing native value.  A native-owned opaque value takes
/// ownership back from the heap; borrowed usages reborrow the pointer.
pub open spec fn spec_ffi_to_native_expr(b: BridgedTypeV, arg: Seq<char>) -> Seq<char> {
    match b {
        BridgedTypeV::Builtin(BuiltinType::Scalar(BuiltinKind::Str)) => {
            "(*Box::from_raw("@ + arg + ")).0"@
        },
        BridgedTypeV::Builtin(BuiltinType::Scalar(k)) => arg,
        BridgedTypeV::Builtin(BuiltinType::OptionOf(k)) => arg + ".into_rust_repr()"@,
        BridgedTypeV::Builtin(BuiltinType::VecOf(k)) => "*Box::from_raw("@ + arg + ")"@,
        BridgedTypeV::Foreign(CustomBridgedTypeV::Shared(s)) => arg,
        BridgedTypeV::Foreign(CustomBridgedTypeV::Opaque(o)) => {
            if o.host_lang == HostLang::Rust {
                if !o.reference {
                    "*Box::from_raw("@ + arg + ")"@
                } else if o.mutable {
                    "&mut *"@ + arg
                } else {
                    "&*"@ + arg
                }
            } else {
                arg
            }
        },
    }
}

pub fn ffi_to_native_expr(b: &BridgedType, arg: &String) -> (r: String)
    ensures
        r@ == spec_ffi_to_native_expr(b@, arg@),
{
    match b {
        BridgedType::Builtin(BuiltinType::Scalar(BuiltinKind::Str)) => {
            let mut out = String::from_str("(*Box::from_raw(");
            out.append(arg.as_str());
            out.append(")).0");
            out
        },
        BridgedType::Builtin(BuiltinType::Scalar(_)) => arg.clone(),
        BridgedType::Builtin(BuiltinType::OptionOf(_)) => {
            let mut out = arg.clone();
            out.append(".into_rust_repr()");
            out
        },
        BridgedType::Builtin(BuiltinType::VecOf(_)) => {
            let mut out = String::from_str("*Box::from_raw(");
            out.append(arg.as_str());
            out.append(")");
            out
        },
        BridgedType::Foreign(CustomBridgedType::Shared(_)) => arg.clone(),
        BridgedType::Foreign(CustomBridgedType::Opaque(o)) => {
            if o.host_lang == HostLang::Rust {
                if !o.reference {
                    let mut out = String::from_str("*Box::from_raw(");
                    out.append(arg.as_str());
                    out.append(")");
                    out
                } else if o.mutable {
                    let mut out = String::from_str("&mut *");
                    out.append(arg.as_str());
                    out
                } else {
                    let mut out = String::from_str("&*");
                    out.append(arg.as_str());
                    out
                }
            } else {
                arg.clone()
            }
        },
    }
}

/// The type text a host-side trampoline declares for this bridged type at
/// the boundary.  Native-owned opaque handles arrive as raw pointers;
/// host-owned handles arrive through the one generic pointer-wrapper shape.
pub open spec fn spec_swift_ffi_type_text(b: BridgedTypeV) -> Seq<char> {
    match b {
        BridgedTypeV::Builtin(BuiltinType::Scalar(BuiltinKind::Str)) => {
            "UnsafeMutableRawPointer"@
        },
        BridgedTypeV::Builtin(BuiltinType::Scalar(k)) => spec_swift_scalar_name(k),
        BridgedTypeV::Builtin(BuiltinType::OptionOf(k)) => "__private__Option"@
            + spec_camel_scalar_name(k),
        BridgedTypeV::Builtin(BuiltinType::VecOf(k)) => "UnsafeMutableRawPointer"@,
        BridgedTypeV::Foreign(CustomBridgedTypeV::Shared(SharedTypeV::Struct(s))) => s.name,
        BridgedTypeV::Foreign(CustomBridgedTypeV::Shared(SharedTypeV::Enum(e))) => e.name,
        BridgedTypeV::Foreign(CustomBridgedTypeV::Opaque(o)) => {
            if o.host_lang == HostLang::Rust {
                "UnsafeMutableRawPointer"@
            } else {
                "__private__PointerToSwiftType"@
            }
        },
    }
}

pub fn swift_ffi_type_text(b: &BridgedType) -> (r: String)
    ensures
        r@ == spec_swift_ffi_type_text(b@),
{
    match b {
        BridgedType::Builtin(BuiltinType::Scalar(BuiltinKind::Str)) => {
            String::from_str("UnsafeMutableRawPointer")
        },
        BridgedType::Builtin(BuiltinType::Scalar(k)) => swift_scalar_name(*k),
        BridgedType::Builtin(BuiltinType::OptionOf(k)) => {
            let mut out = String::from_str("__private__Option");
            out.append(camel_scalar_name(*k).as_str());
            out
        },
        BridgedType::Builtin(BuiltinType::VecOf(_)) => {
            String::from_str("UnsafeMutableRawPointer")
        },
        BridgedType::Foreign(CustomBridgedType::Shared(SharedType::Struct(s))) => s.name.clone(),
        BridgedType::Foreign(CustomBridgedType::Shared(SharedType::Enum(e))) => e.name.clone(),
        BridgedType::Foreign(CustomBridgedType::Opaque(o)) => {
            if o.host_lang == HostLang::Rust {
                String::from_str("UnsafeMutableRawPointer")
            } else {
                String::from_str("__private__PointerToSwiftType")
            }
        },
    }
}

/// The expression a host-side trampoline builds from boundary value text
/// `arg` to recover the user-facing host value.  A native-owned opaque
/// pointer is wrapped without copying the pointee; a host-owned handle
/// passed by value takes over the previously retained reference instead of
/// creating a new one, balancing the retain performed before the handle
/// crossed the boundary.
pub open spec fn spec_swift_to_user_expr(b: BridgedTypeV, arg: Seq<char>) -> Seq<char> {
    match b {
        BridgedTypeV::Builtin(BuiltinType::Scalar(BuiltinKind::Str)) => {
            "RustString(ptr: "@ + arg + ").toString()"@
        },
        BridgedTypeV::Builtin(BuiltinType::Scalar(k)) => arg,
        BridgedTypeV::Builtin(BuiltinType::OptionOf(k)) => arg + ".intoSwiftRepr()"@,
        BridgedTypeV::Builtin(BuiltinType::VecOf(k)) => "RustVec(ptr: "@ + arg + ")"@,
        BridgedTypeV::Foreign(CustomBridgedTypeV::Shared(s)) => arg,
        BridgedTypeV::Foreign(CustomBridgedTypeV::Opaque(o)) => {
            if o.host_lang == HostLang::Rust {
                if !o.reference {
                    o.ty + "(ptr: "@ + arg + ")"@
                } else if o.mutable {
                    o.ty + "RefMut(ptr: "@ + arg + ")"@
                } else {
                    o.ty + "Ref(ptr: "@ + arg + ")"@
                }
            } else {
                if !o.reference {
                    "Unmanaged<"@ + o.ty + ">.fromOpaque("@ + arg + ".ptr).takeRetainedValue()"@
                } else {
                    "Unmanaged<"@ + o.ty + ">.fromOpaque("@ + arg + ".ptr).takeUnretainedValue()"@
                }
            }
        },
    }
}

pub fn swift_to_user_expr(b: &BridgedType, arg: &String) -> (r: String)
    ensures
        r@ == spec_swift_to_user_expr(b@, arg@),
{
    match b {
        BridgedType::Builtin(BuiltinType::Scalar(BuiltinKind::Str)) => {
            let mut out = String::from_str("RustString(ptr: ");
            out.append(arg.as_str());
            out.append(").toString()");
            out
        },
        BridgedType::Builtin(BuiltinType::Scalar(_)) => arg.clone(),
        BridgedType::Builtin(BuiltinType::OptionOf(_)) => {
            let mut out = arg.clone();
            out.append(".intoSwiftRepr()");
            out
        },
        BridgedType::Builtin(BuiltinType::VecOf(_)) => {
            let mut out = String::from_str("RustVec(ptr: ");
            out.append(arg.as_str());
            out.append(")");
            out
        },
        BridgedType::Foreign(CustomBridgedType::Shared(_)) => arg.clone(),
        BridgedType::Foreign(CustomBridgedType::Opaque(o)) => {
            if o.host_lang == HostLang::Rust {
                let mut out = o.ty.clone();
                if !o.reference {
                    out.append("(ptr: ");
                } else if o.mutable {
                    out.append("RefMut(ptr: ");
                } else {
                    out.append("Ref(ptr: ");
                }
                out.append(arg.as_str());
                out.append(")");
                proof {
                    if !o.reference {
                        assert(out@ =~= o.ty@ + "(ptr: "@ + arg@ + ")"@);
                    } else if o.mutable {
                        assert(out@ =~= o.ty@ + "RefMut(ptr: "@ + arg@ + ")"@);
                    } else {
                        assert(out@ =~= o.ty@ + "Ref(ptr: "@ + arg@ + ")"@);
                    }
                }
                out
            } else {
                let mut out = String::from_str("Unmanaged<");
                out.append(o.ty.as_str());
                out.append(">.fromOpaque(");
                out.append(arg.as_str());
                if !o.reference {
                    out.append(".ptr).takeRetainedValue()");
                } else {
                    out.append(".ptr).takeUnretainedValue()");
                }
                out
            }
        },
    }
}

/// The user-facing host-side type text for this bridged type.
pub open spec fn spec_swift_user_type_text(b: BridgedTypeV) -> Seq<char> {
    match b {
        BridgedTypeV::Builtin(BuiltinType::Scalar(k)) => spec_swift_scalar_name(k),
        BridgedTypeV::Builtin(BuiltinType::OptionOf(k)) => "Optional<"@ + spec_swift_scalar_name(k)
            + ">"@,
        BridgedTypeV::Builtin(BuiltinType::VecOf(k)) => "RustVec<"@ + spec_swift_scalar_name(k)
            + ">"@,
        BridgedTypeV::Foreign(CustomBridgedTypeV::Shared(SharedTypeV::Struct(s))) => s.name,
        BridgedTypeV::Foreign(CustomBridgedTypeV::Shared(SharedTypeV::Enum(e))) => e.name,
        BridgedTypeV::Foreign(CustomBridgedTypeV::Opaque(o)) => {
            if o.host_lang == HostLang::Rust {
                if !o.reference {
                    o.ty
                } else if o.mutable {
                    o.ty + "RefMut"@
                } else {
                    o.ty + "Ref"@
                }
            } else {
                o.ty
            }
        },
    }
}

pub fn swift_user_type_text(b: &BridgedType) -> (r: String)
    ensures
        r@ == spec_swift_user_type_text(b@),
{
    match b {
        BridgedType::Builtin(BuiltinType::Scalar(k)) => swift_scalar_name(*k),
        BridgedType::Builtin(BuiltinType::OptionOf(k)) => {
            let mut out = String::from_str("Optional<");
            out.append(swift_scalar_name(*k).as_str());
            out.append(">");
            out
        },
        BridgedType::Builtin(BuiltinType::VecOf(k)) => {
            let mut out = String::from_str("RustVec<");
            out.append(swift_scalar_name(*k).as_str());
            out.append(">");
            out
        },
        BridgedType::Foreign(CustomBridgedType::Shared(SharedType::Struct(s))) => s.name.clone(),
        BridgedType::Foreign(CustomBridgedType::Shared(SharedType::Enum(e))) => e.name.clone(),
        BridgedType::Foreign(CustomBridgedType::Opaque(o)) => {
            let mut out = o.ty.clone();
            if o.host_lang == HostLang::Rust {
                if !o.reference {
                } else if o.mutable {
                    out.append("RefMut");
                } else {
                    out.append("Ref");
                }
            }
            out
        },
    }
}

/// The expression the host side builds from user value text `arg` to hand
/// this bridged type across the boundary.  A host-owned opaque value is
/// retained before its address crosses, so the receiving side can take the
/// retain over; a native-owned handle gives its pointer up.
pub open spec fn spec_swift_user_to_ffi_expr(b: BridgedTypeV, arg: Seq<char>) -> Seq<char> {
    match b {
        BridgedTypeV::Builtin(BuiltinType::Scalar(BuiltinKind::Str)) => arg + ".intoFfiRepr()"@,
        BridgedTypeV::Builtin(BuiltinType::Scalar(k)) => arg,
        BridgedTypeV::Builtin(BuiltinType::OptionOf(k)) => arg + ".intoFfiRepr()"@,
        BridgedTypeV::Builtin(BuiltinType::VecOf(k)) => arg + ".intoFfiRepr()"@,
        BridgedTypeV::Foreign(CustomBridgedTypeV::Shared(s)) => arg,
        BridgedTypeV::Foreign(CustomBridgedTypeV::Opaque(o)) => {
            if o.host_lang == HostLang::Rust {
                if !o.reference {
                    "{"@ + arg + ".isOwned = false; return "@ + arg + ".ptr;}()"@
                } else {
                    arg + ".ptr"@
                }
            } else {
                if !o.reference {
                    "__private__PointerToSwiftType(ptr: Unmanaged.passRetained("@ + arg
                        + ").toOpaque())"@
                } else {
                    "__private__PointerToSwiftType(ptr: Unmanaged.passUnretained("@ + arg
                        + ").toOpaque())"@
                }
            }
        },
    }
}

pub fn swift_user_to_ffi_expr(b: &BridgedType, arg: &String) -> (r: String)
    ensures
        r@ == spec_swift_user_to_ffi_expr(b@, arg@),
{
    match b {
        BridgedType::Builtin(BuiltinType::Scalar(BuiltinKind::Str)) => {
            let mut out = arg.clone();
            out.append(".intoFfiRepr()");
            out
        },
        BridgedType::Builtin(BuiltinType::Scalar(_)) => arg.clone(),
        BridgedType::Builtin(BuiltinType::OptionOf(_)) => {
            let mut out = arg.clone();
            out.append(".intoFfiRepr()");
            out
        },
        BridgedType::Builtin(BuiltinType::VecOf(_)) => {
            let mut out = arg.clone();
            out.append(".intoFfiRepr()");
            out
        },
        BridgedType::Foreign(CustomBridgedType::Shared(_)) => arg.clone(),
        BridgedType::Foreign(CustomBridgedType::Opaque(o)) => {
            if o.host_lang == HostLang::Rust {
                if !o.reference {
                    let mut out = String::from_str("{");
                    out.append(arg.as_str());
                    out.append(".isOwned = false; return ");
                    out.append(arg.as_str());
                    out.append(".ptr;}()");
                    proof {
                        assert(out@ =~= "{"@ + arg@ + ".isOwned = false; return "@ + arg@
                            + ".ptr;}()"@);
                    }
                    out
                } else {
                    let mut out = arg.clone();
                    out.append(".ptr");
                    out
                }
            } else {
                let mut out = if !o.reference {
                    String::from_str("__private__PointerToSwiftType(ptr: Unmanaged.passRetained(")
                } else {
                    String::from_str("__private__PointerToSwiftType(ptr: Unmanaged.passUnretained(")
                };
                out.append(arg.as_str());
                out.append(").toOpaque())");
                out
            }
        },
    }
}

/// The ABI-header field type text for this bridged type inside a mirrored
/// struct declaration.
pub open spec fn spec_c_field_type_text(b: BridgedTypeV) -> Seq<char> {
    match b {
        BridgedTypeV::Builtin(BuiltinType::Scalar(k)) => spec_c_scalar_name(k),
        BridgedTypeV::Builtin(BuiltinType::OptionOf(k)) => "struct __private__Option"@
            + spec_camel_scalar_name(k),
        BridgedTypeV::Builtin(BuiltinType::VecOf(k)) => "void*"@,
        BridgedTypeV::Foreign(CustomBridgedTypeV::Shared(SharedTypeV::Struct(s))) => s.name,
        BridgedTypeV::Foreign(CustomBridgedTypeV::Shared(SharedTypeV::Enum(e))) => e.name,
        BridgedTypeV::Foreign(CustomBridgedTypeV::Opaque(o)) => {
            if o.host_lang == HostLang::Rust {
                o.ty + "*"@
            } else {
                "void*"@
            }
        },
    }
}

pub fn c_field_type_text(b: &BridgedType) -> (r: String)
    ensures
        r@ == spec_c_field_type_text(b@),
{
    match b {
        BridgedType::Builtin(BuiltinType::Scalar(k)) => c_scalar_name(*k),
        BridgedType::Builtin(BuiltinType::OptionOf(k)) => {
            let mut out = String::from_str("struct __private__Option");
            out.append(camel_scalar_name(*k).as_str());
            out
        },
        BridgedType::Builtin(BuiltinType::VecOf(_)) => String::from_str("void*"),
        BridgedType::Foreign(CustomBridgedType::Shared(SharedType::Struct(s))) => s.name.clone(),
        BridgedType::Foreign(CustomBridgedType::Shared(SharedType::Enum(e))) => e.name.clone(),
        BridgedType::Foreign(CustomBridgedType::Opaque(o)) => {
            if o.host_lang == HostLang::Rust {
                let mut out = o.ty.clone();
                out.append("*");
                out
            } else {
                String::from_str("void*")
            }
        },
    }
}

} // verus!
