use vstd::prelude::*;
use vstd::string::StringExecFns;
use crate::error::{Error, ErrorV};
use crate::type_declarations::{
    HostLang, SharedEnum, SharedEnumV, SharedStruct, SharedStructV, SharedTypeDeclaration,
    SharedTypeDeclarationV, TypeDeclaration, TypeDeclarationV, TypeDeclarations, TypeExpr,
    TypeExprV, spec_lookup,
};

verus! {

/// The builtin scalar categories: the numeric primitives, booleans and the
/// boundary string type.
#[derive(Clone, Copy, PartialEq, Eq, Structural, Debug)]
pub enum BuiltinKind {
    U8,
    I8,
    U16,
    I16,
    U32,
    I32,
    U64,
    I64,
    Usize,
    Isize,
    Bool,
    Str,
}

/// A builtin bridged type: a scalar, or one of the two builtin type
/// constructors (optional-of, vector-of) applied to a scalar payload.
#[derive(Clone, Copy, PartialEq, Eq, Structural, Debug)]
pub enum BuiltinType {
    Scalar(BuiltinKind),
    OptionOf(BuiltinKind),
    VecOf(BuiltinKind),
}

/// A declared opaque type as used at one call site, together with the two
/// use-site facts a declaration does not carry: whether the value is passed
/// behind a reference, and whether that reference is mutable.
pub struct OpaqueForeignType {
    pub ty: String,
    pub host_lang: HostLang,
    pub reference: bool,
    pub mutable: bool,
}

pub ghost struct OpaqueForeignTypeV {
    pub ty: Seq<char>,
    pub host_lang: HostLang,
    pub reference: bool,
    pub mutable: bool,
}

impl View for OpaqueForeignType {
    type V = OpaqueForeignTypeV;

    open spec fn view(&self) -> OpaqueForeignTypeV {
        OpaqueForeignTypeV {
            ty: self.ty@,
            host_lang: self.host_lang,
            reference: self.reference,
            mutable: self.mutable,
        }
    }
}

/// A shared (mirrored) type as it appears at a use site.
pub enum SharedType {
    Struct(SharedStruct),
    Enum(SharedEnum),
}

pub ghost enum SharedTypeV {
    Struct(SharedStructV),
    Enum(SharedEnumV),
}

impl View for SharedType {
    type V = SharedTypeV;

    open spec fn view(&self) -> SharedTypeV {
        match self {
            SharedType::Struct(s) => SharedTypeV::Struct(s@),
            SharedType::Enum(e) => SharedTypeV::Enum(e@),
        }
    }
}

/// A module-declared (not builtin) bridged type.
pub enum CustomBridgedType {
    Shared(SharedType),
    Opaque(OpaqueForeignType),
}

pub ghost enum CustomBridgedTypeV {
    Shared(SharedTypeV),
    Opaque(OpaqueForeignTypeV),
}

impl View for CustomBridgedType {
    type V = CustomBridgedTypeV;

    open spec fn view(&self) -> CustomBridgedTypeV {
        match self {
            CustomBridgedType::Shared(s) => CustomBridgedTypeV::Shared(s@),
            CustomBridgedType::Opaque(o) => CustomBridgedTypeV::Opaque(o@),
        }
    }
}

/// The normalized use-site IR node every emission rule branches on.
pub enum BridgedType {
    Builtin(BuiltinType),
    Foreign(CustomBridgedType),
}

pub ghost enum BridgedTypeV {
    Builtin(BuiltinType),
    Foreign(CustomBridgedTypeV),
}

impl View for BridgedType {
    type V = BridgedTypeV;

    open spec fn view(&self) -> BridgedTypeV {
        match self {
            BridgedType::Builtin(b) => BridgedTypeV::Builtin(*b),
            BridgedType::Foreign(f) => BridgedTypeV::Foreign(f@),
        }
    }
}

/// The scalar builtin a bare name denotes, if any.
pub open spec fn spec_scalar_builtin(name: Seq<char>) -> Option<BuiltinKind> {
    if name == "u8"@ {
        Some(BuiltinKind::U8)
    } else if name == "i8"@ {
        Some(BuiltinKind::I8)
    } else if name == "u16"@ {
        Some(BuiltinKind::U16)
    } else if name == "i16"@ {
        Some(BuiltinKind::I16)
    } else if name == "u32"@ {
        Some(BuiltinKind::U32)
    } else if name == "i32"@ {
        Some(BuiltinKind::I32)
    } else if name == "u64"@ {
        Some(BuiltinKind::U64)
    } else if name == "i64"@ {
        Some(BuiltinKind::I64)
    } else if name == "usize"@ {
        Some(BuiltinKind::Usize)
    } else if name == "isize"@ {
        Some(BuiltinKind::Isize)
    } else if name == "bool"@ {
        Some(BuiltinKind::Bool)
    } else if name == "String"@ {
        Some(BuiltinKind::Str)
    } else {
        None
    }
}

/// Classifies a bare name as a scalar builtin, by the fixed builtin table.
pub fn scalar_builtin_of(name: &String) -> (r: Option<BuiltinKind>)
    ensures
        r == spec_scalar_builtin(name@),
{
    if *name == String::from_str("u8") {
        Some(BuiltinKind::U8)
    } else if *name == String::from_str("i8") {
        Some(BuiltinKind::I8)
    } else if *name == String::from_str("u16") {
        Some(BuiltinKind::U16)
    } else if *name == String::from_str("i16") {
        Some(BuiltinKind::I16)
    } else if *name == String::from_str("u32") {
        Some(BuiltinKind::U32)
    } else if *name == String::from_str("i32") {
        Some(BuiltinKind::I32)
    } else if *name == String::from_str("u64") {
        Some(BuiltinKind::U64)
    } else if *name == String::from_str("i64") {
        Some(BuiltinKind::I64)
    } else if *name == String::from_str("usize") {
        Some(BuiltinKind::Usize)
    } else if *name == String::from_str("isize") {
        Some(BuiltinKind::Isize)
    } else if *name == String::from_str("bool") {
        Some(BuiltinKind::Bool)
    } else if *name == String::from_str("String") {
        Some(BuiltinKind::Str)
    } else {
        None
    }
}

/// The bridged form of a declaration at a use site: shared types are carried
/// whole, an opaque declaration contributes its name and owning side and
/// picks up the use-site reference and mutability facts.
pub open spec fn spec_decl_to_bridged(
    d: TypeDeclarationV,
    reference: bool,
    mutable: bool,
) -> BridgedTypeV {
    match d {
        TypeDeclarationV::Shared(SharedTypeDeclarationV::Struct(s)) => BridgedTypeV::Foreign(
            CustomBridgedTypeV::Shared(SharedTypeV::Struct(s)),
        ),
        TypeDeclarationV::Shared(SharedTypeDeclarationV::Enum(e)) => BridgedTypeV::Foreign(
            CustomBridgedTypeV::Shared(SharedTypeV::Enum(e)),
        ),
        TypeDeclarationV::Opaque(o) => BridgedTypeV::Foreign(
            CustomBridgedTypeV::Opaque(
                OpaqueForeignTypeV {
                    ty: o.ty,
                    host_lang: o.host_lang,
                    reference,
                    mutable,
                },
            ),
        ),
    }
}

impl TypeDeclaration {
    /// The bridged-type IR node this declaration produces at a use site with
    /// the given reference and mutability facts.
    pub fn to_bridged_type(&self, reference: bool, mutable: bool) -> (r: BridgedType)
        ensures
            r@ == spec_decl_to_bridged(self@, reference, mutable),
    {
        match self {
            TypeDeclaration::Shared(SharedTypeDeclaration::Struct(s)) => BridgedType::Foreign(
                CustomBridgedType::Shared(SharedType::Struct(s.clone())),
            ),
            TypeDeclaration::Shared(SharedTypeDeclaration::Enum(e)) => BridgedType::Foreign(
                CustomBridgedType::Shared(SharedType::Enum(e.clone())),
            ),
            TypeDeclaration::Opaque(o) => BridgedType::Foreign(
                CustomBridgedType::Opaque(
                    OpaqueForeignType {
                        ty: o.ty.clone(),
                        host_lang: o.host_lang,
                        reference,
                        mutable,
                    },
                ),
            ),
        }
    }
}

/// The resolution rule: strip any reference wrapper to find the underlying
/// declared name and look it up; a name absent from the registry falls back
/// to the fixed builtin table; the builtin type constructors take scalar
/// builtin payloads only.  Anything else is an `UnresolvedType` error.
pub open spec fn spec_resolve(
    reg: Seq<(Seq<char>, TypeDeclarationV)>,
    e: TypeExprV,
) -> Result<BridgedTypeV, ErrorV> {
    match e {
        TypeExprV::Path(n) => match spec_lookup(reg, n) {
            Some(d) => Ok(spec_decl_to_bridged(d, false, false)),
            None => match spec_scalar_builtin(n) {
                Some(k) => Ok(BridgedTypeV::Builtin(BuiltinType::Scalar(k))),
                None => Err(ErrorV::UnresolvedType(n)),
            },
        },
        TypeExprV::Reference { mutable, name } => match spec_lookup(reg, name) {
            Some(d) => Ok(spec_decl_to_bridged(d, true, mutable)),
            None => match spec_scalar_builtin(name) {
                Some(k) => Ok(BridgedTypeV::Builtin(BuiltinType::Scalar(k))),
                None => Err(ErrorV::UnresolvedType(name)),
            },
        },
        TypeExprV::OptionOf(n) => match spec_scalar_builtin(n) {
            Some(k) => Ok(BridgedTypeV::Builtin(BuiltinType::OptionOf(k))),
            None => Err(ErrorV::UnresolvedType(n)),
        },
        TypeExprV::VecOf(n) => match spec_scalar_builtin(n) {
            Some(k) => Ok(BridgedTypeV::Builtin(BuiltinType::VecOf(k))),
            None => Err(ErrorV::UnresolvedType(n)),
        },
    }
}

/// Resolves a use-site type expression against the registry into the
/// normalized bridged-type IR node, or reports it unresolvable.
pub fn resolve(registry: &TypeDeclarations, expr: &TypeExpr) -> (r: Result<BridgedType, Error>)
    ensures
        match r {
            Ok(b) => spec_resolve(registry@, expr@) == Ok::<BridgedTypeV, ErrorV>(b@),
            Err(e) => spec_resolve(registry@, expr@) == Err::<BridgedTypeV, ErrorV>(e@),
        },
{
    match expr {
        TypeExpr::Path(n) => match registry.get(n) {
            Some(d) => Ok(d.to_bridged_type(false, false)),
            None => match scalar_builtin_of(n) {
                Some(k) => Ok(BridgedType::Builtin(BuiltinType::Scalar(k))),
                None => Err(Error::UnresolvedType(n.clone())),
            },
        },
        TypeExpr::Reference { mutable, name } => match registry.get(name) {
            Some(d) => Ok(d.to_bridged_type(true, *mutable)),
            None => match scalar_builtin_of(name) {
                Some(k) => Ok(BridgedType::Builtin(BuiltinType::Scalar(k))),
                None => Err(Error::UnresolvedType(name.clone())),
            },
        },
        TypeExpr::OptionOf(n) => match scalar_builtin_of(n) {
            Some(k) => Ok(BridgedType::Builtin(BuiltinType::OptionOf(k))),
            None => Err(Error::UnresolvedType(n.clone())),
        },
        TypeExpr::VecOf(n) => match scalar_builtin_of(n) {
            Some(k) => Ok(BridgedType::Builtin(BuiltinType::VecOf(k))),
            None => Err(Error::UnresolvedType(n.clone())),
        },
    }
}

} // verus!
