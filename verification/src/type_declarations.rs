use vstd::prelude::*;
use vstd::string::StringExecFns;
use crate::error::{Error, ErrorV};

verus! {

/// The side of the boundary that owns (implements) a type or function:
/// `Rust` is the native side (explicit ownership, manual heap allocation),
/// `Swift` is the host side (automatic reference counting).
#[derive(Clone, Copy, PartialEq, Eq, Structural, Debug)]
pub enum HostLang {
    Rust,
    Swift,
}

/// How the host side lays out a shared struct: as a reference-counted class
/// or as a by-value structure.  Only the by-value representation needs a
/// mirrored declaration in the ABI header.
#[derive(Clone, Copy, PartialEq, Eq, Structural, Debug)]
pub enum StructSwiftRepr {
    Class,
    Structure,
}

/// A use-site type expression, as it appears at a function parameter or
/// return position or at a struct field: a bare named type, a (possibly
/// mutable) reference to a named type, or one of the two builtin type
/// constructors applied to a named payload.
pub enum TypeExpr {
    Path(String),
    Reference { mutable: bool, name: String },
    OptionOf(String),
    VecOf(String),
}

/// The mathematical value of a `TypeExpr`.
pub ghost enum TypeExprV {
    Path(Seq<char>),
    Reference { mutable: bool, name: Seq<char> },
    OptionOf(Seq<char>),
    VecOf(Seq<char>),
}

impl View for TypeExpr {
    type V = TypeExprV;

    open spec fn view(&self) -> TypeExprV {
        match self {
            TypeExpr::Path(n) => TypeExprV::Path(n@),
            TypeExpr::Reference { mutable, name } => TypeExprV::Reference {
                mutable: *mutable,
                name: name@,
            },
            TypeExpr::OptionOf(n) => TypeExprV::OptionOf(n@),
            TypeExpr::VecOf(n) => TypeExprV::VecOf(n@),
        }
    }
}

impl Clone for TypeExpr {
    fn clone(&self) -> (res: Self)
        ensures
            res == *self,
    {
        match self {
            TypeExpr::Path(n) => TypeExpr::Path(n.clone()),
            TypeExpr::Reference { mutable, name } => TypeExpr::Reference {
                mutable: *mutable,
                name: name.clone(),
            },
            TypeExpr::OptionOf(n) => TypeExpr::OptionOf(n.clone()),
            TypeExpr::VecOf(n) => TypeExpr::VecOf(n.clone()),
        }
    }
}

/// One field of a shared struct.
pub struct StructField {
    pub name: String,
    pub ty: TypeExpr,
}

pub ghost struct StructFieldV {
    pub name: Seq<char>,
    pub ty: TypeExprV,
}

impl View for StructField {
    type V = StructFieldV;

    open spec fn view(&self) -> StructFieldV {
        StructFieldV { name: self.name@, ty: self.ty@ }
    }
}

impl Clone for StructField {
    fn clone(&self) -> (res: Self)
        ensures
            res == *self,
    {
        StructField { name: self.name.clone(), ty: self.ty.clone() }
    }
}

/// A by-value aggregate type mirrored on both sides of the boundary.
/// Field order is authoritative: every emitted transcription preserves it.
pub struct SharedStruct {
    pub name: String,
    pub swift_repr: StructSwiftRepr,
    pub fields: Vec<StructField>,
}

pub ghost struct SharedStructV {
    pub name: Seq<char>,
    pub swift_repr: StructSwiftRepr,
    pub fields: Seq<StructFieldV>,
}

impl View for SharedStruct {
    type V = SharedStructV;

    open spec fn view(&self) -> SharedStructV {
        SharedStructV {
            name: self.name@,
            swift_repr: self.swift_repr,
            fields: self.fields@.map_values(|f: StructField| f@),
        }
    }
}

impl Clone for SharedStruct {
    fn clone(&self) -> (res: Self)
        ensures
            res@ == self@,
    {
        let mut fields: Vec<StructField> = Vec::new();
        let mut i: usize = 0;
        while i < self.fields.len()
            invariant
                i <= self.fields.len(),
                fields@ == self.fields@.take(i as int),
            decreases self.fields.len() - i,
        {
            fields.push(self.fields[i].clone());
            proof {
                assert(fields@ =~= self.fields@.take(i + 1 as int));
            }
            i = i + 1;
        }
        proof {
            assert(fields@ =~= self.fields@);
        }
        let res = SharedStruct { name: self.name.clone(), swift_repr: self.swift_repr, fields };
        res
    }
}

/// A by-value enum mirrored on both sides of the boundary.  Variant order is
/// preserved in every transcription.
pub struct SharedEnum {
    pub name: String,
    pub variants: Vec<String>,
}

pub ghost struct SharedEnumV {
    pub name: Seq<char>,
    pub variants: Seq<Seq<char>>,
}

impl View for SharedEnum {
    type V = SharedEnumV;

    open spec fn view(&self) -> SharedEnumV {
        SharedEnumV {
            name: self.name@,
            variants: self.variants@.map_values(|v: String| v@),
        }
    }
}

impl Clone for SharedEnum {
    fn clone(&self) -> (res: Self)
        ensures
            res@ == self@,
    {
        let mut variants: Vec<String> = Vec::new();
        let mut i: usize = 0;
        while i < self.variants.len()
            invariant
                i <= self.variants.len(),
                variants@ == self.variants@.take(i as int),
            decreases self.variants.len() - i,
        {
            variants.push(self.variants[i].clone());
            proof {
                assert(variants@ =~= self.variants@.take(i + 1 as int));
            }
            i = i + 1;
        }
        proof {
            assert(variants@ =~= self.variants@);
        }
        let res = SharedEnum { name: self.name.clone(), variants };
        res
    }
}

/// A type that lives behind a pointer and is owned by exactly one side of
/// the boundary.
pub struct OpaqueForeignTypeDeclaration {
    pub ty: String,
    pub host_lang: HostLang,
    /// When true, the type's declaration was already emitted elsewhere, so
    /// its header/type declarations are suppressed; call-site glue never is.
    pub already_declared: bool,
    /// A doc comment, preserved but not consulted by code generation.
    pub doc_comment: Option<String>,
    /// Generic parameter names, preserved but not consulted by code
    /// generation.
    pub generics: Vec<String>,
}

pub ghost struct OpaqueForeignTypeDeclarationV {
    pub ty: Seq<char>,
    pub host_lang: HostLang,
    pub already_declared: bool,
    pub doc_comment: Option<Seq<char>>,
    pub generics: Seq<Seq<char>>,
}

impl View for OpaqueForeignTypeDeclaration {
    type V = OpaqueForeignTypeDeclarationV;

    open spec fn view(&self) -> OpaqueForeignTypeDeclarationV {
        OpaqueForeignTypeDeclarationV {
            ty: self.ty@,
            host_lang: self.host_lang,
            already_declared: self.already_declared,
            doc_comment: match self.doc_comment {
                Some(d) => Some(d@),
                None => None,
            },
            generics: self.generics@.map_values(|g: String| g@),
        }
    }
}

impl Clone for OpaqueForeignTypeDeclaration {
    fn clone(&self) -> (res: Self)
        ensures
            res@ == self@,
    {
        let doc_comment = match &self.doc_comment {
            Some(d) => Some(d.clone()),
            None => None,
        };
        let mut generics: Vec<String> = Vec::new();
        let mut i: usize = 0;
        while i < self.generics.len()
            invariant
                i <= self.generics.len(),
                generics@ == self.generics@.take(i as int),
            decreases self.generics.len() - i,
        {
            generics.push(self.generics[i].clone());
            proof {
                assert(generics@ =~= self.generics@.take(i + 1 as int));
            }
            i = i + 1;
        }
        proof {
            assert(generics@ =~= self.generics@);
        }
        OpaqueForeignTypeDeclaration {
            ty: self.ty.clone(),
            host_lang: self.host_lang,
            already_declared: self.already_declared,
            doc_comment,
            generics,
        }
    }
}

/// A shared (mirrored, by-value) type declaration.
pub enum SharedTypeDeclaration {
    Struct(SharedStruct),
    Enum(SharedEnum),
}

pub ghost enum SharedTypeDeclarationV {
    Struct(SharedStructV),
    Enum(SharedEnumV),
}

impl View for SharedTypeDeclaration {
    type V = SharedTypeDeclarationV;

    open spec fn view(&self) -> SharedTypeDeclarationV {
        match self {
            SharedTypeDeclaration::Struct(s) => SharedTypeDeclarationV::Struct(s@),
            SharedTypeDeclaration::Enum(e) => SharedTypeDeclarationV::Enum(e@),
        }
    }
}

impl Clone for SharedTypeDeclaration {
    fn clone(&self) -> (res: Self)
        ensures
            res@ == self@,
    {
        match self {
            SharedTypeDeclaration::Struct(s) => SharedTypeDeclaration::Struct(s.clone()),
            SharedTypeDeclaration::Enum(e) => SharedTypeDeclaration::Enum(e.clone()),
        }
    }
}

/// One declared type of a module: shared (mirrored by value) or opaque
/// (behind a pointer, owned by exactly one side).
pub enum TypeDeclaration {
    Shared(SharedTypeDeclaration),
    Opaque(OpaqueForeignTypeDeclaration),
}

pub ghost enum TypeDeclarationV {
    Shared(SharedTypeDeclarationV),
    Opaque(OpaqueForeignTypeDeclarationV),
}

impl View for TypeDeclaration {
    type V = TypeDeclarationV;

    open spec fn view(&self) -> TypeDeclarationV {
        match self {
            TypeDeclaration::Shared(s) => TypeDeclarationV::Shared(s@),
            TypeDeclaration::Opaque(o) => TypeDeclarationV::Opaque(o@),
        }
    }
}

impl Clone for TypeDeclaration {
    fn clone(&self) -> (res: Self)
        ensures
            res@ == self@,
    {
        match self {
            TypeDeclaration::Shared(s) => TypeDeclaration::Shared(s.clone()),
            TypeDeclaration::Opaque(o) => TypeDeclaration::Opaque(o.clone()),
        }
    }
}

impl TypeDeclarationV {
    /// The declared name of the type.
    pub open spec fn name(self) -> Seq<char> {
        match self {
            TypeDeclarationV::Shared(SharedTypeDeclarationV::Struct(s)) => s.name,
            TypeDeclarationV::Shared(SharedTypeDeclarationV::Enum(e)) => e.name,
            TypeDeclarationV::Opaque(o) => o.ty,
        }
    }
}

impl TypeDeclaration {
    /// The declared name of the type.
    pub fn name(&self) -> (r: &String)
        ensures
            r@ == self@.name(),
    {
        match self {
            TypeDeclaration::Shared(SharedTypeDeclaration::Struct(s)) => &s.name,
            TypeDeclaration::Shared(SharedTypeDeclaration::Enum(e)) => &e.name,
            TypeDeclaration::Opaque(o) => &o.ty,
        }
    }

    /// Returns the shared struct declaration.
    pub fn unwrap_shared_struct(&self) -> (r: &SharedStruct)
        requires
            self@ matches TypeDeclarationV::Shared(SharedTypeDeclarationV::Struct(_)),
        ensures
            self@ == TypeDeclarationV::Shared(SharedTypeDeclarationV::Struct(r@)),
    {
        match self {
            TypeDeclaration::Shared(SharedTypeDeclaration::Struct(s)) => s,
            _ => unreached(),
        }
    }

    /// Returns the shared enum declaration.
    pub fn unwrap_shared_enum(&self) -> (r: &SharedEnum)
        requires
            self@ matches TypeDeclarationV::Shared(SharedTypeDeclarationV::Enum(_)),
        ensures
            self@ == TypeDeclarationV::Shared(SharedTypeDeclarationV::Enum(r@)),
    {
        match self {
            TypeDeclaration::Shared(SharedTypeDeclaration::Enum(e)) => e,
            _ => unreached(),
        }
    }

    /// Returns the opaque type declaration.
    pub fn unwrap_opaque(&self) -> (r: &OpaqueForeignTypeDeclaration)
        requires
            self@ matches TypeDeclarationV::Opaque(_),
        ensures
            self@ == TypeDeclarationV::Opaque(r@),
    {
        match self {
            TypeDeclaration::Opaque(o) => o,
            _ => unreached(),
        }
    }
}

/// The string-literal symbol name of the generated destructor for an opaque
/// type: boundary prefix, `$`, the type name, `$_free`.
pub open spec fn spec_free_link_name(name: Seq<char>) -> Seq<char> {
    crate::spec_bridge_prefix() + "$"@ + name + "$_free"@
}

/// The bare-identifier symbol name of the generated destructor for an opaque
/// type: boundary prefix, the type name, `__free`.
pub open spec fn spec_free_func_name(name: Seq<char>) -> Seq<char> {
    crate::spec_bridge_prefix() + name + "__free"@
}

impl OpaqueForeignTypeDeclaration {
    /// The destructor symbol in its string-literal form, used where the host
    /// side's attribute-based export mechanism requires a string literal.
    pub fn free_link_name(&self) -> (r: String)
        ensures
            r@ == spec_free_link_name(self.ty@),
    {
        let mut out = crate::bridge_prefix();
        out.append("$");
        out.append(self.ty.as_str());
        out.append("$_free");
        out
    }

    /// The destructor symbol in its bare-identifier form, used where the
    /// native side's linkage declaration requires a legal identifier.
    pub fn free_func_name(&self) -> (r: String)
        ensures
            r@ == spec_free_func_name(self.ty@),
    {
        let mut out = crate::bridge_prefix();
        out.append(self.ty.as_str());
        out.append("__free");
        out
    }

    /// The declared name of the opaque type.
    pub fn ty_name_ident(&self) -> (r: &String)
        ensures
            r@ == self.ty@,
    {
        &self.ty
    }
}

/// Looks a name up in an ordered association sequence, first match wins.
pub open spec fn spec_lookup(
    entries: Seq<(Seq<char>, TypeDeclarationV)>,
    name: Seq<char>,
) -> Option<TypeDeclarationV>
    decreases entries.len(),
{
    if entries.len() == 0 {
        None
    } else if entries[0].0 == name {
        Some(entries[0].1)
    } else {
        spec_lookup(entries.drop_first(), name)
    }
}

/// The error an insert collision raises: conflicting owning sides of two
/// opaque declarations are reported as `AmbiguousOwnership`, every other
/// collision as `DuplicateTypeName`.
pub open spec fn spec_insert_collision(
    existing: TypeDeclarationV,
    name: Seq<char>,
    ty: TypeDeclarationV,
) -> ErrorV {
    match (existing, ty) {
        (TypeDeclarationV::Opaque(a), TypeDeclarationV::Opaque(b)) => {
            if a.host_lang != b.host_lang {
                ErrorV::AmbiguousOwnership(name)
            } else {
                ErrorV::DuplicateTypeName(name)
            }
        },
        _ => ErrorV::DuplicateTypeName(name),
    }
}

/// An ordered, name-keyed store of every type declared in a module.
/// Iteration order for emission equals declaration order.
pub struct TypeDeclarations {
    entries: Vec<(String, TypeDeclaration)>,
}

impl View for TypeDeclarations {
    type V = Seq<(Seq<char>, TypeDeclarationV)>;

    closed spec fn view(&self) -> Seq<(Seq<char>, TypeDeclarationV)> {
        self.entries@.map_values(|p: (String, TypeDeclaration)| (p.0@, p.1@))
    }
}

impl TypeDeclarations {
    /// An empty registry.
    pub fn new() -> (r: Self)
        ensures
            r@ == Seq::<(Seq<char>, TypeDeclarationV)>::empty(),
    {
        let r = TypeDeclarations { entries: Vec::new() };
        proof {
            assert(r@ =~= Seq::<(Seq<char>, TypeDeclarationV)>::empty());
        }
        r
    }

    /// The number of declared types.
    pub fn len(&self) -> (r: usize)
        ensures
            r == self@.len(),
    {
        self.entries.len()
    }

    /// Looks up a declaration by its declared name.
    pub fn get(&self, name: &String) -> (r: Option<&TypeDeclaration>)
        ensures
            match r {
                Some(d) => spec_lookup(self@, name@) == Some(d@),
                None => spec_lookup(self@, name@) is None,
            },
    {
        proof {
            assert(self@.skip(0) =~= self@);
        }
        let mut i: usize = 0;
        while i < self.entries.len()
            invariant
                i <= self.entries.len(),
                spec_lookup(self@, name@) == spec_lookup(
                    self@.skip(i as int),
                    name@,
                ),
            decreases self.entries.len() - i,
        {
            proof {
                assert(self@.skip(i as int)[0] == self@[i as int]);
                assert(self@.skip(i as int).drop_first() =~= self@.skip(i + 1 as int));
            }
            if self.entries[i].0 == *name {
                return Some(&self.entries[i].1);
            }
            i = i + 1;
        }
        proof {
            assert(self@.skip(i as int).len() == 0);
        }
        None
    }

    /// Stores a declaration under `name` and appends the name to the
    /// iteration order, or reports the collision when the name is already
    /// declared, leaving the registry unchanged.
    pub fn insert(&mut self, name: String, ty: TypeDeclaration) -> (r: Result<(), Error>)
        ensures
            match spec_lookup(old(self)@, name@) {
                Some(existing) => {
                    &&& r matches Err(e) && e@ == spec_insert_collision(
                        existing,
                        name@,
                        ty@,
                    )
                    &&& final(self)@ == old(self)@
                },
                None => {
                    &&& r is Ok
                    &&& final(self)@ == old(self)@.push((name@, ty@))
                },
            },
    {
        let existing = self.get(&name);
        match existing {
            Some(d) => {
                let collides_opaque = match (d, &ty) {
                    (TypeDeclaration::Opaque(a), TypeDeclaration::Opaque(b)) => {
                        a.host_lang != b.host_lang
                    },
                    _ => false,
                };
                if collides_opaque {
                    Err(Error::AmbiguousOwnership(name))
                } else {
                    Err(Error::DuplicateTypeName(name))
                }
            },
            None => {
                self.entries.push((name, ty));
                proof {
                    assert(self@ =~= old(self)@.push((self.entries@.last().0@, self.entries@.last().1@)));
                }
                Ok(())
            },
        }
    }

    /// All declarations, in declaration order.  This ordering is
    /// load-bearing: emission walks it so output is stable and a type is
    /// declared in the output before anything that references it.
    pub fn types(&self) -> (r: Vec<TypeDeclaration>)
        ensures
            r@.map_values(|d: TypeDeclaration| d@) == self@.map_values(
                |p: (Seq<char>, TypeDeclarationV)| p.1,
            ),
    {
        let mut out: Vec<TypeDeclaration> = Vec::new();
        let mut i: usize = 0;
        while i < self.entries.len()
            invariant
                i <= self.entries.len(),
                out.len() == i,
                forall|j: int| 0 <= j < i ==> out@[j]@ == self@[j].1,
            decreases self.entries.len() - i,
        {
            out.push(self.entries[i].1.clone());
            i = i + 1;
        }
        proof {
            assert(out@.map_values(|d: TypeDeclaration| d@) =~= self@.map_values(
                |p: (Seq<char>, TypeDeclarationV)| p.1,
            ));
        }
        out
    }
}

} // verus!
