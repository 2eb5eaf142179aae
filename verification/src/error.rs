use vstd::prelude::*;
use vstd::string::StringExecFns;

verus! {

/// A fatal error detected during the single generation pass.  Any of these
/// suppresses emission of all three artifacts for the module.
#[derive(Debug)]
pub enum Error {
    /// A registry insert collided with an already-declared type name.
    DuplicateTypeName(String),
    /// A call-site type expression matched neither a builtin nor a registry
    /// entry.  Carries the offending type name.
    UnresolvedType(String),
    /// Two declarations of one opaque type name gave conflicting owning
    /// sides.
    AmbiguousOwnership(String),
}

/// The mathematical value of an `Error`.
pub ghost enum ErrorV {
    DuplicateTypeName(Seq<char>),
    UnresolvedType(Seq<char>),
    AmbiguousOwnership(Seq<char>),
}

impl View for Error {
    type V = ErrorV;

    open spec fn view(&self) -> ErrorV {
        match self {
            Error::DuplicateTypeName(n) => ErrorV::DuplicateTypeName(n@),
            Error::UnresolvedType(n) => ErrorV::UnresolvedType(n@),
            Error::AmbiguousOwnership(n) => ErrorV::AmbiguousOwnership(n@),
        }
    }
}

impl Error {
    /// A short description of the error, naming its kind and the type name
    /// it concerns.
    pub fn describe(&self) -> (r: String)
        ensures
            r@ == self@.describe(),
    {
        let mut out = String::new();
        match self {
            Error::DuplicateTypeName(n) => {
                out.append("duplicate type name: ");
                out.append(n.as_str());
            },
            Error::UnresolvedType(n) => {
                out.append("unresolved type: ");
                out.append(n.as_str());
            },
            Error::AmbiguousOwnership(n) => {
                out.append("ambiguous ownership for type: ");
                out.append(n.as_str());
            },
        }
        out
    }
}

impl ErrorV {
    pub open spec fn describe(self) -> Seq<char> {
        match self {
            ErrorV::DuplicateTypeName(n) => "duplicate type name: "@ + n,
            ErrorV::UnresolvedType(n) => "unresolved type: "@ + n,
            ErrorV::AmbiguousOwnership(n) => "ambiguous ownership for type: "@ + n,
        }
    }
}

} // verus!
