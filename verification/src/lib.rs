//! Generates synchronized cross-language binding glue from a declarative
//! description of the types and functions shared across a language boundary.
//!
//! A parsed bridge module declares opaque types (owned by exactly one side of
//! the boundary) and shared by-value types, plus boundary functions.  From it
//! the generator emits three coordinated artifacts: native-side glue (Rust),
//! host-side glue (Swift), and a C-compatible ABI header that lets both sides
//! agree on opaque type names through a stable binary interface.  Emission is
//! a pure function of the module, so output is deterministic and diffable.

pub mod error;
pub mod type_declarations;
pub mod bridged_type;
pub mod type_text;
pub mod glue;
pub mod render;
pub mod codegen;
pub mod laws;

use vstd::prelude::*;
use vstd::string::StringExecFns;

verus! {

/// The fixed token prepended to every generated cross-boundary symbol name.
pub open spec fn spec_bridge_prefix() -> Seq<char> {
    "__swift_bridge__"@
}

/// Returns the boundary prefix as an owned string.
pub fn bridge_prefix() -> (r: String)
    ensures
        r@ == spec_bridge_prefix(),
{
    String::from_str("__swift_bridge__")
}

} // verus!
