use vstd::prelude::*;
use crate::bridged_type::{BridgedTypeV, CustomBridgedTypeV, spec_resolve};
use crate::codegen::{BridgeModuleV, field_pairs, param_pairs, spec_build_registry,
    spec_decl_items, spec_decl_items_one, spec_fn_items, spec_fn_items_one, spec_fn_link_name,
    spec_fn_ffi_name, spec_fn_native_items, spec_generate, spec_generate_items, spec_is_enabled,
    spec_resolve_pairs, spec_resolve_ret, spec_wrapper_body,
};
use crate::type_text::spec_native_to_ffi_expr;
use crate::error::ErrorV;
use crate::glue::{HeaderItemV, NativeGlueItemV, ParamTextV};
use crate::type_declarations::{HostLang, OpaqueForeignTypeDeclarationV, SharedStructV,
    SharedTypeDeclarationV, StructFieldV, TypeDeclarationV, TypeExprV, spec_free_func_name,
    spec_free_link_name, spec_lookup};

verus! {

/// Registry iteration order equals declaration order: when the registry
/// build succeeds, its entries are exactly the declarations, keyed by their
/// declared names, in declaration order.
pub proof fn lemma_registry_order(decls: Seq<TypeDeclarationV>)
    requires
        spec_build_registry(decls) is Ok,
    ensures
        spec_build_registry(decls)->Ok_0.len() == decls.len(),
        forall|i: int|
            0 <= i < decls.len() ==> spec_build_registry(decls)->Ok_0[i] == (
                decls[i].name(),
                decls[i],
            ),
    decreases decls.len(),
{
    if decls.len() > 0 {
        lemma_registry_order(decls.drop_last());
    }
}

/// A name is absent from an association sequence exactly when no entry
/// carries it.
pub proof fn lemma_lookup_none(reg: Seq<(Seq<char>, TypeDeclarationV)>, nm: Seq<char>)
    ensures
        spec_lookup(reg, nm) is None <==> forall|k: int| 0 <= k < reg.len() ==> reg[k].0 != nm,
    decreases reg.len(),
{
    if reg.len() > 0 {
        lemma_lookup_none(reg.drop_first(), nm);
        assert(forall|k: int| 1 <= k < reg.len() ==> reg.drop_first()[k - 1] == reg[k]);
    }
}

/// A registry that builds successfully has pairwise distinct declared names.
pub proof fn lemma_registry_distinct_names(decls: Seq<TypeDeclarationV>)
    requires
        spec_build_registry(decls) is Ok,
    ensures
        forall|i: int, j: int|
            0 <= i < j < decls.len() ==> decls[i].name() != decls[j].name(),
    decreases decls.len(),
{
    if decls.len() > 0 {
        lemma_registry_distinct_names(decls.drop_last());
        let reg = spec_build_registry(decls.drop_last())->Ok_0;
        lemma_registry_order(decls.drop_last());
        assert(spec_lookup(reg, decls.last().name()) is None);
        lemma_lookup_none(reg, decls.last().name());
        assert forall|i: int|
            0 <= i < decls.len() - 1 implies decls[i].name() != decls.last().name() by {
            assert(decls.drop_last()[i] == decls[i]);
            assert(reg[i] == (decls.drop_last()[i].name(), decls.drop_last()[i]));
            assert(reg[i].0 != decls.last().name());
        }
        assert forall|i: int, j: int|
            0 <= i < j < decls.len() implies decls[i].name() != decls[j].name() by {
            if j < decls.len() - 1 {
                assert(decls.drop_last()[i] == decls[i]);
                assert(decls.drop_last()[j] == decls[j]);
            } else {
                assert(decls[j] == decls.last());
            }
        }
    }
}

/// Determinism: generation is a pure function of the module, so two
/// generation results for the same module are byte-identical in all three
/// artifacts.
pub proof fn lemma_generation_deterministic(
    m: BridgeModuleV,
    g1: (Seq<char>, Seq<char>, Seq<char>),
    g2: (Seq<char>, Seq<char>, Seq<char>),
)
    requires
        spec_generate(m) == Ok::<_, ErrorV>(g1),
        spec_generate(m) == Ok::<_, ErrorV>(g2),
    ensures
        g1 == g2,
{
}

/// Successful resolution keeps names: the resolved pairs carry the input
/// names, in order.
pub proof fn lemma_resolve_pairs_names(
    reg: Seq<(Seq<char>, TypeDeclarationV)>,
    pairs: Seq<(Seq<char>, TypeExprV)>,
)
    requires
        spec_resolve_pairs(reg, pairs) is Ok,
    ensures
        spec_resolve_pairs(reg, pairs)->Ok_0.len() == pairs.len(),
        forall|i: int|
            0 <= i < pairs.len() ==> spec_resolve_pairs(reg, pairs)->Ok_0[i].0 == pairs[i].0,
    decreases pairs.len(),
{
    if pairs.len() > 0 {
        lemma_resolve_pairs_names(reg, pairs.drop_last());
        let rs = spec_resolve_pairs(reg, pairs.drop_last())->Ok_0;
        assert forall|i: int|
            0 <= i < pairs.len() implies spec_resolve_pairs(reg, pairs)->Ok_0[i].0
            == pairs[i].0 by {
            if i < pairs.len() - 1 {
                assert(pairs.drop_last()[i] == pairs[i]);
                assert(spec_resolve_pairs(reg, pairs)->Ok_0[i] == rs[i]);
            }
        }
    }
}

/// Shared-struct transcription order: the field order of the native-side
/// transcription, of the host-side transcription and (for a stable-layout
/// representation) of the ABI-header mirror all equal the declaration's
/// field order.
pub proof fn lemma_shared_struct_field_order(
    reg: Seq<(Seq<char>, TypeDeclarationV)>,
    s: SharedStructV,
)
    requires
        spec_decl_items_one(reg, TypeDeclarationV::Shared(SharedTypeDeclarationV::Struct(s)))
            is Ok,
    ensures
        ({
            let t = spec_decl_items_one(
                reg,
                TypeDeclarationV::Shared(SharedTypeDeclarationV::Struct(s)),
            )->Ok_0;
            &&& t.0.len() == 1
            &&& (t.0[0] matches NativeGlueItemV::StructMirror { name, fields } && name == s.name
                && fields.map_values(|p: ParamTextV| p.name) == s.fields.map_values(
                |f: StructFieldV| f.name,
            ))
            &&& t.1.len() == 1
            &&& (t.1[0] matches crate::glue::HostGlueItemV::StructMirror { name, fields } && name
                == s.name && fields.map_values(|p: ParamTextV| p.name) == s.fields.map_values(
                |f: StructFieldV| f.name,
            ))
            &&& s.swift_repr == crate::type_declarations::StructSwiftRepr::Structure ==> (
            t.2.len() == 1 && (t.2[0] matches HeaderItemV::StructMirror { name, fields } && name
                == s.name && fields.map_values(|p: ParamTextV| p.name) == s.fields.map_values(
                |f: StructFieldV| f.name,
            )))
        }),
{
    let rf = spec_resolve_pairs(reg, field_pairs(s.fields))->Ok_0;
    lemma_resolve_pairs_names(reg, field_pairs(s.fields));
    assert forall|i: int| 0 <= i < s.fields.len() implies rf[i].0 == s.fields[i].name by {
        assert(field_pairs(s.fields)[i].0 == s.fields[i].name);
    }
    assert(crate::codegen::spec_native_user_params(rf).map_values(|p: ParamTextV| p.name)
        =~= s.fields.map_values(|f: StructFieldV| f.name));
    assert(crate::codegen::spec_swift_user_params(rf).map_values(|p: ParamTextV| p.name)
        =~= s.fields.map_values(|f: StructFieldV| f.name));
    assert(crate::codegen::spec_c_params(rf).map_values(|p: ParamTextV| p.name)
        =~= s.fields.map_values(|f: StructFieldV| f.name));
}

/// When generation succeeds, every enabled function's whole signature
/// resolved.  Contrapositive: an unresolvable type expression in an enabled
/// function's signature makes generation fail, and no artifact is emitted.
pub proof fn lemma_generate_resolves_all(m: BridgeModuleV, k: int)
    requires
        spec_generate_items(m) is Ok,
        0 <= k < m.functions.len(),
        spec_is_enabled(m.enabled_crate_features, m.functions[k].cfg_feature),
    ensures
        spec_build_registry(m.types) is Ok,
        spec_resolve_pairs(
            spec_build_registry(m.types)->Ok_0,
            param_pairs(m.functions[k].params),
        ) is Ok,
        spec_resolve_ret(spec_build_registry(m.types)->Ok_0, m.functions[k].ret) is Ok,
{
    let reg = spec_build_registry(m.types)->Ok_0;
    lemma_fn_items_ok_prefix(reg, m.enabled_crate_features, m.functions, m.functions.len() as int);
    lemma_fn_items_ok_at(reg, m.enabled_crate_features, m.functions, k);
}

/// When the function fold succeeds on a whole sequence, it succeeds on every
/// prefix.
proof fn lemma_fn_items_ok_prefix(
    reg: Seq<(Seq<char>, TypeDeclarationV)>,
    features: Seq<Seq<char>>,
    fns: Seq<crate::codegen::BridgeFnV>,
    j: int,
)
    requires
        0 <= j <= fns.len(),
        spec_fn_items(reg, features, fns) is Ok,
    ensures
        spec_fn_items(reg, features, fns.take(j)) is Ok,
    decreases fns.len() - j,
{
    if j < fns.len() {
        lemma_fn_items_ok_prefix(reg, features, fns, j + 1);
        assert(fns.take(j + 1).drop_last() =~= fns.take(j));
    } else {
        assert(fns.take(j) =~= fns);
    }
}

/// When the function fold succeeds, each enabled function's own emission
/// succeeded.
proof fn lemma_fn_items_ok_at(
    reg: Seq<(Seq<char>, TypeDeclarationV)>,
    features: Seq<Seq<char>>,
    fns: Seq<crate::codegen::BridgeFnV>,
    k: int,
)
    requires
        0 <= k < fns.len(),
        spec_fn_items(reg, features, fns) is Ok,
        spec_is_enabled(features, fns[k].cfg_feature),
    ensures
        spec_fn_items_one(reg, fns[k]) is Ok,
{
    lemma_fn_items_ok_prefix(reg, features, fns, k + 1);
    assert(fns.take(k + 1).drop_last() =~= fns.take(k));
    assert(fns.take(k + 1).last() == fns[k]);
    lemma_fn_items_ok_prefix(reg, features, fns.take(k + 1), k);
}


/// The number of opaque typedefs for a given name among header items.
pub open spec fn count_typedefs(items: Seq<HeaderItemV>, nm: Seq<char>) -> nat
    decreases items.len(),
{
    if items.len() == 0 {
        0
    } else {
        count_typedefs(items.drop_last(), nm) + (
        if items.last() matches HeaderItemV::OpaqueTypedef { name } && name == nm {
            1nat
        } else {
            0nat
        })
    }
}

/// Whether a declaration is a native-owned opaque type whose header typedef
/// is emitted (not marked already declared) under the given name.
pub open spec fn is_exposed_native_opaque(d: TypeDeclarationV, nm: Seq<char>) -> bool {
    d matches TypeDeclarationV::Opaque(o) && o.host_lang == HostLang::Rust
        && !o.already_declared && o.ty == nm
}

/// The number of declarations that emit a header typedef under `nm`.
pub open spec fn count_exposed(decls: Seq<TypeDeclarationV>, nm: Seq<char>) -> nat
    decreases decls.len(),
{
    if decls.len() == 0 {
        0
    } else {
        count_exposed(decls.drop_last(), nm) + (
        if is_exposed_native_opaque(decls.last(), nm) {
            1nat
        } else {
            0nat
        })
    }
}

proof fn lemma_count_typedefs_concat(a: Seq<HeaderItemV>, b: Seq<HeaderItemV>, nm: Seq<char>)
    ensures
        count_typedefs(a + b, nm) == count_typedefs(a, nm) + count_typedefs(b, nm),
    decreases b.len(),
{
    if b.len() == 0 {
        assert(a + b =~= a);
    } else {
        assert((a + b).drop_last() =~= a + b.drop_last());
        assert((a + b).last() == b.last());
        lemma_count_typedefs_concat(a, b.drop_last(), nm);
    }
}

proof fn lemma_decl_one_typedefs(
    reg: Seq<(Seq<char>, TypeDeclarationV)>,
    d: TypeDeclarationV,
    nm: Seq<char>,
)
    requires
        spec_decl_items_one(reg, d) is Ok,
    ensures
        count_typedefs(spec_decl_items_one(reg, d)->Ok_0.2, nm) == (
        if is_exposed_native_opaque(d, nm) {
            1nat
        } else {
            0nat
        }),
{
    let t = spec_decl_items_one(reg, d)->Ok_0;
    let c = t.2;
    assert(count_typedefs(Seq::<HeaderItemV>::empty(), nm) == 0);
    assert(count_typedefs(spec_decl_items_one(reg, d)->Ok_0.2, nm) == count_typedefs(c, nm));
    match d {
        TypeDeclarationV::Shared(SharedTypeDeclarationV::Struct(st)) => {
            if c.len() > 0 {
                assert(c.drop_last() =~= Seq::<HeaderItemV>::empty());
                assert(count_typedefs(c, nm) == 0);
            } else {
                assert(count_typedefs(c, nm) == 0);
            }
            assert(!is_exposed_native_opaque(d, nm));
        },
        TypeDeclarationV::Shared(SharedTypeDeclarationV::Enum(en)) => {
            assert(c.len() == 1);
            assert(c.drop_last() =~= Seq::<HeaderItemV>::empty());
            assert(count_typedefs(c, nm) == 0);
            assert(!is_exposed_native_opaque(d, nm));
        },
        TypeDeclarationV::Opaque(o) => {
            if o.host_lang == HostLang::Rust && !o.already_declared {
                assert(c.len() == 1);
                assert(c.drop_last() =~= Seq::<HeaderItemV>::empty());
                assert(c.last() == (HeaderItemV::OpaqueTypedef { name: o.ty }));
                if o.ty == nm {
                    assert(count_typedefs(c, nm) == 1);
                    assert(is_exposed_native_opaque(d, nm));
                } else {
                    assert(count_typedefs(c, nm) == 0);
                    assert(!is_exposed_native_opaque(d, nm));
                }
            } else {
                assert(c.len() == 0);
                assert(count_typedefs(c, nm) == 0);
                assert(!is_exposed_native_opaque(d, nm));
            }
        },
    }
}

proof fn lemma_decl_items_typedef_count(
    reg: Seq<(Seq<char>, TypeDeclarationV)>,
    decls: Seq<TypeDeclarationV>,
    nm: Seq<char>,
)
    requires
        spec_decl_items(reg, decls) is Ok,
    ensures
        count_typedefs(spec_decl_items(reg, decls)->Ok_0.2, nm) == count_exposed(decls, nm),
    decreases decls.len(),
{
    if decls.len() > 0 {
        lemma_decl_items_typedef_count(reg, decls.drop_last(), nm);
        let t = spec_decl_items(reg, decls.drop_last())->Ok_0;
        let u = spec_decl_items_one(reg, decls.last())->Ok_0;
        lemma_count_typedefs_concat(t.2, u.2, nm);
        lemma_decl_one_typedefs(reg, decls.last(), nm);
    }
}

proof fn lemma_count_exposed_zero(decls: Seq<TypeDeclarationV>, nm: Seq<char>)
    requires
        forall|k: int| 0 <= k < decls.len() ==> decls[k].name() != nm,
    ensures
        count_exposed(decls, nm) == 0,
    decreases decls.len(),
{
    if decls.len() > 0 {
        assert(forall|k: int|
            0 <= k < decls.len() - 1 ==> decls.drop_last()[k] == decls[k]);
        lemma_count_exposed_zero(decls.drop_last(), nm);
    }
}

proof fn lemma_count_exposed_one(decls: Seq<TypeDeclarationV>, nm: Seq<char>, i: int)
    requires
        0 <= i < decls.len(),
        is_exposed_native_opaque(decls[i], nm),
        forall|k: int, j: int|
            0 <= k < j < decls.len() ==> decls[k].name() != decls[j].name(),
    ensures
        count_exposed(decls, nm) == 1,
    decreases decls.len(),
{
    assert(decls[i].name() == nm);
    if i == decls.len() - 1 {
        assert forall|k: int|
            0 <= k < decls.drop_last().len() implies decls.drop_last()[k].name() != nm by {
            assert(decls.drop_last()[k] == decls[k]);
            assert(decls[k].name() != decls[i].name());
        }
        lemma_count_exposed_zero(decls.drop_last(), nm);
    } else {
        assert(forall|k: int|
            0 <= k < decls.len() - 1 ==> decls.drop_last()[k] == decls[k]);
        lemma_count_exposed_one(decls.drop_last(), nm, i);
        assert(decls.last().name() != decls[i].name());
        assert(!is_exposed_native_opaque(decls.last(), nm));
    }
}

/// For every native-owned opaque type not marked already declared, the ABI
/// header contains exactly one opaque typedef under its name.
pub proof fn lemma_native_opaque_typedef_once(m: BridgeModuleV, i: int)
    requires
        spec_generate_items(m) is Ok,
        0 <= i < m.types.len(),
        is_exposed_native_opaque(m.types[i], m.types[i].name()),
    ensures
        count_typedefs(spec_generate_items(m)->Ok_0.2, m.types[i].name()) == 1,
{
    let reg = spec_build_registry(m.types)->Ok_0;
    lemma_registry_distinct_names(m.types);
    lemma_decl_items_typedef_count(reg, m.types, m.types[i].name());
    lemma_count_exposed_one(m.types, m.types[i].name(), i);
}

/// For a native-owned opaque type passed by value into a host-implemented
/// function, the native side emits a public wrapper that heap-allocates the
/// argument, and a linkage declaration whose string-literal and bare
/// identifier symbol names are both derived from the one (prefix, function
/// name) pair.
pub proof fn lemma_native_owned_value_glue(
    name: Seq<char>,
    rs: Seq<(Seq<char>, BridgedTypeV)>,
    ret: Option<BridgedTypeV>,
    i: int,
)
    requires
        0 <= i < rs.len(),
        rs[i].1 matches BridgedTypeV::Foreign(CustomBridgedTypeV::Opaque(o))
            && o.host_lang == HostLang::Rust && !o.reference,
    ensures
        spec_fn_native_items(name, HostLang::Swift, rs, ret).len() == 2,
        (spec_fn_native_items(name, HostLang::Swift, rs, ret)[0]
            matches NativeGlueItemV::WrapperFn { name: wname, body, .. } && wname == name && body
            == spec_wrapper_body(name, rs, ret)),
        (spec_fn_native_items(name, HostLang::Swift, rs, ret)[1]
            matches NativeGlueItemV::LinkFn { link_name, fn_name, .. } && link_name
            == spec_fn_link_name(name) && fn_name == spec_fn_ffi_name(name)),
        spec_native_to_ffi_expr(rs[i].1, rs[i].0) == "Box::into_raw(Box::new("@ + rs[i].0
            + ")) as *mut super::"@ + rs[i].1->Foreign_0->Opaque_0.ty,
{
}

/// For a host-owned opaque type not marked already declared, the native side
/// emits a pointer-wrapper struct whose destructor hook calls the free
/// trampoline, plus a linkage declaration for that trampoline under the two
/// derived destructor symbol names; the host side and the ABI header get no
/// per-type declaration from it.
pub proof fn lemma_host_owned_decl_glue(
    reg: Seq<(Seq<char>, TypeDeclarationV)>,
    o: OpaqueForeignTypeDeclarationV,
)
    requires
        o.host_lang == HostLang::Swift,
        !o.already_declared,
    ensures
        ({
            let t = spec_decl_items_one(reg, TypeDeclarationV::Opaque(o))->Ok_0;
            &&& spec_decl_items_one(reg, TypeDeclarationV::Opaque(o)) is Ok
            &&& t.0.len() == 2
            &&& (t.0[0] matches NativeGlueItemV::HandleStruct { name, free_func } && name == o.ty
                && free_func == spec_free_func_name(o.ty))
            &&& (t.0[1] matches NativeGlueItemV::LinkFn { link_name, fn_name, .. } && link_name
                == spec_free_link_name(o.ty) && fn_name == spec_free_func_name(o.ty))
            &&& t.1 == Seq::<crate::glue::HostGlueItemV>::empty()
            &&& t.2 == Seq::<HeaderItemV>::empty()
        }),
{
}

/// The name a header item declares.
pub open spec fn header_item_name(it: HeaderItemV) -> Seq<char> {
    match it {
        HeaderItemV::OpaqueTypedef { name } => name,
        HeaderItemV::StructMirror { name, .. } => name,
        HeaderItemV::EnumMirror { name, .. } => name,
    }
}

proof fn lemma_decl_one_header_names(
    reg: Seq<(Seq<char>, TypeDeclarationV)>,
    d: TypeDeclarationV,
)
    requires
        spec_decl_items_one(reg, d) is Ok,
    ensures
        forall|j: int|
            0 <= j < spec_decl_items_one(reg, d)->Ok_0.2.len() ==> header_item_name(
                spec_decl_items_one(reg, d)->Ok_0.2[j],
            ) == d.name(),
{
}

proof fn lemma_decl_items_header_names(
    reg: Seq<(Seq<char>, TypeDeclarationV)>,
    decls: Seq<TypeDeclarationV>,
    nm: Seq<char>,
)
    requires
        spec_decl_items(reg, decls) is Ok,
        forall|k: int|
            0 <= k < decls.len() ==> (decls[k].name() == nm ==> (decls[k]
                matches TypeDeclarationV::Opaque(o) && o.host_lang == HostLang::Swift)),
    ensures
        forall|j: int|
            0 <= j < spec_decl_items(reg, decls)->Ok_0.2.len() ==> header_item_name(
                spec_decl_items(reg, decls)->Ok_0.2[j],
            ) != nm,
    decreases decls.len(),
{
    if decls.len() > 0 {
        assert(forall|k: int|
            0 <= k < decls.len() - 1 ==> decls.drop_last()[k] == decls[k]);
        lemma_decl_items_header_names(reg, decls.drop_last(), nm);
        let t = spec_decl_items(reg, decls.drop_last())->Ok_0;
        let u = spec_decl_items_one(reg, decls.last())->Ok_0;
        lemma_decl_one_header_names(reg, decls.last());
        let whole = spec_decl_items(reg, decls)->Ok_0.2;
        assert(whole == t.2 + u.2);
        assert forall|j: int| 0 <= j < whole.len() implies header_item_name(whole[j]) != nm by {
            if j < t.2.len() {
                assert(whole[j] == t.2[j]);
            } else {
                assert(whole[j] == u.2[j - t.2.len()]);
                assert(header_item_name(u.2[j - t.2.len()]) == decls.last().name());
                if decls.last().name() == nm {
                    assert(u.2.len() == 0);
                }
            }
        }
    }
}

/// The ABI header carries no declaration at all under a host-owned opaque
/// type's name: host-owned handles go through the one generic
/// pointer-wrapper shape instead of per-type named declarations.
pub proof fn lemma_host_owned_no_header_entry(m: BridgeModuleV, i: int)
    requires
        spec_generate_items(m) is Ok,
        0 <= i < m.types.len(),
        m.types[i] matches TypeDeclarationV::Opaque(o) && o.host_lang == HostLang::Swift,
    ensures
        forall|j: int|
            0 <= j < spec_generate_items(m)->Ok_0.2.len() ==> header_item_name(
                spec_generate_items(m)->Ok_0.2[j],
            ) != m.types[i].name(),
{
    let reg = spec_build_registry(m.types)->Ok_0;
    lemma_registry_distinct_names(m.types);
    let nm = m.types[i].name();
    assert forall|k: int|
        0 <= k < m.types.len() && m.types[k].name() == nm implies (m.types[k]
            matches TypeDeclarationV::Opaque(o) && o.host_lang == HostLang::Swift) by {
        if k != i {
            assert(m.types[k].name() != m.types[i].name());
        }
    }
    lemma_decl_items_header_names(reg, m.types, nm);
}


/// Two declarations that agree on everything call-site glue can read:
/// either equal, or both opaque with the same name and owning side (their
/// already-declared flags, doc comments and generics may differ).
pub open spec fn decl_similar(a: TypeDeclarationV, b: TypeDeclarationV) -> bool {
    a == b || (a matches TypeDeclarationV::Opaque(x) && b matches TypeDeclarationV::Opaque(y)
        && x.ty == y.ty && x.host_lang == y.host_lang)
}

pub open spec fn reg_similar(
    r1: Seq<(Seq<char>, TypeDeclarationV)>,
    r2: Seq<(Seq<char>, TypeDeclarationV)>,
) -> bool {
    r1.len() == r2.len() && forall|i: int|
        0 <= i < r1.len() ==> ((#[trigger] r1[i]).0 == (#[trigger] r2[i]).0 && decl_similar(
            r1[i].1,
            r2[i].1,
        ))
}

proof fn lemma_lookup_similar(
    r1: Seq<(Seq<char>, TypeDeclarationV)>,
    r2: Seq<(Seq<char>, TypeDeclarationV)>,
    nm: Seq<char>,
)
    requires
        reg_similar(r1, r2),
    ensures
        spec_lookup(r1, nm) is Some <==> spec_lookup(r2, nm) is Some,
        spec_lookup(r1, nm) is Some ==> decl_similar(
            spec_lookup(r1, nm)->0,
            spec_lookup(r2, nm)->0,
        ),
    decreases r1.len(),
{
    if r1.len() > 0 {
        assert(r1[0].0 == r2[0].0 && decl_similar(r1[0].1, r2[0].1));
        assert(reg_similar(r1.drop_first(), r2.drop_first())) by {
            assert forall|i: int|
                0 <= i < r1.drop_first().len() implies ((#[trigger] r1.drop_first()[i]).0
                == (#[trigger] r2.drop_first()[i]).0 && decl_similar(
                r1.drop_first()[i].1,
                r2.drop_first()[i].1,
            )) by {
                assert(r1.drop_first()[i] == r1[i + 1]);
                assert(r2.drop_first()[i] == r2[i + 1]);
                assert(decl_similar(r1[i + 1].1, r2[i + 1].1));
            }
        }
        lemma_lookup_similar(r1.drop_first(), r2.drop_first(), nm);
    }
}

/// Resolution never reads a declaration's already-declared flag: two
/// registries that agree up to that flag resolve every type expression
/// identically.  This is why toggling the flag leaves call-site glue
/// unchanged.
pub proof fn lemma_resolve_ignores_declared_flag(
    r1: Seq<(Seq<char>, TypeDeclarationV)>,
    r2: Seq<(Seq<char>, TypeDeclarationV)>,
    e: TypeExprV,
)
    requires
        reg_similar(r1, r2),
    ensures
        spec_resolve(r1, e) == spec_resolve(r2, e),
{
    match e {
        TypeExprV::Path(n) => {
            lemma_lookup_similar(r1, r2, n);
        },
        TypeExprV::Reference { mutable, name } => {
            lemma_lookup_similar(r1, r2, name);
        },
        TypeExprV::OptionOf(n) => {},
        TypeExprV::VecOf(n) => {},
    }
}

proof fn lemma_resolve_pairs_similar(
    r1: Seq<(Seq<char>, TypeDeclarationV)>,
    r2: Seq<(Seq<char>, TypeDeclarationV)>,
    pairs: Seq<(Seq<char>, TypeExprV)>,
)
    requires
        reg_similar(r1, r2),
    ensures
        spec_resolve_pairs(r1, pairs) == spec_resolve_pairs(r2, pairs),
    decreases pairs.len(),
{
    if pairs.len() > 0 {
        lemma_resolve_pairs_similar(r1, r2, pairs.drop_last());
        lemma_resolve_ignores_declared_flag(r1, r2, pairs.last().1);
    }
}

proof fn lemma_fn_items_one_similar(
    r1: Seq<(Seq<char>, TypeDeclarationV)>,
    r2: Seq<(Seq<char>, TypeDeclarationV)>,
    f: crate::codegen::BridgeFnV,
)
    requires
        reg_similar(r1, r2),
    ensures
        spec_fn_items_one(r1, f) == spec_fn_items_one(r2, f),
{
    lemma_resolve_pairs_similar(r1, r2, param_pairs(f.params));
    match f.ret {
        None => {},
        Some(t) => {
            lemma_resolve_ignores_declared_flag(r1, r2, t);
        },
    }
}

/// Call-site glue is unchanged under the already-declared flag: the whole
/// function emission is identical for two registries that agree up to it.
pub proof fn lemma_fn_items_ignore_declared_flag(
    r1: Seq<(Seq<char>, TypeDeclarationV)>,
    r2: Seq<(Seq<char>, TypeDeclarationV)>,
    features: Seq<Seq<char>>,
    fns: Seq<crate::codegen::BridgeFnV>,
)
    requires
        reg_similar(r1, r2),
    ensures
        spec_fn_items(r1, features, fns) == spec_fn_items(r2, features, fns),
    decreases fns.len(),
{
    if fns.len() > 0 {
        lemma_fn_items_ignore_declared_flag(r1, r2, features, fns.drop_last());
        lemma_fn_items_one_similar(r1, r2, fns.last());
    }
}

proof fn lemma_decl_items_one_similar(
    r1: Seq<(Seq<char>, TypeDeclarationV)>,
    r2: Seq<(Seq<char>, TypeDeclarationV)>,
    d: TypeDeclarationV,
)
    requires
        reg_similar(r1, r2),
    ensures
        spec_decl_items_one(r1, d) == spec_decl_items_one(r2, d),
{
    match d {
        TypeDeclarationV::Shared(SharedTypeDeclarationV::Struct(st)) => {
            lemma_resolve_pairs_similar(r1, r2, field_pairs(st.fields));
        },
        _ => {},
    }
}

proof fn lemma_decl_items_similar(
    r1: Seq<(Seq<char>, TypeDeclarationV)>,
    r2: Seq<(Seq<char>, TypeDeclarationV)>,
    decls: Seq<TypeDeclarationV>,
)
    requires
        reg_similar(r1, r2),
    ensures
        spec_decl_items(r1, decls) == spec_decl_items(r2, decls),
    decreases decls.len(),
{
    if decls.len() > 0 {
        lemma_decl_items_similar(r1, r2, decls.drop_last());
        lemma_decl_items_one_similar(r1, r2, decls.last());
    }
}

/// A declaration with its already-declared flag set.
pub open spec fn mark_declared(d: TypeDeclarationV) -> TypeDeclarationV {
    match d {
        TypeDeclarationV::Opaque(o) => TypeDeclarationV::Opaque(
            OpaqueForeignTypeDeclarationV { already_declared: true, ..o },
        ),
        _ => d,
    }
}

/// The module with the flag set on its `i`-th declaration.
pub open spec fn with_marked(m: BridgeModuleV, i: int) -> BridgeModuleV {
    BridgeModuleV { types: m.types.update(i, mark_declared(m.types[i])), ..m }
}

proof fn lemma_build_registry_toggle(decls: Seq<TypeDeclarationV>, i: int)
    requires
        0 <= i < decls.len(),
        decls[i] matches TypeDeclarationV::Opaque(_),
        spec_build_registry(decls) is Ok,
    ensures
        spec_build_registry(decls.update(i, mark_declared(decls[i]))) is Ok,
        reg_similar(
            spec_build_registry(decls)->Ok_0,
            spec_build_registry(decls.update(i, mark_declared(decls[i])))->Ok_0,
        ),
    decreases decls.len(),
{
    let decls2 = decls.update(i, mark_declared(decls[i]));
    assert(mark_declared(decls[i]).name() == decls[i].name());
    if i == decls.len() - 1 {
        assert(decls2.drop_last() =~= decls.drop_last());
        let reg = spec_build_registry(decls.drop_last())->Ok_0;
        assert(spec_lookup(reg, decls2.last().name()) is None);
        let reg1 = spec_build_registry(decls)->Ok_0;
        let reg2 = spec_build_registry(decls2)->Ok_0;
        assert(reg1 == reg.push((decls.last().name(), decls.last())));
        assert(reg2 == reg.push((decls.last().name(), mark_declared(decls.last()))));
        assert(decl_similar(decls.last(), mark_declared(decls.last())));
        assert forall|k: int|
            0 <= k < reg1.len() implies ((#[trigger] reg1[k]).0 == (#[trigger] reg2[k]).0
            && decl_similar(reg1[k].1, reg2[k].1)) by {
            if k < reg.len() {
                assert(reg1[k] == reg[k]);
                assert(reg2[k] == reg[k]);
            }
        }
    } else {
        assert(decls2.drop_last() =~= decls.drop_last().update(i, mark_declared(decls[i])));
        assert(decls.drop_last()[i] == decls[i]);
        lemma_build_registry_toggle(decls.drop_last(), i);
        let p1 = spec_build_registry(decls.drop_last())->Ok_0;
        let p2 = spec_build_registry(decls2.drop_last())->Ok_0;
        lemma_lookup_similar(p1, p2, decls.last().name());
        assert(decls2.last() == decls.last());
        assert(spec_lookup(p2, decls.last().name()) is None);
        let reg1 = spec_build_registry(decls)->Ok_0;
        let reg2 = spec_build_registry(decls2)->Ok_0;
        assert(reg1 == p1.push((decls.last().name(), decls.last())));
        assert(reg2 == p2.push((decls.last().name(), decls.last())));
        assert forall|k: int|
            0 <= k < reg1.len() implies ((#[trigger] reg1[k]).0 == (#[trigger] reg2[k]).0
            && decl_similar(reg1[k].1, reg2[k].1)) by {
            if k < p1.len() {
                assert(reg1[k] == p1[k]);
                assert(reg2[k] == p2[k]);
                assert(decl_similar(p1[k].1, p2[k].1));
            } else {
                assert(decl_similar(reg1[k].1, reg2[k].1));
            }
        }
    }
}

proof fn lemma_decl_items_toggle(
    r1: Seq<(Seq<char>, TypeDeclarationV)>,
    r2: Seq<(Seq<char>, TypeDeclarationV)>,
    decls: Seq<TypeDeclarationV>,
    i: int,
)
    requires
        reg_similar(r1, r2),
        0 <= i < decls.len(),
        is_exposed_native_opaque(decls[i], decls[i].name()),
        spec_decl_items(r1, decls) is Ok,
    ensures
        ({
            let t1 = spec_decl_items(r1, decls)->Ok_0;
            let decls2 = decls.update(i, mark_declared(decls[i]));
            &&& spec_decl_items(r2, decls2) is Ok
            &&& ({
                let t2 = spec_decl_items(r2, decls2)->Ok_0;
                &&& t2.0 == t1.0
                &&& t2.1 == t1.1
                &&& exists|pre: Seq<HeaderItemV>, post: Seq<HeaderItemV>|
                    t1.2 == pre + seq![
                        HeaderItemV::OpaqueTypedef { name: decls[i].name() },
                    ] + post && t2.2 == #[trigger] (pre + post)
            })
        }),
    decreases decls.len(),
{
    let decls2 = decls.update(i, mark_declared(decls[i]));
    let t1 = spec_decl_items(r1, decls)->Ok_0;
    let td = HeaderItemV::OpaqueTypedef { name: decls[i].name() };
    if i == decls.len() - 1 {
        assert(decls2.drop_last() =~= decls.drop_last());
        lemma_decl_items_similar(r1, r2, decls.drop_last());
        let p = spec_decl_items(r1, decls.drop_last())->Ok_0;
        let u1 = spec_decl_items_one(r1, decls.last())->Ok_0;
        assert(u1.2 =~= seq![td]);
        assert(u1.0 =~= Seq::<NativeGlueItemV>::empty());
        assert(u1.1 =~= Seq::<crate::glue::HostGlueItemV>::empty());
        assert(decls2.last() == mark_declared(decls[i]));
        let u2 = spec_decl_items_one(r2, decls2.last())->Ok_0;
        assert(u2.0 =~= Seq::<NativeGlueItemV>::empty());
        assert(u2.1 =~= Seq::<crate::glue::HostGlueItemV>::empty());
        assert(u2.2 =~= Seq::<HeaderItemV>::empty());
        let t2 = spec_decl_items(r2, decls2)->Ok_0;
        assert(t2.0 =~= t1.0);
        assert(t2.1 =~= t1.1);
        let pre = p.2;
        let post = Seq::<HeaderItemV>::empty();
        assert(t1.2 =~= pre + seq![td] + post);
        assert(t2.2 =~= pre + post);
    } else {
        assert(decls2.drop_last() =~= decls.drop_last().update(i, mark_declared(decls[i])));
        assert(decls.drop_last()[i] == decls[i]);
        lemma_decl_items_toggle(r1, r2, decls.drop_last(), i);
        assert(decls2.last() == decls.last());
        lemma_decl_items_one_similar(r1, r2, decls.last());
        let p1 = spec_decl_items(r1, decls.drop_last())->Ok_0;
        let p2 = spec_decl_items(r2, decls2.drop_last())->Ok_0;
        let u = spec_decl_items_one(r1, decls.last())->Ok_0;
        let t2 = spec_decl_items(r2, decls2)->Ok_0;
        assert(t2.0 =~= t1.0);
        assert(t2.1 =~= t1.1);
        let pre0 = choose|pre: Seq<HeaderItemV>, post: Seq<HeaderItemV>|
            p1.2 == pre + seq![
                HeaderItemV::OpaqueTypedef { name: decls.drop_last()[i].name() },
            ] + post && p2.2 == #[trigger] (pre + post);
        let (pre, post) = pre0;
        assert(p1.2 == pre + seq![td] + post);
        assert(p2.2 == pre + post);
        assert(t1.2 =~= pre + seq![td] + (post + u.2));
        assert(t2.2 =~= pre + (post + u.2));
    }
}

/// Idempotence of "already declared": marking a native-owned opaque type as
/// already declared removes exactly its header typedef from the output plan
/// and leaves every native-side and host-side glue item unchanged.
pub proof fn lemma_already_declared_toggle(m: BridgeModuleV, i: int)
    requires
        spec_generate_items(m) is Ok,
        0 <= i < m.types.len(),
        is_exposed_native_opaque(m.types[i], m.types[i].name()),
    ensures
        spec_generate_items(with_marked(m, i)) is Ok,
        ({
            let t1 = spec_generate_items(m)->Ok_0;
            let t2 = spec_generate_items(with_marked(m, i))->Ok_0;
            &&& t2.0 == t1.0
            &&& t2.1 == t1.1
            &&& exists|pre: Seq<HeaderItemV>, post: Seq<HeaderItemV>|
                t1.2 == pre + seq![
                    HeaderItemV::OpaqueTypedef { name: m.types[i].name() },
                ] + post && t2.2 == #[trigger] (pre + post)
        }),
{
    let m2 = with_marked(m, i);
    lemma_build_registry_toggle(m.types, i);
    let r1 = spec_build_registry(m.types)->Ok_0;
    let r2 = spec_build_registry(m2.types)->Ok_0;
    lemma_decl_items_toggle(r1, r2, m.types, i);
    lemma_fn_items_ignore_declared_flag(r1, r2, m.enabled_crate_features, m.functions);
    let d1 = spec_decl_items(r1, m.types)->Ok_0;
    let d2 = spec_decl_items(r2, m2.types)->Ok_0;
    let f1 = spec_fn_items(r1, m.enabled_crate_features, m.functions)->Ok_0;
    let t1 = spec_generate_items(m)->Ok_0;
    let t2 = spec_generate_items(m2)->Ok_0;
    assert(t2.0 =~= t1.0);
    assert(t2.1 =~= t1.1);
}


proof fn lemma_fn_items_split(
    reg: Seq<(Seq<char>, TypeDeclarationV)>,
    features: Seq<Seq<char>>,
    fns: Seq<crate::codegen::BridgeFnV>,
    k: int,
)
    requires
        0 <= k < fns.len(),
        spec_is_enabled(features, fns[k].cfg_feature),
        spec_fn_items(reg, features, fns) is Ok,
    ensures
        spec_fn_items_one(reg, fns[k]) is Ok,
        ({
            let total = spec_fn_items(reg, features, fns)->Ok_0;
            let one = spec_fn_items_one(reg, fns[k])->Ok_0;
            exists|a: Seq<NativeGlueItemV>, b: Seq<NativeGlueItemV>|
                total.0 == #[trigger] (a + one.0 + b)
        }),
    decreases fns.len(),
{
    let total = spec_fn_items(reg, features, fns)->Ok_0;
    let one = spec_fn_items_one(reg, fns[k])->Ok_0;
    let prefix = spec_fn_items(reg, features, fns.drop_last())->Ok_0;
    if k == fns.len() - 1 {
        assert(total.0 =~= prefix.0 + one.0 + Seq::<NativeGlueItemV>::empty());
    } else {
        assert(fns.drop_last()[k] == fns[k]);
        lemma_fn_items_split(reg, features, fns.drop_last(), k);
        let (a, b) = choose|a: Seq<NativeGlueItemV>, b: Seq<NativeGlueItemV>|
            prefix.0 == #[trigger] (a + one.0 + b);
        if spec_is_enabled(features, fns.last().cfg_feature) {
            let last_one = spec_fn_items_one(reg, fns.last())->Ok_0;
            assert(total.0 =~= a + one.0 + (b + last_one.0));
        } else {
            assert(total.0 == prefix.0);
        }
    }
}

proof fn lemma_decl_items_split(
    reg: Seq<(Seq<char>, TypeDeclarationV)>,
    decls: Seq<TypeDeclarationV>,
    i: int,
)
    requires
        0 <= i < decls.len(),
        spec_decl_items(reg, decls) is Ok,
    ensures
        spec_decl_items_one(reg, decls[i]) is Ok,
        ({
            let total = spec_decl_items(reg, decls)->Ok_0;
            let one = spec_decl_items_one(reg, decls[i])->Ok_0;
            exists|a: Seq<NativeGlueItemV>, b: Seq<NativeGlueItemV>|
                total.0 == #[trigger] (a + one.0 + b)
        }),
    decreases decls.len(),
{
    let total = spec_decl_items(reg, decls)->Ok_0;
    let one = spec_decl_items_one(reg, decls[i])->Ok_0;
    let prefix = spec_decl_items(reg, decls.drop_last())->Ok_0;
    if i == decls.len() - 1 {
        assert(total.0 =~= prefix.0 + one.0 + Seq::<NativeGlueItemV>::empty());
    } else {
        assert(decls.drop_last()[i] == decls[i]);
        lemma_decl_items_split(reg, decls.drop_last(), i);
        let (a, b) = choose|a: Seq<NativeGlueItemV>, b: Seq<NativeGlueItemV>|
            prefix.0 == #[trigger] (a + one.0 + b);
        let last_one = spec_decl_items_one(reg, decls.last())->Ok_0;
        assert(total.0 =~= a + one.0 + (b + last_one.0));
    }
}

/// The generated native plan contains, contiguously, the glue items of every
/// enabled boundary function — so for a host-implemented function with a
/// native-owned opaque argument, the heap-allocating wrapper and its
/// linkage declaration stand in the output.
pub proof fn lemma_generate_native_contains_fn_glue(m: BridgeModuleV, k: int)
    requires
        spec_generate_items(m) is Ok,
        0 <= k < m.functions.len(),
        spec_is_enabled(m.enabled_crate_features, m.functions[k].cfg_feature),
    ensures
        spec_fn_items_one(spec_build_registry(m.types)->Ok_0, m.functions[k]) is Ok,
        ({
            let one = spec_fn_items_one(spec_build_registry(m.types)->Ok_0, m.functions[k])->Ok_0;
            exists|a: Seq<NativeGlueItemV>, b: Seq<NativeGlueItemV>|
                spec_generate_items(m)->Ok_0.0 == #[trigger] (a + one.0 + b)
        }),
{
    let reg = spec_build_registry(m.types)->Ok_0;
    lemma_fn_items_split(reg, m.enabled_crate_features, m.functions, k);
    let one = spec_fn_items_one(reg, m.functions[k])->Ok_0;
    let d = spec_decl_items(reg, m.types)->Ok_0;
    let f = spec_fn_items(reg, m.enabled_crate_features, m.functions)->Ok_0;
    let (a, b) = choose|a: Seq<NativeGlueItemV>, b: Seq<NativeGlueItemV>|
        f.0 == #[trigger] (a + one.0 + b);
    assert(spec_generate_items(m)->Ok_0.0 =~= (d.0 + a) + one.0 + b);
}

/// The generated native plan contains, contiguously, the per-type glue of
/// every declaration — so for a host-owned opaque type, the pointer-wrapper
/// struct with its destructor hook and the free-trampoline linkage
/// declaration stand in the output.
pub proof fn lemma_generate_native_contains_decl_glue(m: BridgeModuleV, i: int)
    requires
        spec_generate_items(m) is Ok,
        0 <= i < m.types.len(),
    ensures
        spec_decl_items_one(spec_build_registry(m.types)->Ok_0, m.types[i]) is Ok,
        ({
            let one = spec_decl_items_one(spec_build_registry(m.types)->Ok_0, m.types[i])->Ok_0;
            exists|a: Seq<NativeGlueItemV>, b: Seq<NativeGlueItemV>|
                spec_generate_items(m)->Ok_0.0 == #[trigger] (a + one.0 + b)
        }),
{
    let reg = spec_build_registry(m.types)->Ok_0;
    lemma_decl_items_split(reg, m.types, i);
    let one = spec_decl_items_one(reg, m.types[i])->Ok_0;
    let d = spec_decl_items(reg, m.types)->Ok_0;
    let f = spec_fn_items(reg, m.enabled_crate_features, m.functions)->Ok_0;
    let (a, b) = choose|a: Seq<NativeGlueItemV>, b: Seq<NativeGlueItemV>|
        d.0 == #[trigger] (a + one.0 + b);
    assert(spec_generate_items(m)->Ok_0.0 =~= a + one.0 + (b + f.0));
}

} // verus!
