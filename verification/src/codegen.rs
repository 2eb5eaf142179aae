use vstd::prelude::*;
use vstd::string::StringExecFns;
use crate::bridged_type::{BridgedType, BridgedTypeV, resolve, spec_resolve};
use crate::error::{Error, ErrorV};
use crate::glue::{HeaderItem, HeaderItemV, HostGlueItem, HostGlueItemV, NativeGlueItem,
    NativeGlueItemV, ParamText, ParamTextV, join_texts, spec_join, text_views};
use crate::render::{render_header, render_host, render_native, spec_render_header,
    spec_render_host, spec_render_native};
use crate::type_declarations::{HostLang, StructField, StructFieldV, StructSwiftRepr,
    SharedTypeDeclaration, SharedTypeDeclarationV, TypeDeclaration, TypeDeclarationV,
    TypeDeclarations, TypeExpr, TypeExprV, spec_free_func_name, spec_free_link_name,
    spec_insert_collision, spec_lookup};
use crate::type_text::{c_field_type_text, ffi_to_native_expr, native_ffi_type_text,
    native_to_ffi_expr, native_user_type_text, spec_c_field_type_text, spec_ffi_to_native_expr,
    spec_native_ffi_type_text, spec_native_to_ffi_expr, spec_native_user_type_text,
    spec_swift_ffi_type_text, spec_swift_to_user_expr, spec_swift_user_to_ffi_expr,
    spec_swift_user_type_text, swift_ffi_type_text, swift_to_user_expr, swift_user_to_ffi_expr,
    swift_user_type_text};

verus! {

/// The string-literal symbol name of a generated function trampoline:
/// boundary prefix, `$`, the function name.
pub open spec fn spec_fn_link_name(name: Seq<char>) -> Seq<char> {
    crate::spec_bridge_prefix() + "$"@ + name
}

/// The bare-identifier symbol name of a generated function trampoline:
/// boundary prefix, the function name.
pub open spec fn spec_fn_ffi_name(name: Seq<char>) -> Seq<char> {
    crate::spec_bridge_prefix() + name
}

pub fn fn_link_name(name: &String) -> (r: String)
    ensures
        r@ == spec_fn_link_name(name@),
{
    let mut out = crate::bridge_prefix();
    out.append("$");
    out.append(name.as_str());
    out
}

pub fn fn_ffi_name(name: &String) -> (r: String)
    ensures
        r@ == spec_fn_ffi_name(name@),
{
    let mut out = crate::bridge_prefix();
    out.append(name.as_str());
    out
}

/// One parameter of a declared boundary function.
pub struct Param {
    pub name: String,
    pub ty: TypeExpr,
}

pub ghost struct ParamV {
    pub name: Seq<char>,
    pub ty: TypeExprV,
}

impl View for Param {
    type V = ParamV;

    open spec fn view(&self) -> ParamV {
        ParamV { name: self.name@, ty: self.ty@ }
    }
}

/// One declared boundary function: its name, parameters, optional return
/// type, the side that implements it, and an optional feature gate.
pub struct BridgeFn {
    pub name: String,
    pub params: Vec<Param>,
    pub ret: Option<TypeExpr>,
    pub host_lang: HostLang,
    pub cfg_feature: Option<String>,
}

pub ghost struct BridgeFnV {
    pub name: Seq<char>,
    pub params: Seq<ParamV>,
    pub ret: Option<TypeExprV>,
    pub host_lang: HostLang,
    pub cfg_feature: Option<Seq<char>>,
}

impl View for BridgeFn {
    type V = BridgeFnV;

    open spec fn view(&self) -> BridgeFnV {
        BridgeFnV {
            name: self.name@,
            params: self.params@.map_values(|p: Param| p@),
            ret: match self.ret {
                Some(t) => Some(t@),
                None => None,
            },
            host_lang: self.host_lang,
            cfg_feature: match self.cfg_feature {
                Some(f) => Some(f@),
                None => None,
            },
        }
    }
}

/// A parsed bridge module: the ordered type declarations, the boundary
/// functions, and the names of the crate features enabled for this build.
pub struct BridgeModule {
    pub types: Vec<TypeDeclaration>,
    pub functions: Vec<BridgeFn>,
    pub enabled_crate_features: Vec<String>,
}

pub ghost struct BridgeModuleV {
    pub types: Seq<TypeDeclarationV>,
    pub functions: Seq<BridgeFnV>,
    pub enabled_crate_features: Seq<Seq<char>>,
}

impl View for BridgeModule {
    type V = BridgeModuleV;

    open spec fn view(&self) -> BridgeModuleV {
        BridgeModuleV {
            types: self.types@.map_values(|d: TypeDeclaration| d@),
            functions: self.functions@.map_values(|f: BridgeFn| f@),
            enabled_crate_features: text_views(self.enabled_crate_features@),
        }
    }
}

/// The view of an optional bridged type.
pub open spec fn opt_bridged_view(o: Option<BridgedType>) -> Option<BridgedTypeV> {
    match o {
        Some(b) => Some(b@),
        None => None,
    }
}

/// The view of an optional text.
pub open spec fn opt_text_view(o: Option<String>) -> Option<Seq<char>> {
    match o {
        Some(t) => Some(t@),
        None => None,
    }
}

/// Whether a declaration gated on `gate` takes part in this build.
pub open spec fn spec_is_enabled(features: Seq<Seq<char>>, gate: Option<Seq<char>>) -> bool {
    match gate {
        None => true,
        Some(f) => exists|j: int| 0 <= j < features.len() && features[j] == f,
    }
}

fn is_enabled(features: &Vec<String>, gate: &Option<String>) -> (r: bool)
    ensures
        r == spec_is_enabled(text_views(features@), opt_text_view(*gate)),
{
    let gate_ref = gate.as_ref();
    match gate_ref {
        None => true,
        Some(f) => {
            let mut i: usize = 0;
            while i < features.len()
                invariant
                    i <= features.len(),
                    opt_text_view(*gate) == Some(f@),
                    forall|j: int| 0 <= j < i ==> text_views(features@)[j] != f@,
                decreases features.len() - i,
            {
                if features[i] == *f {
                    proof {
                        assert(text_views(features@)[i as int] == f@);
                    }
                    return true;
                }
                i = i + 1;
            }
            false
        },
    }
}

/// Builds the registry from the declarations in order: the first collision
/// aborts the build.
pub open spec fn spec_build_registry(decls: Seq<TypeDeclarationV>) -> Result<
    Seq<(Seq<char>, TypeDeclarationV)>,
    ErrorV,
>
    decreases decls.len(),
{
    if decls.len() == 0 {
        Ok(Seq::empty())
    } else {
        match spec_build_registry(decls.drop_last()) {
            Err(e) => Err(e),
            Ok(reg) => {
                let d = decls.last();
                match spec_lookup(reg, d.name()) {
                    Some(existing) => Err(spec_insert_collision(existing, d.name(), d)),
                    None => Ok(reg.push((d.name(), d))),
                }
            },
        }
    }
}

pub fn build_registry(types: &Vec<TypeDeclaration>) -> (r: Result<TypeDeclarations, Error>)
    ensures
        match r {
            Ok(reg) => spec_build_registry(types@.map_values(|d: TypeDeclaration| d@)) == Ok::<
                _,
                ErrorV,
            >(reg@),
            Err(e) => spec_build_registry(types@.map_values(|d: TypeDeclaration| d@)) == Err::<
                Seq<(Seq<char>, TypeDeclarationV)>,
                _,
            >(e@),
        },
{
    let ghost dvs = types@.map_values(|d: TypeDeclaration| d@);
    let mut reg = TypeDeclarations::new();
    let mut i: usize = 0;
    proof {
        assert(dvs.take(0) =~= Seq::<TypeDeclarationV>::empty());
    }
    while i < types.len()
        invariant
            i <= types.len(),
            dvs == types@.map_values(|d: TypeDeclaration| d@),
            spec_build_registry(dvs.take(i as int)) == Ok::<_, ErrorV>(reg@),
        decreases types.len() - i,
    {
        proof {
            assert(dvs.take(i + 1 as int).drop_last() =~= dvs.take(i as int));
            assert(dvs.take(i + 1 as int).last() == dvs[i as int]);
        }
        let name = types[i].name().clone();
        let decl = types[i].clone();
        match reg.insert(name, decl) {
            Ok(()) => {},
            Err(e) => {
                proof {
                    lemma_build_registry_err_prefix(dvs, i + 1 as int);
                }
                return Err(e);
            },
        }
        i = i + 1;
    }
    proof {
        assert(dvs.take(types@.len() as int) =~= dvs);
    }
    Ok(reg)
}

/// Once the registry build fails on a prefix, it fails the same way on the
/// whole declaration list.
proof fn lemma_build_registry_err_prefix(decls: Seq<TypeDeclarationV>, j: int)
    requires
        0 <= j <= decls.len(),
        spec_build_registry(decls.take(j)) is Err,
    ensures
        spec_build_registry(decls) == spec_build_registry(decls.take(j)),
    decreases decls.len() - j,
{
    if j < decls.len() {
        assert(decls.take(j + 1).drop_last() =~= decls.take(j));
        lemma_build_registry_err_prefix(decls, j + 1);
    } else {
        assert(decls.take(j) =~= decls);
    }
}

/// Resolves a sequence of (name, type expression) pairs in order; the first
/// unresolvable expression aborts resolution.
pub open spec fn spec_resolve_pairs(
    reg: Seq<(Seq<char>, TypeDeclarationV)>,
    pairs: Seq<(Seq<char>, TypeExprV)>,
) -> Result<Seq<(Seq<char>, BridgedTypeV)>, ErrorV>
    decreases pairs.len(),
{
    if pairs.len() == 0 {
        Ok(Seq::empty())
    } else {
        match spec_resolve_pairs(reg, pairs.drop_last()) {
            Err(e) => Err(e),
            Ok(rs) => match spec_resolve(reg, pairs.last().1) {
                Err(e) => Err(e),
                Ok(b) => Ok(rs.push((pairs.last().0, b))),
            },
        }
    }
}

proof fn lemma_resolve_pairs_err_prefix(
    reg: Seq<(Seq<char>, TypeDeclarationV)>,
    pairs: Seq<(Seq<char>, TypeExprV)>,
    j: int,
)
    requires
        0 <= j <= pairs.len(),
        spec_resolve_pairs(reg, pairs.take(j)) is Err,
    ensures
        spec_resolve_pairs(reg, pairs) == spec_resolve_pairs(reg, pairs.take(j)),
    decreases pairs.len() - j,
{
    if j < pairs.len() {
        assert(pairs.take(j + 1).drop_last() =~= pairs.take(j));
        lemma_resolve_pairs_err_prefix(reg, pairs, j + 1);
    } else {
        assert(pairs.take(j) =~= pairs);
    }
}

pub open spec fn param_pairs(params: Seq<ParamV>) -> Seq<(Seq<char>, TypeExprV)> {
    params.map_values(|p: ParamV| (p.name, p.ty))
}

pub open spec fn field_pairs(fields: Seq<StructFieldV>) -> Seq<(Seq<char>, TypeExprV)> {
    fields.map_values(|f: StructFieldV| (f.name, f.ty))
}

pub open spec fn resolved_views(s: Seq<(String, BridgedType)>) -> Seq<(Seq<char>, BridgedTypeV)> {
    s.map_values(|p: (String, BridgedType)| (p.0@, p.1@))
}

fn resolve_params(registry: &TypeDeclarations, params: &Vec<Param>) -> (r: Result<
    Vec<(String, BridgedType)>,
    Error,
>)
    ensures
        match r {
            Ok(v) => spec_resolve_pairs(registry@, param_pairs(params@.map_values(|p: Param| p@)))
                == Ok::<_, ErrorV>(resolved_views(v@)),
            Err(e) => spec_resolve_pairs(registry@, param_pairs(params@.map_values(|p: Param| p@)))
                == Err::<Seq<(Seq<char>, BridgedTypeV)>, _>(e@),
        },
{
    let ghost pvs = param_pairs(params@.map_values(|p: Param| p@));
    let mut out: Vec<(String, BridgedType)> = Vec::new();
    let mut i: usize = 0;
    proof {
        assert(pvs.take(0) =~= Seq::<(Seq<char>, TypeExprV)>::empty());
        assert(resolved_views(out@) =~= Seq::<(Seq<char>, BridgedTypeV)>::empty());
    }
    while i < params.len()
        invariant
            i <= params.len(),
            pvs == param_pairs(params@.map_values(|p: Param| p@)),
            spec_resolve_pairs(registry@, pvs.take(i as int)) == Ok::<_, ErrorV>(
                resolved_views(out@),
            ),
        decreases params.len() - i,
    {
        proof {
            assert(pvs.take(i + 1 as int).drop_last() =~= pvs.take(i as int));
            assert(pvs.take(i + 1 as int).last() == pvs[i as int]);
        }
        match resolve(registry, &params[i].ty) {
            Ok(b) => {
                let ghost prev = out@;
                let ghost bv = b@;
                out.push((params[i].name.clone(), b));
                proof {
                    assert(resolved_views(out@) =~= resolved_views(prev).push(
                        (pvs[i as int].0, bv),
                    ));
                }
            },
            Err(e) => {
                proof {
                    lemma_resolve_pairs_err_prefix(registry@, pvs, i + 1 as int);
                }
                return Err(e);
            },
        }
        i = i + 1;
    }
    proof {
        assert(pvs.take(params@.len() as int) =~= pvs);
    }
    Ok(out)
}

fn resolve_fields(registry: &TypeDeclarations, fields: &Vec<StructField>) -> (r: Result<
    Vec<(String, BridgedType)>,
    Error,
>)
    ensures
        match r {
            Ok(v) => spec_resolve_pairs(
                registry@,
                field_pairs(fields@.map_values(|f: StructField| f@)),
            ) == Ok::<_, ErrorV>(resolved_views(v@)),
            Err(e) => spec_resolve_pairs(
                registry@,
                field_pairs(fields@.map_values(|f: StructField| f@)),
            ) == Err::<Seq<(Seq<char>, BridgedTypeV)>, _>(e@),
        },
{
    let ghost pvs = field_pairs(fields@.map_values(|f: StructField| f@));
    let mut out: Vec<(String, BridgedType)> = Vec::new();
    let mut i: usize = 0;
    proof {
        assert(pvs.take(0) =~= Seq::<(Seq<char>, TypeExprV)>::empty());
        assert(resolved_views(out@) =~= Seq::<(Seq<char>, BridgedTypeV)>::empty());
    }
    while i < fields.len()
        invariant
            i <= fields.len(),
            pvs == field_pairs(fields@.map_values(|f: StructField| f@)),
            spec_resolve_pairs(registry@, pvs.take(i as int)) == Ok::<_, ErrorV>(
                resolved_views(out@),
            ),
        decreases fields.len() - i,
    {
        proof {
            assert(pvs.take(i + 1 as int).drop_last() =~= pvs.take(i as int));
            assert(pvs.take(i + 1 as int).last() == pvs[i as int]);
        }
        match resolve(registry, &fields[i].ty) {
            Ok(b) => {
                let ghost prev = out@;
                let ghost bv = b@;
                out.push((fields[i].name.clone(), b));
                proof {
                    assert(resolved_views(out@) =~= resolved_views(prev).push(
                        (pvs[i as int].0, bv),
                    ));
                }
            },
            Err(e) => {
                proof {
                    lemma_resolve_pairs_err_prefix(registry@, pvs, i + 1 as int);
                }
                return Err(e);
            },
        }
        i = i + 1;
    }
    proof {
        assert(pvs.take(fields@.len() as int) =~= pvs);
    }
    Ok(out)
}


/// Views of glue item sequences.
pub open spec fn native_views(s: Seq<NativeGlueItem>) -> Seq<NativeGlueItemV> {
    s.map_values(|it: NativeGlueItem| it@)
}

pub open spec fn host_views(s: Seq<HostGlueItem>) -> Seq<HostGlueItemV> {
    s.map_values(|it: HostGlueItem| it@)
}

pub open spec fn header_views(s: Seq<HeaderItem>) -> Seq<HeaderItemV> {
    s.map_values(|it: HeaderItem| it@)
}

/// Resolves an optional return type expression.
pub open spec fn spec_resolve_ret(
    reg: Seq<(Seq<char>, TypeDeclarationV)>,
    ret: Option<TypeExprV>,
) -> Result<Option<BridgedTypeV>, ErrorV> {
    match ret {
        None => Ok(None),
        Some(t) => match spec_resolve(reg, t) {
            Ok(b) => Ok(Some(b)),
            Err(e) => Err(e),
        },
    }
}

/// Parameter texts for the native-side public wrapper.
pub open spec fn spec_native_user_params(rs: Seq<(Seq<char>, BridgedTypeV)>) -> Seq<ParamTextV> {
    rs.map_values(
        |p: (Seq<char>, BridgedTypeV)| ParamTextV { name: p.0, ty: spec_native_user_type_text(p.1) },
    )
}

/// Parameter texts for the native-side linkage declaration or export.
pub open spec fn spec_native_ffi_params(rs: Seq<(Seq<char>, BridgedTypeV)>) -> Seq<ParamTextV> {
    rs.map_values(
        |p: (Seq<char>, BridgedTypeV)| ParamTextV { name: p.0, ty: spec_native_ffi_type_text(p.1) },
    )
}

/// Parameter texts for the host-side trampoline.
pub open spec fn spec_swift_ffi_params(rs: Seq<(Seq<char>, BridgedTypeV)>) -> Seq<ParamTextV> {
    rs.map_values(
        |p: (Seq<char>, BridgedTypeV)| ParamTextV { name: p.0, ty: spec_swift_ffi_type_text(p.1) },
    )
}

/// Parameter texts for the host-side public caller.
pub open spec fn spec_swift_user_params(rs: Seq<(Seq<char>, BridgedTypeV)>) -> Seq<ParamTextV> {
    rs.map_values(
        |p: (Seq<char>, BridgedTypeV)| ParamTextV { name: p.0, ty: spec_swift_user_type_text(p.1) },
    )
}

/// Field texts for the ABI-header struct mirror.
pub open spec fn spec_c_params(rs: Seq<(Seq<char>, BridgedTypeV)>) -> Seq<ParamTextV> {
    rs.map_values(
        |p: (Seq<char>, BridgedTypeV)| ParamTextV { name: p.0, ty: spec_c_field_type_text(p.1) },
    )
}

/// The call the native wrapper makes across the boundary.
pub open spec fn spec_wrapper_call(name: Seq<char>, rs: Seq<(Seq<char>, BridgedTypeV)>) -> Seq<
    char,
> {
    spec_fn_ffi_name(name) + "("@ + spec_join(
        rs.map_values(|p: (Seq<char>, BridgedTypeV)| spec_native_to_ffi_expr(p.1, p.0)),
        ", "@,
    ) + ")"@
}

/// The native wrapper's body: the boundary call, with the returned boundary
/// value converted back to the user-facing native value.
pub open spec fn spec_wrapper_body(
    name: Seq<char>,
    rs: Seq<(Seq<char>, BridgedTypeV)>,
    ret: Option<BridgedTypeV>,
) -> Seq<char> {
    "unsafe { "@ + (match ret {
        None => spec_wrapper_call(name, rs),
        Some(b) => spec_ffi_to_native_expr(b, spec_wrapper_call(name, rs)),
    }) + " }"@
}

/// The call the host trampoline makes into the user function.
pub open spec fn spec_tramp_call(name: Seq<char>, rs: Seq<(Seq<char>, BridgedTypeV)>) -> Seq<
    char,
> {
    name + "("@ + spec_join(
        rs.map_values(
            |p: (Seq<char>, BridgedTypeV)| p.0 + ": "@ + spec_swift_to_user_expr(p.1, p.0),
        ),
        ", "@,
    ) + ")"@
}

/// The host trampoline's body: reconstruct user values, call the user
/// function, and convert any result back to its boundary form.
pub open spec fn spec_tramp_body(
    name: Seq<char>,
    rs: Seq<(Seq<char>, BridgedTypeV)>,
    ret: Option<BridgedTypeV>,
) -> Seq<char> {
    match ret {
        None => spec_tramp_call(name, rs),
        Some(b) => "return "@ + spec_swift_user_to_ffi_expr(b, spec_tramp_call(name, rs)),
    }
}

/// The call a native export makes into the user's native function.
pub open spec fn spec_export_call(name: Seq<char>, rs: Seq<(Seq<char>, BridgedTypeV)>) -> Seq<
    char,
> {
    "super::"@ + name + "("@ + spec_join(
        rs.map_values(|p: (Seq<char>, BridgedTypeV)| spec_ffi_to_native_expr(p.1, p.0)),
        ", "@,
    ) + ")"@
}

/// The native export's body.
pub open spec fn spec_export_body(
    name: Seq<char>,
    rs: Seq<(Seq<char>, BridgedTypeV)>,
    ret: Option<BridgedTypeV>,
) -> Seq<char> {
    match ret {
        None => spec_export_call(name, rs),
        Some(b) => spec_native_to_ffi_expr(b, spec_export_call(name, rs)),
    }
}

/// The call a host-side public function makes into a native export.
pub open spec fn spec_caller_call(name: Seq<char>, rs: Seq<(Seq<char>, BridgedTypeV)>) -> Seq<
    char,
> {
    spec_fn_ffi_name(name) + "("@ + spec_join(
        rs.map_values(|p: (Seq<char>, BridgedTypeV)| spec_swift_user_to_ffi_expr(p.1, p.0)),
        ", "@,
    ) + ")"@
}

/// The host-side public caller's body.
pub open spec fn spec_caller_body(
    name: Seq<char>,
    rs: Seq<(Seq<char>, BridgedTypeV)>,
    ret: Option<BridgedTypeV>,
) -> Seq<char> {
    match ret {
        None => spec_caller_call(name, rs),
        Some(b) => "return "@ + spec_swift_to_user_expr(b, spec_caller_call(name, rs)),
    }
}

/// The native-side glue one boundary function contributes.  A function
/// implemented on the host side gets a public wrapper plus a linkage
/// declaration; one implemented on the native side gets an export.
pub open spec fn spec_fn_native_items(
    name: Seq<char>,
    host_lang: HostLang,
    rs: Seq<(Seq<char>, BridgedTypeV)>,
    ret: Option<BridgedTypeV>,
) -> Seq<NativeGlueItemV> {
    if host_lang == HostLang::Swift {
        seq![
            NativeGlueItemV::WrapperFn {
                name: name,
                params: spec_native_user_params(rs),
                ret: match ret {
                    None => None,
                    Some(b) => Some(spec_native_user_type_text(b)),
                },
                body: spec_wrapper_body(name, rs, ret),
            },
            NativeGlueItemV::LinkFn {
                link_name: spec_fn_link_name(name),
                fn_name: spec_fn_ffi_name(name),
                params: spec_native_ffi_params(rs),
                ret: match ret {
                    None => None,
                    Some(b) => Some(spec_native_ffi_type_text(b)),
                },
            },
        ]
    } else {
        seq![
            NativeGlueItemV::ExportFn {
                export_name: spec_fn_link_name(name),
                fn_name: spec_fn_ffi_name(name),
                params: spec_native_ffi_params(rs),
                ret: match ret {
                    None => None,
                    Some(b) => Some(spec_native_ffi_type_text(b)),
                },
                body: spec_export_body(name, rs, ret),
            },
        ]
    }
}

/// The host-side glue one boundary function contributes.
pub open spec fn spec_fn_host_items(
    name: Seq<char>,
    host_lang: HostLang,
    rs: Seq<(Seq<char>, BridgedTypeV)>,
    ret: Option<BridgedTypeV>,
) -> Seq<HostGlueItemV> {
    if host_lang == HostLang::Swift {
        seq![
            HostGlueItemV::Trampoline {
                cdecl_name: spec_fn_link_name(name),
                fn_name: spec_fn_ffi_name(name),
                params: spec_swift_ffi_params(rs),
                ret: match ret {
                    None => None,
                    Some(b) => Some(spec_swift_ffi_type_text(b)),
                },
                body: spec_tramp_body(name, rs, ret),
            },
        ]
    } else {
        seq![
            HostGlueItemV::CallerFn {
                name: name,
                params: spec_swift_user_params(rs),
                ret: match ret {
                    None => None,
                    Some(b) => Some(spec_swift_user_type_text(b)),
                },
                body: spec_caller_body(name, rs, ret),
            },
        ]
    }
}

/// Everything one boundary function contributes, or the first resolution
/// error in its signature.
pub open spec fn spec_fn_items_one(reg: Seq<(Seq<char>, TypeDeclarationV)>, f: BridgeFnV) -> Result<
    (Seq<NativeGlueItemV>, Seq<HostGlueItemV>),
    ErrorV,
> {
    match spec_resolve_pairs(reg, param_pairs(f.params)) {
        Err(e) => Err(e),
        Ok(rs) => match spec_resolve_ret(reg, f.ret) {
            Err(e) => Err(e),
            Ok(ret) => Ok(
                (
                    spec_fn_native_items(f.name, f.host_lang, rs, ret),
                    spec_fn_host_items(f.name, f.host_lang, rs, ret),
                ),
            ),
        },
    }
}

/// Everything one type declaration contributes to the three artifacts, or
/// the first resolution error among a shared struct's fields.
pub open spec fn spec_decl_items_one(
    reg: Seq<(Seq<char>, TypeDeclarationV)>,
    d: TypeDeclarationV,
) -> Result<(Seq<NativeGlueItemV>, Seq<HostGlueItemV>, Seq<HeaderItemV>), ErrorV> {
    match d {
        TypeDeclarationV::Shared(SharedTypeDeclarationV::Struct(s)) => {
            match spec_resolve_pairs(reg, field_pairs(s.fields)) {
                Err(e) => Err(e),
                Ok(rf) => Ok(
                    (
                        seq![
                            NativeGlueItemV::StructMirror {
                                name: s.name,
                                fields: spec_native_user_params(rf),
                            },
                        ],
                        seq![
                            HostGlueItemV::StructMirror {
                                name: s.name,
                                fields: spec_swift_user_params(rf),
                            },
                        ],
                        if s.swift_repr == StructSwiftRepr::Structure {
                            seq![
                                HeaderItemV::StructMirror {
                                    name: s.name,
                                    fields: spec_c_params(rf),
                                },
                            ]
                        } else {
                            Seq::empty()
                        },
                    ),
                ),
            }
        },
        TypeDeclarationV::Shared(SharedTypeDeclarationV::Enum(e)) => Ok(
            (
                seq![NativeGlueItemV::EnumMirror { name: e.name, variants: e.variants }],
                seq![HostGlueItemV::EnumMirror { name: e.name, variants: e.variants }],
                seq![HeaderItemV::EnumMirror { name: e.name, variants: e.variants }],
            ),
        ),
        TypeDeclarationV::Opaque(o) => {
            if o.host_lang == HostLang::Rust {
                Ok(
                    (
                        Seq::empty(),
                        Seq::empty(),
                        if o.already_declared {
                            Seq::empty()
                        } else {
                            seq![HeaderItemV::OpaqueTypedef { name: o.ty }]
                        },
                    ),
                )
            } else {
                Ok(
                    (
                        if o.already_declared {
                            Seq::empty()
                        } else {
                            seq![
                                NativeGlueItemV::HandleStruct {
                                    name: o.ty,
                                    free_func: spec_free_func_name(o.ty),
                                },
                                NativeGlueItemV::LinkFn {
                                    link_name: spec_free_link_name(o.ty),
                                    fn_name: spec_free_func_name(o.ty),
                                    params: seq![
                                        ParamTextV { name: "this"@, ty: "*mut std::ffi::c_void"@ },
                                    ],
                                    ret: None,
                                },
                            ]
                        },
                        Seq::empty(),
                        Seq::empty(),
                    ),
                )
            }
        },
    }
}

/// The declarations' contributions, concatenated in declaration order.
pub open spec fn spec_decl_items(
    reg: Seq<(Seq<char>, TypeDeclarationV)>,
    decls: Seq<TypeDeclarationV>,
) -> Result<(Seq<NativeGlueItemV>, Seq<HostGlueItemV>, Seq<HeaderItemV>), ErrorV>
    decreases decls.len(),
{
    if decls.len() == 0 {
        Ok((Seq::empty(), Seq::empty(), Seq::empty()))
    } else {
        match spec_decl_items(reg, decls.drop_last()) {
            Err(e) => Err(e),
            Ok(t) => match spec_decl_items_one(reg, decls.last()) {
                Err(e) => Err(e),
                Ok(u) => Ok((t.0 + u.0, t.1 + u.1, t.2 + u.2)),
            },
        }
    }
}

proof fn lemma_decl_items_err_prefix(
    reg: Seq<(Seq<char>, TypeDeclarationV)>,
    decls: Seq<TypeDeclarationV>,
    j: int,
)
    requires
        0 <= j <= decls.len(),
        spec_decl_items(reg, decls.take(j)) is Err,
    ensures
        spec_decl_items(reg, decls) == spec_decl_items(reg, decls.take(j)),
    decreases decls.len() - j,
{
    if j < decls.len() {
        assert(decls.take(j + 1).drop_last() =~= decls.take(j));
        lemma_decl_items_err_prefix(reg, decls, j + 1);
    } else {
        assert(decls.take(j) =~= decls);
    }
}

/// The enabled functions' contributions, concatenated in declaration order;
/// a function whose feature gate is off is compiled out entirely.
pub open spec fn spec_fn_items(
    reg: Seq<(Seq<char>, TypeDeclarationV)>,
    features: Seq<Seq<char>>,
    fns: Seq<BridgeFnV>,
) -> Result<(Seq<NativeGlueItemV>, Seq<HostGlueItemV>), ErrorV>
    decreases fns.len(),
{
    if fns.len() == 0 {
        Ok((Seq::empty(), Seq::empty()))
    } else {
        match spec_fn_items(reg, features, fns.drop_last()) {
            Err(e) => Err(e),
            Ok(t) => {
                if !spec_is_enabled(features, fns.last().cfg_feature) {
                    Ok(t)
                } else {
                    match spec_fn_items_one(reg, fns.last()) {
                        Err(e) => Err(e),
                        Ok(u) => Ok((t.0 + u.0, t.1 + u.1)),
                    }
                }
            },
        }
    }
}

proof fn lemma_fn_items_err_prefix(
    reg: Seq<(Seq<char>, TypeDeclarationV)>,
    features: Seq<Seq<char>>,
    fns: Seq<BridgeFnV>,
    j: int,
)
    requires
        0 <= j <= fns.len(),
        spec_fn_items(reg, features, fns.take(j)) is Err,
    ensures
        spec_fn_items(reg, features, fns) == spec_fn_items(reg, features, fns.take(j)),
    decreases fns.len() - j,
{
    if j < fns.len() {
        assert(fns.take(j + 1).drop_last() =~= fns.take(j));
        lemma_fn_items_err_prefix(reg, features, fns, j + 1);
    } else {
        assert(fns.take(j) =~= fns);
    }
}

/// The three artifacts' emission plans: every declaration's contribution in
/// declaration order, then every enabled function's contribution in
/// declaration order.
pub open spec fn spec_generate_items(m: BridgeModuleV) -> Result<
    (Seq<NativeGlueItemV>, Seq<HostGlueItemV>, Seq<HeaderItemV>),
    ErrorV,
> {
    match spec_build_registry(m.types) {
        Err(e) => Err(e),
        Ok(reg) => match spec_decl_items(reg, m.types) {
            Err(e) => Err(e),
            Ok(t) => match spec_fn_items(reg, m.enabled_crate_features, m.functions) {
                Err(e) => Err(e),
                Ok(u) => Ok((t.0 + u.0, t.1 + u.1, t.2)),
            },
        },
    }
}

/// The three generated artifact texts, or the single fatal error that
/// suppressed all of them.
pub open spec fn spec_generate(m: BridgeModuleV) -> Result<
    (Seq<char>, Seq<char>, Seq<char>),
    ErrorV,
> {
    match spec_generate_items(m) {
        Err(e) => Err(e),
        Ok(t) => Ok((spec_render_native(t.0), spec_render_host(t.1), spec_render_header(t.2))),
    }
}


fn native_user_params(rs: &Vec<(String, BridgedType)>) -> (r: Vec<ParamText>)
    ensures
        crate::glue::param_views(r@) == spec_native_user_params(resolved_views(rs@)),
{
    let mut out: Vec<ParamText> = Vec::new();
    let mut i: usize = 0;
    while i < rs.len()
        invariant
            i <= rs.len(),
            out.len() == i,
            forall|j: int| 0 <= j < i ==> out@[j]@ == spec_native_user_params(
                resolved_views(rs@),
            )[j],
        decreases rs.len() - i,
    {
        out.push(ParamText { name: rs[i].0.clone(), ty: native_user_type_text(&rs[i].1) });
        i = i + 1;
    }
    proof {
        assert(crate::glue::param_views(out@) =~= spec_native_user_params(resolved_views(rs@)));
    }
    out
}

fn native_ffi_params(rs: &Vec<(String, BridgedType)>) -> (r: Vec<ParamText>)
    ensures
        crate::glue::param_views(r@) == spec_native_ffi_params(resolved_views(rs@)),
{
    let mut out: Vec<ParamText> = Vec::new();
    let mut i: usize = 0;
    while i < rs.len()
        invariant
            i <= rs.len(),
            out.len() == i,
            forall|j: int| 0 <= j < i ==> out@[j]@ == spec_native_ffi_params(
                resolved_views(rs@),
            )[j],
        decreases rs.len() - i,
    {
        out.push(ParamText { name: rs[i].0.clone(), ty: native_ffi_type_text(&rs[i].1) });
        i = i + 1;
    }
    proof {
        assert(crate::glue::param_views(out@) =~= spec_native_ffi_params(resolved_views(rs@)));
    }
    out
}

fn swift_ffi_params(rs: &Vec<(String, BridgedType)>) -> (r: Vec<ParamText>)
    ensures
        crate::glue::param_views(r@) == spec_swift_ffi_params(resolved_views(rs@)),
{
    let mut out: Vec<ParamText> = Vec::new();
    let mut i: usize = 0;
    while i < rs.len()
        invariant
            i <= rs.len(),
            out.len() == i,
            forall|j: int| 0 <= j < i ==> out@[j]@ == spec_swift_ffi_params(
                resolved_views(rs@),
            )[j],
        decreases rs.len() - i,
    {
        out.push(ParamText { name: rs[i].0.clone(), ty: swift_ffi_type_text(&rs[i].1) });
        i = i + 1;
    }
    proof {
        assert(crate::glue::param_views(out@) =~= spec_swift_ffi_params(resolved_views(rs@)));
    }
    out
}

fn swift_user_params(rs: &Vec<(String, BridgedType)>) -> (r: Vec<ParamText>)
    ensures
        crate::glue::param_views(r@) == spec_swift_user_params(resolved_views(rs@)),
{
    let mut out: Vec<ParamText> = Vec::new();
    let mut i: usize = 0;
    while i < rs.len()
        invariant
            i <= rs.len(),
            out.len() == i,
            forall|j: int| 0 <= j < i ==> out@[j]@ == spec_swift_user_params(
                resolved_views(rs@),
            )[j],
        decreases rs.len() - i,
    {
        out.push(ParamText { name: rs[i].0.clone(), ty: swift_user_type_text(&rs[i].1) });
        i = i + 1;
    }
    proof {
        assert(crate::glue::param_views(out@) =~= spec_swift_user_params(resolved_views(rs@)));
    }
    out
}

fn c_params(rs: &Vec<(String, BridgedType)>) -> (r: Vec<ParamText>)
    ensures
        crate::glue::param_views(r@) == spec_c_params(resolved_views(rs@)),
{
    let mut out: Vec<ParamText> = Vec::new();
    let mut i: usize = 0;
    while i < rs.len()
        invariant
            i <= rs.len(),
            out.len() == i,
            forall|j: int| 0 <= j < i ==> out@[j]@ == spec_c_params(resolved_views(rs@))[j],
        decreases rs.len() - i,
    {
        out.push(ParamText { name: rs[i].0.clone(), ty: c_field_type_text(&rs[i].1) });
        i = i + 1;
    }
    proof {
        assert(crate::glue::param_views(out@) =~= spec_c_params(resolved_views(rs@)));
    }
    out
}

fn wrapper_call(name: &String, rs: &Vec<(String, BridgedType)>) -> (r: String)
    ensures
        r@ == spec_wrapper_call(name@, resolved_views(rs@)),
{
    let mut parts: Vec<String> = Vec::new();
    let mut i: usize = 0;
    while i < rs.len()
        invariant
            i <= rs.len(),
            parts.len() == i,
            forall|j: int| 0 <= j < i ==> parts@[j]@ == resolved_views(rs@).map_values(
                |p: (Seq<char>, BridgedTypeV)| spec_native_to_ffi_expr(p.1, p.0),
            )[j],
        decreases rs.len() - i,
    {
        parts.push(native_to_ffi_expr(&rs[i].1, &rs[i].0));
        i = i + 1;
    }
    proof {
        assert(text_views(parts@) =~= resolved_views(rs@).map_values(
            |p: (Seq<char>, BridgedTypeV)| spec_native_to_ffi_expr(p.1, p.0),
        ));
    }
    let mut out = fn_ffi_name(name);
    out.append("(");
    out.append(join_texts(&parts, ", ").as_str());
    out.append(")");
    out
}

fn tramp_call(name: &String, rs: &Vec<(String, BridgedType)>) -> (r: String)
    ensures
        r@ == spec_tramp_call(name@, resolved_views(rs@)),
{
    let mut parts: Vec<String> = Vec::new();
    let mut i: usize = 0;
    while i < rs.len()
        invariant
            i <= rs.len(),
            parts.len() == i,
            forall|j: int| 0 <= j < i ==> parts@[j]@ == resolved_views(rs@).map_values(
                |p: (Seq<char>, BridgedTypeV)| p.0 + ": "@ + spec_swift_to_user_expr(p.1, p.0),
            )[j],
        decreases rs.len() - i,
    {
        let mut part = rs[i].0.clone();
        part.append(": ");
        part.append(swift_to_user_expr(&rs[i].1, &rs[i].0).as_str());
        parts.push(part);
        i = i + 1;
    }
    proof {
        assert(text_views(parts@) =~= resolved_views(rs@).map_values(
            |p: (Seq<char>, BridgedTypeV)| p.0 + ": "@ + spec_swift_to_user_expr(p.1, p.0),
        ));
    }
    let mut out = name.clone();
    out.append("(");
    out.append(join_texts(&parts, ", ").as_str());
    out.append(")");
    out
}

fn export_call(name: &String, rs: &Vec<(String, BridgedType)>) -> (r: String)
    ensures
        r@ == spec_export_call(name@, resolved_views(rs@)),
{
    let mut parts: Vec<String> = Vec::new();
    let mut i: usize = 0;
    while i < rs.len()
        invariant
            i <= rs.len(),
            parts.len() == i,
            forall|j: int| 0 <= j < i ==> parts@[j]@ == resolved_views(rs@).map_values(
                |p: (Seq<char>, BridgedTypeV)| spec_ffi_to_native_expr(p.1, p.0),
            )[j],
        decreases rs.len() - i,
    {
        parts.push(ffi_to_native_expr(&rs[i].1, &rs[i].0));
        i = i + 1;
    }
    proof {
        assert(text_views(parts@) =~= resolved_views(rs@).map_values(
            |p: (Seq<char>, BridgedTypeV)| spec_ffi_to_native_expr(p.1, p.0),
        ));
    }
    let mut out = String::from_str("super::");
    out.append(name.as_str());
    out.append("(");
    out.append(join_texts(&parts, ", ").as_str());
    out.append(")");
    out
}

fn caller_call(name: &String, rs: &Vec<(String, BridgedType)>) -> (r: String)
    ensures
        r@ == spec_caller_call(name@, resolved_views(rs@)),
{
    let mut parts: Vec<String> = Vec::new();
    let mut i: usize = 0;
    while i < rs.len()
        invariant
            i <= rs.len(),
            parts.len() == i,
            forall|j: int| 0 <= j < i ==> parts@[j]@ == resolved_views(rs@).map_values(
                |p: (Seq<char>, BridgedTypeV)| spec_swift_user_to_ffi_expr(p.1, p.0),
            )[j],
        decreases rs.len() - i,
    {
        parts.push(swift_user_to_ffi_expr(&rs[i].1, &rs[i].0));
        i = i + 1;
    }
    proof {
        assert(text_views(parts@) =~= resolved_views(rs@).map_values(
            |p: (Seq<char>, BridgedTypeV)| spec_swift_user_to_ffi_expr(p.1, p.0),
        ));
    }
    let mut out = fn_ffi_name(name);
    out.append("(");
    out.append(join_texts(&parts, ", ").as_str());
    out.append(")");
    out
}

fn clone_texts(v: &Vec<String>) -> (r: Vec<String>)
    ensures
        text_views(r@) == text_views(v@),
{
    let mut out: Vec<String> = Vec::new();
    let mut i: usize = 0;
    while i < v.len()
        invariant
            i <= v.len(),
            out.len() == i,
            forall|j: int| 0 <= j < i ==> out@[j]@ == text_views(v@)[j],
        decreases v.len() - i,
    {
        out.push(v[i].clone());
        i = i + 1;
    }
    proof {
        assert(text_views(out@) =~= text_views(v@));
    }
    out
}

/// Appends the glue one enabled boundary function contributes to the native
/// and host plans, or reports the first unresolvable type in its signature,
/// leaving the plans unchanged.
fn fn_glue(
    registry: &TypeDeclarations,
    f: &BridgeFn,
    native: &mut Vec<NativeGlueItem>,
    host: &mut Vec<HostGlueItem>,
) -> (r: Result<(), Error>)
    ensures
        match spec_fn_items_one(registry@, f@) {
            Ok(t) => {
                &&& r is Ok
                &&& native_views(final(native)@) == native_views(old(native)@) + t.0
                &&& host_views(final(host)@) == host_views(old(host)@) + t.1
            },
            Err(e) => {
                &&& r matches Err(ee) && ee@ == e
                &&& final(native)@ == old(native)@
                &&& final(host)@ == old(host)@
            },
        },
{
    proof {
        assert(param_pairs(f@.params) =~= param_pairs(f.params@.map_values(|p: Param| p@)));
    }
    let rs = match resolve_params(registry, &f.params) {
        Ok(rs) => rs,
        Err(e) => {
            return Err(e);
        },
    };
    let ret: Option<BridgedType> = match &f.ret {
        None => None,
        Some(t) => match resolve(registry, t) {
            Ok(b) => Some(b),
            Err(e) => {
                return Err(e);
            },
        },
    };
    let ghost retv: Option<BridgedTypeV> = opt_bridged_view(ret);
    proof {
        assert(spec_resolve_ret(registry@, f@.ret) == Ok::<Option<BridgedTypeV>, ErrorV>(retv));
    }
    if f.host_lang == HostLang::Swift {
        let body = {
            let call = wrapper_call(&f.name, &rs);
            let mut b = String::from_str("unsafe { ");
            match &ret {
                None => b.append(call.as_str()),
                Some(rb) => b.append(ffi_to_native_expr(rb, &call).as_str()),
            }
            b.append(" }");
            b
        };
        native.push(NativeGlueItem::WrapperFn {
            name: f.name.clone(),
            params: native_user_params(&rs),
            ret: match &ret {
                None => None,
                Some(rb) => Some(native_user_type_text(rb)),
            },
            body,
        });
        native.push(NativeGlueItem::LinkFn {
            link_name: fn_link_name(&f.name),
            fn_name: fn_ffi_name(&f.name),
            params: native_ffi_params(&rs),
            ret: match &ret {
                None => None,
                Some(rb) => Some(native_ffi_type_text(rb)),
            },
        });
        let tbody = {
            let call = tramp_call(&f.name, &rs);
            match &ret {
                None => call,
                Some(rb) => {
                    let mut b = String::from_str("return ");
                    b.append(swift_user_to_ffi_expr(rb, &call).as_str());
                    b
                },
            }
        };
        host.push(HostGlueItem::Trampoline {
            cdecl_name: fn_link_name(&f.name),
            fn_name: fn_ffi_name(&f.name),
            params: swift_ffi_params(&rs),
            ret: match &ret {
                None => None,
                Some(rb) => Some(swift_ffi_type_text(rb)),
            },
            body: tbody,
        });
        proof {
            assert(native_views(native@) =~= native_views(old(native)@) + spec_fn_native_items(
                f@.name,
                f@.host_lang,
                resolved_views(rs@),
                retv,
            ));
            assert(host_views(host@) =~= host_views(old(host)@) + spec_fn_host_items(
                f@.name,
                f@.host_lang,
                resolved_views(rs@),
                retv,
            ));
        }
    } else {
        let ebody = {
            let call = export_call(&f.name, &rs);
            match &ret {
                None => call,
                Some(rb) => native_to_ffi_expr(rb, &call),
            }
        };
        native.push(NativeGlueItem::ExportFn {
            export_name: fn_link_name(&f.name),
            fn_name: fn_ffi_name(&f.name),
            params: native_ffi_params(&rs),
            ret: match &ret {
                None => None,
                Some(rb) => Some(native_ffi_type_text(rb)),
            },
            body: ebody,
        });
        let cbody = {
            let call = caller_call(&f.name, &rs);
            match &ret {
                None => call,
                Some(rb) => {
                    let mut b = String::from_str("return ");
                    b.append(swift_to_user_expr(rb, &call).as_str());
                    b
                },
            }
        };
        host.push(HostGlueItem::CallerFn {
            name: f.name.clone(),
            params: swift_user_params(&rs),
            ret: match &ret {
                None => None,
                Some(rb) => Some(swift_user_type_text(rb)),
            },
            body: cbody,
        });
        proof {
            assert(native_views(native@) =~= native_views(old(native)@) + spec_fn_native_items(
                f@.name,
                f@.host_lang,
                resolved_views(rs@),
                retv,
            ));
            assert(host_views(host@) =~= host_views(old(host)@) + spec_fn_host_items(
                f@.name,
                f@.host_lang,
                resolved_views(rs@),
                retv,
            ));
        }
    }
    Ok(())
}


/// Appends the declarations' per-type emissions to the three plans, or
/// reports the first unresolvable field type, leaving the plans unchanged.
fn decl_glue(
    registry: &TypeDeclarations,
    d: &TypeDeclaration,
    native: &mut Vec<NativeGlueItem>,
    host: &mut Vec<HostGlueItem>,
    header: &mut Vec<HeaderItem>,
) -> (r: Result<(), Error>)
    ensures
        match spec_decl_items_one(registry@, d@) {
            Ok(t) => {
                &&& r is Ok
                &&& native_views(final(native)@) == native_views(old(native)@) + t.0
                &&& host_views(final(host)@) == host_views(old(host)@) + t.1
                &&& header_views(final(header)@) == header_views(old(header)@) + t.2
            },
            Err(e) => {
                &&& r matches Err(ee) && ee@ == e
                &&& final(native)@ == old(native)@
                &&& final(host)@ == old(host)@
                &&& final(header)@ == old(header)@
            },
        },
{
    match d {
        TypeDeclaration::Shared(SharedTypeDeclaration::Struct(s)) => {
            proof {
                assert(field_pairs(d@ ->Shared_0->Struct_0.fields) =~= field_pairs(
                    s.fields@.map_values(|f: StructField| f@),
                ));
            }
            let rf = match resolve_fields(registry, &s.fields) {
                Ok(rf) => rf,
                Err(e) => {
                    return Err(e);
                },
            };
            native.push(NativeGlueItem::StructMirror {
                name: s.name.clone(),
                fields: native_user_params(&rf),
            });
            host.push(HostGlueItem::StructMirror {
                name: s.name.clone(),
                fields: swift_user_params(&rf),
            });
            if s.swift_repr == StructSwiftRepr::Structure {
                header.push(HeaderItem::StructMirror {
                    name: s.name.clone(),
                    fields: c_params(&rf),
                });
            }
            proof {
                let t = spec_decl_items_one(registry@, d@)->Ok_0;
                assert(native_views(native@) =~= native_views(old(native)@) + t.0);
                assert(host_views(host@) =~= host_views(old(host)@) + t.1);
                assert(header_views(header@) =~= header_views(old(header)@) + t.2);
            }
            Ok(())
        },
        TypeDeclaration::Shared(SharedTypeDeclaration::Enum(e)) => {
            native.push(NativeGlueItem::EnumMirror {
                name: e.name.clone(),
                variants: clone_texts(&e.variants),
            });
            host.push(HostGlueItem::EnumMirror {
                name: e.name.clone(),
                variants: clone_texts(&e.variants),
            });
            header.push(HeaderItem::EnumMirror {
                name: e.name.clone(),
                variants: clone_texts(&e.variants),
            });
            proof {
                let t = spec_decl_items_one(registry@, d@)->Ok_0;
                assert(native_views(native@) =~= native_views(old(native)@) + t.0);
                assert(host_views(host@) =~= host_views(old(host)@) + t.1);
                assert(header_views(header@) =~= header_views(old(header)@) + t.2);
            }
            Ok(())
        },
        TypeDeclaration::Opaque(o) => {
            if o.host_lang == HostLang::Rust {
                if !o.already_declared {
                    header.push(HeaderItem::OpaqueTypedef { name: o.ty.clone() });
                }
            } else {
                if !o.already_declared {
                    native.push(NativeGlueItem::HandleStruct {
                        name: o.ty.clone(),
                        free_func: o.free_func_name(),
                    });
                    let mut this_param: Vec<ParamText> = Vec::new();
                    this_param.push(ParamText {
                        name: String::from_str("this"),
                        ty: String::from_str("*mut std::ffi::c_void"),
                    });
                    proof {
                        assert(crate::glue::param_views(this_param@) =~= seq![
                            ParamTextV { name: "this"@, ty: "*mut std::ffi::c_void"@ },
                        ]);
                    }
                    native.push(NativeGlueItem::LinkFn {
                        link_name: o.free_link_name(),
                        fn_name: o.free_func_name(),
                        params: this_param,
                        ret: None,
                    });
                }
            }
            proof {
                let t = spec_decl_items_one(registry@, d@)->Ok_0;
                assert(native_views(native@) =~= native_views(old(native)@) + t.0);
                assert(host_views(host@) =~= host_views(old(host)@) + t.1);
                assert(header_views(header@) =~= header_views(old(header)@) + t.2);
            }
            Ok(())
        },
    }
}

/// The three emission plans of a module.
pub struct GeneratedItems {
    pub native: Vec<NativeGlueItem>,
    pub host: Vec<HostGlueItem>,
    pub header: Vec<HeaderItem>,
}

pub ghost struct GeneratedItemsV {
    pub native: Seq<NativeGlueItemV>,
    pub host: Seq<HostGlueItemV>,
    pub header: Seq<HeaderItemV>,
}

impl View for GeneratedItems {
    type V = GeneratedItemsV;

    open spec fn view(&self) -> GeneratedItemsV {
        GeneratedItemsV {
            native: native_views(self.native@),
            host: host_views(self.host@),
            header: header_views(self.header@),
        }
    }
}

/// The three generated artifacts: native-side glue source, host-side glue
/// source, and the ABI header.
pub struct GeneratedCode {
    pub rust: String,
    pub swift: String,
    pub c_header: String,
}

pub ghost struct GeneratedCodeV {
    pub rust: Seq<char>,
    pub swift: Seq<char>,
    pub c_header: Seq<char>,
}

impl View for GeneratedCode {
    type V = GeneratedCodeV;

    open spec fn view(&self) -> GeneratedCodeV {
        GeneratedCodeV { rust: self.rust@, swift: self.swift@, c_header: self.c_header@ }
    }
}

/// Builds the registry and the three emission plans for a module: every
/// declaration's contribution in declaration order, then every enabled
/// function's contribution in declaration order.  Any fatal error suppresses
/// all three plans.
pub fn generate_items(module: &BridgeModule) -> (r: Result<GeneratedItems, Error>)
    ensures
        match r {
            Ok(items) => spec_generate_items(module@) == Ok::<_, ErrorV>(
                (items@.native, items@.host, items@.header),
            ),
            Err(e) => spec_generate_items(module@) matches Err(ee) && ee == e@,
        },
{
    let registry = match build_registry(&module.types) {
        Ok(reg) => reg,
        Err(e) => {
            return Err(e);
        },
    };
    let ghost dvs = module.types@.map_values(|d: TypeDeclaration| d@);
    let mut native: Vec<NativeGlueItem> = Vec::new();
    let mut host: Vec<HostGlueItem> = Vec::new();
    let mut header: Vec<HeaderItem> = Vec::new();
    let mut i: usize = 0;
    proof {
        assert(dvs.take(0) =~= Seq::<TypeDeclarationV>::empty());
        assert(native_views(native@) =~= Seq::<NativeGlueItemV>::empty());
        assert(host_views(host@) =~= Seq::<HostGlueItemV>::empty());
        assert(header_views(header@) =~= Seq::<HeaderItemV>::empty());
    }
    while i < module.types.len()
        invariant
            i <= module.types.len(),
            dvs == module.types@.map_values(|d: TypeDeclaration| d@),
            spec_build_registry(dvs) == Ok::<_, ErrorV>(registry@),
            spec_decl_items(registry@, dvs.take(i as int)) == Ok::<_, ErrorV>(
                (native_views(native@), host_views(host@), header_views(header@)),
            ),
        decreases module.types.len() - i,
    {
        proof {
            assert(dvs.take(i + 1 as int).drop_last() =~= dvs.take(i as int));
            assert(dvs.take(i + 1 as int).last() == dvs[i as int]);
        }
        match decl_glue(&registry, &module.types[i], &mut native, &mut host, &mut header) {
            Ok(()) => {},
            Err(e) => {
                proof {
                    lemma_decl_items_err_prefix(registry@, dvs, i + 1 as int);
                }
                return Err(e);
            },
        }
        i = i + 1;
    }
    proof {
        assert(dvs.take(module.types@.len() as int) =~= dvs);
    }
    let ghost decl_native = native_views(native@);
    let ghost decl_host = host_views(host@);
    let ghost fvs = module.functions@.map_values(|f: BridgeFn| f@);
    let ghost features = text_views(module.enabled_crate_features@);
    let mut k: usize = 0;
    proof {
        assert(fvs.take(0) =~= Seq::<BridgeFnV>::empty());
        assert(native_views(native@) =~= decl_native + Seq::<NativeGlueItemV>::empty());
        assert(host_views(host@) =~= decl_host + Seq::<HostGlueItemV>::empty());
    }
    while k < module.functions.len()
        invariant
            k <= module.functions.len(),
            fvs == module.functions@.map_values(|f: BridgeFn| f@),
            features == text_views(module.enabled_crate_features@),
            spec_build_registry(dvs) == Ok::<_, ErrorV>(registry@),
            dvs == module.types@.map_values(|d: TypeDeclaration| d@),
            spec_decl_items(registry@, dvs) == Ok::<_, ErrorV>(
                (decl_native, decl_host, header_views(header@)),
            ),
            spec_fn_items(registry@, features, fvs.take(k as int)) matches Ok(u) && native_views(
                native@,
            ) == decl_native + u.0 && host_views(host@) == decl_host + u.1,
        decreases module.functions.len() - k,
    {
        proof {
            assert(fvs.take(k + 1 as int).drop_last() =~= fvs.take(k as int));
            assert(fvs.take(k + 1 as int).last() == fvs[k as int]);
        }
        if is_enabled(&module.enabled_crate_features, &module.functions[k].cfg_feature) {
            let ghost prev_native = native_views(native@);
            let ghost prev_host = host_views(host@);
            match fn_glue(&registry, &module.functions[k], &mut native, &mut host) {
                Ok(()) => {
                    proof {
                        let u = spec_fn_items(registry@, features, fvs.take(k as int))->Ok_0;
                        let one = spec_fn_items_one(registry@, fvs[k as int])->Ok_0;
                        assert(native_views(native@) =~= decl_native + (u.0 + one.0));
                        assert(host_views(host@) =~= decl_host + (u.1 + one.1));
                    }
                },
                Err(e) => {
                    proof {
                        lemma_fn_items_err_prefix(registry@, features, fvs, k + 1 as int);
                    }
                    return Err(e);
                },
            }
        } else {
            proof {
                let kk = k as int;
                assert(opt_text_view(module.functions@[kk].cfg_feature) == fvs[kk].cfg_feature);
            }
        }
        k = k + 1;
    }
    proof {
        assert(fvs.take(module.functions@.len() as int) =~= fvs);
    }
    let items = GeneratedItems { native, host, header };
    Ok(items)
}

/// Generates the three artifacts for a module, or reports the single fatal
/// error, in which case nothing is emitted.  Output is a pure function of
/// the module: the same module always yields byte-identical artifacts.
pub fn generate(module: &BridgeModule) -> (r: Result<GeneratedCode, Error>)
    ensures
        match r {
            Ok(g) => spec_generate(module@) == Ok::<_, ErrorV>((g.rust@, g.swift@, g.c_header@)),
            Err(e) => spec_generate(module@) matches Err(ee) && ee == e@,
        },
{
    match generate_items(module) {
        Ok(items) => {
            let rust = render_native(&items.native);
            let swift = render_host(&items.host);
            let c_header = render_header(&items.header);
            Ok(GeneratedCode { rust, swift, c_header })
        },
        Err(e) => Err(e),
    }
}

} // verus!
