use vstd::prelude::*;
use vstd::string::StringExecFns;
use crate::glue::{HeaderItem, HeaderItemV, HostGlueItem, HostGlueItemV, NativeGlueItem,
    NativeGlueItemV, ParamText, ParamTextV, join_texts, param_views, spec_join, text_views};

verus! {

/// The optional ` -> T` tail of a function signature.
pub open spec fn spec_ret_part(ret: Option<Seq<char>>) -> Seq<char> {
    match ret {
        Some(t) => " -> "@ + t,
        None => Seq::empty(),
    }
}

fn ret_part(ret: &Option<String>) -> (r: String)
    ensures
        r@ == spec_ret_part(match ret {
            Some(t) => Some(t@),
            None => None,
        }),
{
    match ret {
        Some(t) => {
            let mut out = String::from_str(" -> ");
            out.append(t.as_str());
            out
        },
        None => {
            let out = String::new();
            proof {
                assert(out@ =~= Seq::<char>::empty());
            }
            out
        },
    }
}

/// A native-side parameter list: `name: Type`, comma-separated.
pub open spec fn spec_rust_params(params: Seq<ParamTextV>) -> Seq<char> {
    spec_join(params.map_values(|p: ParamTextV| p.name + ": "@ + p.ty), ", "@)
}

fn rust_params(params: &Vec<ParamText>) -> (r: String)
    ensures
        r@ == spec_rust_params(param_views(params@)),
{
    let mut parts: Vec<String> = Vec::new();
    let mut i: usize = 0;
    while i < params.len()
        invariant
            i <= params.len(),
            parts.len() == i,
            forall|j: int| 0 <= j < i ==> parts@[j]@ == param_views(params@).map_values(
                |p: ParamTextV| p.name + ": "@ + p.ty,
            )[j],
        decreases params.len() - i,
    {
        let mut part = params[i].name.clone();
        part.append(": ");
        part.append(params[i].ty.as_str());
        parts.push(part);
        i = i + 1;
    }
    let r = join_texts(&parts, ", ");
    proof {
        assert(text_views(parts@) =~= param_views(params@).map_values(
            |p: ParamTextV| p.name + ": "@ + p.ty,
        ));
    }
    r
}

/// A host-side parameter list: `_ name: Type`, comma-separated.
pub open spec fn spec_swift_params(params: Seq<ParamTextV>) -> Seq<char> {
    spec_join(params.map_values(|p: ParamTextV| "_ "@ + p.name + ": "@ + p.ty), ", "@)
}

fn swift_params(params: &Vec<ParamText>) -> (r: String)
    ensures
        r@ == spec_swift_params(param_views(params@)),
{
    let mut parts: Vec<String> = Vec::new();
    let mut i: usize = 0;
    while i < params.len()
        invariant
            i <= params.len(),
            parts.len() == i,
            forall|j: int| 0 <= j < i ==> parts@[j]@ == param_views(params@).map_values(
                |p: ParamTextV| "_ "@ + p.name + ": "@ + p.ty,
            )[j],
        decreases params.len() - i,
    {
        let mut part = String::from_str("_ ");
        part.append(params[i].name.as_str());
        part.append(": ");
        part.append(params[i].ty.as_str());
        parts.push(part);
        i = i + 1;
    }
    let r = join_texts(&parts, ", ");
    proof {
        assert(text_views(parts@) =~= param_views(params@).map_values(
            |p: ParamTextV| "_ "@ + p.name + ": "@ + p.ty,
        ));
    }
    r
}

/// The field lines of a native-side struct transcription, in field order.
pub open spec fn spec_rust_field_lines(fields: Seq<ParamTextV>) -> Seq<char>
    decreases fields.len(),
{
    if fields.len() == 0 {
        Seq::empty()
    } else {
        spec_rust_field_lines(fields.drop_last()) + "    pub "@ + fields.last().name + ": "@
            + fields.last().ty + ",\n"@
    }
}

/// The field lines of a host-side struct transcription, in field order.
pub open spec fn spec_swift_field_lines(fields: Seq<ParamTextV>) -> Seq<char>
    decreases fields.len(),
{
    if fields.len() == 0 {
        Seq::empty()
    } else {
        spec_swift_field_lines(fields.drop_last()) + "    public var "@ + fields.last().name
            + ": "@ + fields.last().ty + "\n"@
    }
}

/// The field lines of an ABI-header struct mirror, in field order.
pub open spec fn spec_c_field_lines(fields: Seq<ParamTextV>) -> Seq<char>
    decreases fields.len(),
{
    if fields.len() == 0 {
        Seq::empty()
    } else {
        spec_c_field_lines(fields.drop_last()) + "    "@ + fields.last().ty + " "@
            + fields.last().name + ";\n"@
    }
}

/// The variant lines of a transcribed enum, in variant order; `case_word`
/// and `tail` vary per target.
pub open spec fn spec_variant_lines(
    variants: Seq<Seq<char>>,
    case_word: Seq<char>,
    tail: Seq<char>,
) -> Seq<char>
    decreases variants.len(),
{
    if variants.len() == 0 {
        Seq::empty()
    } else {
        spec_variant_lines(variants.drop_last(), case_word, tail) + case_word + variants.last()
            + tail
    }
}

fn variant_lines(variants: &Vec<String>, case_word: &str, tail: &str) -> (r: String)
    ensures
        r@ == spec_variant_lines(text_views(variants@), case_word@, tail@),
{
    let mut out = String::new();
    let mut i: usize = 0;
    proof {
        assert(text_views(variants@).take(0) =~= Seq::<Seq<char>>::empty());
        assert(out@ =~= Seq::<char>::empty());
    }
    while i < variants.len()
        invariant
            i <= variants.len(),
            out@ == spec_variant_lines(text_views(variants@).take(i as int), case_word@, tail@),
        decreases variants.len() - i,
    {
        out.append(case_word);
        out.append(variants[i].as_str());
        out.append(tail);
        proof {
            let vs = text_views(variants@);
            assert(vs.take(i + 1 as int).drop_last() =~= vs.take(i as int));
            assert(vs.take(i + 1 as int).last() == vs[i as int]);
        }
        i = i + 1;
    }
    proof {
        assert(text_views(variants@).take(variants@.len() as int) =~= text_views(variants@));
    }
    out
}

/// The text of one native-side glue item.
pub open spec fn spec_render_native_item(it: NativeGlueItemV) -> Seq<char> {
    match it {
        NativeGlueItemV::WrapperFn { name, params, ret, body } => "pub fn "@ + name + "("@
            + spec_rust_params(params) + ")"@ + spec_ret_part(ret) + " {\n    "@ + body
            + "\n}\n\n"@,
        NativeGlueItemV::ExportFn { export_name, fn_name, params, ret, body } => {
            "#[export_name = \""@ + export_name + "\"]\npub extern \"C\" fn "@ + fn_name + "("@
                + spec_rust_params(params) + ")"@ + spec_ret_part(ret) + " {\n    "@ + body
                + "\n}\n\n"@
        },
        NativeGlueItemV::HandleStruct { name, free_func } => "#[repr(C)]\npub struct "@ + name
            + "(*mut std::ffi::c_void);\n\nimpl Drop for "@ + name
            + " {\n    fn drop(&mut self) {\n        unsafe { "@ + free_func
            + "(self.0) }\n    }\n}\n\n"@,
        NativeGlueItemV::LinkFn { link_name, fn_name, params, ret } => {
            "extern \"C\" {\n    #[link_name = \""@ + link_name + "\"]\n    fn "@ + fn_name + "("@
                + spec_rust_params(params) + ")"@ + spec_ret_part(ret) + ";\n}\n\n"@
        },
        NativeGlueItemV::StructMirror { name, fields } => "#[repr(C)]\npub struct "@ + name
            + " {\n"@ + spec_rust_field_lines(fields) + "}\n\n"@,
        NativeGlueItemV::EnumMirror { name, variants } => "#[repr(C)]\npub enum "@ + name + " {\n"@
            + spec_variant_lines(variants, "    "@, ",\n"@) + "}\n\n"@,
    }
}

fn render_native_item(it: &NativeGlueItem) -> (r: String)
    ensures
        r@ == spec_render_native_item(it@),
{
    match it {
        NativeGlueItem::WrapperFn { name, params, ret, body } => {
            let mut out = String::from_str("pub fn ");
            out.append(name.as_str());
            out.append("(");
            out.append(rust_params(params).as_str());
            out.append(")");
            out.append(ret_part(ret).as_str());
            out.append(" {\n    ");
            out.append(body.as_str());
            out.append("\n}\n\n");
            out
        },
        NativeGlueItem::ExportFn { export_name, fn_name, params, ret, body } => {
            let mut out = String::from_str("#[export_name = \"");
            out.append(export_name.as_str());
            out.append("\"]\npub extern \"C\" fn ");
            out.append(fn_name.as_str());
            out.append("(");
            out.append(rust_params(params).as_str());
            out.append(")");
            out.append(ret_part(ret).as_str());
            out.append(" {\n    ");
            out.append(body.as_str());
            out.append("\n}\n\n");
            out
        },
        NativeGlueItem::HandleStruct { name, free_func } => {
            let mut out = String::from_str("#[repr(C)]\npub struct ");
            out.append(name.as_str());
            out.append("(*mut std::ffi::c_void);\n\nimpl Drop for ");
            out.append(name.as_str());
            out.append(" {\n    fn drop(&mut self) {\n        unsafe { ");
            out.append(free_func.as_str());
            out.append("(self.0) }\n    }\n}\n\n");
            out
        },
        NativeGlueItem::LinkFn { link_name, fn_name, params, ret } => {
            let mut out = String::from_str("extern \"C\" {\n    #[link_name = \"");
            out.append(link_name.as_str());
            out.append("\"]\n    fn ");
            out.append(fn_name.as_str());
            out.append("(");
            out.append(rust_params(params).as_str());
            out.append(")");
            out.append(ret_part(ret).as_str());
            out.append(";\n}\n\n");
            out
        },
        NativeGlueItem::StructMirror { name, fields } => {
            let mut out = String::from_str("#[repr(C)]\npub struct ");
            out.append(name.as_str());
            out.append(" {\n");
            let mut i: usize = 0;
            let ghost fvs = param_views(fields@);
            let ghost head = out@;
            while i < fields.len()
                invariant
                    i <= fields.len(),
                    fvs == param_views(fields@),
                    out@ == head + spec_rust_field_lines(fvs.take(i as int)),
                decreases fields.len() - i,
            {
                out.append("    pub ");
                out.append(fields[i].name.as_str());
                out.append(": ");
                out.append(fields[i].ty.as_str());
                out.append(",\n");
                proof {
                    assert(fvs.take(i + 1 as int).drop_last() =~= fvs.take(i as int));
                    assert(fvs.take(i + 1 as int).last() == fvs[i as int]);
                    assert(out@ =~= head + spec_rust_field_lines(fvs.take(i + 1 as int)));
                }
                i = i + 1;
            }
            out.append("}\n\n");
            proof {
                assert(fvs.take(fields@.len() as int) =~= fvs);
                assert(out@ =~= spec_render_native_item(it@));
            }
            out
        },
        NativeGlueItem::EnumMirror { name, variants } => {
            let mut out = String::from_str("#[repr(C)]\npub enum ");
            out.append(name.as_str());
            out.append(" {\n");
            out.append(variant_lines(variants, "    ", ",\n").as_str());
            out.append("}\n\n");
            out
        },
    }
}

/// The text of one host-side glue item.
pub open spec fn spec_render_host_item(it: HostGlueItemV) -> Seq<char> {
    match it {
        HostGlueItemV::Trampoline { cdecl_name, fn_name, params, ret, body } => "@_cdecl(\""@
            + cdecl_name + "\")\nfunc "@ + fn_name + "("@ + spec_swift_params(params) + ")"@
            + spec_ret_part(ret) + " {\n    "@ + body + "\n}\n\n"@,
        HostGlueItemV::CallerFn { name, params, ret, body } => "public func "@ + name + "("@
            + spec_swift_params(params) + ")"@ + spec_ret_part(ret) + " {\n    "@ + body
            + "\n}\n\n"@,
        HostGlueItemV::StructMirror { name, fields } => "public struct "@ + name + " {\n"@
            + spec_swift_field_lines(fields) + "}\n\n"@,
        HostGlueItemV::EnumMirror { name, variants } => "public enum "@ + name + " {\n"@
            + spec_variant_lines(variants, "    case "@, "\n"@) + "}\n\n"@,
    }
}

fn render_host_item(it: &HostGlueItem) -> (r: String)
    ensures
        r@ == spec_render_host_item(it@),
{
    match it {
        HostGlueItem::Trampoline { cdecl_name, fn_name, params, ret, body } => {
            let mut out = String::from_str("@_cdecl(\"");
            out.append(cdecl_name.as_str());
            out.append("\")\nfunc ");
            out.append(fn_name.as_str());
            out.append("(");
            out.append(swift_params(params).as_str());
            out.append(")");
            out.append(ret_part(ret).as_str());
            out.append(" {\n    ");
            out.append(body.as_str());
            out.append("\n}\n\n");
            out
        },
        HostGlueItem::CallerFn { name, params, ret, body } => {
            let mut out = String::from_str("public func ");
            out.append(name.as_str());
            out.append("(");
            out.append(swift_params(params).as_str());
            out.append(")");
            out.append(ret_part(ret).as_str());
            out.append(" {\n    ");
            out.append(body.as_str());
            out.append("\n}\n\n");
            out
        },
        HostGlueItem::StructMirror { name, fields } => {
            let mut out = String::from_str("public struct ");
            out.append(name.as_str());
            out.append(" {\n");
            let mut i: usize = 0;
            let ghost fvs = param_views(fields@);
            let ghost head = out@;
            while i < fields.len()
                invariant
                    i <= fields.len(),
                    fvs == param_views(fields@),
                    out@ == head + spec_swift_field_lines(fvs.take(i as int)),
                decreases fields.len() - i,
            {
                out.append("    public var ");
                out.append(fields[i].name.as_str());
                out.append(": ");
                out.append(fields[i].ty.as_str());
                out.append("\n");
                proof {
                    assert(fvs.take(i + 1 as int).drop_last() =~= fvs.take(i as int));
                    assert(fvs.take(i + 1 as int).last() == fvs[i as int]);
                    assert(out@ =~= head + spec_swift_field_lines(fvs.take(i + 1 as int)));
                }
                i = i + 1;
            }
            out.append("}\n\n");
            proof {
                assert(fvs.take(fields@.len() as int) =~= fvs);
                assert(out@ =~= spec_render_host_item(it@));
            }
            out
        },
        HostGlueItem::EnumMirror { name, variants } => {
            let mut out = String::from_str("public enum ");
            out.append(name.as_str());
            out.append(" {\n");
            out.append(variant_lines(variants, "    case ", "\n").as_str());
            out.append("}\n\n");
            out
        },
    }
}

/// The text of one ABI-header item.
pub open spec fn spec_render_header_item(it: HeaderItemV) -> Seq<char> {
    match it {
        HeaderItemV::OpaqueTypedef { name } => "typedef struct "@ + name + " "@ + name + ";\n\n"@,
        HeaderItemV::StructMirror { name, fields } => "typedef struct "@ + name + " {\n"@
            + spec_c_field_lines(fields) + "} "@ + name + ";\n\n"@,
        HeaderItemV::EnumMirror { name, variants } => "typedef enum "@ + name + " {\n"@
            + spec_variant_lines(variants, "    "@, ",\n"@) + "} "@ + name + ";\n\n"@,
    }
}

fn render_header_item(it: &HeaderItem) -> (r: String)
    ensures
        r@ == spec_render_header_item(it@),
{
    match it {
        HeaderItem::OpaqueTypedef { name } => {
            let mut out = String::from_str("typedef struct ");
            out.append(name.as_str());
            out.append(" ");
            out.append(name.as_str());
            out.append(";\n\n");
            out
        },
        HeaderItem::StructMirror { name, fields } => {
            let mut out = String::from_str("typedef struct ");
            out.append(name.as_str());
            out.append(" {\n");
            let mut i: usize = 0;
            let ghost fvs = param_views(fields@);
            let ghost head = out@;
            while i < fields.len()
                invariant
                    i <= fields.len(),
                    fvs == param_views(fields@),
                    out@ == head + spec_c_field_lines(fvs.take(i as int)),
                decreases fields.len() - i,
            {
                out.append("    ");
                out.append(fields[i].ty.as_str());
                out.append(" ");
                out.append(fields[i].name.as_str());
                out.append(";\n");
                proof {
                    assert(fvs.take(i + 1 as int).drop_last() =~= fvs.take(i as int));
                    assert(fvs.take(i + 1 as int).last() == fvs[i as int]);
                    assert(out@ =~= head + spec_c_field_lines(fvs.take(i + 1 as int)));
                }
                i = i + 1;
            }
            out.append("} ");
            out.append(name.as_str());
            out.append(";\n\n");
            proof {
                assert(fvs.take(fields@.len() as int) =~= fvs);
                assert(out@ =~= spec_render_header_item(it@));
            }
            out
        },
        HeaderItem::EnumMirror { name, variants } => {
            let mut out = String::from_str("typedef enum ");
            out.append(name.as_str());
            out.append(" {\n");
            out.append(variant_lines(variants, "    ", ",\n").as_str());
            out.append("} ");
            out.append(name.as_str());
            out.append(";\n\n");
            out
        },
    }
}

/// The full native-side artifact text: the items' texts in order.
pub open spec fn spec_render_native(items: Seq<NativeGlueItemV>) -> Seq<char>
    decreases items.len(),
{
    if items.len() == 0 {
        Seq::empty()
    } else {
        spec_render_native(items.drop_last()) + spec_render_native_item(items.last())
    }
}

pub fn render_native(items: &Vec<NativeGlueItem>) -> (r: String)
    ensures
        r@ == spec_render_native(items@.map_values(|it: NativeGlueItem| it@)),
{
    let mut out = String::new();
    let mut i: usize = 0;
    let ghost ivs = items@.map_values(|it: NativeGlueItem| it@);
    proof {
        assert(out@ =~= Seq::<char>::empty());
    }
    while i < items.len()
        invariant
            i <= items.len(),
            ivs == items@.map_values(|it: NativeGlueItem| it@),
            out@ == spec_render_native(ivs.take(i as int)),
        decreases items.len() - i,
    {
        out.append(render_native_item(&items[i]).as_str());
        proof {
            assert(ivs.take(i + 1 as int).drop_last() =~= ivs.take(i as int));
            assert(ivs.take(i + 1 as int).last() == ivs[i as int]);
        }
        i = i + 1;
    }
    proof {
        assert(ivs.take(items@.len() as int) =~= ivs);
    }
    out
}

/// The full host-side artifact text: the items' texts in order.
pub open spec fn spec_render_host(items: Seq<HostGlueItemV>) -> Seq<char>
    decreases items.len(),
{
    if items.len() == 0 {
        Seq::empty()
    } else {
        spec_render_host(items.drop_last()) + spec_render_host_item(items.last())
    }
}

pub fn render_host(items: &Vec<HostGlueItem>) -> (r: String)
    ensures
        r@ == spec_render_host(items@.map_values(|it: HostGlueItem| it@)),
{
    let mut out = String::new();
    let mut i: usize = 0;
    let ghost ivs = items@.map_values(|it: HostGlueItem| it@);
    proof {
        assert(out@ =~= Seq::<char>::empty());
    }
    while i < items.len()
        invariant
            i <= items.len(),
            ivs == items@.map_values(|it: HostGlueItem| it@),
            out@ == spec_render_host(ivs.take(i as int)),
        decreases items.len() - i,
    {
        out.append(render_host_item(&items[i]).as_str());
        proof {
            assert(ivs.take(i + 1 as int).drop_last() =~= ivs.take(i as int));
            assert(ivs.take(i + 1 as int).last() == ivs[i as int]);
        }
        i = i + 1;
    }
    proof {
        assert(ivs.take(items@.len() as int) =~= ivs);
    }
    out
}

/// The full ABI-header artifact text: the items' texts in order.
pub open spec fn spec_render_header(items: Seq<HeaderItemV>) -> Seq<char>
    decreases items.len(),
{
    if items.len() == 0 {
        Seq::empty()
    } else {
        spec_render_header(items.drop_last()) + spec_render_header_item(items.last())
    }
}

pub fn render_header(items: &Vec<HeaderItem>) -> (r: String)
    ensures
        r@ == spec_render_header(items@.map_values(|it: HeaderItem| it@)),
{
    let mut out = String::new();
    let mut i: usize = 0;
    let ghost ivs = items@.map_values(|it: HeaderItem| it@);
    proof {
        assert(out@ =~= Seq::<char>::empty());
    }
    while i < items.len()
        invariant
            i <= items.len(),
            ivs == items@.map_values(|it: HeaderItem| it@),
            out@ == spec_render_header(ivs.take(i as int)),
        decreases items.len() - i,
    {
        out.append(render_header_item(&items[i]).as_str());
        proof {
            assert(ivs.take(i + 1 as int).drop_last() =~= ivs.take(i as int));
            assert(ivs.take(i + 1 as int).last() == ivs[i as int]);
        }
        i = i + 1;
    }
    proof {
        assert(ivs.take(items@.len() as int) =~= ivs);
    }
    out
}

} // verus!
