use vstd::prelude::*;
use vstd::string::StringExecFns;

verus! {

/// A named, already-typeset text pair: a parameter (name and type text) or a
/// mirrored field (name and type text).
pub struct ParamText {
    pub name: String,
    pub ty: String,
}

pub ghost struct ParamTextV {
    pub name: Seq<char>,
    pub ty: Seq<char>,
}

impl View for ParamText {
    type V = ParamTextV;

    open spec fn view(&self) -> ParamTextV {
        ParamTextV { name: self.name@, ty: self.ty@ }
    }
}

pub open spec fn param_views(s: Seq<ParamText>) -> Seq<ParamTextV> {
    s.map_values(|p: ParamText| p@)
}

pub open spec fn text_views(s: Seq<String>) -> Seq<Seq<char>> {
    s.map_values(|t: String| t@)
}

/// Joins text parts with a separator.
pub open spec fn spec_join(parts: Seq<Seq<char>>, sep: Seq<char>) -> Seq<char>
    decreases parts.len(),
{
    if parts.len() == 0 {
        Seq::empty()
    } else if parts.len() == 1 {
        parts[0]
    } else {
        spec_join(parts.drop_last(), sep) + sep + parts.last()
    }
}

pub fn join_texts(parts: &Vec<String>, sep: &str) -> (r: String)
    ensures
        r@ == spec_join(text_views(parts@), sep@),
{
    let mut out = String::new();
    let mut i: usize = 0;
    proof {
        assert(text_views(parts@).take(0) =~= Seq::<Seq<char>>::empty());
    }
    while i < parts.len()
        invariant
            i <= parts.len(),
            out@ == spec_join(text_views(parts@).take(i as int), sep@),
        decreases parts.len() - i,
    {
        if i > 0 {
            out.append(sep);
        }
        out.append(parts[i].as_str());
        proof {
            let vs = text_views(parts@);
            assert(vs.take(i + 1 as int).drop_last() =~= vs.take(i as int));
            assert(vs.take(i + 1 as int).last() == vs[i as int]);
        }
        i = i + 1;
    }
    proof {
        assert(text_views(parts@).take(parts@.len() as int) =~= text_views(parts@));
    }
    out
}

/// One native-side glue item.
pub enum NativeGlueItem {
    /// A public wrapper the native user calls; its body crosses the boundary.
    WrapperFn { name: String, params: Vec<ParamText>, ret: Option<String>, body: String },
    /// A boundary-callable function exported under a stable symbol name.
    ExportFn {
        export_name: String,
        fn_name: String,
        params: Vec<ParamText>,
        ret: Option<String>,
        body: String,
    },
    /// The pointer-wrapper struct for a host-owned opaque type, with a
    /// destructor hook that releases the host reference through the free
    /// trampoline on scope exit.
    HandleStruct { name: String, free_func: String },
    /// A linkage declaration for a symbol the host side provides.
    LinkFn { link_name: String, fn_name: String, params: Vec<ParamText>, ret: Option<String> },
    /// The native-side transcription of a shared struct.
    StructMirror { name: String, fields: Vec<ParamText> },
    /// The native-side transcription of a shared enum.
    EnumMirror { name: String, variants: Vec<String> },
}

pub ghost enum NativeGlueItemV {
    WrapperFn { name: Seq<char>, params: Seq<ParamTextV>, ret: Option<Seq<char>>, body: Seq<char> },
    ExportFn {
        export_name: Seq<char>,
        fn_name: Seq<char>,
        params: Seq<ParamTextV>,
        ret: Option<Seq<char>>,
        body: Seq<char>,
    },
    HandleStruct { name: Seq<char>, free_func: Seq<char> },
    LinkFn {
        link_name: Seq<char>,
        fn_name: Seq<char>,
        params: Seq<ParamTextV>,
        ret: Option<Seq<char>>,
    },
    StructMirror { name: Seq<char>, fields: Seq<ParamTextV> },
    EnumMirror { name: Seq<char>, variants: Seq<Seq<char>> },
}

impl View for NativeGlueItem {
    type V = NativeGlueItemV;

    open spec fn view(&self) -> NativeGlueItemV {
        match self {
            NativeGlueItem::WrapperFn { name, params, ret, body } => NativeGlueItemV::WrapperFn {
                name: name@,
                params: param_views(params@),
                ret: match ret {
                    Some(t) => Some(t@),
                    None => None,
                },
                body: body@,
            },
            NativeGlueItem::ExportFn { export_name, fn_name, params, ret, body } => {
                NativeGlueItemV::ExportFn {
                    export_name: export_name@,
                    fn_name: fn_name@,
                    params: param_views(params@),
                    ret: match ret {
                        Some(t) => Some(t@),
                        None => None,
                    },
                    body: body@,
                }
            },
            NativeGlueItem::HandleStruct { name, free_func } => NativeGlueItemV::HandleStruct {
                name: name@,
                free_func: free_func@,
            },
            NativeGlueItem::LinkFn { link_name, fn_name, params, ret } => NativeGlueItemV::LinkFn {
                link_name: link_name@,
                fn_name: fn_name@,
                params: param_views(params@),
                ret: match ret {
                    Some(t) => Some(t@),
                    None => None,
                },
            },
            NativeGlueItem::StructMirror { name, fields } => NativeGlueItemV::StructMirror {
                name: name@,
                fields: param_views(fields@),
            },
            NativeGlueItem::EnumMirror { name, variants } => NativeGlueItemV::EnumMirror {
                name: name@,
                variants: text_views(variants@),
            },
        }
    }
}

/// One host-side glue item.
pub enum HostGlueItem {
    /// A boundary-callable trampoline the native side jumps into; it
    /// reconstructs user-facing host values and calls the user function.
    Trampoline {
        cdecl_name: String,
        fn_name: String,
        params: Vec<ParamText>,
        ret: Option<String>,
        body: String,
    },
    /// A public host-side function whose body calls a native export.
    CallerFn { name: String, params: Vec<ParamText>, ret: Option<String>, body: String },
    /// The host-side transcription of a shared struct.
    StructMirror { name: String, fields: Vec<ParamText> },
    /// The host-side transcription of a shared enum.
    EnumMirror { name: String, variants: Vec<String> },
}

pub ghost enum HostGlueItemV {
    Trampoline {
        cdecl_name: Seq<char>,
        fn_name: Seq<char>,
        params: Seq<ParamTextV>,
        ret: Option<Seq<char>>,
        body: Seq<char>,
    },
    CallerFn { name: Seq<char>, params: Seq<ParamTextV>, ret: Option<Seq<char>>, body: Seq<char> },
    StructMirror { name: Seq<char>, fields: Seq<ParamTextV> },
    EnumMirror { name: Seq<char>, variants: Seq<Seq<char>> },
}

impl View for HostGlueItem {
    type V = HostGlueItemV;

    open spec fn view(&self) -> HostGlueItemV {
        match self {
            HostGlueItem::Trampoline { cdecl_name, fn_name, params, ret, body } => {
                HostGlueItemV::Trampoline {
                    cdecl_name: cdecl_name@,
                    fn_name: fn_name@,
                    params: param_views(params@),
                    ret: match ret {
                        Some(t) => Some(t@),
                        None => None,
                    },
                    body: body@,
                }
            },
            HostGlueItem::CallerFn { name, params, ret, body } => HostGlueItemV::CallerFn {
                name: name@,
                params: param_views(params@),
                ret: match ret {
                    Some(t) => Some(t@),
                    None => None,
                },
                body: body@,
            },
            HostGlueItem::StructMirror { name, fields } => HostGlueItemV::StructMirror {
                name: name@,
                fields: param_views(fields@),
            },
            HostGlueItem::EnumMirror { name, variants } => HostGlueItemV::EnumMirror {
                name: name@,
                variants: text_views(variants@),
            },
        }
    }
}

/// One ABI-header item.
pub enum HeaderItem {
    /// An opaque named forward declaration for a native-owned type, so the
    /// host side can hold a strongly typed pointer.
    OpaqueTypedef { name: String },
    /// The mirrored, stable-layout declaration of a shared struct.
    StructMirror { name: String, fields: Vec<ParamText> },
    /// The mirrored declaration of a shared enum.
    EnumMirror { name: String, variants: Vec<String> },
}

pub ghost enum HeaderItemV {
    OpaqueTypedef { name: Seq<char> },
    StructMirror { name: Seq<char>, fields: Seq<ParamTextV> },
    EnumMirror { name: Seq<char>, variants: Seq<Seq<char>> },
}

impl View for HeaderItem {
    type V = HeaderItemV;

    open spec fn view(&self) -> HeaderItemV {
        match self {
            HeaderItem::OpaqueTypedef { name } => HeaderItemV::OpaqueTypedef { name: name@ },
            HeaderItem::StructMirror { name, fields } => HeaderItemV::StructMirror {
                name: name@,
                fields: param_views(fields@),
            },
            HeaderItem::EnumMirror { name, variants } => HeaderItemV::EnumMirror {
                name: name@,
                variants: text_views(variants@),
            },
        }
    }
}

} // verus!
