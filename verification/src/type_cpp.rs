//! The definitions a type contributes to the header after every struct is
//! declared: constructor bodies, construction bridges from closures and
//! trait implementers, method wrappers projected onto every view, and the
//! pretty-printer specializations.

use vstd::prelude::*;
use crate::text::State;
use crate::ty::{type_wf, type_text};
use crate::sig::{CppFnSig, CppMethod, sig_wf, input_defs_text, dyn_api_def_text, data_ptr_args_text,
    deinits_text, move_args_text, move_from_rust_args_text, uint8_args_space_text,
    std_function_text, cpp_def_text, ZngurMethodReceiver, Mutability};
use crate::trait_def::{CppTraitDefinition, trait_wf};
use crate::type_def::{CppTypeDefinition, CppLayoutPolicy, ZngurWellknownTraitData, td_wf,
    is_unsized, only_by_ref, rest_args};

verus! {

/// The qualified type name without its leading `::`.
pub open spec fn my_name_text(td: CppTypeDefinition) -> Seq<char> {
    type_text(td.ty).skip(2)
}

/// One constructor definition: mark the receiver initialised, call the
/// boundary symbol through the dispatch table, and deinitialise the moved
/// inputs.
#[verifier::opaque]
pub open spec fn ctor_def_text(c: CppFnSig, td: CppTypeDefinition) -> Seq<char> {
    ctor_def_head_text(c, td) + ctor_def_tail_text(c)
}

pub open spec fn ctor_def_head_text(c: CppFnSig, td: CppTypeDefinition) -> Seq<char> {
    "inline "@ + my_name_text(td) + "::"@ + td.ty.path.0@.last()@ + "("@ + dyn_api_def_text(
        rest_args(c.inputs@.len() as int),
    ) + input_defs_text(c.inputs@, 0, c.inputs@.len() as int)
        + ") noexcept {\n            ::rust::__zngur_internal_assume_init(*this);\n            "@
}

pub open spec fn ctor_def_tail_text(c: CppFnSig) -> Seq<char> {
    "api->"@ + c.rust_link_name@ + "("@ + data_ptr_args_text(c.inputs@.len() as int)
        + "::rust::__zngur_internal_data_ptr(*this));\n            "@ + deinits_text(
        c.inputs@.len() as int,
    ) + "\n        }"@ + "\n"@
}

pub open spec fn ctor_defs_join(cs: Seq<CppFnSig>, td: CppTypeDefinition, n: int) -> Seq<char>
    decreases n,
{
    if n <= 0 || n > cs.len() {
        Seq::empty()
    } else {
        ctor_defs_join(cs, td, n - 1) + ctor_def_text(cs[n - 1], td)
    }
}

/// `make_box` from a closure: box the function object, then register it with
/// a destructor thunk and a call thunk that unmarshals the inputs, calls the
/// payload once, and marshals the output back.
pub open spec fn make_box_fn_def_text(td: CppTypeDefinition, sig: CppFnSig) -> Seq<char> {
    make_box_fn_a_text(td, sig) + make_box_fn_b_text(sig) + make_box_fn_c_text(sig)
}

pub open spec fn make_box_fn_a_text(td: CppTypeDefinition, sig: CppFnSig) -> Seq<char> {
    "\n"@ + my_name_text(td) + " "@ + my_name_text(td) + "::make_box("@ + std_function_text(sig)
        + " f) {\nauto data = new "@ + std_function_text(sig) + "(f);\n"@ + my_name_text(td)
        + " o;\n::rust::__zngur_internal_assume_init(o);\n"@
}

pub open spec fn make_box_fn_b_text(sig: CppFnSig) -> Seq<char> {
    sig.rust_link_name@
        + "(\nreinterpret_cast<uint8_t*>(data),\n[](uint8_t *d) { delete reinterpret_cast< "@
        + std_function_text(sig) + "*>(d); },\n[](uint8_t *d, "@ + uint8_args_space_text(
        sig.inputs@.len() as int,
    ) + " uint8_t *o) {\nauto dd = reinterpret_cast< "@ + std_function_text(sig) + " *>(d);\n"@
}

pub open spec fn make_box_fn_c_text(sig: CppFnSig) -> Seq<char> {
    type_text(sig.output) + " oo = (*dd)("@ + move_from_rust_args_text(
        sig.inputs@,
        sig.inputs@.len() as int,
    ) + ");\n::rust::__zngur_internal_move_to_rust< "@ + type_text(sig.output)
        + " >(o, oo);\n},\n::rust::__zngur_internal_data_ptr(o));\nreturn o;\n}\n"@ + "\n"@
}

/// `make_box` from a closure or a trait implementer: a general trait boxes
/// the object, downcasts it to the interface pointer, and registers it with
/// a destructor thunk.
#[verifier::opaque]
pub open spec fn make_box_def_text(
    td: CppTypeDefinition,
    traits: Seq<CppTraitDefinition>,
) -> Seq<char> {
    match td.from_trait {
        None => Seq::<char>::empty(),
        Some(i) => match traits[i as int] {
            CppTraitDefinition::Fn { sig } => make_box_fn_def_text(td, sig),
            CppTraitDefinition::Normal { as_ty, methods: _, link_name, link_name_ref: _ } => {
                make_box_normal_a_text(td, as_ty) + link_name@ + make_box_normal_b_text(td, as_ty)
            },
        },
    }
}

pub open spec fn make_box_normal_a_text(td: CppTypeDefinition, as_ty: crate::ty::CppType) -> Seq<
    char,
> {
    "\ntemplate<typename T, typename... Args>\n"@ + my_name_text(td) + " "@ + my_name_text(td)
        + "::make_box(Args&&... args) {\nauto data = new T(::std::forward<Args>(args)...);\nauto data_as_impl = dynamic_cast< "@
        + type_text(as_ty) + "*>(data);\n"@ + my_name_text(td)
        + " o;\n::rust::__zngur_internal_assume_init(o);\n"@
}

pub open spec fn make_box_normal_b_text(td: CppTypeDefinition, as_ty: crate::ty::CppType) -> Seq<
    char,
> {
    "(\nreinterpret_cast<uint8_t*>(data_as_impl),\n[](uint8_t *d) { delete reinterpret_cast< "@
        + type_text(as_ty) + " *>(d); },\n"@ + "\n"@
        + "\n::rust::__zngur_internal_data_ptr(o));\nreturn o;\n}\n"@ + "\n"@
}

/// One borrowed construction from a trait implementer, for one view kind.
pub open spec fn from_trait_ref_ctor_text(
    td: CppTypeDefinition,
    as_ty: crate::ty::CppType,
    link_name_ref: Seq<char>,
    kind: Seq<char>,
) -> Seq<char> {
    "\nrust::"@ + kind + "< "@ + my_name_text(td) + " >::"@ + kind + "("@ + type_text(as_ty)
        + "& args) {\nauto data_as_impl = &args;\n::rust::__zngur_internal_assume_init(*this);\n"@
        + link_name_ref + "(\n(uint8_t *)data_as_impl,\n"@ + "\n"@
        + "\n::rust::__zngur_internal_data_ptr(*this));\n}\n"@ + "\n"@
}

/// The borrowed constructions: one for the shared view, one for the
/// exclusive view, whose kind text carries a stray leading space.
#[verifier::opaque]
pub open spec fn from_trait_ref_defs_text(
    td: CppTypeDefinition,
    traits: Seq<CppTraitDefinition>,
) -> Seq<char> {
    match td.from_trait_ref {
        None => Seq::<char>::empty(),
        Some(i) => match traits[i as int] {
            CppTraitDefinition::Fn { .. } => Seq::<char>::empty(),
            CppTraitDefinition::Normal { as_ty, methods: _, link_name: _, link_name_ref } => {
                from_trait_ref_ctor_text(td, as_ty, link_name_ref@, "Ref"@)
                    + from_trait_ref_ctor_text(td, as_ty, link_name_ref@, " RefMut"@)
            },
        },
    }
}

/// The qualified wrapper name of a method.
pub open spec fn fq_name_text(td: CppTypeDefinition, m: CppMethod) -> Seq<char> {
    my_name_text(td) + "::"@ + m.name@
}

pub open spec fn mfd_head_text(td: CppTypeDefinition, m: CppMethod, kind: Seq<char>) -> Seq<char> {
    "template<size_t OFFSET>\n                        inline "@ + type_text(m.sig.output)
        + " rust::"@ + kind + "< "@ + type_text(td.ty) + ", OFFSET >::"@ + m.name@ + "("@
        + input_defs_text(m.sig.inputs@, 1, m.sig.inputs@.len() - 1)
}

pub open spec fn mfd_tail_text(td: CppTypeDefinition, m: CppMethod) -> Seq<char> {
    ") const noexcept {\n                    return "@ + fq_name_text(td, m) + "(*this"@
        + move_args_text(m.sig.inputs@.len() - 1) + ");\n                }"@ + "\n"@
}

/// A reference-receiver method projected onto one field-projection kind.
#[verifier::opaque]
pub open spec fn method_field_def_text(
    td: CppTypeDefinition,
    m: CppMethod,
    kind: Seq<char>,
) -> Seq<char> {
    mfd_head_text(td, m, kind) + mfd_tail_text(td, m)
}

/// The projections of one method onto its compatible field kinds: the shared
/// kind only for non-mutating receivers.
pub open spec fn method_field_defs_text(
    td: CppTypeDefinition,
    m: CppMethod,
    mu: Mutability,
) -> Seq<char> {
    match mu {
        Mutability::Mut => method_field_def_text(td, m, "FieldOwned"@) + method_field_def_text(
            td,
            m,
            "FieldRefMut"@,
        ),
        Mutability::Not => method_field_def_text(td, m, "FieldOwned"@) + method_field_def_text(
            td,
            m,
            "FieldRefMut"@,
        ) + method_field_def_text(td, m, "FieldRef"@),
    }
}

pub open spec fn mrd_head_text(td: CppTypeDefinition, m: CppMethod, kind: Seq<char>) -> Seq<char> {
    "inline "@ + type_text(m.sig.output) + " rust::"@ + kind + "< "@ + type_text(td.ty) + " >::"@
        + m.name@ + "("@ + dyn_api_def_text(rest_args(m.sig.inputs@.len() as int))
        + input_defs_text(m.sig.inputs@, 1, m.sig.inputs@.len() - 1)
}

pub open spec fn mrd_tail_text(td: CppTypeDefinition, m: CppMethod) -> Seq<char> {
    ") const noexcept {\n                    return "@ + fq_name_text(td, m) + "(api, *this"@
        + move_args_text(m.sig.inputs@.len() - 1) + ");\n                }"@ + "\n"@
}

/// A reference-receiver method on one reference kind.
#[verifier::opaque]
pub open spec fn method_ref_def_text(
    td: CppTypeDefinition,
    m: CppMethod,
    kind: Seq<char>,
) -> Seq<char> {
    mrd_head_text(td, m, kind) + mrd_tail_text(td, m)
}

/// The method on its compatible reference kinds: the shared kind only for
/// non-mutating receivers.
pub open spec fn method_ref_defs_text(
    td: CppTypeDefinition,
    m: CppMethod,
    mu: Mutability,
) -> Seq<char> {
    match mu {
        Mutability::Mut => method_ref_def_text(td, m, "RefMut"@),
        Mutability::Not => method_ref_def_text(td, m, "Ref"@) + method_ref_def_text(
            td,
            m,
            "RefMut"@,
        ),
    }
}

pub open spec fn this_arg_text(k: ZngurMethodReceiver) -> Seq<char> {
    match k {
        ZngurMethodReceiver::Move => "::std::move(*this)"@,
        _ => "*this"@,
    }
}

/// The member wrapper forwarding to the static wrapper with `*this`.
pub open spec fn mflat_head_text(td: CppTypeDefinition, m: CppMethod) -> Seq<char> {
    "inline "@ + type_text(m.sig.output) + " "@ + fq_name_text(td, m) + "("@ + dyn_api_def_text(
        rest_args(m.sig.inputs@.len() as int),
    ) + input_defs_text(m.sig.inputs@, 1, m.sig.inputs@.len() - 1)
}

pub open spec fn mflat_tail_text(td: CppTypeDefinition, m: CppMethod) -> Seq<char> {
    ") "@ + crate::type_emit::const_kw_text(m.kind) + " noexcept {\n                    return "@
        + fq_name_text(td, m) + "(api, "@ + this_arg_text(m.kind) + move_args_text(
        m.sig.inputs@.len() - 1,
    ) + ");\n                }"@ + "\n"@
}

#[verifier::opaque]
pub open spec fn method_flat_def_text(td: CppTypeDefinition, m: CppMethod) -> Seq<char> {
    mflat_head_text(td, m) + mflat_tail_text(td, m)
}

/// Everything one method contributes: the static wrapper definition, its
/// projections onto views, and the member forwarder.
#[verifier::opaque]
pub open spec fn method_defs_text(td: CppTypeDefinition, m: CppMethod, panic: bool) -> Seq<char> {
    cpp_def_text(m.sig, fq_name_text(td, m), panic) + (match m.kind {
        ZngurMethodReceiver::Ref(mu) => method_field_defs_text(td, m, mu) + method_ref_defs_text(
            td,
            m,
            mu,
        ),
        _ => Seq::<char>::empty(),
    }) + (if !is_unsized(td) && !only_by_ref(td) && !(m.kind is Static) {
        method_flat_def_text(td, m)
    } else {
        Seq::<char>::empty()
    })
}

pub open spec fn method_defs_join(
    td: CppTypeDefinition,
    ms: Seq<CppMethod>,
    n: int,
    panic: bool,
) -> Seq<char>
    decreases n,
{
    if n <= 0 || n > ms.len() {
        Seq::empty()
    } else {
        method_defs_join(td, ms, n - 1, panic) + method_defs_text(td, ms[n - 1], panic)
    }
}

/// The pretty printer of the owning type.
pub open spec fn dbg_owned_text(td: CppTypeDefinition, p: Seq<char>) -> Seq<char> {
    "\n            namespace rust {\n                template<>\n                struct ZngurPrettyPrinter< "@
        + type_text(td.ty) + " > {\n                    static inline void print("@ + type_text(
        td.ty,
    ) + " const& t) {\n                        ::rust::__zngur_internal_check_init< "@ + type_text(
        td.ty,
    ) + " >(t);\n                        "@ + p
        + "(&t.data[0]);\n                    }\n                };\n"@
}

/// The pretty printer of one sized reference kind.
pub open spec fn dbg_ref_text(td: CppTypeDefinition, p: Seq<char>, kind: Seq<char>) -> Seq<char> {
    "\n                template<>\n                struct ZngurPrettyPrinter< "@ + kind + "< "@
        + type_text(td.ty) + " > > {\n                    static inline void print("@ + kind
        + "< "@ + type_text(td.ty)
        + " > const& t) {\n                        ::rust::__zngur_internal_check_init< "@ + kind
        + "< "@ + type_text(td.ty) + " > >(t);\n                        "@ + p
        + "(reinterpret_cast<uint8_t*>(t.data));\n                    }\n                };\n"@
}

/// The pretty printer of one field-projection kind, forwarding to the shared
/// reference printer.
pub open spec fn dbg_field_text(td: CppTypeDefinition, kind: Seq<char>) -> Seq<char> {
    "\n                template<size_t OFFSET>\n                struct ZngurPrettyPrinter< "@
        + kind + "< "@ + type_text(td.ty)
        + ", OFFSET > > {\n                    static inline void print("@ + kind + "< "@
        + type_text(td.ty)
        + ", OFFSET > const& t) {\n                        ZngurPrettyPrinter< Ref< "@ + type_text(
        td.ty,
    ) + " > >::print(t);\n                    }\n                };\n"@
}

/// The printers of a sized type: the owning value, both references and the
/// three field projections.
pub open spec fn dbg_big_text(td: CppTypeDefinition, p: Seq<char>) -> Seq<char> {
    dbg_owned_text(td, p) + dbg_ref_text(td, p, "Ref"@) + dbg_ref_text(td, p, "RefMut"@)
        + dbg_field_text(td, "FieldOwned"@) + dbg_field_text(td, "FieldRef"@) + dbg_field_text(
        td,
        "FieldRefMut"@,
    ) + "            }"@ + "\n"@
}

/// The printer of one reference kind of an unsized type.
pub open spec fn dbg_uref_text(td: CppTypeDefinition, p: Seq<char>, kind: Seq<char>) -> Seq<char> {
    "\n                template<>\n                struct ZngurPrettyPrinter< "@ + kind + "< "@
        + type_text(td.ty) + " > > {\n                    static inline void print("@ + kind
        + "< "@ + type_text(td.ty)
        + " > const& t) {\n                        ::rust::__zngur_internal_check_init< "@ + kind
        + "< "@ + type_text(td.ty) + " > >(t);\n                        "@ + p
        + "(::rust::__zngur_internal_data_ptr< "@ + kind + "< "@ + type_text(td.ty)
        + " > >(t));\n                    }\n                };\n"@
}

/// The printers of an unsized type: references only.
pub open spec fn dbg_small_text(td: CppTypeDefinition, p: Seq<char>) -> Seq<char> {
    "\n            namespace rust {"@ + dbg_uref_text(td, p, "Ref"@) + dbg_uref_text(
        td,
        p,
        "RefMut"@,
    ) + "            }"@ + "\n"@
}

/// What one well-known trait marker contributes here: printers for `Debug`,
/// nothing else.
#[verifier::opaque]
pub open spec fn wellknown_def_text(td: CppTypeDefinition, w: ZngurWellknownTraitData) -> Seq<
    char,
> {
    match w {
        ZngurWellknownTraitData::Debug { pretty_print, debug_print: _ } => if is_unsized(td) {
            dbg_small_text(td, pretty_print@)
        } else {
            dbg_big_text(td, pretty_print@)
        },
        _ => Seq::<char>::empty(),
    }
}

pub open spec fn wellknown_defs_join(
    td: CppTypeDefinition,
    ws: Seq<ZngurWellknownTraitData>,
    n: int,
) -> Seq<char>
    decreases n,
{
    if n <= 0 || n > ws.len() {
        Seq::empty()
    } else {
        wellknown_defs_join(td, ws, n - 1) + wellknown_def_text(td, ws[n - 1])
    }
}

/// Everything one type contributes after the struct declarations.
#[verifier::opaque]
pub open spec fn cpp_fn_defs_text(
    td: CppTypeDefinition,
    traits: Seq<CppTraitDefinition>,
    panic: bool,
) -> Seq<char> {
    ctor_defs_join(td.constructors@, td, td.constructors@.len() as int) + make_box_def_text(
        td,
        traits,
    ) + from_trait_ref_defs_text(td, traits) + method_defs_join(
        td,
        td.methods@,
        td.methods@.len() as int,
        panic,
    ) + wellknown_defs_join(td, td.wellknown_traits@, td.wellknown_traits@.len() as int)
}

#[verifier::rlimit(100)]
fn emit_ctor_def(c: &CppFnSig, td: &CppTypeDefinition, my_name: &str, state: &mut State)
    requires
        sig_wf(*c),
        type_wf(td.ty),
        my_name@ == my_name_text(*td),
    ensures
        final(state).text@ == old(state).text@ + ctor_def_text(*c, *td),
        final(state).panic_to_exception == old(state).panic_to_exception,
{
    proof {
        reveal(ctor_def_text);
    }
    emit_ctor_def_head(c, td, my_name, state);
    emit_ctor_def_tail(c, state);
}

#[verifier::rlimit(100)]
fn emit_ctor_def_head(c: &CppFnSig, td: &CppTypeDefinition, my_name: &str, state: &mut State)
    requires
        sig_wf(*c),
        type_wf(td.ty),
        my_name@ == my_name_text(*td),
    ensures
        final(state).text@ == old(state).text@ + ctor_def_head_text(*c, *td),
        final(state).panic_to_exception == old(state).panic_to_exception,
{
    state.put("inline ");
    state.put(my_name);
    state.put("::");
    state.put(td.ty.path.name());
    state.put("(");
    let rest: usize = if c.inputs.len() <= 1 {
        0
    } else {
        c.inputs.len() - 1
    };
    state.put_dyn_api_def(rest);
    state.put_input_defs(&c.inputs, 0);
    state.put(") noexcept {\n            ::rust::__zngur_internal_assume_init(*this);\n            ");
}

#[verifier::rlimit(100)]
fn emit_ctor_def_tail(c: &CppFnSig, state: &mut State)
    requires
        sig_wf(*c),
    ensures
        final(state).text@ == old(state).text@ + ctor_def_tail_text(*c),
        final(state).panic_to_exception == old(state).panic_to_exception,
{
    state.put("api->");
    state.put(c.rust_link_name.as_str());
    state.put("(");
    state.put_data_ptr_args(c.inputs.len());
    state.put("::rust::__zngur_internal_data_ptr(*this));\n            ");
    state.put_deinits(c.inputs.len());
    state.put("\n        }");
    state.put("\n");
}

fn emit_make_box_fn(td: &CppTypeDefinition, sig: &CppFnSig, my_name: &str, state: &mut State)
    requires
        sig_wf(*sig),
        type_wf(td.ty),
        my_name@ == my_name_text(*td),
    ensures
        final(state).text@ == old(state).text@ + make_box_fn_def_text(*td, *sig),
        final(state).panic_to_exception == old(state).panic_to_exception,
{
    state.put("\n");
    state.put(my_name);
    state.put(" ");
    state.put(my_name);
    state.put("::make_box(");
    state.put_std_function(sig);
    state.put(" f) {\nauto data = new ");
    state.put_std_function(sig);
    state.put("(f);\n");
    state.put(my_name);
    state.put(" o;\n::rust::__zngur_internal_assume_init(o);\n");
    emit_make_box_fn_b(sig, state);
    emit_make_box_fn_c(sig, state);
}

fn emit_make_box_fn_b(sig: &CppFnSig, state: &mut State)
    requires
        sig_wf(*sig),
    ensures
        final(state).text@ == old(state).text@ + make_box_fn_b_text(*sig),
        final(state).panic_to_exception == old(state).panic_to_exception,
{
    state.put(sig.rust_link_name.as_str());
    state.put(
        "(\nreinterpret_cast<uint8_t*>(data),\n[](uint8_t *d) { delete reinterpret_cast< ",
    );
    state.put_std_function(sig);
    state.put("*>(d); },\n[](uint8_t *d, ");
    state.put_uint8_args_space(sig.inputs.len());
    state.put(" uint8_t *o) {\nauto dd = reinterpret_cast< ");
    state.put_std_function(sig);
    state.put(" *>(d);\n");
}

fn emit_make_box_fn_c(sig: &CppFnSig, state: &mut State)
    requires
        sig_wf(*sig),
    ensures
        final(state).text@ == old(state).text@ + make_box_fn_c_text(*sig),
        final(state).panic_to_exception == old(state).panic_to_exception,
{
    sig.output.emit_text(state);
    state.put(" oo = (*dd)(");
    state.put_move_from_rust_args(&sig.inputs);
    state.put(");\n::rust::__zngur_internal_move_to_rust< ");
    sig.output.emit_text(state);
    state.put(" >(o, oo);\n},\n::rust::__zngur_internal_data_ptr(o));\nreturn o;\n}\n");
    state.put("\n");
}

#[verifier::rlimit(100)]
fn emit_make_box_normal(
    td: &CppTypeDefinition,
    as_ty: &crate::ty::CppType,
    link_name: &str,
    my_name: &str,
    state: &mut State,
)
    requires
        type_wf(td.ty),
        type_wf(*as_ty),
        my_name@ == my_name_text(*td),
    ensures
        final(state).text@ == old(state).text@ + make_box_normal_a_text(*td, *as_ty) + link_name@
            + make_box_normal_b_text(*td, *as_ty),
        final(state).panic_to_exception == old(state).panic_to_exception,
{
    state.put("\ntemplate<typename T, typename... Args>\n");
    state.put(my_name);
    state.put(" ");
    state.put(my_name);
    state.put(
        "::make_box(Args&&... args) {\nauto data = new T(::std::forward<Args>(args)...);\nauto data_as_impl = dynamic_cast< ",
    );
    as_ty.emit_text(state);
    state.put("*>(data);\n");
    state.put(my_name);
    state.put(" o;\n::rust::__zngur_internal_assume_init(o);\n");
    state.put(link_name);
    state.put(
        "(\nreinterpret_cast<uint8_t*>(data_as_impl),\n[](uint8_t *d) { delete reinterpret_cast< ",
    );
    as_ty.emit_text(state);
    state.put(" *>(d); },\n");
    state.put("\n");
    state.put("\n::rust::__zngur_internal_data_ptr(o));\nreturn o;\n}\n");
    state.put("\n");
}

fn emit_make_box_def(
    td: &CppTypeDefinition,
    traits: &Vec<CppTraitDefinition>,
    my_name: &str,
    state: &mut State,
)
    requires
        type_wf(td.ty),
        my_name@ == my_name_text(*td),
        match td.from_trait {
            Some(i) => i < traits@.len() && trait_wf(traits@[i as int]),
            None => true,
        },
    ensures
        final(state).text@ == old(state).text@ + make_box_def_text(*td, traits@),
        final(state).panic_to_exception == old(state).panic_to_exception,
{
    proof {
        reveal(make_box_def_text);
    }
    match &td.from_trait {
        None => {
            proof {
                assert(old(state).text@ + Seq::<char>::empty() =~= old(state).text@);
            }
        },
        Some(i) => {
            match &traits[*i] {
                CppTraitDefinition::Fn { sig } => {
                    emit_make_box_fn(td, sig, my_name, state);
                },
                CppTraitDefinition::Normal { as_ty, methods: _, link_name, link_name_ref: _ } => {
                    emit_make_box_normal(td, as_ty, link_name.as_str(), my_name, state);
                },
            }
        },
    }
}

#[verifier::rlimit(100)]
fn emit_from_trait_ref_ctor(
    td: &CppTypeDefinition,
    as_ty: &crate::ty::CppType,
    link_name_ref: &str,
    kind: &str,
    my_name: &str,
    state: &mut State,
)
    requires
        type_wf(td.ty),
        type_wf(*as_ty),
        my_name@ == my_name_text(*td),
    ensures
        final(state).text@ == old(state).text@ + from_trait_ref_ctor_text(
            *td,
            *as_ty,
            link_name_ref@,
            kind@,
        ),
        final(state).panic_to_exception == old(state).panic_to_exception,
{
    state.put("\nrust::");
    state.put(kind);
    state.put("< ");
    state.put(my_name);
    state.put(" >::");
    state.put(kind);
    state.put("(");
    as_ty.emit_text(state);
    state.put("& args) {\nauto data_as_impl = &args;\n::rust::__zngur_internal_assume_init(*this);\n");
    state.put(link_name_ref);
    state.put("(\n(uint8_t *)data_as_impl,\n");
    state.put("\n");
    state.put("\n::rust::__zngur_internal_data_ptr(*this));\n}\n");
    state.put("\n");
}

fn emit_from_trait_ref_defs(
    td: &CppTypeDefinition,
    traits: &Vec<CppTraitDefinition>,
    my_name: &str,
    state: &mut State,
)
    requires
        type_wf(td.ty),
        my_name@ == my_name_text(*td),
        match td.from_trait_ref {
            Some(i) => i < traits@.len() && trait_wf(traits@[i as int]) && !(traits@[i as int]
                is Fn),
            None => true,
        },
    ensures
        final(state).text@ == old(state).text@ + from_trait_ref_defs_text(*td, traits@),
        final(state).panic_to_exception == old(state).panic_to_exception,
{
    proof {
        reveal(from_trait_ref_defs_text);
    }
    match &td.from_trait_ref {
        None => {
            proof {
                assert(old(state).text@ + Seq::<char>::empty() =~= old(state).text@);
            }
        },
        Some(i) => {
            match &traits[*i] {
                CppTraitDefinition::Fn { .. } => {
                    proof {
                        assert(false);
                    }
                },
                CppTraitDefinition::Normal { as_ty, methods: _, link_name: _, link_name_ref } => {
                    emit_from_trait_ref_ctor(td, as_ty, link_name_ref.as_str(), "Ref", my_name, state);
                    emit_from_trait_ref_ctor(
                        td,
                        as_ty,
                        link_name_ref.as_str(),
                        " RefMut",
                        my_name,
                        state,
                    );
                },
            }
        },
    }
}

#[verifier::rlimit(100)]
fn emit_method_field_def(
    td: &CppTypeDefinition,
    m: &CppMethod,
    kind: &str,
    fq: &str,
    state: &mut State,
)
    requires
        type_wf(td.ty),
        sig_wf(m.sig),
        m.sig.inputs@.len() >= 1,
        fq@ == fq_name_text(*td, *m),
    ensures
        final(state).text@ == old(state).text@ + method_field_def_text(*td, *m, kind@),
        final(state).panic_to_exception == old(state).panic_to_exception,
{
    proof {
        reveal(method_field_def_text);
    }
    emit_mfd_head(td, m, kind, state);
    emit_mfd_tail(td, m, fq, state);
}

#[verifier::rlimit(100)]
fn emit_mfd_head(td: &CppTypeDefinition, m: &CppMethod, kind: &str, state: &mut State)
    requires
        type_wf(td.ty),
        sig_wf(m.sig),
        m.sig.inputs@.len() >= 1,
    ensures
        final(state).text@ == old(state).text@ + mfd_head_text(*td, *m, kind@),
        final(state).panic_to_exception == old(state).panic_to_exception,
{
    state.put("template<size_t OFFSET>\n                        inline ");
    m.sig.output.emit_text(state);
    state.put(" rust::");
    state.put(kind);
    state.put("< ");
    td.ty.emit_text(state);
    state.put(", OFFSET >::");
    state.put(m.name.as_str());
    state.put("(");
    state.put_input_defs(&m.sig.inputs, 1);
}

#[verifier::rlimit(100)]
fn emit_mfd_tail(td: &CppTypeDefinition, m: &CppMethod, fq: &str, state: &mut State)
    requires
        sig_wf(m.sig),
        m.sig.inputs@.len() >= 1,
        fq@ == fq_name_text(*td, *m),
    ensures
        final(state).text@ == old(state).text@ + mfd_tail_text(*td, *m),
        final(state).panic_to_exception == old(state).panic_to_exception,
{
    state.put(") const noexcept {\n                    return ");
    state.put(fq);
    state.put("(*this");
    state.put_move_args(m.sig.inputs.len() - 1);
    state.put(");\n                }");
    state.put("\n");
}

#[verifier::rlimit(100)]
fn emit_method_ref_def(
    td: &CppTypeDefinition,
    m: &CppMethod,
    kind: &str,
    fq: &str,
    state: &mut State,
)
    requires
        type_wf(td.ty),
        sig_wf(m.sig),
        m.sig.inputs@.len() >= 1,
        fq@ == fq_name_text(*td, *m),
    ensures
        final(state).text@ == old(state).text@ + method_ref_def_text(*td, *m, kind@),
        final(state).panic_to_exception == old(state).panic_to_exception,
{
    proof {
        reveal(method_ref_def_text);
    }
    emit_mrd_head(td, m, kind, state);
    emit_mrd_tail(td, m, fq, state);
}

#[verifier::rlimit(100)]
fn emit_mrd_head(td: &CppTypeDefinition, m: &CppMethod, kind: &str, state: &mut State)
    requires
        type_wf(td.ty),
        sig_wf(m.sig),
        m.sig.inputs@.len() >= 1,
    ensures
        final(state).text@ == old(state).text@ + mrd_head_text(*td, *m, kind@),
        final(state).panic_to_exception == old(state).panic_to_exception,
{
    state.put("inline ");
    m.sig.output.emit_text(state);
    state.put(" rust::");
    state.put(kind);
    state.put("< ");
    td.ty.emit_text(state);
    state.put(" >::");
    state.put(m.name.as_str());
    state.put("(");
    let rest: usize = if m.sig.inputs.len() <= 1 {
        0
    } else {
        m.sig.inputs.len() - 1
    };
    state.put_dyn_api_def(rest);
    state.put_input_defs(&m.sig.inputs, 1);
}

#[verifier::rlimit(100)]
fn emit_mrd_tail(td: &CppTypeDefinition, m: &CppMethod, fq: &str, state: &mut State)
    requires
        sig_wf(m.sig),
        m.sig.inputs@.len() >= 1,
        fq@ == fq_name_text(*td, *m),
    ensures
        final(state).text@ == old(state).text@ + mrd_tail_text(*td, *m),
        final(state).panic_to_exception == old(state).panic_to_exception,
{
    state.put(") const noexcept {\n                    return ");
    state.put(fq);
    state.put("(api, *this");
    state.put_move_args(m.sig.inputs.len() - 1);
    state.put(");\n                }");
    state.put("\n");
}

#[verifier::rlimit(100)]
fn emit_method_flat_def(td: &CppTypeDefinition, m: &CppMethod, fq: &str, state: &mut State)
    requires
        type_wf(td.ty),
        sig_wf(m.sig),
        m.sig.inputs@.len() >= 1,
        fq@ == fq_name_text(*td, *m),
        !(m.kind is Static),
    ensures
        final(state).text@ == old(state).text@ + method_flat_def_text(*td, *m),
        final(state).panic_to_exception == old(state).panic_to_exception,
{
    proof {
        reveal(method_flat_def_text);
    }
    emit_mflat_head(td, m, fq, state);
    emit_mflat_tail(td, m, fq, state);
}

#[verifier::rlimit(100)]
fn emit_mflat_head(td: &CppTypeDefinition, m: &CppMethod, fq: &str, state: &mut State)
    requires
        type_wf(td.ty),
        sig_wf(m.sig),
        m.sig.inputs@.len() >= 1,
        fq@ == fq_name_text(*td, *m),
    ensures
        final(state).text@ == old(state).text@ + mflat_head_text(*td, *m),
        final(state).panic_to_exception == old(state).panic_to_exception,
{
    state.put("inline ");
    m.sig.output.emit_text(state);
    state.put(" ");
    state.put(fq);
    state.put("(");
    let rest: usize = if m.sig.inputs.len() <= 1 {
        0
    } else {
        m.sig.inputs.len() - 1
    };
    state.put_dyn_api_def(rest);
    state.put_input_defs(&m.sig.inputs, 1);
}

#[verifier::rlimit(100)]
fn emit_mflat_tail(td: &CppTypeDefinition, m: &CppMethod, fq: &str, state: &mut State)
    requires
        sig_wf(m.sig),
        m.sig.inputs@.len() >= 1,
        fq@ == fq_name_text(*td, *m),
    ensures
        final(state).text@ == old(state).text@ + mflat_tail_text(*td, *m),
        final(state).panic_to_exception == old(state).panic_to_exception,
{
    state.put(") ");
    if matches!(m.kind, ZngurMethodReceiver::Ref(Mutability::Not)) {
        state.put("const");
    } else {
        state.put("");
    }
    state.put(" noexcept {\n                    return ");
    state.put(fq);
    state.put("(api, ");
    if matches!(m.kind, ZngurMethodReceiver::Move) {
        state.put("::std::move(*this)");
    } else {
        state.put("*this");
    }
    state.put_move_args(m.sig.inputs.len() - 1);
    state.put(");\n                }");
    state.put("\n");
}

#[verifier::rlimit(100)]
fn emit_method_defs(td: &CppTypeDefinition, m: &CppMethod, my_name: &str, state: &mut State)
    requires
        type_wf(td.ty),
        sig_wf(m.sig),
        !(m.kind is Static) ==> m.sig.inputs@.len() >= 1,
        my_name@ == my_name_text(*td),
    ensures
        final(state).text@ == old(state).text@ + method_defs_text(
            *td,
            *m,
            old(state).panic_to_exception,
        ),
        final(state).panic_to_exception == old(state).panic_to_exception,
{
    proof {
        reveal(method_defs_text);
    }
    let mut fq = String::from_str(my_name);
    fq.append("::");
    fq.append(m.name.as_str());
    m.sig.emit_cpp_def(state, fq.as_str());
    match &m.kind {
        ZngurMethodReceiver::Ref(mu) => {
            match mu {
                Mutability::Mut => {
                    emit_method_field_def(td, m, "FieldOwned", fq.as_str(), state);
                    emit_method_field_def(td, m, "FieldRefMut", fq.as_str(), state);
                    emit_method_ref_def(td, m, "RefMut", fq.as_str(), state);
                },
                Mutability::Not => {
                    emit_method_field_def(td, m, "FieldOwned", fq.as_str(), state);
                    emit_method_field_def(td, m, "FieldRefMut", fq.as_str(), state);
                    emit_method_field_def(td, m, "FieldRef", fq.as_str(), state);
                    emit_method_ref_def(td, m, "Ref", fq.as_str(), state);
                    emit_method_ref_def(td, m, "RefMut", fq.as_str(), state);
                },
            }
        },
        _ => {
            proof {
                assert(state.text@ + Seq::<char>::empty() =~= state.text@);
            }
        },
    }
    let flat = !td.is_unsized_exec() && !matches!(td.layout, CppLayoutPolicy::OnlyByRef)
        && !matches!(m.kind, ZngurMethodReceiver::Static);
    if flat {
        emit_method_flat_def(td, m, fq.as_str(), state);
    } else {
        proof {
            assert(state.text@ + Seq::<char>::empty() =~= state.text@);
        }
    }
}

#[verifier::rlimit(100)]
fn emit_dbg_owned(td: &CppTypeDefinition, p: &str, state: &mut State)
    requires
        type_wf(td.ty),
    ensures
        final(state).text@ == old(state).text@ + dbg_owned_text(*td, p@),
        final(state).panic_to_exception == old(state).panic_to_exception,
{
    state.put(
        "\n            namespace rust {\n                template<>\n                struct ZngurPrettyPrinter< ",
    );
    td.ty.emit_text(state);
    state.put(" > {\n                    static inline void print(");
    td.ty.emit_text(state);
    state.put(" const& t) {\n                        ::rust::__zngur_internal_check_init< ");
    td.ty.emit_text(state);
    state.put(" >(t);\n                        ");
    state.put(p);
    state.put("(&t.data[0]);\n                    }\n                };\n");
}

#[verifier::rlimit(100)]
fn emit_dbg_ref(td: &CppTypeDefinition, p: &str, kind: &str, state: &mut State)
    requires
        type_wf(td.ty),
    ensures
        final(state).text@ == old(state).text@ + dbg_ref_text(*td, p@, kind@),
        final(state).panic_to_exception == old(state).panic_to_exception,
{
    state.put("\n                template<>\n                struct ZngurPrettyPrinter< ");
    state.put(kind);
    state.put("< ");
    td.ty.emit_text(state);
    state.put(" > > {\n                    static inline void print(");
    state.put(kind);
    state.put("< ");
    td.ty.emit_text(state);
    state.put(" > const& t) {\n                        ::rust::__zngur_internal_check_init< ");
    state.put(kind);
    state.put("< ");
    td.ty.emit_text(state);
    state.put(" > >(t);\n                        ");
    state.put(p);
    state.put("(reinterpret_cast<uint8_t*>(t.data));\n                    }\n                };\n");
}

#[verifier::rlimit(100)]
fn emit_dbg_field(td: &CppTypeDefinition, kind: &str, state: &mut State)
    requires
        type_wf(td.ty),
    ensures
        final(state).text@ == old(state).text@ + dbg_field_text(*td, kind@),
        final(state).panic_to_exception == old(state).panic_to_exception,
{
    state.put(
        "\n                template<size_t OFFSET>\n                struct ZngurPrettyPrinter< ",
    );
    state.put(kind);
    state.put("< ");
    td.ty.emit_text(state);
    state.put(", OFFSET > > {\n                    static inline void print(");
    state.put(kind);
    state.put("< ");
    td.ty.emit_text(state);
    state.put(", OFFSET > const& t) {\n                        ZngurPrettyPrinter< Ref< ");
    td.ty.emit_text(state);
    state.put(" > >::print(t);\n                    }\n                };\n");
}

#[verifier::rlimit(100)]
fn emit_dbg_uref(td: &CppTypeDefinition, p: &str, kind: &str, state: &mut State)
    requires
        type_wf(td.ty),
    ensures
        final(state).text@ == old(state).text@ + dbg_uref_text(*td, p@, kind@),
        final(state).panic_to_exception == old(state).panic_to_exception,
{
    state.put("\n                template<>\n                struct ZngurPrettyPrinter< ");
    state.put(kind);
    state.put("< ");
    td.ty.emit_text(state);
    state.put(" > > {\n                    static inline void print(");
    state.put(kind);
    state.put("< ");
    td.ty.emit_text(state);
    state.put(" > const& t) {\n                        ::rust::__zngur_internal_check_init< ");
    state.put(kind);
    state.put("< ");
    td.ty.emit_text(state);
    state.put(" > >(t);\n                        ");
    state.put(p);
    state.put("(::rust::__zngur_internal_data_ptr< ");
    state.put(kind);
    state.put("< ");
    td.ty.emit_text(state);
    state.put(" > >(t));\n                    }\n                };\n");
}

#[verifier::rlimit(100)]
fn emit_wellknown_def(td: &CppTypeDefinition, w: &ZngurWellknownTraitData, state: &mut State)
    requires
        type_wf(td.ty),
    ensures
        final(state).text@ == old(state).text@ + wellknown_def_text(*td, *w),
        final(state).panic_to_exception == old(state).panic_to_exception,
{
    proof {
        reveal(wellknown_def_text);
    }
    match w {
        ZngurWellknownTraitData::Debug { pretty_print, debug_print: _ } => {
            if td.is_unsized_exec() {
                state.put("\n            namespace rust {");
                emit_dbg_uref(td, pretty_print.as_str(), "Ref", state);
                emit_dbg_uref(td, pretty_print.as_str(), "RefMut", state);
                state.put("            }");
                state.put("\n");
            } else {
                emit_dbg_owned(td, pretty_print.as_str(), state);
                emit_dbg_ref(td, pretty_print.as_str(), "Ref", state);
                emit_dbg_ref(td, pretty_print.as_str(), "RefMut", state);
                emit_dbg_field(td, "FieldOwned", state);
                emit_dbg_field(td, "FieldRef", state);
                emit_dbg_field(td, "FieldRefMut", state);
                state.put("            }");
                state.put("\n");
            }
        },
        _ => {
            proof {
                assert(old(state).text@ + Seq::<char>::empty() =~= old(state).text@);
            }
        },
    }
}

impl CppTypeDefinition {
    /// The qualified name without the leading `::`, as an owned string.
    fn my_name(&self) -> (r: String)
        requires
            type_wf(self.ty),
        ensures
            r@ == my_name_text(*self),
    {
        let full = self.ty.to_text();
        let len: usize = full.as_str().unicode_len();
        proof {
            reveal_strlit("::");
            assert(crate::path::path_text(self.ty.path).len() >= 2);
            assert(type_text(self.ty).len() >= 2);
            assert(full@.subrange(2, len as int) =~= type_text(self.ty).skip(2));
        }
        full.as_str().substring_char(2, len).to_owned()
    }

    /// The per-type definitions after the struct declarations: constructor
    /// bodies, construction bridges, method wrappers on every compatible
    /// view, and the pretty printers of `Debug`-marked types.
    #[verifier::rlimit(100)]
    pub fn emit_cpp_fn_defs(
        &self,
        state: &mut State,
        traits: &Vec<CppTraitDefinition>,
    )
        requires
            td_wf(*self, traits@),
            match self.from_trait_ref {
                Some(i) => !(traits@[i as int] is Fn),
                None => true,
            },
        ensures
            final(state).text@ == old(state).text@ + cpp_fn_defs_text(
                *self,
                traits@,
                old(state).panic_to_exception,
            ),
            final(state).panic_to_exception == old(state).panic_to_exception,
    {
        proof {
            reveal(cpp_fn_defs_text);
        }
        let my_name = self.my_name();
        let nc: usize = self.constructors.len();
        let mut j: usize = 0;
        proof {
            assert(old(state).text@ + Seq::<char>::empty() =~= old(state).text@);
        }
        while j < nc
            invariant
                0 <= j <= nc,
                nc == self.constructors@.len(),
                type_wf(self.ty),
                my_name@ == my_name_text(*self),
                forall|k: int|
                    0 <= k < self.constructors@.len() ==> sig_wf(#[trigger] self.constructors@[k]),
                state.text@ == old(state).text@ + ctor_defs_join(
                    self.constructors@,
                    *self,
                    j as int,
                ),
                state.panic_to_exception == old(state).panic_to_exception,
            decreases nc - j,
        {
            emit_ctor_def(&self.constructors[j], self, my_name.as_str(), state);
            j = j + 1;
        }
        emit_make_box_def(self, traits, my_name.as_str(), state);
        emit_from_trait_ref_defs(self, traits, my_name.as_str(), state);
        let ghost mid = state.text@;
        let nm: usize = self.methods.len();
        let mut k: usize = 0;
        proof {
            assert(mid + Seq::<char>::empty() =~= mid);
        }
        while k < nm
            invariant
                0 <= k <= nm,
                nm == self.methods@.len(),
                type_wf(self.ty),
                my_name@ == my_name_text(*self),
                forall|q: int|
                    0 <= q < self.methods@.len() ==> sig_wf(#[trigger] self.methods@[q].sig) && (!(
                    self.methods@[q].kind is Static) ==> self.methods@[q].sig.inputs@.len() >= 1),
                state.text@ == mid + method_defs_join(
                    *self,
                    self.methods@,
                    k as int,
                    old(state).panic_to_exception,
                ),
                state.panic_to_exception == old(state).panic_to_exception,
            decreases nm - k,
        {
            emit_method_defs(self, &self.methods[k], my_name.as_str(), state);
            k = k + 1;
        }
        let ghost mid2 = state.text@;
        let nw: usize = self.wellknown_traits.len();
        let mut q: usize = 0;
        proof {
            assert(mid2 + Seq::<char>::empty() =~= mid2);
        }
        while q < nw
            invariant
                0 <= q <= nw,
                nw == self.wellknown_traits@.len(),
                type_wf(self.ty),
                state.text@ == mid2 + wellknown_defs_join(*self, self.wellknown_traits@, q as int),
                state.panic_to_exception == old(state).panic_to_exception,
            decreases nw - q,
        {
            emit_wellknown_def(self, &self.wellknown_traits[q], state);
            q = q + 1;
        }
    }
}

} // verus!
