//! The file renderer: assembles the header (prelude, built-in type table,
//! `extern "C"` declarations, the dynamic dispatch table, every type and
//! trait emission, exported declarations) and the optional source unit.

use vstd::prelude::*;
use crate::text::{State, text_starts_with, str_starts_with, str_eq, replace_text};
use crate::ty::{type_wf, type_text, type_header_text};
use crate::path::path_wf;
use crate::sig::{CppFnSig, CppFnDefinition, CppExportedFnDefinition, CppExportedImplDefinition,
    sig_wf, rust_link_decl_text, rust_link_text, dyn_api_field_text, input_defs_text,
    move_from_rust_args_text, fn_def_text};
use crate::trait_def::{CppTraitDefinition, trait_wf, trait_rust_links_text, trait_def_text,
    trait_cpp_text};
use crate::type_def::{CppTypeDefinition, td_wf, is_copy, has_drop, only_by_ref};
use crate::type_emit::{type_def_text, is_unit};
use crate::type_cpp::cpp_fn_defs_text;
use crate::links::{type_link_names, type_rust_links_text};

verus! {

/// The aggregate model: every definition the two artifacts are generated
/// from, with the global options.
#[derive(Default)]
pub struct CppFile {
    pub type_defs: Vec<CppTypeDefinition>,
    pub trait_defs: Vec<CppTraitDefinition>,
    pub fn_defs: Vec<CppFnDefinition>,
    pub exported_fn_defs: Vec<CppExportedFnDefinition>,
    pub exported_impls: Vec<CppExportedImplDefinition>,
    pub additional_includes: String,
    pub panic_to_exception: bool,
}

/// The fixed, enumerable table of built-in numeric and pointer-like types
/// that get hand-written specializations.
pub open spec fn builtin_names() -> Seq<Seq<char>> {
    seq![
        "int8_t"@,
        "uint8_t"@,
        "int16_t"@,
        "uint16_t"@,
        "int32_t"@,
        "uint32_t"@,
        "int64_t"@,
        "uint64_t"@,
        "::rust::Ref<int8_t>"@,
        "::rust::Ref<uint8_t>"@,
        "::rust::RefMut<int8_t>"@,
        "::rust::RefMut<uint8_t>"@,
        "::rust::Ref<int16_t>"@,
        "::rust::Ref<uint16_t>"@,
        "::rust::RefMut<int16_t>"@,
        "::rust::RefMut<uint16_t>"@,
        "::rust::Ref<int32_t>"@,
        "::rust::Ref<uint32_t>"@,
        "::rust::RefMut<int32_t>"@,
        "::rust::RefMut<uint32_t>"@,
        "::rust::Ref<int64_t>"@,
        "::rust::Ref<uint64_t>"@,
        "::rust::RefMut<int64_t>"@,
        "::rust::RefMut<uint64_t>"@,
        "::rust::ZngurCppOpaqueOwnedObject"@,
        "::double_t"@,
        "::float_t"@,
        "::size_t"@,
    ]
}

/// Whether a built-in name gets a stream pretty printer.
pub open spec fn is_numeric_name(ty: Seq<char>) -> bool {
    text_starts_with(ty, "int"@) || text_starts_with(ty, "uint"@) || text_starts_with(
        ty,
        "::size_t"@,
    ) || text_starts_with(ty, "::double"@) || text_starts_with(ty, "::float"@)
}

/// The byte-identity specializations of one built-in type, in nine pieces.
#[verifier::opaque]
pub open spec fn bi1_text(ty: Seq<char>) -> Seq<char> {
    "\n    template<>\n    inline uint8_t* __zngur_internal_data_ptr< "@ + ty + " >(const "@ + ty
        + "& t) noexcept {\n        return const_cast<uint8_t*>(reinterpret_cast<const uint8_t*>(&t));\n    }\n\n    template<>\n    inline void __zngur_internal_assume_init< "@
        + ty + " >("@ + ty
        + "&) noexcept {}\n    template<>\n    inline void __zngur_internal_assume_deinit< "@
}

#[verifier::opaque]
pub open spec fn bi2_text(ty: Seq<char>) -> Seq<char> {
    ty + " >("@ + ty + "&) noexcept {}\n\n    template<>\n    inline size_t __zngur_internal_size_of< "@
        + ty + " >() noexcept {\n        return sizeof("@ + ty
        + ");\n    }\n\n    template<>\n    inline uint8_t* __zngur_internal_data_ptr< "@
}

#[verifier::opaque]
pub open spec fn bi3_text(ty: Seq<char>) -> Seq<char> {
    ty + "*>("@ + ty
        + "* const & t) noexcept {\n        return const_cast<uint8_t*>(reinterpret_cast<const uint8_t*>(&t));\n    }\n\n    template<>\n    inline void __zngur_internal_assume_init< "@
        + ty + "*>("@ + ty
        + "*&) noexcept {}\n    template<>\n    inline void __zngur_internal_assume_deinit< "@
}

#[verifier::opaque]
pub open spec fn bi4_text(ty: Seq<char>) -> Seq<char> {
    ty + "*>("@ + ty
        + "*&) noexcept {}\n\n    template<>\n    inline uint8_t* __zngur_internal_data_ptr< "@
        + ty + " const*>("@ + ty
        + " const* const & t) noexcept {\n        return const_cast<uint8_t*>(reinterpret_cast<const uint8_t*>(&t));\n    }\n\n    template<>\n    inline void __zngur_internal_assume_init< "@
}

#[verifier::opaque]
pub open spec fn bi5_text(ty: Seq<char>) -> Seq<char> {
    ty + " const*>("@ + ty
        + " const*&) noexcept {}\n    template<>\n    inline void __zngur_internal_assume_deinit< "@
        + ty + " const*>("@ + ty + " const*&) noexcept {}\n\n    template<>\n    struct Ref< "@
}

#[verifier::opaque]
pub open spec fn bi6_text(ty: Seq<char>) -> Seq<char> {
    ty + " > {\n        Ref() {\n            data = 0;\n        }\n        Ref(const "@ + ty
        + "& t) {\n            data = reinterpret_cast<size_t>(__zngur_internal_data_ptr(t));\n        }\n\n        "@
        + ty + "& operator*() {\n            return *reinterpret_cast< "@ + ty
        + "*>(data);\n        }\n        private:\n            size_t data;\n        friend uint8_t* ::rust::__zngur_internal_data_ptr<Ref< "@
}

#[verifier::opaque]
pub open spec fn bi7_text(ty: Seq<char>) -> Seq<char> {
    ty + " > >(const ::rust::Ref< "@ + ty
        + " >& t) noexcept ;\n        friend ::rust::ZngurPrettyPrinter< Ref< "@ + ty
        + " > >;\n    };\n\n    template<>\n    struct RefMut< "@
}

#[verifier::opaque]
pub open spec fn bi8_text(ty: Seq<char>) -> Seq<char> {
    ty + " > {\n        RefMut() {\n            data = 0;\n        }\n        RefMut("@ + ty
        + "& t) {\n            data = reinterpret_cast<size_t>(__zngur_internal_data_ptr(t));\n        }\n\n        "@
        + ty + "& operator*() {\n            return *reinterpret_cast< "@ + ty
        + "*>(data);\n        }\n        private:\n            size_t data;\n        friend uint8_t* ::rust::__zngur_internal_data_ptr<RefMut< "@
}

#[verifier::opaque]
pub open spec fn bi9_text(ty: Seq<char>) -> Seq<char> {
    ty + " > >(const ::rust::RefMut< "@ + ty
        + " >& t) noexcept ;\n        friend ::rust::ZngurPrettyPrinter< Ref< "@ + ty
        + " > >;\n    };\n"@ + "\n"@
}

/// The whole specialization block of one built-in type.
#[verifier::opaque]
pub open spec fn builtin_block_text(ty: Seq<char>) -> Seq<char> {
    bi1_text(ty) + bi2_text(ty) + bi3_text(ty) + bi4_text(ty) + bi5_text(ty) + bi6_text(ty)
        + bi7_text(ty) + bi8_text(ty) + bi9_text(ty)
}

/// The stream pretty printer of a numeric built-in.
#[verifier::opaque]
pub open spec fn builtin_printer_text(ty: Seq<char>) -> Seq<char> {
    "\n    template<>\n    struct ZngurPrettyPrinter<"@ + ty
        + "> {\n        static inline void print("@ + ty
        + " const& t) {\n            ::std::cerr << t << ::std::endl;\n        }\n    };\n                    "@
        + "\n"@
}

/// Everything one built-in contributes: the specializations, the printer for
/// numeric names, and the platform guard around `::size_t`.
#[verifier::opaque]
pub open spec fn builtin_entry_text(ty: Seq<char>) -> Seq<char> {
    (if ty == "::size_t"@ {
        "#ifdef __APPLE__"@ + "\n"@
    } else {
        Seq::<char>::empty()
    }) + builtin_block_text(ty) + (if is_numeric_name(ty) {
        builtin_printer_text(ty)
    } else {
        Seq::<char>::empty()
    }) + (if ty == "::size_t"@ {
        "#endif"@ + "\n"@
    } else {
        Seq::<char>::empty()
    })
}

pub open spec fn builtins_join(n: int) -> Seq<char>
    decreases n,
{
    if n <= 0 || n > builtin_names().len() {
        Seq::empty()
    } else {
        builtins_join(n - 1) + builtin_entry_text(builtin_names()[n - 1])
    }
}

fn emit_bi1(ty: &str, state: &mut State)
    ensures
        final(state).text@ == old(state).text@ + bi1_text(ty@),
        final(state).panic_to_exception == old(state).panic_to_exception,
{
    proof {
        reveal(bi1_text);
    }
    state.put("\n    template<>\n    inline uint8_t* __zngur_internal_data_ptr< ");
    state.put(ty);
    state.put(" >(const ");
    state.put(ty);
    state.put(
        "& t) noexcept {\n        return const_cast<uint8_t*>(reinterpret_cast<const uint8_t*>(&t));\n    }\n\n    template<>\n    inline void __zngur_internal_assume_init< ",
    );
    state.put(ty);
    state.put(" >(");
    state.put(ty);
    state.put(
        "&) noexcept {}\n    template<>\n    inline void __zngur_internal_assume_deinit< ",
    );
}

fn emit_bi2(ty: &str, state: &mut State)
    ensures
        final(state).text@ == old(state).text@ + bi2_text(ty@),
        final(state).panic_to_exception == old(state).panic_to_exception,
{
    proof {
        reveal(bi2_text);
    }
    state.put(ty);
    state.put(" >(");
    state.put(ty);
    state.put(
        "&) noexcept {}\n\n    template<>\n    inline size_t __zngur_internal_size_of< ",
    );
    state.put(ty);
    state.put(" >() noexcept {\n        return sizeof(");
    state.put(ty);
    state.put(
        ");\n    }\n\n    template<>\n    inline uint8_t* __zngur_internal_data_ptr< ",
    );
}

fn emit_bi3(ty: &str, state: &mut State)
    ensures
        final(state).text@ == old(state).text@ + bi3_text(ty@),
        final(state).panic_to_exception == old(state).panic_to_exception,
{
    proof {
        reveal(bi3_text);
    }
    state.put(ty);
    state.put("*>(");
    state.put(ty);
    state.put(
        "* const & t) noexcept {\n        return const_cast<uint8_t*>(reinterpret_cast<const uint8_t*>(&t));\n    }\n\n    template<>\n    inline void __zngur_internal_assume_init< ",
    );
    state.put(ty);
    state.put("*>(");
    state.put(ty);
    state.put(
        "*&) noexcept {}\n    template<>\n    inline void __zngur_internal_assume_deinit< ",
    );
}

fn emit_bi4(ty: &str, state: &mut State)
    ensures
        final(state).text@ == old(state).text@ + bi4_text(ty@),
        final(state).panic_to_exception == old(state).panic_to_exception,
{
    proof {
        reveal(bi4_text);
    }
    state.put(ty);
    state.put("*>(");
    state.put(ty);
    state.put(
        "*&) noexcept {}\n\n    template<>\n    inline uint8_t* __zngur_internal_data_ptr< ",
    );
    state.put(ty);
    state.put(" const*>(");
    state.put(ty);
    state.put(
        " const* const & t) noexcept {\n        return const_cast<uint8_t*>(reinterpret_cast<const uint8_t*>(&t));\n    }\n\n    template<>\n    inline void __zngur_internal_assume_init< ",
    );
}

fn emit_bi5(ty: &str, state: &mut State)
    ensures
        final(state).text@ == old(state).text@ + bi5_text(ty@),
        final(state).panic_to_exception == old(state).panic_to_exception,
{
    proof {
        reveal(bi5_text);
    }
    state.put(ty);
    state.put(" const*>(");
    state.put(ty);
    state.put(
        " const*&) noexcept {}\n    template<>\n    inline void __zngur_internal_assume_deinit< ",
    );
    state.put(ty);
    state.put(" const*>(");
    state.put(ty);
    state.put(" const*&) noexcept {}\n\n    template<>\n    struct Ref< ");
}

fn emit_bi6(ty: &str, state: &mut State)
    ensures
        final(state).text@ == old(state).text@ + bi6_text(ty@),
        final(state).panic_to_exception == old(state).panic_to_exception,
{
    proof {
        reveal(bi6_text);
    }
    state.put(ty);
    state.put(" > {\n        Ref() {\n            data = 0;\n        }\n        Ref(const ");
    state.put(ty);
    state.put(
        "& t) {\n            data = reinterpret_cast<size_t>(__zngur_internal_data_ptr(t));\n        }\n\n        ",
    );
    state.put(ty);
    state.put("& operator*() {\n            return *reinterpret_cast< ");
    state.put(ty);
    state.put(
        "*>(data);\n        }\n        private:\n            size_t data;\n        friend uint8_t* ::rust::__zngur_internal_data_ptr<Ref< ",
    );
}

fn emit_bi7(ty: &str, state: &mut State)
    ensures
        final(state).text@ == old(state).text@ + bi7_text(ty@),
        final(state).panic_to_exception == old(state).panic_to_exception,
{
    proof {
        reveal(bi7_text);
    }
    state.put(ty);
    state.put(" > >(const ::rust::Ref< ");
    state.put(ty);
    state.put(" >& t) noexcept ;\n        friend ::rust::ZngurPrettyPrinter< Ref< ");
    state.put(ty);
    state.put(" > >;\n    };\n\n    template<>\n    struct RefMut< ");
}

fn emit_bi8(ty: &str, state: &mut State)
    ensures
        final(state).text@ == old(state).text@ + bi8_text(ty@),
        final(state).panic_to_exception == old(state).panic_to_exception,
{
    proof {
        reveal(bi8_text);
    }
    state.put(ty);
    state.put(" > {\n        RefMut() {\n            data = 0;\n        }\n        RefMut(");
    state.put(ty);
    state.put(
        "& t) {\n            data = reinterpret_cast<size_t>(__zngur_internal_data_ptr(t));\n        }\n\n        ",
    );
    state.put(ty);
    state.put("& operator*() {\n            return *reinterpret_cast< ");
    state.put(ty);
    state.put(
        "*>(data);\n        }\n        private:\n            size_t data;\n        friend uint8_t* ::rust::__zngur_internal_data_ptr<RefMut< ",
    );
}

fn emit_bi9(ty: &str, state: &mut State)
    ensures
        final(state).text@ == old(state).text@ + bi9_text(ty@),
        final(state).panic_to_exception == old(state).panic_to_exception,
{
    proof {
        reveal(bi9_text);
    }
    state.put(ty);
    state.put(" > >(const ::rust::RefMut< ");
    state.put(ty);
    state.put(" >& t) noexcept ;\n        friend ::rust::ZngurPrettyPrinter< Ref< ");
    state.put(ty);
    state.put(" > >;\n    };\n");
    state.put("\n");
}

#[verifier::rlimit(100)]
fn emit_builtin_block(ty: &str, state: &mut State)
    ensures
        final(state).text@ == old(state).text@ + builtin_block_text(ty@),
        final(state).panic_to_exception == old(state).panic_to_exception,
{
    proof {
        reveal(builtin_block_text);
    }
    emit_bi1(ty, state);
    emit_bi2(ty, state);
    emit_bi3(ty, state);
    emit_bi4(ty, state);
    emit_bi5(ty, state);
    emit_bi6(ty, state);
    emit_bi7(ty, state);
    emit_bi8(ty, state);
    emit_bi9(ty, state);
}

#[verifier::rlimit(100)]
fn emit_builtin_entry(ty: &str, state: &mut State)
    ensures
        final(state).text@ == old(state).text@ + builtin_entry_text(ty@),
        final(state).panic_to_exception == old(state).panic_to_exception,
{
    proof {
        reveal(builtin_printer_text);
    }
    proof {
        reveal(builtin_entry_text);
    }
    let apple = str_eq(ty, "::size_t");
    if apple {
        state.put("#ifdef __APPLE__");
        state.put("\n");
    } else {
        proof {
            assert(old(state).text@ + Seq::<char>::empty() =~= old(state).text@);
        }
    }
    emit_builtin_block(ty, state);
    let numeric = str_starts_with(ty, "int") || str_starts_with(ty, "uint") || str_starts_with(
        ty,
        "::size_t",
    ) || str_starts_with(ty, "::double") || str_starts_with(ty, "::float");
    if numeric {
        state.put("\n    template<>\n    struct ZngurPrettyPrinter<");
        state.put(ty);
        state.put("> {\n        static inline void print(");
        state.put(ty);
        state.put(
            " const& t) {\n            ::std::cerr << t << ::std::endl;\n        }\n    };\n                    ",
        );
        state.put("\n");
    } else {
        proof {
            assert(state.text@ + Seq::<char>::empty() =~= state.text@);
        }
    }
    if apple {
        state.put("#endif");
        state.put("\n");
    } else {
        proof {
            assert(state.text@ + Seq::<char>::empty() =~= state.text@);
        }
    }
}

fn push_name(v: &mut Vec<String>, s: &str)
    ensures
        final(v)@.map_values(|x: String| x@) == old(v)@.map_values(|x: String| x@).push(s@),
{
    let owned = s.to_owned();
    proof {
        assert(old(v)@.push(owned).map_values(|x: String| x@) =~= old(v)@.map_values(
            |x: String| x@,
        ).push(s@));
    }
    v.push(owned);
}

/// The built-in table, in emission order.
fn builtin_name_list() -> (r: Vec<String>)
    ensures
        r@.map_values(|x: String| x@) == builtin_names(),
{
    let mut v: Vec<String> = Vec::new();
    proof {
        assert(v@.map_values(|x: String| x@) =~= Seq::<Seq<char>>::empty());
    }
    push_name(&mut v, "int8_t");
    push_name(&mut v, "uint8_t");
    push_name(&mut v, "int16_t");
    push_name(&mut v, "uint16_t");
    push_name(&mut v, "int32_t");
    push_name(&mut v, "uint32_t");
    push_name(&mut v, "int64_t");
    push_name(&mut v, "uint64_t");
    push_name(&mut v, "::rust::Ref<int8_t>");
    push_name(&mut v, "::rust::Ref<uint8_t>");
    push_name(&mut v, "::rust::RefMut<int8_t>");
    push_name(&mut v, "::rust::RefMut<uint8_t>");
    push_name(&mut v, "::rust::Ref<int16_t>");
    push_name(&mut v, "::rust::Ref<uint16_t>");
    push_name(&mut v, "::rust::RefMut<int16_t>");
    push_name(&mut v, "::rust::RefMut<uint16_t>");
    push_name(&mut v, "::rust::Ref<int32_t>");
    push_name(&mut v, "::rust::Ref<uint32_t>");
    push_name(&mut v, "::rust::RefMut<int32_t>");
    push_name(&mut v, "::rust::RefMut<uint32_t>");
    push_name(&mut v, "::rust::Ref<int64_t>");
    push_name(&mut v, "::rust::Ref<uint64_t>");
    push_name(&mut v, "::rust::RefMut<int64_t>");
    push_name(&mut v, "::rust::RefMut<uint64_t>");
    push_name(&mut v, "::rust::ZngurCppOpaqueOwnedObject");
    push_name(&mut v, "::double_t");
    push_name(&mut v, "::float_t");
    push_name(&mut v, "::size_t");
    proof {
        assert(v@.map_values(|x: String| x@) =~= builtin_names());
    }
    v
}

/// Every built-in entry, in order.
fn emit_builtins(state: &mut State)
    ensures
        final(state).text@ == old(state).text@ + builtins_join(builtin_names().len() as int),
        final(state).panic_to_exception == old(state).panic_to_exception,
{
    let names = builtin_name_list();
    let n: usize = names.len();
    proof {
        assert(names@.map_values(|x: String| x@).len() == names@.len());
        assert(old(state).text@ + Seq::<char>::empty() =~= old(state).text@);
    }
    let mut i: usize = 0;
    while i < n
        invariant
            0 <= i <= n,
            n == builtin_names().len(),
            names@.map_values(|x: String| x@) == builtin_names(),
            n == names@.len(),
            state.text@ == old(state).text@ + builtins_join(i as int),
            state.panic_to_exception == old(state).panic_to_exception,
        decreases n - i,
    {
        proof {
            assert(names@.map_values(|x: String| x@)[i as int] == names@[i as int]@);
        }
        emit_builtin_entry(names[i].as_str(), state);
        i = i + 1;
    }
}

/// The fixed header prelude: includes, then the customization-point
/// templates, the generic move helpers, the opaque host-object holder and
/// the view templates.
#[verifier::opaque]
pub open spec fn prelude_includes_text() -> Seq<char> {
    "\n#pragma once\n\n#include <cstddef>\n#include <cstdint>\n#include <cstring>\n#include <csignal>\n#include <array>\n#include <iostream>\n#include <functional>\n#include <math.h>\n#include <dlfcn.h>\n"@
}

/// The panic-translation declarations, present only in that mode.
#[verifier::opaque]
pub open spec fn panic_decls_text() -> Seq<char> {
    "namespace rust {\n    class Panic {};\n}\nextern \"C\" {\n    uint8_t __zngur_detect_panic();\n    void __zngur_take_panic();\n}\n"@
}

#[verifier::opaque]
pub open spec fn prelude_templates_text() -> Seq<char> {
    "\n#define zngur_dbg(x) (::rust::zngur_dbg_impl(__FILE__, __LINE__, #x, x))\n\nnamespace rust {\n    template<typename T>\n    uint8_t* __zngur_internal_data_ptr(const T& t) noexcept ;\n\n    template<typename T>\n    void __zngur_internal_assume_init(T& t) noexcept ;\n\n    template<typename T>\n    void __zngur_internal_assume_deinit(T& t) noexcept ;\n\n    template<typename T>\n    inline size_t __zngur_internal_size_of() noexcept ;\n\n    template<typename T>\n    inline void __zngur_internal_move_to_rust(uint8_t* dst, T& t) noexcept {\n        memcpy(dst, ::rust::__zngur_internal_data_ptr(t), ::rust::__zngur_internal_size_of<T>());\n        ::rust::__zngur_internal_assume_deinit(t);\n    }\n\n    template<typename T>\n    inline T __zngur_internal_move_from_rust(uint8_t* src) noexcept {\n        T t;\n        ::rust::__zngur_internal_assume_init(t);\n        memcpy(::rust::__zngur_internal_data_ptr(t), src, ::rust::__zngur_internal_size_of<T>());\n        return t;\n    }\n\n    template<typename T>\n    inline void __zngur_internal_check_init(const T&) noexcept {\n    }\n\n    class ZngurCppOpaqueOwnedObject {\n        uint8_t* data;\n        void (*destructor)(uint8_t*);\n\n    public:\n        template<typename T, typename... Args>\n        inline static ZngurCppOpaqueOwnedObject build(Args&&... args) {\n            ZngurCppOpaqueOwnedObject o;\n            o.data = reinterpret_cast<uint8_t*>(new T(::std::forward<Args>(args)...));\n            o.destructor = [](uint8_t* d) {\n                delete reinterpret_cast<T*>(d);\n            };\n            return o;\n        }\n\n        template<typename T>\n        inline T& as_cpp() {\n            return *reinterpret_cast<T *>(data);\n        }\n    };\n\n    template<typename T>\n    struct Ref;\n\n    template<typename T>\n    struct RefMut;\n\n    template<typename T, size_t OFFSET>\n    struct FieldOwned;\n\n    template<typename T, size_t OFFSET>\n    struct FieldRef;\n\n    template<typename T, size_t OFFSET>\n    struct FieldRefMut;\n\n    template<typename... T>\n    struct Tuple;\n\n    using Unit = Tuple<>;\n\n    template<typename T>\n    struct ZngurPrettyPrinter;\n\n    class Inherent;\n\n    template<typename Type, typename Trait = Inherent>\n    class Impl;\n\n    template<typename T>\n    T&& zngur_dbg_impl(const char* file_name, int line_number, const char* exp, T&& input) {\n        ::std::cerr << \"[\" << file_name << \":\" << line_number << \"] \" << exp << \" = \";\n        ZngurPrettyPrinter<typename ::std::remove_reference<T>::type>::print(input);\n        return ::std::forward<T>(input);\n    }\n"@
}

#[verifier::opaque]
pub open spec fn h_pre_text(f: CppFile) -> Seq<char> {
    prelude_includes_text() + f.additional_includes@ + (if f.panic_to_exception {
        panic_decls_text()
    } else {
        Seq::<char>::empty()
    }) + prelude_templates_text()
}

pub open spec fn fn_link_decls_join(fs: Seq<CppFnDefinition>, n: int) -> Seq<char>
    decreases n,
{
    if n <= 0 || n > fs.len() {
        Seq::empty()
    } else {
        fn_link_decls_join(fs, n - 1) + rust_link_decl_text(fs[n - 1].sig)
    }
}

pub open spec fn type_links_join(tds: Seq<CppTypeDefinition>, n: int) -> Seq<char>
    decreases n,
{
    if n <= 0 || n > tds.len() {
        Seq::empty()
    } else {
        type_links_join(tds, n - 1) + type_rust_links_text(tds[n - 1])
    }
}

pub open spec fn trait_links_join(ts: Seq<CppTraitDefinition>, n: int) -> Seq<char>
    decreases n,
{
    if n <= 0 || n > ts.len() {
        Seq::empty()
    } else {
        trait_links_join(ts, n - 1) + trait_rust_links_text(ts[n - 1])
    }
}

/// The whole `extern "C"` declaration block.
#[verifier::opaque]
pub open spec fn h_links_text(f: CppFile) -> Seq<char> {
    "extern \"C\" {"@ + "\n"@ + fn_link_decls_join(f.fn_defs@, f.fn_defs@.len() as int)
        + type_links_join(f.type_defs@, f.type_defs@.len() as int) + trait_links_join(
        f.trait_defs@,
        f.trait_defs@.len() as int,
    ) + "}"@ + "\n"@
}

pub open spec fn api_field_fn_text(d: CppFnDefinition) -> Seq<char> {
    "  "@ + dyn_api_field_text(d.sig) + "\n"@
}

pub open spec fn api_fields_fns_join(fs: Seq<CppFnDefinition>, n: int) -> Seq<char>
    decreases n,
{
    if n <= 0 || n > fs.len() {
        Seq::empty()
    } else {
        api_fields_fns_join(fs, n - 1) + api_field_fn_text(fs[n - 1])
    }
}

pub open spec fn api_field_name_text(nm: Seq<char>) -> Seq<char> {
    "  decltype(&::"@ + nm + ") "@ + nm + ";"@ + "\n"@
}

pub open spec fn api_names_join(ns: Seq<Seq<char>>, k: int) -> Seq<char>
    decreases k,
{
    if k <= 0 || k > ns.len() {
        Seq::empty()
    } else {
        api_names_join(ns, k - 1) + api_field_name_text(ns[k - 1])
    }
}

pub open spec fn api_fields_types_join(tds: Seq<CppTypeDefinition>, n: int) -> Seq<char>
    decreases n,
{
    if n <= 0 || n > tds.len() {
        Seq::empty()
    } else {
        api_fields_types_join(tds, n - 1) + api_names_join(
            type_link_names(tds[n - 1]),
            type_link_names(tds[n - 1]).len() as int,
        )
    }
}

/// One symbol resolution step of `init`: look the name up, fail with a
/// message naming it, or store the typed pointer.
#[verifier::opaque]
pub open spec fn wl_text(nm: Seq<char>) -> Seq<char> {
    "{\nvoid* dlsym_handle = dlsym(_dylib_handle, \""@ + nm
        + "\");\nif (dlsym_handle == nullptr) {\n    error_message = \"Failed to load "@ + nm
        + " from dynamic library: \" + std::string(dlerror());\n    return false;\n}\n"@ + nm
        + " = reinterpret_cast<decltype(&::"@ + nm + ")>(dlsym_handle);\n}\n"@ + "\n"@
}

pub open spec fn init_names_join(ns: Seq<Seq<char>>, k: int) -> Seq<char>
    decreases k,
{
    if k <= 0 || k > ns.len() {
        Seq::empty()
    } else {
        init_names_join(ns, k - 1) + wl_text(ns[k - 1])
    }
}

pub open spec fn init_fns_join(fs: Seq<CppFnDefinition>, n: int) -> Seq<char>
    decreases n,
{
    if n <= 0 || n > fs.len() {
        Seq::empty()
    } else {
        init_fns_join(fs, n - 1) + wl_text(fs[n - 1].sig.rust_link_name@)
    }
}

pub open spec fn init_types_join(tds: Seq<CppTypeDefinition>, n: int) -> Seq<char>
    decreases n,
{
    if n <= 0 || n > tds.len() {
        Seq::empty()
    } else {
        init_types_join(tds, n - 1) + init_names_join(
            type_link_names(tds[n - 1]),
            type_link_names(tds[n - 1]).len() as int,
        )
    }
}

/// The dispatch-table class: one function-pointer field per symbol, a
/// handle-taking constructor, and `init`, which resolves every symbol in
/// order and reports the first failure.
#[verifier::opaque]
pub open spec fn h_api_text(f: CppFile) -> Seq<char> {
    "class __zngur_dyn_api {"@ + "\n"@ + "public:"@ + "\n"@
        + "  explicit __zngur_dyn_api(void *dylib_handle) : _dylib_handle(dylib_handle) {}"@
        + "\n"@ + "  void * _dylib_handle;"@ + "\n"@ + api_fields_fns_join(
        f.fn_defs@,
        f.fn_defs@.len() as int,
    ) + api_fields_types_join(f.type_defs@, f.type_defs@.len() as int) + "\n"@ + "\n"@
        + "  bool init(std::string &error_message) {"@ + "\n"@ + init_fns_join(
        f.fn_defs@,
        f.fn_defs@.len() as int,
    ) + init_types_join(f.type_defs@, f.type_defs@.len() as int) + "  return true;"@ + "\n"@
        + "  }"@ + "\n"@ + "\n"@ + "\n"@ + "};"@ + "\n"@
}

pub open spec fn type_headers_join(tds: Seq<CppTypeDefinition>, n: int) -> Seq<char>
    decreases n,
{
    if n <= 0 || n > tds.len() {
        Seq::empty()
    } else {
        type_headers_join(tds, n - 1) + type_header_text(tds[n - 1].ty)
    }
}

pub open spec fn impl_header_text(imp: CppExportedImplDefinition) -> Seq<char> {
    type_header_text(imp.ty) + (match imp.tr {
        Some(t) => type_header_text(t),
        None => Seq::<char>::empty(),
    })
}

pub open spec fn impl_headers_join(is_: Seq<CppExportedImplDefinition>, n: int) -> Seq<char>
    decreases n,
{
    if n <= 0 || n > is_.len() {
        Seq::empty()
    } else {
        impl_headers_join(is_, n - 1) + impl_header_text(is_[n - 1])
    }
}

pub open spec fn trait_defs_join(ts: Seq<CppTraitDefinition>, n: int) -> Seq<char>
    decreases n,
{
    if n <= 0 || n > ts.len() {
        Seq::empty()
    } else {
        trait_defs_join(ts, n - 1) + trait_def_text(ts[n - 1])
    }
}

#[verifier::opaque]
pub open spec fn h_headers_text(f: CppFile) -> Seq<char> {
    type_headers_join(f.type_defs@, f.type_defs@.len() as int) + impl_headers_join(
        f.exported_impls@,
        f.exported_impls@.len() as int,
    ) + trait_defs_join(f.trait_defs@, f.trait_defs@.len() as int)
}

pub open spec fn type_emits_join(
    tds: Seq<CppTypeDefinition>,
    traits: Seq<CppTraitDefinition>,
    n: int,
) -> Seq<char>
    decreases n,
{
    if n <= 0 || n > tds.len() {
        Seq::empty()
    } else {
        type_emits_join(tds, traits, n - 1) + type_def_text(tds[n - 1], traits)
    }
}

pub open spec fn type_cpp_defs_join(
    tds: Seq<CppTypeDefinition>,
    traits: Seq<CppTraitDefinition>,
    n: int,
    panic: bool,
) -> Seq<char>
    decreases n,
{
    if n <= 0 || n > tds.len() {
        Seq::empty()
    } else {
        type_cpp_defs_join(tds, traits, n - 1, panic) + cpp_fn_defs_text(
            tds[n - 1],
            traits,
            panic,
        )
    }
}

pub open spec fn fn_defs_join(fs: Seq<CppFnDefinition>, n: int, panic: bool) -> Seq<char>
    decreases n,
{
    if n <= 0 || n > fs.len() {
        Seq::empty()
    } else {
        fn_defs_join(fs, n - 1, panic) + fn_def_text(fs[n - 1], panic)
    }
}

#[verifier::opaque]
pub open spec fn h_emits_text(f: CppFile) -> Seq<char> {
    type_emits_join(f.type_defs@, f.trait_defs@, f.type_defs@.len() as int) + type_cpp_defs_join(
        f.type_defs@,
        f.trait_defs@,
        f.type_defs@.len() as int,
        f.panic_to_exception,
    ) + fn_defs_join(f.fn_defs@, f.fn_defs@.len() as int, f.panic_to_exception)
}

#[verifier::opaque]
pub open spec fn exported_fn_decl_text(d: CppExportedFnDefinition) -> Seq<char> {
    "namespace rust { namespace exported_functions {"@ + "\n"@ + "   "@ + type_text(d.sig.output)
        + " "@ + d.name@ + "("@ + input_defs_text(d.sig.inputs@, 0, d.sig.inputs@.len() as int)
        + ");"@ + "\n"@ + "} }"@ + "\n"@
}

pub open spec fn exported_fn_decls_join(fs: Seq<CppExportedFnDefinition>, n: int) -> Seq<char>
    decreases n,
{
    if n <= 0 || n > fs.len() {
        Seq::empty()
    } else {
        exported_fn_decls_join(fs, n - 1) + exported_fn_decl_text(fs[n - 1])
    }
}

pub open spec fn impl_tr_text(tr: Option<crate::ty::CppType>) -> Seq<char> {
    match tr {
        Some(t) => type_text(t),
        None => "::rust::Inherent"@,
    }
}

pub open spec fn exported_impl_method_decl_text(m: (String, CppFnSig)) -> Seq<char> {
    "   static "@ + type_text(m.1.output) + " "@ + m.0@ + "("@ + input_defs_text(
        m.1.inputs@,
        0,
        m.1.inputs@.len() as int,
    ) + ");"@ + "\n"@
}

pub open spec fn exported_impl_method_decls_join(ms: Seq<(String, CppFnSig)>, n: int) -> Seq<char>
    decreases n,
{
    if n <= 0 || n > ms.len() {
        Seq::empty()
    } else {
        exported_impl_method_decls_join(ms, n - 1) + exported_impl_method_decl_text(ms[n - 1])
    }
}

#[verifier::opaque]
pub open spec fn exported_impl_decl_text(imp: CppExportedImplDefinition) -> Seq<char> {
    "namespace rust { template<> class Impl< "@ + type_text(imp.ty) + ", "@ + impl_tr_text(imp.tr)
        + " > { public:"@ + "\n"@ + exported_impl_method_decls_join(
        imp.methods@,
        imp.methods@.len() as int,
    ) + "}; }"@ + "\n"@
}

pub open spec fn exported_impl_decls_join(is_: Seq<CppExportedImplDefinition>, n: int) -> Seq<char>
    decreases n,
{
    if n <= 0 || n > is_.len() {
        Seq::empty()
    } else {
        exported_impl_decls_join(is_, n - 1) + exported_impl_decl_text(is_[n - 1])
    }
}

#[verifier::opaque]
pub open spec fn h_exports_text(f: CppFile) -> Seq<char> {
    exported_fn_decls_join(f.exported_fn_defs@, f.exported_fn_defs@.len() as int)
        + exported_impl_decls_join(f.exported_impls@, f.exported_impls@.len() as int)
}

/// The whole header, before the `noexcept` pass of the panic mode.
pub open spec fn h_file_text(f: CppFile) -> Seq<char> {
    h_pre_text(f) + builtins_join(builtin_names().len() as int) + "}"@ + "\n"@ + h_links_text(f)
        + h_api_text(f) + h_headers_text(f) + h_emits_text(f) + h_exports_text(f)
}

pub open spec fn trait_cpps_join(ts: Seq<CppTraitDefinition>, n: int) -> Seq<char>
    decreases n,
{
    if n <= 0 || n > ts.len() {
        Seq::empty()
    } else {
        trait_cpps_join(ts, n - 1) + trait_cpp_text(ts[n - 1])
    }
}

/// One exported function: the `extern "C"` entry point that unmarshals the
/// raw inputs, calls the host implementation, and marshals the result back.
#[verifier::opaque]
pub open spec fn exported_fn_def_text(d: CppExportedFnDefinition) -> Seq<char> {
    rust_link_text(d.sig) + "{"@ + "\n"@ + "   "@ + type_text(d.sig.output)
        + " oo = ::rust::exported_functions::"@ + d.name@ + "("@ + move_from_rust_args_text(
        d.sig.inputs@,
        d.sig.inputs@.len() as int,
    ) + ");"@ + "\n"@ + "   ::rust::__zngur_internal_move_to_rust(o, oo);"@ + "\n"@ + "}"@ + "\n"@
}

pub open spec fn exported_fn_defs_join(fs: Seq<CppExportedFnDefinition>, n: int) -> Seq<char>
    decreases n,
{
    if n <= 0 || n > fs.len() {
        Seq::empty()
    } else {
        exported_fn_defs_join(fs, n - 1) + exported_fn_def_text(fs[n - 1])
    }
}

/// One method of an exported impl, as an `extern "C"` entry point.
#[verifier::opaque]
pub open spec fn exported_impl_method_def_text(
    imp: CppExportedImplDefinition,
    m: (String, CppFnSig),
) -> Seq<char> {
    rust_link_text(m.1) + "{"@ + "\n"@ + "   "@ + type_text(m.1.output) + " oo = ::rust::Impl< "@
        + type_text(imp.ty) + ", "@ + impl_tr_text(imp.tr) + " >::"@ + m.0@ + "("@
        + move_from_rust_args_text(m.1.inputs@, m.1.inputs@.len() as int) + ");"@ + "\n"@
        + "   ::rust::__zngur_internal_move_to_rust(o, oo);"@ + "\n"@ + "}"@ + "\n"@
}

pub open spec fn exported_impl_method_defs_join(
    imp: CppExportedImplDefinition,
    n: int,
) -> Seq<char>
    decreases n,
{
    if n <= 0 || n > imp.methods@.len() {
        Seq::empty()
    } else {
        exported_impl_method_defs_join(imp, n - 1) + exported_impl_method_def_text(
            imp,
            imp.methods@[n - 1],
        )
    }
}

pub open spec fn exported_impl_defs_join(is_: Seq<CppExportedImplDefinition>, n: int) -> Seq<char>
    decreases n,
{
    if n <= 0 || n > is_.len() {
        Seq::empty()
    } else {
        exported_impl_defs_join(is_, n - 1) + exported_impl_method_defs_join(
            is_[n - 1],
            is_[n - 1].methods@.len() as int,
        )
    }
}

/// The whole source unit.
#[verifier::opaque]
pub open spec fn cpp_file_text(f: CppFile) -> Seq<char> {
    "#include \"./generated.h\""@ + "\n"@ + "extern \"C\" {"@ + "\n"@ + trait_cpps_join(
        f.trait_defs@,
        f.trait_defs@.len() as int,
    ) + exported_fn_defs_join(f.exported_fn_defs@, f.exported_fn_defs@.len() as int)
        + exported_impl_defs_join(f.exported_impls@, f.exported_impls@.len() as int) + "}"@
        + "\n"@
}

/// Whether the source unit holds anything worth keeping.
pub open spec fn cpp_needed(f: CppFile) -> bool {
    f.trait_defs@.len() > 0 || f.exported_fn_defs@.len() > 0 || f.exported_impls@.len() > 0
}

/// Well-formedness of the whole model: every embedded definition is well
/// formed against the trait list, and nothing asks for what generation
/// cannot represent (an embedded host value in the dispatch table, a
/// closure-shaped borrowed construction, a non-`Copy` type without a drop
/// function, or a `Bool` that is not one copyable byte).
pub open spec fn file_wf(f: CppFile) -> bool {
    &&& (forall|i: int|
        0 <= i < f.type_defs@.len() ==> td_wf(#[trigger] f.type_defs@[i], f.trait_defs@))
    &&& (forall|i: int| 0 <= i < f.type_defs@.len() ==> (#[trigger] f.type_defs@[i]).cpp_value
        is None)
    &&& (forall|i: int|
        0 <= i < f.type_defs@.len() ==> crate::type_emit::bool_layout_ok(
            #[trigger] f.type_defs@[i],
        ))
    &&& (forall|i: int|
        0 <= i < f.type_defs@.len() ==> (!is_unit(#[trigger] f.type_defs@[i]) && !only_by_ref(
            f.type_defs@[i],
        ) && !is_copy(f.type_defs@[i]) ==> has_drop(f.type_defs@[i])))
    &&& (forall|i: int|
        0 <= i < f.type_defs@.len() ==> (match (#[trigger] f.type_defs@[i]).from_trait_ref {
            Some(t) => !(f.trait_defs@[t as int] is Fn),
            None => true,
        }))
    &&& (forall|i: int|
        0 <= i < f.fn_defs@.len() ==> path_wf((#[trigger] f.fn_defs@[i]).name) && sig_wf(
            f.fn_defs@[i].sig,
        ))
    &&& (forall|i: int| 0 <= i < f.trait_defs@.len() ==> trait_wf(#[trigger] f.trait_defs@[i]))
    &&& (forall|i: int| 0 <= i < f.exported_fn_defs@.len() ==> sig_wf(
        (#[trigger] f.exported_fn_defs@[i]).sig,
    ))
    &&& (forall|i: int|
        0 <= i < f.exported_impls@.len() ==> type_wf((#[trigger] f.exported_impls@[i]).ty)
            && (match f.exported_impls@[i].tr {
            Some(t) => type_wf(t),
            None => true,
        }) && (forall|j: int|
            0 <= j < f.exported_impls@[i].methods@.len() ==> sig_wf(
                (#[trigger] f.exported_impls@[i].methods@[j]).1,
            )))
}

impl CppFile {
    fn emit_h_pre(&self, state: &mut State)
        ensures
            final(state).text@ == old(state).text@ + h_pre_text(*self),
            final(state).panic_to_exception == old(state).panic_to_exception,
    {
        proof {
            reveal(h_pre_text);
            reveal(prelude_includes_text);
            reveal(panic_decls_text);
            reveal(prelude_templates_text);
        }
        state.put(
            "\n#pragma once\n\n#include <cstddef>\n#include <cstdint>\n#include <cstring>\n#include <csignal>\n#include <array>\n#include <iostream>\n#include <functional>\n#include <math.h>\n#include <dlfcn.h>\n",
        );
        state.put(self.additional_includes.as_str());
        if self.panic_to_exception {
            state.put(
                "namespace rust {\n    class Panic {};\n}\nextern \"C\" {\n    uint8_t __zngur_detect_panic();\n    void __zngur_take_panic();\n}\n",
            );
        } else {
            proof {
                assert(state.text@ + Seq::<char>::empty() =~= state.text@);
            }
        }
        state.put(
            "\n#define zngur_dbg(x) (::rust::zngur_dbg_impl(__FILE__, __LINE__, #x, x))\n\nnamespace rust {\n    template<typename T>\n    uint8_t* __zngur_internal_data_ptr(const T& t) noexcept ;\n\n    template<typename T>\n    void __zngur_internal_assume_init(T& t) noexcept ;\n\n    template<typename T>\n    void __zngur_internal_assume_deinit(T& t) noexcept ;\n\n    template<typename T>\n    inline size_t __zngur_internal_size_of() noexcept ;\n\n    template<typename T>\n    inline void __zngur_internal_move_to_rust(uint8_t* dst, T& t) noexcept {\n        memcpy(dst, ::rust::__zngur_internal_data_ptr(t), ::rust::__zngur_internal_size_of<T>());\n        ::rust::__zngur_internal_assume_deinit(t);\n    }\n\n    template<typename T>\n    inline T __zngur_internal_move_from_rust(uint8_t* src) noexcept {\n        T t;\n        ::rust::__zngur_internal_assume_init(t);\n        memcpy(::rust::__zngur_internal_data_ptr(t), src, ::rust::__zngur_internal_size_of<T>());\n        return t;\n    }\n\n    template<typename T>\n    inline void __zngur_internal_check_init(const T&) noexcept {\n    }\n\n    class ZngurCppOpaqueOwnedObject {\n        uint8_t* data;\n        void (*destructor)(uint8_t*);\n\n    public:\n        template<typename T, typename... Args>\n        inline static ZngurCppOpaqueOwnedObject build(Args&&... args) {\n            ZngurCppOpaqueOwnedObject o;\n            o.data = reinterpret_cast<uint8_t*>(new T(::std::forward<Args>(args)...));\n            o.destructor = [](uint8_t* d) {\n                delete reinterpret_cast<T*>(d);\n            };\n            return o;\n        }\n\n        template<typename T>\n        inline T& as_cpp() {\n            return *reinterpret_cast<T *>(data);\n        }\n    };\n\n    template<typename T>\n    struct Ref;\n\n    template<typename T>\n    struct RefMut;\n\n    template<typename T, size_t OFFSET>\n    struct FieldOwned;\n\n    template<typename T, size_t OFFSET>\n    struct FieldRef;\n\n    template<typename T, size_t OFFSET>\n    struct FieldRefMut;\n\n    template<typename... T>\n    struct Tuple;\n\n    using Unit = Tuple<>;\n\n    template<typename T>\n    struct ZngurPrettyPrinter;\n\n    class Inherent;\n\n    template<typename Type, typename Trait = Inherent>\n    class Impl;\n\n    template<typename T>\n    T&& zngur_dbg_impl(const char* file_name, int line_number, const char* exp, T&& input) {\n        ::std::cerr << \"[\" << file_name << \":\" << line_number << \"] \" << exp << \" = \";\n        ZngurPrettyPrinter<typename ::std::remove_reference<T>::type>::print(input);\n        return ::std::forward<T>(input);\n    }\n",
        );
    }

    #[verifier::rlimit(100)]
    fn emit_h_links(&self, state: &mut State)
        requires
            forall|i: int|
                0 <= i < self.fn_defs@.len() ==> sig_wf((#[trigger] self.fn_defs@[i]).sig),
        ensures
            final(state).text@ == old(state).text@ + h_links_text(*self),
            final(state).panic_to_exception == old(state).panic_to_exception,
    {
        proof {
            reveal(h_links_text);
        }
        state.put("extern \"C\" {");
        state.put("\n");
        let ghost p0 = state.text@;
        let nf: usize = self.fn_defs.len();
        let mut i: usize = 0;
        proof {
            assert(p0 + Seq::<char>::empty() =~= p0);
        }
        while i < nf
            invariant
                0 <= i <= nf,
                nf == self.fn_defs@.len(),
                state.text@ == p0 + fn_link_decls_join(self.fn_defs@, i as int),
                state.panic_to_exception == old(state).panic_to_exception,
            decreases nf - i,
        {
            self.fn_defs[i].sig.emit_rust_link_decl(state);
            i = i + 1;
        }
        let ghost p1 = state.text@;
        let nt: usize = self.type_defs.len();
        let mut j: usize = 0;
        proof {
            assert(p1 + Seq::<char>::empty() =~= p1);
        }
        while j < nt
            invariant
                0 <= j <= nt,
                nt == self.type_defs@.len(),
                state.text@ == p1 + type_links_join(self.type_defs@, j as int),
                state.panic_to_exception == old(state).panic_to_exception,
            decreases nt - j,
        {
            self.type_defs[j].emit_rust_links(state);
            j = j + 1;
        }
        let ghost p2 = state.text@;
        let nr: usize = self.trait_defs.len();
        let mut k: usize = 0;
        proof {
            assert(p2 + Seq::<char>::empty() =~= p2);
        }
        while k < nr
            invariant
                0 <= k <= nr,
                nr == self.trait_defs@.len(),
                state.text@ == p2 + trait_links_join(self.trait_defs@, k as int),
                state.panic_to_exception == old(state).panic_to_exception,
            decreases nr - k,
        {
            self.trait_defs[k].emit_rust_links(state);
            k = k + 1;
        }
        state.put("}");
        state.put("\n");
    }

    #[verifier::rlimit(100)]
    fn emit_h_api(&self, state: &mut State)
        requires
            forall|i: int|
                0 <= i < self.type_defs@.len() ==> (#[trigger] self.type_defs@[i]).cpp_value
                    is None,
        ensures
            final(state).text@ == old(state).text@ + h_api_text(*self),
            final(state).panic_to_exception == old(state).panic_to_exception,
    {
        proof {
            reveal(h_api_text);
        }
        state.put("class __zngur_dyn_api {");
        state.put("\n");
        state.put("public:");
        state.put("\n");
        state.put("  explicit __zngur_dyn_api(void *dylib_handle) : _dylib_handle(dylib_handle) {}");
        state.put("\n");
        state.put("  void * _dylib_handle;");
        state.put("\n");
        let ghost p0 = state.text@;
        let nf: usize = self.fn_defs.len();
        let mut i: usize = 0;
        proof {
            assert(p0 + Seq::<char>::empty() =~= p0);
        }
        while i < nf
            invariant
                0 <= i <= nf,
                nf == self.fn_defs@.len(),
                state.text@ == p0 + api_fields_fns_join(self.fn_defs@, i as int),
                state.panic_to_exception == old(state).panic_to_exception,
            decreases nf - i,
        {
            state.put("  ");
            self.fn_defs[i].sig.emit_zngur_dyn_api_field(state);
            state.put("\n");
            i = i + 1;
        }
        self.emit_api_type_fields(state);
        state.put("\n");
        state.put("\n");
        state.put("  bool init(std::string &error_message) {");
        state.put("\n");
        let ghost p2 = state.text@;
        let mut k: usize = 0;
        proof {
            assert(p2 + Seq::<char>::empty() =~= p2);
        }
        while k < nf
            invariant
                0 <= k <= nf,
                nf == self.fn_defs@.len(),
                state.text@ == p2 + init_fns_join(self.fn_defs@, k as int),
                state.panic_to_exception == old(state).panic_to_exception,
            decreases nf - k,
        {
            emit_wl(self.fn_defs[k].sig.rust_link_name.as_str(), state);
            k = k + 1;
        }
        self.emit_api_type_inits(state);
        state.put("  return true;");
        state.put("\n");
        state.put("  }");
        state.put("\n");
        state.put("\n");
        state.put("\n");
        state.put("};");
        state.put("\n");
    }

    fn emit_api_type_fields(&self, state: &mut State)
        requires
            forall|i: int|
                0 <= i < self.type_defs@.len() ==> (#[trigger] self.type_defs@[i]).cpp_value
                    is None,
        ensures
            final(state).text@ == old(state).text@ + api_fields_types_join(
                self.type_defs@,
                self.type_defs@.len() as int,
            ),
            final(state).panic_to_exception == old(state).panic_to_exception,
    {
        let nt: usize = self.type_defs.len();
        let mut j: usize = 0;
        proof {
            assert(old(state).text@ + Seq::<char>::empty() =~= old(state).text@);
        }
        while j < nt
            invariant
                0 <= j <= nt,
                nt == self.type_defs@.len(),
                forall|i: int|
                    0 <= i < self.type_defs@.len() ==> (#[trigger] self.type_defs@[i]).cpp_value
                        is None,
                state.text@ == old(state).text@ + api_fields_types_join(self.type_defs@, j as int),
                state.panic_to_exception == old(state).panic_to_exception,
            decreases nt - j,
        {
            let names = self.type_defs[j].get_link_names();
            let ghost ns = type_link_names(self.type_defs@[j as int]);
            let nn: usize = names.len();
            proof {
                assert(names@.map_values(|s: &str| s@).len() == names@.len());
            }
            let ghost q0 = state.text@;
            let mut q: usize = 0;
            proof {
                assert(q0 + Seq::<char>::empty() =~= q0);
            }
            while q < nn
                invariant
                    0 <= q <= nn,
                    nn == names@.len(),
                    names@.map_values(|s: &str| s@) == ns,
                    state.text@ == q0 + api_names_join(ns, q as int),
                    state.panic_to_exception == old(state).panic_to_exception,
                decreases nn - q,
            {
                proof {
                    assert(names@.map_values(|s: &str| s@)[q as int] == names@[q as int]@);
                }
                state.put("  decltype(&::");
                state.put(names[q]);
                state.put(") ");
                state.put(names[q]);
                state.put(";");
                state.put("\n");
                q = q + 1;
            }
            j = j + 1;
        }
    }

    fn emit_api_type_inits(&self, state: &mut State)
        requires
            forall|i: int|
                0 <= i < self.type_defs@.len() ==> (#[trigger] self.type_defs@[i]).cpp_value
                    is None,
        ensures
            final(state).text@ == old(state).text@ + init_types_join(
                self.type_defs@,
                self.type_defs@.len() as int,
            ),
            final(state).panic_to_exception == old(state).panic_to_exception,
    {
        let nt: usize = self.type_defs.len();
        let mut j: usize = 0;
        proof {
            assert(old(state).text@ + Seq::<char>::empty() =~= old(state).text@);
        }
        while j < nt
            invariant
                0 <= j <= nt,
                nt == self.type_defs@.len(),
                forall|i: int|
                    0 <= i < self.type_defs@.len() ==> (#[trigger] self.type_defs@[i]).cpp_value
                        is None,
                state.text@ == old(state).text@ + init_types_join(self.type_defs@, j as int),
                state.panic_to_exception == old(state).panic_to_exception,
            decreases nt - j,
        {
            let names = self.type_defs[j].get_link_names();
            let ghost ns = type_link_names(self.type_defs@[j as int]);
            let nn: usize = names.len();
            proof {
                assert(names@.map_values(|s: &str| s@).len() == names@.len());
            }
            let ghost q0 = state.text@;
            let mut q: usize = 0;
            proof {
                assert(q0 + Seq::<char>::empty() =~= q0);
            }
            while q < nn
                invariant
                    0 <= q <= nn,
                    nn == names@.len(),
                    names@.map_values(|s: &str| s@) == ns,
                    state.text@ == q0 + init_names_join(ns, q as int),
                    state.panic_to_exception == old(state).panic_to_exception,
                decreases nn - q,
            {
                proof {
                    assert(names@.map_values(|s: &str| s@)[q as int] == names@[q as int]@);
                }
                emit_wl(names[q], state);
                q = q + 1;
            }
            j = j + 1;
        }
    }
}

impl CppFile {
    fn emit_h_headers(&self, state: &mut State)
        requires
            file_wf(*self),
        ensures
            final(state).text@ == old(state).text@ + h_headers_text(*self),
            final(state).panic_to_exception == old(state).panic_to_exception,
    {
        proof {
            reveal(h_headers_text);
        }
        let nt: usize = self.type_defs.len();
        let mut i: usize = 0;
        proof {
            assert(old(state).text@ + Seq::<char>::empty() =~= old(state).text@);
        }
        while i < nt
            invariant
                0 <= i <= nt,
                nt == self.type_defs@.len(),
                file_wf(*self),
                state.text@ == old(state).text@ + type_headers_join(self.type_defs@, i as int),
                state.panic_to_exception == old(state).panic_to_exception,
            decreases nt - i,
        {
            self.type_defs[i].ty.emit_header(state);
            i = i + 1;
        }
        let ghost p1 = state.text@;
        let ni: usize = self.exported_impls.len();
        let mut j: usize = 0;
        proof {
            assert(p1 + Seq::<char>::empty() =~= p1);
        }
        while j < ni
            invariant
                0 <= j <= ni,
                ni == self.exported_impls@.len(),
                file_wf(*self),
                state.text@ == p1 + impl_headers_join(self.exported_impls@, j as int),
                state.panic_to_exception == old(state).panic_to_exception,
            decreases ni - j,
        {
            self.exported_impls[j].ty.emit_header(state);
            match &self.exported_impls[j].tr {
                Some(t) => {
                    t.emit_header(state);
                },
                None => {
                    proof {
                        assert(state.text@ + Seq::<char>::empty() =~= state.text@);
                    }
                },
            }
            j = j + 1;
        }
        let ghost p2 = state.text@;
        let nr: usize = self.trait_defs.len();
        let mut k: usize = 0;
        proof {
            assert(p2 + Seq::<char>::empty() =~= p2);
        }
        while k < nr
            invariant
                0 <= k <= nr,
                nr == self.trait_defs@.len(),
                file_wf(*self),
                state.text@ == p2 + trait_defs_join(self.trait_defs@, k as int),
                state.panic_to_exception == old(state).panic_to_exception,
            decreases nr - k,
        {
            self.trait_defs[k].emit(state);
            k = k + 1;
        }
    }

    fn emit_h_emits(&self, state: &mut State)
        requires
            file_wf(*self),
            old(state).panic_to_exception == self.panic_to_exception,
        ensures
            final(state).text@ == old(state).text@ + h_emits_text(*self),
            final(state).panic_to_exception == old(state).panic_to_exception,
    {
        proof {
            reveal(h_emits_text);
        }
        let nt: usize = self.type_defs.len();
        let mut i: usize = 0;
        proof {
            assert(old(state).text@ + Seq::<char>::empty() =~= old(state).text@);
        }
        while i < nt
            invariant
                0 <= i <= nt,
                nt == self.type_defs@.len(),
                file_wf(*self),
                state.text@ == old(state).text@ + type_emits_join(
                    self.type_defs@,
                    self.trait_defs@,
                    i as int,
                ),
                state.panic_to_exception == old(state).panic_to_exception,
            decreases nt - i,
        {
            self.type_defs[i].emit(&self.trait_defs, state);
            i = i + 1;
        }
        let ghost p1 = state.text@;
        let mut j: usize = 0;
        proof {
            assert(p1 + Seq::<char>::empty() =~= p1);
        }
        while j < nt
            invariant
                0 <= j <= nt,
                nt == self.type_defs@.len(),
                file_wf(*self),
                state.text@ == p1 + type_cpp_defs_join(
                    self.type_defs@,
                    self.trait_defs@,
                    j as int,
                    old(state).panic_to_exception,
                ),
                state.panic_to_exception == old(state).panic_to_exception,
            decreases nt - j,
        {
            self.type_defs[j].emit_cpp_fn_defs(state, &self.trait_defs);
            j = j + 1;
        }
        let ghost p2 = state.text@;
        let nf: usize = self.fn_defs.len();
        let mut k: usize = 0;
        proof {
            assert(p2 + Seq::<char>::empty() =~= p2);
        }
        while k < nf
            invariant
                0 <= k <= nf,
                nf == self.fn_defs@.len(),
                file_wf(*self),
                state.text@ == p2 + fn_defs_join(
                    self.fn_defs@,
                    k as int,
                    old(state).panic_to_exception,
                ),
                state.panic_to_exception == old(state).panic_to_exception,
            decreases nf - k,
        {
            self.fn_defs[k].emit_cpp_def(state);
            k = k + 1;
        }
    }

    fn emit_h_exports(&self, state: &mut State)
        requires
            file_wf(*self),
        ensures
            final(state).text@ == old(state).text@ + h_exports_text(*self),
            final(state).panic_to_exception == old(state).panic_to_exception,
    {
        proof {
            reveal(h_exports_text);
        }
        let nf: usize = self.exported_fn_defs.len();
        let mut i: usize = 0;
        proof {
            assert(old(state).text@ + Seq::<char>::empty() =~= old(state).text@);
        }
        while i < nf
            invariant
                0 <= i <= nf,
                nf == self.exported_fn_defs@.len(),
                file_wf(*self),
                state.text@ == old(state).text@ + exported_fn_decls_join(
                    self.exported_fn_defs@,
                    i as int,
                ),
                state.panic_to_exception == old(state).panic_to_exception,
            decreases nf - i,
        {
            emit_exported_fn_decl(&self.exported_fn_defs[i], state);
            i = i + 1;
        }
        let ghost p1 = state.text@;
        let ni: usize = self.exported_impls.len();
        let mut j: usize = 0;
        proof {
            assert(p1 + Seq::<char>::empty() =~= p1);
        }
        while j < ni
            invariant
                0 <= j <= ni,
                ni == self.exported_impls@.len(),
                file_wf(*self),
                state.text@ == p1 + exported_impl_decls_join(self.exported_impls@, j as int),
                state.panic_to_exception == old(state).panic_to_exception,
            decreases ni - j,
        {
            emit_exported_impl_decl(&self.exported_impls[j], state);
            j = j + 1;
        }
    }

    /// The whole header text, before the `noexcept` pass.
    #[verifier::rlimit(100)]
    pub fn emit_h_file(&self, state: &mut State)
        requires
            file_wf(*self),
            old(state).panic_to_exception == self.panic_to_exception,
        ensures
            final(state).text@ == old(state).text@ + h_file_text(*self),
            final(state).panic_to_exception == old(state).panic_to_exception,
    {
        self.emit_h_pre(state);
        emit_builtins(state);
        state.put("}");
        state.put("\n");
        self.emit_h_links(state);
        self.emit_h_api(state);
        self.emit_h_headers(state);
        self.emit_h_emits(state);
        self.emit_h_exports(state);
    }

    /// The source unit, and whether it holds anything.
    #[verifier::rlimit(100)]
    pub fn emit_cpp_file(&self, state: &mut State) -> (needed: bool)
        requires
            file_wf(*self),
        ensures
            final(state).text@ == old(state).text@ + cpp_file_text(*self),
            final(state).panic_to_exception == old(state).panic_to_exception,
            needed == cpp_needed(*self),
    {
        proof {
            reveal(cpp_file_text);
        }
        state.put("#include \"./generated.h\"");
        state.put("\n");
        state.put("extern \"C\" {");
        state.put("\n");
        let mut needed = false;
        let ghost p0 = state.text@;
        let nr: usize = self.trait_defs.len();
        let mut i: usize = 0;
        proof {
            assert(p0 + Seq::<char>::empty() =~= p0);
        }
        while i < nr
            invariant
                0 <= i <= nr,
                nr == self.trait_defs@.len(),
                file_wf(*self),
                needed == (i > 0),
                state.text@ == p0 + trait_cpps_join(self.trait_defs@, i as int),
                state.panic_to_exception == old(state).panic_to_exception,
            decreases nr - i,
        {
            needed = true;
            self.trait_defs[i].emit_cpp(state);
            i = i + 1;
        }
        let ghost p1 = state.text@;
        let nf: usize = self.exported_fn_defs.len();
        let mut j: usize = 0;
        proof {
            assert(p1 + Seq::<char>::empty() =~= p1);
        }
        while j < nf
            invariant
                0 <= j <= nf,
                nf == self.exported_fn_defs@.len(),
                file_wf(*self),
                needed == (nr > 0 || j > 0),
                state.text@ == p1 + exported_fn_defs_join(self.exported_fn_defs@, j as int),
                state.panic_to_exception == old(state).panic_to_exception,
            decreases nf - j,
        {
            needed = true;
            emit_exported_fn_def(&self.exported_fn_defs[j], state);
            j = j + 1;
        }
        let ghost p2 = state.text@;
        let ni: usize = self.exported_impls.len();
        let mut k: usize = 0;
        proof {
            assert(p2 + Seq::<char>::empty() =~= p2);
        }
        while k < ni
            invariant
                0 <= k <= ni,
                ni == self.exported_impls@.len(),
                file_wf(*self),
                needed == (nr > 0 || nf > 0 || k > 0),
                state.text@ == p2 + exported_impl_defs_join(self.exported_impls@, k as int),
                state.panic_to_exception == old(state).panic_to_exception,
            decreases ni - k,
        {
            needed = true;
            emit_exported_impl_defs(&self.exported_impls[k], state);
            k = k + 1;
        }
        state.put("}");
        state.put("\n");
        needed
    }

    /// Renders the model into the header text and, when anything lives
    /// there, the source text. In panic-to-exception mode the header's
    /// ` noexcept ` markers are replaced, since the generated calls may
    /// throw. A model with trait definitions is not representable in the
    /// dispatch table and is ruled out.
    pub fn render(self) -> (r: (String, Option<String>))
        requires
            file_wf(self),
            self.trait_defs@.len() == 0,
        ensures
            r.0@ == (if self.panic_to_exception {
                replace_text(h_file_text(self), " noexcept "@, " "@)
            } else {
                h_file_text(self)
            }),
            match r.1 {
                Some(t) => cpp_needed(self) && t@ == cpp_file_text(self),
                None => !cpp_needed(self),
            },
    {
        let mut h_file = State::new(self.panic_to_exception);
        let mut cpp_file = State::new(self.panic_to_exception);
        self.emit_h_file(&mut h_file);
        let is_cpp_needed = self.emit_cpp_file(&mut cpp_file);
        proof {
            assert(Seq::<char>::empty() + h_file_text(self) =~= h_file_text(self));
            assert(Seq::<char>::empty() + cpp_file_text(self) =~= cpp_file_text(self));
        }
        h_file.remove_no_except_in_panic();
        if is_cpp_needed {
            (h_file.text, Some(cpp_file.text))
        } else {
            (h_file.text, None)
        }
    }
}

fn emit_exported_fn_decl(d: &CppExportedFnDefinition, state: &mut State)
    requires
        sig_wf(d.sig),
    ensures
        final(state).text@ == old(state).text@ + exported_fn_decl_text(*d),
        final(state).panic_to_exception == old(state).panic_to_exception,
{
    proof {
        reveal(exported_fn_decl_text);
    }
    state.put("namespace rust { namespace exported_functions {");
    state.put("\n");
    state.put("   ");
    d.sig.output.emit_text(state);
    state.put(" ");
    state.put(d.name.as_str());
    state.put("(");
    state.put_input_defs(&d.sig.inputs, 0);
    state.put(");");
    state.put("\n");
    state.put("} }");
    state.put("\n");
}

fn emit_impl_tr(tr: &Option<crate::ty::CppType>, state: &mut State)
    requires
        match tr {
            Some(t) => type_wf(*t),
            None => true,
        },
    ensures
        final(state).text@ == old(state).text@ + impl_tr_text(*tr),
        final(state).panic_to_exception == old(state).panic_to_exception,
{
    match tr {
        Some(t) => {
            t.emit_text(state);
        },
        None => {
            state.put("::rust::Inherent");
        },
    }
}

#[verifier::rlimit(100)]
fn emit_exported_impl_decl(imp: &CppExportedImplDefinition, state: &mut State)
    requires
        type_wf(imp.ty),
        match imp.tr {
            Some(t) => type_wf(t),
            None => true,
        },
        forall|j: int| 0 <= j < imp.methods@.len() ==> sig_wf((#[trigger] imp.methods@[j]).1),
    ensures
        final(state).text@ == old(state).text@ + exported_impl_decl_text(*imp),
        final(state).panic_to_exception == old(state).panic_to_exception,
{
    proof {
        reveal(exported_impl_decl_text);
    }
    state.put("namespace rust { template<> class Impl< ");
    imp.ty.emit_text(state);
    state.put(", ");
    emit_impl_tr(&imp.tr, state);
    state.put(" > { public:");
    state.put("\n");
    let ghost p0 = state.text@;
    let nm: usize = imp.methods.len();
    let mut j: usize = 0;
    proof {
        assert(p0 + Seq::<char>::empty() =~= p0);
    }
    while j < nm
        invariant
            0 <= j <= nm,
            nm == imp.methods@.len(),
            forall|q: int| 0 <= q < imp.methods@.len() ==> sig_wf((#[trigger] imp.methods@[q]).1),
            state.text@ == p0 + exported_impl_method_decls_join(imp.methods@, j as int),
            state.panic_to_exception == old(state).panic_to_exception,
        decreases nm - j,
    {
        state.put("   static ");
        imp.methods[j].1.output.emit_text(state);
        state.put(" ");
        state.put(imp.methods[j].0.as_str());
        state.put("(");
        state.put_input_defs(&imp.methods[j].1.inputs, 0);
        state.put(");");
        state.put("\n");
        j = j + 1;
    }
    state.put("}; }");
    state.put("\n");
}

#[verifier::rlimit(100)]
fn emit_exported_fn_def(d: &CppExportedFnDefinition, state: &mut State)
    requires
        sig_wf(d.sig),
    ensures
        final(state).text@ == old(state).text@ + exported_fn_def_text(*d),
        final(state).panic_to_exception == old(state).panic_to_exception,
{
    proof {
        reveal(exported_fn_def_text);
    }
    d.sig.emit_rust_link(state);
    state.put("{");
    state.put("\n");
    state.put("   ");
    d.sig.output.emit_text(state);
    state.put(" oo = ::rust::exported_functions::");
    state.put(d.name.as_str());
    state.put("(");
    state.put_move_from_rust_args(&d.sig.inputs);
    state.put(");");
    state.put("\n");
    state.put("   ::rust::__zngur_internal_move_to_rust(o, oo);");
    state.put("\n");
    state.put("}");
    state.put("\n");
}

#[verifier::rlimit(100)]
fn emit_exported_impl_method_def(
    imp: &CppExportedImplDefinition,
    m: &(String, CppFnSig),
    state: &mut State,
)
    requires
        type_wf(imp.ty),
        match imp.tr {
            Some(t) => type_wf(t),
            None => true,
        },
        sig_wf(m.1),
    ensures
        final(state).text@ == old(state).text@ + exported_impl_method_def_text(*imp, *m),
        final(state).panic_to_exception == old(state).panic_to_exception,
{
    proof {
        reveal(exported_impl_method_def_text);
    }
    m.1.emit_rust_link(state);
    state.put("{");
    state.put("\n");
    state.put("   ");
    m.1.output.emit_text(state);
    state.put(" oo = ::rust::Impl< ");
    imp.ty.emit_text(state);
    state.put(", ");
    emit_impl_tr(&imp.tr, state);
    state.put(" >::");
    state.put(m.0.as_str());
    state.put("(");
    state.put_move_from_rust_args(&m.1.inputs);
    state.put(");");
    state.put("\n");
    state.put("   ::rust::__zngur_internal_move_to_rust(o, oo);");
    state.put("\n");
    state.put("}");
    state.put("\n");
}

fn emit_exported_impl_defs(imp: &CppExportedImplDefinition, state: &mut State)
    requires
        type_wf(imp.ty),
        match imp.tr {
            Some(t) => type_wf(t),
            None => true,
        },
        forall|j: int| 0 <= j < imp.methods@.len() ==> sig_wf((#[trigger] imp.methods@[j]).1),
    ensures
        final(state).text@ == old(state).text@ + exported_impl_method_defs_join(
            *imp,
            imp.methods@.len() as int,
        ),
        final(state).panic_to_exception == old(state).panic_to_exception,
{
    let nm: usize = imp.methods.len();
    let mut j: usize = 0;
    proof {
        assert(old(state).text@ + Seq::<char>::empty() =~= old(state).text@);
    }
    while j < nm
        invariant
            0 <= j <= nm,
            nm == imp.methods@.len(),
            type_wf(imp.ty),
            match imp.tr {
                Some(t) => type_wf(t),
                None => true,
            },
            forall|q: int| 0 <= q < imp.methods@.len() ==> sig_wf((#[trigger] imp.methods@[q]).1),
            state.text@ == old(state).text@ + exported_impl_method_defs_join(*imp, j as int),
            state.panic_to_exception == old(state).panic_to_exception,
        decreases nm - j,
    {
        emit_exported_impl_method_def(imp, &imp.methods[j], state);
        j = j + 1;
    }
}

/// One `init` resolution step.
fn emit_wl(nm: &str, state: &mut State)
    ensures
        final(state).text@ == old(state).text@ + wl_text(nm@),
        final(state).panic_to_exception == old(state).panic_to_exception,
{
    proof {
        reveal(wl_text);
    }
    state.put("{\nvoid* dlsym_handle = dlsym(_dylib_handle, \"");
    state.put(nm);
    state.put("\");\nif (dlsym_handle == nullptr) {\n    error_message = \"Failed to load ");
    state.put(nm);
    state.put(" from dynamic library: \" + std::string(dlerror());\n    return false;\n}\n");
    state.put(nm);
    state.put(" = reinterpret_cast<decltype(&::");
    state.put(nm);
    state.put(")>(dlsym_handle);\n}\n");
    state.put("\n");
}

} // verus!
