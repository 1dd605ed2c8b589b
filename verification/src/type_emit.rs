//! Emission of the owning value wrapper of a type definition: storage by
//! layout policy, the copy or move-only lifecycle around the initialisation
//! flag, construction bridges, methods, constructors and fields.

use vstd::prelude::*;
use crate::text::{State, dec_text, has_sub, lemma_has_sub_self, lemma_has_sub_left, lemma_has_sub_right};
use crate::names::{field_name_text, cpp_handle_field_name};
use crate::ty::{type_wf, type_text, specialization_decl_text};
use crate::path::{ns_open_text, ns_close_text};
use crate::sig::{CppFnSig, CppMethod, sig_wf, input_defs_text, dyn_api_def_text, cpp_header_text,
    std_function_text, ZngurMethodReceiver, Mutability, ZngurField};
use crate::trait_def::CppTraitDefinition;
use crate::type_def::{CppTypeDefinition, CppLayoutPolicy, ZngurWellknownTraitData, td_wf, is_copy,
    is_unsized, has_drop, drop_fn_text, only_by_ref, rest_args, ref_specialization_text,
    field_specialization_text};

verus! {

/// Whether the type is the unit tuple, which gets a fixed one-byte
/// placeholder struct.
pub open spec fn is_unit(td: CppTypeDefinition) -> bool {
    td.ty.path.0@.len() == 2 && td.ty.path.0@[0]@ == "rust"@ && td.ty.path.0@[1]@ == "Unit"@
}

/// Whether the type renders as `::rust::Bool`, which gets `bool` conversions.
pub open spec fn is_bool(td: CppTypeDefinition) -> bool {
    crate::path::path_text(td.ty.path) == "::rust::Bool"@
}

/// What the emitter insists on for `::rust::Bool`: one copyable byte.
pub open spec fn bool_layout_ok(td: CppTypeDefinition) -> bool {
    is_bool(td) ==> is_copy(td) && td.layout == (CppLayoutPolicy::StackAllocated {
        size: 1usize,
        align: 1usize,
    })
}

/// The heap allocation statement of the layout, empty for inline storage.
pub open spec fn alloc_heap_text(l: CppLayoutPolicy) -> Seq<char> {
    match l {
        CppLayoutPolicy::HeapAllocated { size_fn: _, alloc_fn, free_fn: _ } => "data = "@
            + alloc_fn@ + "();"@,
        _ => ""@,
    }
}

/// The heap free statement of the layout, empty for inline storage.
pub open spec fn free_heap_text(l: CppLayoutPolicy) -> Seq<char> {
    match l {
        CppLayoutPolicy::HeapAllocated { size_fn: _, alloc_fn: _, free_fn } => free_fn@
            + "(data);"@,
        _ => ""@,
    }
}

/// The byte-copy statement of the layout.
pub open spec fn copy_data_text(l: CppLayoutPolicy) -> Seq<char> {
    match l {
        CppLayoutPolicy::StackAllocated { .. } => "this->data = other.data;"@,
        CppLayoutPolicy::HeapAllocated { size_fn, .. } => "memcpy(this->data, other.data, "@
            + size_fn@ + "());"@,
        CppLayoutPolicy::OnlyByRef => ""@,
    }
}

impl State {
    fn put_alloc_heap(&mut self, l: &CppLayoutPolicy)
        ensures
            final(self).text@ == old(self).text@ + alloc_heap_text(*l),
            final(self).panic_to_exception == old(self).panic_to_exception,
    {
        match l {
            CppLayoutPolicy::HeapAllocated { size_fn: _, alloc_fn, free_fn: _ } => {
                self.put("data = ");
                self.put(alloc_fn.as_str());
                self.put("();");
            },
            _ => {
                self.put("");
            },
        }
    }

    fn put_free_heap(&mut self, l: &CppLayoutPolicy)
        ensures
            final(self).text@ == old(self).text@ + free_heap_text(*l),
            final(self).panic_to_exception == old(self).panic_to_exception,
    {
        match l {
            CppLayoutPolicy::HeapAllocated { size_fn: _, alloc_fn: _, free_fn } => {
                self.put(free_fn.as_str());
                self.put("(data);");
            },
            _ => {
                self.put("");
            },
        }
    }

    fn put_copy_data(&mut self, l: &CppLayoutPolicy)
        ensures
            final(self).text@ == old(self).text@ + copy_data_text(*l),
            final(self).panic_to_exception == old(self).panic_to_exception,
    {
        match l {
            CppLayoutPolicy::StackAllocated { .. } => {
                self.put("this->data = other.data;");
            },
            CppLayoutPolicy::HeapAllocated { size_fn, .. } => {
                self.put("memcpy(this->data, other.data, ");
                self.put(size_fn.as_str());
                self.put("());");
            },
            CppLayoutPolicy::OnlyByRef => {
                self.put("");
            },
        }
    }
}

pub open spec fn owned_fwd_decls_a_text(td: CppTypeDefinition) -> Seq<char> {
    "\nnamespace rust {\n    template<>\n    inline uint8_t* __zngur_internal_data_ptr< "@
        + type_text(td.ty) + " >(const "@ + type_text(td.ty)
        + "& t) noexcept ;\n    template<>\n    inline void __zngur_internal_check_init< "@
        + type_text(td.ty) + " >(const "@ + type_text(td.ty) + "& t) noexcept ;\n"@
}

pub open spec fn owned_fwd_decls_b_text(td: CppTypeDefinition) -> Seq<char> {
    "    template<>\n    inline void __zngur_internal_assume_init< "@ + type_text(td.ty) + " >("@
        + type_text(td.ty)
        + "& t) noexcept ;\n    template<>\n    inline void __zngur_internal_assume_deinit< "@
        + type_text(td.ty) + " >("@ + type_text(td.ty)
        + "& t) noexcept ;\n    template<>\n    inline size_t __zngur_internal_size_of< "@
        + type_text(td.ty) + " >() noexcept ;\n}"@ + "\n"@
}

/// The five customization-point forward declarations of the type.
pub open spec fn owned_fwd_decls_text(td: CppTypeDefinition) -> Seq<char> {
    owned_fwd_decls_a_text(td) + owned_fwd_decls_b_text(td)
}

/// The placeholder struct body of the unit type.
pub open spec fn unit_body_text() -> Seq<char> {
    "template<> struct Tuple<> { ::std::array< ::uint8_t, 1> data; };"@
}

/// The struct opening by layout: deleted construction, aligned inline bytes,
/// or an opaque pointer.
pub open spec fn owned_storage_text(td: CppTypeDefinition) -> Seq<char> {
    match td.layout {
        CppLayoutPolicy::OnlyByRef => "\n{\npublic:\n    "@ + td.ty.path.0@.last()@
            + "() = delete;\n    "@ + "\n"@,
        CppLayoutPolicy::StackAllocated { size, align } => "\n{\nprivate:\n    alignas("@
            + dec_text(align as nat) + ") mutable ::std::array<uint8_t, "@ + dec_text(size as nat)
            + "> data;\n            "@ + "\n"@,
        CppLayoutPolicy::HeapAllocated { .. } => "\n{\nprivate:\n    uint8_t* data;\n            "@
            + "\n"@,
    }
}

/// The friend declarations of the customization points.
pub open spec fn owned_friends_a_text(td: CppTypeDefinition) -> Seq<char> {
    "\n    friend uint8_t* ::rust::__zngur_internal_data_ptr< "@ + type_text(td.ty) + " >(const "@
        + type_text(td.ty)
        + "& t) noexcept ;\n    friend void ::rust::__zngur_internal_check_init< "@ + type_text(
        td.ty,
    ) + " >(const "@ + type_text(td.ty) + "& t) noexcept ;\n"@
}

pub open spec fn owned_friends_b_text(td: CppTypeDefinition) -> Seq<char> {
    "    friend void ::rust::__zngur_internal_assume_init< "@ + type_text(td.ty) + " >("@
        + type_text(td.ty)
        + "& t) noexcept ;\n    friend void ::rust::__zngur_internal_assume_deinit< "@ + type_text(
        td.ty,
    ) + " >("@ + type_text(td.ty)
        + "& t) noexcept ;\n    friend ::rust::ZngurPrettyPrinter< "@ + type_text(td.ty)
        + " >;\n"@ + "\n"@
}

/// The `bool` conversions of `::rust::Bool`.
pub open spec fn bool_ops_text() -> Seq<char> {
    "\npublic:\n    operator bool() {\n        return data[0];\n    }\n    Bool(bool b) {\n        data[0] = b;\n    }\nprivate:\n    "@
        + "\n"@
}

/// The trivially duplicable lifecycle of a `Copy` type: construct, destroy,
/// and four byte-copying duplication operations with no flag at all.
pub open spec fn copy_lifecycle_text(td: CppTypeDefinition) -> Seq<char> {
    copy_lc_a_text(td) + copy_lc_b_text(td) + copy_lc_c_text(td) + copy_lc_d_text(td)
        + copy_lc_e_text(td)
}

pub open spec fn copy_lc_a_text(td: CppTypeDefinition) -> Seq<char> {
    "\n    "@ + td.ty.path.0@.last()@ + "() { "@ + alloc_heap_text(td.layout) + " }\n    ~"@
        + td.ty.path.0@.last()@ + "() { "@ + free_heap_text(td.layout) + " }\n    "@
}

pub open spec fn copy_lc_b_text(td: CppTypeDefinition) -> Seq<char> {
    td.ty.path.0@.last()@ + "(const "@ + td.ty.path.0@.last()@ + "& other) {\n        "@
        + alloc_heap_text(td.layout) + "\n        "@ + copy_data_text(td.layout) + "\n    }\n    "@
}

pub open spec fn copy_lc_c_text(td: CppTypeDefinition) -> Seq<char> {
    td.ty.path.0@.last()@ + "& operator=(const "@ + td.ty.path.0@.last()@
        + "& other) {\n        "@ + copy_data_text(td.layout)
        + "\n        return *this;\n    }\n    "@
}

pub open spec fn copy_lc_d_text(td: CppTypeDefinition) -> Seq<char> {
    td.ty.path.0@.last()@ + "("@ + td.ty.path.0@.last()@ + "&& other) {\n        "@
        + alloc_heap_text(td.layout) + "\n        "@ + copy_data_text(td.layout) + "\n    }\n    "@
}

pub open spec fn copy_lc_e_text(td: CppTypeDefinition) -> Seq<char> {
    td.ty.path.0@.last()@ + "& operator=("@ + td.ty.path.0@.last()@ + "&& other) {\n        "@
        + copy_data_text(td.layout) + "\n        return *this;\n    }\n    "@ + "\n"@
}

/// The move-only lifecycle of a non-`Copy` type: the drop flag starts clear,
/// destruction drops only when it is set, copying is deleted, and a move
/// transfers the flag and clears it in the source.
pub open spec fn noncopy_lifecycle_text(td: CppTypeDefinition) -> Seq<char> {
    noncopy_lc_a_text(td) + noncopy_lc_b_text(td) + noncopy_lc_c_text(td) + noncopy_lc_d_text(td)
}

pub open spec fn noncopy_lc_a_text(td: CppTypeDefinition) -> Seq<char> {
    "\n    "@ + td.ty.path.0@.last()@ + "() : drop_flag(false) { "@ + alloc_heap_text(td.layout)
        + " }\n    ~"@ + td.ty.path.0@.last()@ + "() {\n        "@ + "if (drop_flag) {"@
        + "\n            "@ + drop_fn_text(td) + "(&data[0]);\n        }\n        "@
        + free_heap_text(td.layout) + "\n    }\n    "@
}

pub open spec fn noncopy_lc_b_text(td: CppTypeDefinition) -> Seq<char> {
    td.ty.path.0@.last()@ + "(const "@ + td.ty.path.0@.last()@ + "& other) = delete;\n    "@
        + td.ty.path.0@.last()@ + "& operator=(const "@ + td.ty.path.0@.last()@
        + "& other) = delete;\n    "@
}

pub open spec fn noncopy_lc_c_text(td: CppTypeDefinition) -> Seq<char> {
    td.ty.path.0@.last()@ + "("@ + td.ty.path.0@.last()@
        + "&& other) : drop_flag(false) {\n        "@ + alloc_heap_text(td.layout)
        + "\n        *this = ::std::move(other);\n    }\n    "@
}

pub open spec fn noncopy_lc_d_text(td: CppTypeDefinition) -> Seq<char> {
    td.ty.path.0@.last()@ + "& operator=("@ + td.ty.path.0@.last()@
        + "&& other) {\n        if (this != &other)\n        {\n            "@
        + "if (drop_flag) {"@ + "\n                "@ + drop_fn_text(td)
        + "(&data[0]);\n            }\n            "@
        + "this->drop_flag = other.drop_flag;"@ + "\n            "@ + copy_data_text(td.layout)
        + "\n            "@ + "other.drop_flag = false;"@
        + "\n        }\n        return *this;\n    }\n    "@ + "\n"@
}

/// The `make_box` declaration when the type can be built from a closure or
/// from a trait implementer.
pub open spec fn make_box_decl_text(
    td: CppTypeDefinition,
    traits: Seq<CppTraitDefinition>,
) -> Seq<char> {
    match td.from_trait {
        None => Seq::<char>::empty(),
        Some(i) => match traits[i as int] {
            CppTraitDefinition::Fn { sig } => "\n    static inline "@ + td.ty.path.0@.last()@
                + " make_box("@ + std_function_text(sig) + " f);\n    "@ + "\n"@,
            CppTraitDefinition::Normal { .. } => "\n                        template<typename T, typename... Args>\n                        static "@
                + td.ty.path.0@.last()@ + " make_box(Args&&... args);\n                        "@
                + "\n"@,
        },
    }
}

/// The embedded host-value accessor on the owning type.
pub open spec fn owned_cpp_value_text(td: CppTypeDefinition) -> Seq<char> {
    match td.cpp_value {
        Some(v) => "\n                    inline "@ + v.1@
            + "& cpp() {\n                        return (*"@ + v.0@ + "(&data[0])).as_cpp< "@
            + v.1@ + " >();\n                    }"@ + "\n"@,
        None => Seq::<char>::empty(),
    }
}

/// The member wrapper declaration of a non-static method.
pub open spec fn const_kw_text(k: ZngurMethodReceiver) -> Seq<char> {
    if k == (ZngurMethodReceiver::Ref(Mutability::Not)) {
        "const"@
    } else {
        ""@
    }
}

pub open spec fn member_method_decl_text(m: CppMethod) -> Seq<char> {
    type_text(m.sig.output) + " "@ + m.name@ + "("@ + dyn_api_def_text(
        rest_args(m.sig.inputs@.len() as int),
    ) + input_defs_text(m.sig.inputs@, 1, m.sig.inputs@.len() - 1) + ") "@ + const_kw_text(m.kind)
        + " noexcept ;"@ + "\n"@
}

/// A method on the owning type: the static form always, and a member form
/// for methods with a receiver.
pub open spec fn owned_method_decl_text(m: CppMethod) -> Seq<char> {
    "static "@ + cpp_header_text(m.sig, m.name@) + (if !(m.kind is Static) {
        member_method_decl_text(m)
    } else {
        Seq::<char>::empty()
    })
}

pub open spec fn owned_method_decls_join(ms: Seq<CppMethod>, n: int) -> Seq<char>
    decreases n,
{
    if n <= 0 || n > ms.len() {
        Seq::empty()
    } else {
        owned_method_decls_join(ms, n - 1) + owned_method_decl_text(ms[n - 1])
    }
}

/// One constructor declaration, named after the type.
pub open spec fn ctor_decl_text(c: CppFnSig, name: Seq<char>) -> Seq<char> {
    name + "("@ + input_defs_text(c.inputs@, 0, c.inputs@.len() as int) + ") noexcept ;"@ + "\n"@
}

pub open spec fn ctor_decls_join(cs: Seq<CppFnSig>, name: Seq<char>, n: int) -> Seq<char>
    decreases n,
{
    if n <= 0 || n > cs.len() {
        Seq::empty()
    } else {
        ctor_decls_join(cs, name, n - 1) + ctor_decl_text(cs[n - 1], name)
    }
}

/// One owned-field member.
pub open spec fn owned_field_member_text(f: ZngurField) -> Seq<char> {
    "[[no_unique_address]] ::rust::FieldOwned<"@ + type_text(f.ty) + ", "@ + dec_text(
        f.offset as nat,
    ) + "> "@ + field_name_text(f.name@) + ";\n"@
}

pub open spec fn owned_field_members_join(fs: Seq<ZngurField>, n: int) -> Seq<char>
    decreases n,
{
    if n <= 0 || n > fs.len() {
        Seq::empty()
    } else {
        owned_field_members_join(fs, n - 1) + owned_field_member_text(fs[n - 1])
    }
}

/// The byte-size query: the declared constant for inline storage, a call to
/// the declared size function for heap storage.
pub open spec fn size_of_spec_text(td: CppTypeDefinition) -> Seq<char> {
    match td.layout {
        CppLayoutPolicy::StackAllocated { size, align: _ } => "\nnamespace rust {\n    template<>\n    inline size_t __zngur_internal_size_of< "@
            + type_text(td.ty) + " >() noexcept {\n        return "@ + dec_text(size as nat)
            + ";\n    }\n        "@ + "\n"@,
        CppLayoutPolicy::HeapAllocated { size_fn, .. } => "\nnamespace rust {\n    template<>\n    inline size_t __zngur_internal_size_of< "@
            + type_text(td.ty) + " >() noexcept {\n        return "@ + size_fn@
            + "();\n    }\n        "@ + "\n"@,
        CppLayoutPolicy::OnlyByRef => Seq::<char>::empty(),
    }
}

/// The initialisation operations of a `Copy` type: all three are no-ops,
/// no flag exists to consult.
pub open spec fn init_ops_copy_text(td: CppTypeDefinition) -> Seq<char> {
    init_ops_copy_a_text(td) + init_ops_copy_b_text(td)
}

pub open spec fn init_ops_copy_a_text(td: CppTypeDefinition) -> Seq<char> {
    "\n        template<>\n        inline void __zngur_internal_check_init< "@ + type_text(td.ty)
        + " >(const "@ + type_text(td.ty)
        + "&) noexcept {\n        }\n\n        template<>\n        inline void __zngur_internal_assume_init< "@
        + type_text(td.ty) + " >("@ + type_text(td.ty) + "&) noexcept {\n        }\n"@
}

pub open spec fn init_ops_copy_b_text(td: CppTypeDefinition) -> Seq<char> {
    "    \n        template<>\n        inline void __zngur_internal_assume_deinit< "@ + type_text(
        td.ty,
    ) + " >("@ + type_text(td.ty) + "&) noexcept {\n        }\n"@ + "\n"@
}

/// The initialisation operations of a non-`Copy` type: checking an unset
/// flag aborts, marking toggles the flag.
pub open spec fn init_ops_noncopy_text(td: CppTypeDefinition) -> Seq<char> {
    init_ops_noncopy_a_text(td) + init_ops_noncopy_b_text(td)
}

pub open spec fn init_ops_noncopy_a_text(td: CppTypeDefinition) -> Seq<char> {
    "\n        template<>\n        inline void __zngur_internal_check_init< "@ + type_text(td.ty)
        + " >(const "@ + type_text(td.ty)
        + "& t) noexcept {\n            if (!t.drop_flag) {\n                ::std::cerr << \"Use of uninitialized or moved Zngur Rust object with type "@
        + type_text(td.ty)
        + "\" << ::std::endl;\n                while (true) raise(SIGSEGV);\n            }\n        }\n"@
}

pub open spec fn init_ops_noncopy_b_text(td: CppTypeDefinition) -> Seq<char> {
    "\n        template<>\n        inline void __zngur_internal_assume_init< "@ + type_text(td.ty)
        + " >("@ + type_text(td.ty)
        + "& t) noexcept {\n            t.drop_flag = true;\n        }\n    \n        template<>\n        inline void __zngur_internal_assume_deinit< "@
        + type_text(td.ty) + " >("@ + type_text(td.ty)
        + "& t) noexcept {\n            ::rust::__zngur_internal_check_init< "@ + type_text(td.ty)
        + " >(t);\n            t.drop_flag = false;\n        }\n"@ + "\n"@
}

/// The data-pointer accessor closing the customization block.
pub open spec fn data_ptr_tail_text(td: CppTypeDefinition) -> Seq<char> {
    "\n    template<>\n    inline uint8_t* __zngur_internal_data_ptr< "@ + type_text(td.ty)
        + " >("@ + type_text(td.ty)
        + " const & t) noexcept {\n        return const_cast<uint8_t*>(&t.data[0]);\n    }\n}\n"@
        + "\n"@
}

/// The whole customization block after the struct, absent for
/// reference-only types.
pub open spec fn owned_tail_text(td: CppTypeDefinition) -> Seq<char> {
    if !only_by_ref(td) {
        size_of_spec_text(td) + (if is_copy(td) {
            init_ops_copy_text(td)
        } else {
            init_ops_noncopy_text(td)
        }) + data_ptr_tail_text(td)
    } else {
        Seq::<char>::empty()
    }
}

/// The storage, friends and `bool` conversions of the struct body.
pub open spec fn lc_section_a_text(td: CppTypeDefinition) -> Seq<char> {
    owned_storage_text(td) + owned_friends_a_text(td) + owned_friends_b_text(td) + (if is_bool(td) {
        bool_ops_text()
    } else {
        Seq::<char>::empty()
    })
}

/// The flag, lifecycle and construction bridge of the struct body.
pub open spec fn lc_section_b_text(td: CppTypeDefinition, traits: Seq<CppTraitDefinition>) -> Seq<
    char,
> {
    (if !is_copy(td) {
        "   bool drop_flag;"@ + "\n"@
    } else {
        Seq::<char>::empty()
    }) + "public:"@ + "\n"@ + (if is_copy(td) {
        copy_lifecycle_text(td)
    } else {
        noncopy_lifecycle_text(td)
    }) + make_box_decl_text(td, traits)
}

/// The storage, flag and lifecycle section of the struct body.
#[verifier::opaque]
pub open spec fn owned_lifecycle_section_text(
    td: CppTypeDefinition,
    traits: Seq<CppTraitDefinition>,
) -> Seq<char> {
    lc_section_a_text(td) + lc_section_b_text(td, traits)
}

/// The struct body between the namespace braces.
#[verifier::opaque]
pub open spec fn owned_body_text(td: CppTypeDefinition, traits: Seq<CppTraitDefinition>) -> Seq<
    char,
> {
    if is_unit(td) {
        unit_body_text()
    } else {
        specialization_decl_text(td.ty) + (match td.layout {
            CppLayoutPolicy::OnlyByRef => owned_storage_text(td),
            _ => owned_lifecycle_section_text(td, traits),
        }) + owned_cpp_value_text(td) + owned_method_decls_join(
            td.methods@,
            td.methods@.len() as int,
        ) + ctor_decls_join(
            td.constructors@,
            td.ty.path.0@.last()@,
            td.constructors@.len() as int,
        ) + owned_field_members_join(td.fields@, td.fields@.len() as int) + "};"@ + "\n"@
    }
}

/// The whole emission of one type definition: forward declarations, the
/// owning struct in its namespace, the customization block, and the
/// reference and field-projection views.
pub open spec fn type_def_head_text(td: CppTypeDefinition, traits: Seq<CppTraitDefinition>) -> Seq<
    char,
> {
    owned_fwd_decls_text(td) + ns_open_text(td.ty.path, td.ty.path.0@.len() - 1) + owned_body_text(
        td,
        traits,
    ) + ns_close_text(td.ty.path.0@.len() - 1)
}

pub open spec fn type_def_tail_text(td: CppTypeDefinition, traits: Seq<CppTraitDefinition>) -> Seq<
    char,
> {
    owned_tail_text(td) + ref_specialization_text(td, traits) + field_specialization_text(td)
}

#[verifier::opaque]
pub open spec fn type_def_text(td: CppTypeDefinition, traits: Seq<CppTraitDefinition>) -> Seq<
    char,
> {
    type_def_head_text(td, traits) + type_def_tail_text(td, traits)
}

impl CppTypeDefinition {
    /// Whether the type is the unit tuple.
    pub fn is_unit_exec(&self) -> (r: bool)
        ensures
            r == is_unit(*self),
    {
        if self.ty.path.0.len() != 2 {
            return false;
        }
        crate::text::str_eq(self.ty.path.0[0].as_str(), "rust") && crate::text::str_eq(
            self.ty.path.0[1].as_str(),
            "Unit",
        )
    }

    /// Whether the type renders as `::rust::Bool`.
    pub fn is_bool_exec(&self) -> (r: bool)
        requires
            type_wf(self.ty),
        ensures
            r == is_bool(*self),
    {
        let rendered = self.ty.path.to_text();
        crate::text::str_eq(rendered.as_str(), "::rust::Bool")
    }
}

#[verifier::rlimit(100)]
fn emit_owned_fwd_decls_a(td: &CppTypeDefinition, state: &mut State)
    requires
        type_wf(td.ty),
    ensures
        final(state).text@ == old(state).text@ + owned_fwd_decls_a_text(*td),
        final(state).panic_to_exception == old(state).panic_to_exception,
{
    state.put("\nnamespace rust {\n    template<>\n    inline uint8_t* __zngur_internal_data_ptr< ");
    td.ty.emit_text(state);
    state.put(" >(const ");
    td.ty.emit_text(state);
    state.put("& t) noexcept ;\n    template<>\n    inline void __zngur_internal_check_init< ");
    td.ty.emit_text(state);
    state.put(" >(const ");
    td.ty.emit_text(state);
    state.put("& t) noexcept ;\n");
}

#[verifier::rlimit(100)]
fn emit_owned_fwd_decls_b(td: &CppTypeDefinition, state: &mut State)
    requires
        type_wf(td.ty),
    ensures
        final(state).text@ == old(state).text@ + owned_fwd_decls_b_text(*td),
        final(state).panic_to_exception == old(state).panic_to_exception,
{
    state.put("    template<>\n    inline void __zngur_internal_assume_init< ");
    td.ty.emit_text(state);
    state.put(" >(");
    td.ty.emit_text(state);
    state.put("& t) noexcept ;\n    template<>\n    inline void __zngur_internal_assume_deinit< ");
    td.ty.emit_text(state);
    state.put(" >(");
    td.ty.emit_text(state);
    state.put("& t) noexcept ;\n    template<>\n    inline size_t __zngur_internal_size_of< ");
    td.ty.emit_text(state);
    state.put(" >() noexcept ;\n}");
    state.put("\n");
}

fn emit_owned_fwd_decls(td: &CppTypeDefinition, state: &mut State)
    requires
        type_wf(td.ty),
    ensures
        final(state).text@ == old(state).text@ + owned_fwd_decls_text(*td),
        final(state).panic_to_exception == old(state).panic_to_exception,
{
    emit_owned_fwd_decls_a(td, state);
    emit_owned_fwd_decls_b(td, state);
}

#[verifier::rlimit(100)]
fn emit_owned_storage(td: &CppTypeDefinition, state: &mut State)
    requires
        type_wf(td.ty),
    ensures
        final(state).text@ == old(state).text@ + owned_storage_text(*td),
        final(state).panic_to_exception == old(state).panic_to_exception,
{
    match &td.layout {
        CppLayoutPolicy::OnlyByRef => {
            state.put("\n{\npublic:\n    ");
            state.put(td.ty.path.name());
            state.put("() = delete;\n    ");
            state.put("\n");
        },
        CppLayoutPolicy::StackAllocated { size, align } => {
            state.put("\n{\nprivate:\n    alignas(");
            state.put_usize(*align);
            state.put(") mutable ::std::array<uint8_t, ");
            state.put_usize(*size);
            state.put("> data;\n            ");
            state.put("\n");
        },
        CppLayoutPolicy::HeapAllocated { .. } => {
            state.put("\n{\nprivate:\n    uint8_t* data;\n            ");
            state.put("\n");
        },
    }
}

fn emit_owned_friends_a(td: &CppTypeDefinition, state: &mut State)
    requires
        type_wf(td.ty),
    ensures
        final(state).text@ == old(state).text@ + owned_friends_a_text(*td),
        final(state).panic_to_exception == old(state).panic_to_exception,
{
    state.put("\n    friend uint8_t* ::rust::__zngur_internal_data_ptr< ");
    td.ty.emit_text(state);
    state.put(" >(const ");
    td.ty.emit_text(state);
    state.put("& t) noexcept ;\n    friend void ::rust::__zngur_internal_check_init< ");
    td.ty.emit_text(state);
    state.put(" >(const ");
    td.ty.emit_text(state);
    state.put("& t) noexcept ;\n");
}

fn emit_owned_friends_b(td: &CppTypeDefinition, state: &mut State)
    requires
        type_wf(td.ty),
    ensures
        final(state).text@ == old(state).text@ + owned_friends_b_text(*td),
        final(state).panic_to_exception == old(state).panic_to_exception,
{
    state.put("    friend void ::rust::__zngur_internal_assume_init< ");
    td.ty.emit_text(state);
    state.put(" >(");
    td.ty.emit_text(state);
    state.put("& t) noexcept ;\n    friend void ::rust::__zngur_internal_assume_deinit< ");
    td.ty.emit_text(state);
    state.put(" >(");
    td.ty.emit_text(state);
    state.put("& t) noexcept ;\n    friend ::rust::ZngurPrettyPrinter< ");
    td.ty.emit_text(state);
    state.put(" >;\n");
    state.put("\n");
}

fn emit_owned_friends(td: &CppTypeDefinition, state: &mut State)
    requires
        type_wf(td.ty),
    ensures
        final(state).text@ == old(state).text@ + owned_friends_a_text(*td) + owned_friends_b_text(
            *td,
        ),
        final(state).panic_to_exception == old(state).panic_to_exception,
{
    emit_owned_friends_a(td, state);
    emit_owned_friends_b(td, state);
}

fn emit_copy_lc_a(td: &CppTypeDefinition, state: &mut State)
    requires
        type_wf(td.ty),
    ensures
        final(state).text@ == old(state).text@ + copy_lc_a_text(*td),
        final(state).panic_to_exception == old(state).panic_to_exception,
{
    state.put("\n    ");
    state.put(td.ty.path.name());
    state.put("() { ");
    state.put_alloc_heap(&td.layout);
    state.put(" }\n    ~");
    state.put(td.ty.path.name());
    state.put("() { ");
    state.put_free_heap(&td.layout);
    state.put(" }\n    ");
}

fn emit_copy_lc_b(td: &CppTypeDefinition, state: &mut State)
    requires
        type_wf(td.ty),
    ensures
        final(state).text@ == old(state).text@ + copy_lc_b_text(*td),
        final(state).panic_to_exception == old(state).panic_to_exception,
{
    state.put(td.ty.path.name());
    state.put("(const ");
    state.put(td.ty.path.name());
    state.put("& other) {\n        ");
    state.put_alloc_heap(&td.layout);
    state.put("\n        ");
    state.put_copy_data(&td.layout);
    state.put("\n    }\n    ");
}

fn emit_copy_lc_c(td: &CppTypeDefinition, state: &mut State)
    requires
        type_wf(td.ty),
    ensures
        final(state).text@ == old(state).text@ + copy_lc_c_text(*td),
        final(state).panic_to_exception == old(state).panic_to_exception,
{
    state.put(td.ty.path.name());
    state.put("& operator=(const ");
    state.put(td.ty.path.name());
    state.put("& other) {\n        ");
    state.put_copy_data(&td.layout);
    state.put("\n        return *this;\n    }\n    ");
}

fn emit_copy_lc_d(td: &CppTypeDefinition, state: &mut State)
    requires
        type_wf(td.ty),
    ensures
        final(state).text@ == old(state).text@ + copy_lc_d_text(*td),
        final(state).panic_to_exception == old(state).panic_to_exception,
{
    state.put(td.ty.path.name());
    state.put("(");
    state.put(td.ty.path.name());
    state.put("&& other) {\n        ");
    state.put_alloc_heap(&td.layout);
    state.put("\n        ");
    state.put_copy_data(&td.layout);
    state.put("\n    }\n    ");
}

fn emit_copy_lc_e(td: &CppTypeDefinition, state: &mut State)
    requires
        type_wf(td.ty),
    ensures
        final(state).text@ == old(state).text@ + copy_lc_e_text(*td),
        final(state).panic_to_exception == old(state).panic_to_exception,
{
    state.put(td.ty.path.name());
    state.put("& operator=(");
    state.put(td.ty.path.name());
    state.put("&& other) {\n        ");
    state.put_copy_data(&td.layout);
    state.put("\n        return *this;\n    }\n    ");
    state.put("\n");
}

#[verifier::rlimit(100)]
fn emit_copy_lifecycle(td: &CppTypeDefinition, state: &mut State)
    requires
        type_wf(td.ty),
    ensures
        final(state).text@ == old(state).text@ + copy_lifecycle_text(*td),
        final(state).panic_to_exception == old(state).panic_to_exception,
{
    emit_copy_lc_a(td, state);
    emit_copy_lc_b(td, state);
    emit_copy_lc_c(td, state);
    emit_copy_lc_d(td, state);
    emit_copy_lc_e(td, state);
}

#[verifier::rlimit(100)]
fn emit_noncopy_lifecycle(td: &CppTypeDefinition, state: &mut State)
    requires
        type_wf(td.ty),
        has_drop(*td),
    ensures
        final(state).text@ == old(state).text@ + noncopy_lifecycle_text(*td),
        final(state).panic_to_exception == old(state).panic_to_exception,
{
    let drop_fn = match td.drop_in_place_fn() {
        Some(s) => s,
        None => {
            proof {
                assert(false);
            }
            return ;
        },
    };
    state.put("\n    ");
    state.put(td.ty.path.name());
    state.put("() : drop_flag(false) { ");
    state.put_alloc_heap(&td.layout);
    state.put(" }\n    ~");
    state.put(td.ty.path.name());
    state.put("() {\n        ");
    state.put("if (drop_flag) {");
    state.put("\n            ");
    state.put(drop_fn.as_str());
    state.put("(&data[0]);\n        }\n        ");
    state.put_free_heap(&td.layout);
    state.put("\n    }\n    ");
    emit_noncopy_lifecycle_mid(td, state);
    emit_noncopy_lifecycle_tail(td, drop_fn.as_str(), state);
}

#[verifier::rlimit(100)]
fn emit_noncopy_lifecycle_mid(td: &CppTypeDefinition, state: &mut State)
    requires
        type_wf(td.ty),
    ensures
        final(state).text@ == old(state).text@ + noncopy_lc_b_text(*td) + noncopy_lc_c_text(*td),
        final(state).panic_to_exception == old(state).panic_to_exception,
{
    state.put(td.ty.path.name());
    state.put("(const ");
    state.put(td.ty.path.name());
    state.put("& other) = delete;\n    ");
    state.put(td.ty.path.name());
    state.put("& operator=(const ");
    state.put(td.ty.path.name());
    state.put("& other) = delete;\n    ");
    state.put(td.ty.path.name());
    state.put("(");
    state.put(td.ty.path.name());
    state.put("&& other) : drop_flag(false) {\n        ");
    state.put_alloc_heap(&td.layout);
    state.put("\n        *this = ::std::move(other);\n    }\n    ");
}

#[verifier::rlimit(100)]
fn emit_noncopy_lifecycle_tail(td: &CppTypeDefinition, drop_fn: &str, state: &mut State)
    requires
        type_wf(td.ty),
        drop_fn@ == drop_fn_text(*td),
    ensures
        final(state).text@ == old(state).text@ + noncopy_lc_d_text(*td),
        final(state).panic_to_exception == old(state).panic_to_exception,
{
    state.put(td.ty.path.name());
    state.put("& operator=(");
    state.put(td.ty.path.name());
    state.put("&& other) {\n        if (this != &other)\n        {\n            ");
    state.put("if (drop_flag) {");
    state.put("\n                ");
    state.put(drop_fn);
    state.put("(&data[0]);\n            }\n            ");
    state.put("this->drop_flag = other.drop_flag;");
    state.put("\n            ");
    state.put_copy_data(&td.layout);
    state.put("\n            ");
    state.put("other.drop_flag = false;");
    state.put("\n        }\n        return *this;\n    }\n    ");
    state.put("\n");
}

fn emit_make_box_decl(
    td: &CppTypeDefinition,
    traits: &Vec<CppTraitDefinition>,
    state: &mut State,
)
    requires
        type_wf(td.ty),
        match td.from_trait {
            Some(i) => i < traits@.len() && crate::trait_def::trait_wf(traits@[i as int]),
            None => true,
        },
    ensures
        final(state).text@ == old(state).text@ + make_box_decl_text(*td, traits@),
        final(state).panic_to_exception == old(state).panic_to_exception,
{
    match &td.from_trait {
        None => {
            proof {
                assert(old(state).text@ + Seq::<char>::empty() =~= old(state).text@);
            }
        },
        Some(i) => {
            match &traits[*i] {
                CppTraitDefinition::Fn { sig } => {
                    state.put("\n    static inline ");
                    state.put(td.ty.path.name());
                    state.put(" make_box(");
                    state.put_std_function(sig);
                    state.put(" f);\n    ");
                    state.put("\n");
                },
                CppTraitDefinition::Normal { .. } => {
                    state.put(
                        "\n                        template<typename T, typename... Args>\n                        static ",
                    );
                    state.put(td.ty.path.name());
                    state.put(" make_box(Args&&... args);\n                        ");
                    state.put("\n");
                },
            }
        },
    }
}

fn emit_owned_cpp_value(td: &CppTypeDefinition, state: &mut State)
    ensures
        final(state).text@ == old(state).text@ + owned_cpp_value_text(*td),
        final(state).panic_to_exception == old(state).panic_to_exception,
{
    match &td.cpp_value {
        Some(v) => {
            state.put("\n                    inline ");
            state.put(v.1.as_str());
            state.put("& cpp() {\n                        return (*");
            state.put(v.0.as_str());
            state.put("(&data[0])).as_cpp< ");
            state.put(v.1.as_str());
            state.put(" >();\n                    }");
            state.put("\n");
        },
        None => {
            proof {
                assert(old(state).text@ + Seq::<char>::empty() =~= old(state).text@);
            }
        },
    }
}

#[verifier::rlimit(100)]
fn emit_member_method_decl(m: &CppMethod, state: &mut State)
    requires
        sig_wf(m.sig),
        m.sig.inputs@.len() >= 1,
    ensures
        final(state).text@ == old(state).text@ + member_method_decl_text(*m),
        final(state).panic_to_exception == old(state).panic_to_exception,
{
    m.sig.output.emit_text(state);
    state.put(" ");
    state.put(m.name.as_str());
    state.put("(");
    let rest: usize = if m.sig.inputs.len() <= 1 {
        0
    } else {
        m.sig.inputs.len() - 1
    };
    state.put_dyn_api_def(rest);
    state.put_input_defs(&m.sig.inputs, 1);
    state.put(") ");
    if matches!(m.kind, ZngurMethodReceiver::Ref(Mutability::Not)) {
        state.put("const");
    } else {
        state.put("");
    }
    state.put(" noexcept ;");
    state.put("\n");
}

fn emit_owned_method_decl(m: &CppMethod, state: &mut State)
    requires
        sig_wf(m.sig),
        !(m.kind is Static) ==> m.sig.inputs@.len() >= 1,
    ensures
        final(state).text@ == old(state).text@ + owned_method_decl_text(*m),
        final(state).panic_to_exception == old(state).panic_to_exception,
{
    state.put("static ");
    m.sig.emit_cpp_header(state, m.name.as_str());
    if !matches!(m.kind, ZngurMethodReceiver::Static) {
        emit_member_method_decl(m, state);
    } else {
        proof {
            assert(state.text@ + Seq::<char>::empty() =~= state.text@);
        }
    }
}

fn emit_owned_method_decls(td: &CppTypeDefinition, state: &mut State)
    requires
        forall|i: int|
            0 <= i < td.methods@.len() ==> sig_wf(#[trigger] td.methods@[i].sig) && (!(
            td.methods@[i].kind is Static) ==> td.methods@[i].sig.inputs@.len() >= 1),
    ensures
        final(state).text@ == old(state).text@ + owned_method_decls_join(
            td.methods@,
            td.methods@.len() as int,
        ),
        final(state).panic_to_exception == old(state).panic_to_exception,
{
    let nm: usize = td.methods.len();
    let mut j: usize = 0;
    proof {
        assert(old(state).text@ + Seq::<char>::empty() =~= old(state).text@);
    }
    while j < nm
        invariant
            0 <= j <= nm,
            nm == td.methods@.len(),
            forall|k: int|
                0 <= k < td.methods@.len() ==> sig_wf(#[trigger] td.methods@[k].sig) && (!(
                td.methods@[k].kind is Static) ==> td.methods@[k].sig.inputs@.len() >= 1),
            state.text@ == old(state).text@ + owned_method_decls_join(td.methods@, j as int),
            state.panic_to_exception == old(state).panic_to_exception,
        decreases nm - j,
    {
        emit_owned_method_decl(&td.methods[j], state);
        j = j + 1;
    }
}

fn emit_ctor_decls(td: &CppTypeDefinition, state: &mut State)
    requires
        type_wf(td.ty),
        forall|i: int| 0 <= i < td.constructors@.len() ==> sig_wf(#[trigger] td.constructors@[i]),
    ensures
        final(state).text@ == old(state).text@ + ctor_decls_join(
            td.constructors@,
            td.ty.path.0@.last()@,
            td.constructors@.len() as int,
        ),
        final(state).panic_to_exception == old(state).panic_to_exception,
{
    let nc: usize = td.constructors.len();
    let mut j: usize = 0;
    proof {
        assert(old(state).text@ + Seq::<char>::empty() =~= old(state).text@);
    }
    while j < nc
        invariant
            0 <= j <= nc,
            nc == td.constructors@.len(),
            type_wf(td.ty),
            forall|k: int|
                0 <= k < td.constructors@.len() ==> sig_wf(#[trigger] td.constructors@[k]),
            state.text@ == old(state).text@ + ctor_decls_join(
                td.constructors@,
                td.ty.path.0@.last()@,
                j as int,
            ),
            state.panic_to_exception == old(state).panic_to_exception,
        decreases nc - j,
    {
        state.put(td.ty.path.name());
        state.put("(");
        state.put_input_defs(&td.constructors[j].inputs, 0);
        state.put(") noexcept ;");
        state.put("\n");
        j = j + 1;
    }
}

#[verifier::rlimit(100)]
fn emit_owned_field_member(f: &ZngurField, state: &mut State)
    requires
        type_wf(f.ty),
    ensures
        final(state).text@ == old(state).text@ + owned_field_member_text(*f),
        final(state).panic_to_exception == old(state).panic_to_exception,
{
    state.put("[[no_unique_address]] ::rust::FieldOwned<");
    f.ty.emit_text(state);
    state.put(", ");
    state.put_usize(f.offset);
    state.put("> ");
    let fname = cpp_handle_field_name(f.name.as_str());
    state.put(fname.as_str());
    state.put(";\n");
}

fn emit_owned_field_members(td: &CppTypeDefinition, state: &mut State)
    requires
        forall|i: int| 0 <= i < td.fields@.len() ==> type_wf(#[trigger] td.fields@[i].ty),
    ensures
        final(state).text@ == old(state).text@ + owned_field_members_join(
            td.fields@,
            td.fields@.len() as int,
        ),
        final(state).panic_to_exception == old(state).panic_to_exception,
{
    let nf: usize = td.fields.len();
    let mut j: usize = 0;
    proof {
        assert(old(state).text@ + Seq::<char>::empty() =~= old(state).text@);
    }
    while j < nf
        invariant
            0 <= j <= nf,
            nf == td.fields@.len(),
            forall|k: int| 0 <= k < td.fields@.len() ==> type_wf(#[trigger] td.fields@[k].ty),
            state.text@ == old(state).text@ + owned_field_members_join(td.fields@, j as int),
            state.panic_to_exception == old(state).panic_to_exception,
        decreases nf - j,
    {
        emit_owned_field_member(&td.fields[j], state);
        j = j + 1;
    }
}

#[verifier::rlimit(100)]
fn emit_size_of_spec(td: &CppTypeDefinition, state: &mut State)
    requires
        type_wf(td.ty),
    ensures
        final(state).text@ == old(state).text@ + size_of_spec_text(*td),
        final(state).panic_to_exception == old(state).panic_to_exception,
{
    match &td.layout {
        CppLayoutPolicy::StackAllocated { size, align: _ } => {
            state.put(
                "\nnamespace rust {\n    template<>\n    inline size_t __zngur_internal_size_of< ",
            );
            td.ty.emit_text(state);
            state.put(" >() noexcept {\n        return ");
            state.put_usize(*size);
            state.put(";\n    }\n        ");
            state.put("\n");
        },
        CppLayoutPolicy::HeapAllocated { size_fn, .. } => {
            state.put(
                "\nnamespace rust {\n    template<>\n    inline size_t __zngur_internal_size_of< ",
            );
            td.ty.emit_text(state);
            state.put(" >() noexcept {\n        return ");
            state.put(size_fn.as_str());
            state.put("();\n    }\n        ");
            state.put("\n");
        },
        CppLayoutPolicy::OnlyByRef => {
            proof {
                assert(old(state).text@ + Seq::<char>::empty() =~= old(state).text@);
            }
        },
    }
}

#[verifier::rlimit(100)]
fn emit_init_ops_copy_a(td: &CppTypeDefinition, state: &mut State)
    requires
        type_wf(td.ty),
    ensures
        final(state).text@ == old(state).text@ + init_ops_copy_a_text(*td),
        final(state).panic_to_exception == old(state).panic_to_exception,
{
    state.put("\n        template<>\n        inline void __zngur_internal_check_init< ");
    td.ty.emit_text(state);
    state.put(" >(const ");
    td.ty.emit_text(state);
    state.put(
        "&) noexcept {\n        }\n\n        template<>\n        inline void __zngur_internal_assume_init< ",
    );
    td.ty.emit_text(state);
    state.put(" >(");
    td.ty.emit_text(state);
    state.put("&) noexcept {\n        }\n");
}

fn emit_init_ops_copy_b(td: &CppTypeDefinition, state: &mut State)
    requires
        type_wf(td.ty),
    ensures
        final(state).text@ == old(state).text@ + init_ops_copy_b_text(*td),
        final(state).panic_to_exception == old(state).panic_to_exception,
{
    state.put("    \n        template<>\n        inline void __zngur_internal_assume_deinit< ");
    td.ty.emit_text(state);
    state.put(" >(");
    td.ty.emit_text(state);
    state.put("&) noexcept {\n        }\n");
    state.put("\n");
}

fn emit_init_ops_copy(td: &CppTypeDefinition, state: &mut State)
    requires
        type_wf(td.ty),
    ensures
        final(state).text@ == old(state).text@ + init_ops_copy_text(*td),
        final(state).panic_to_exception == old(state).panic_to_exception,
{
    emit_init_ops_copy_a(td, state);
    emit_init_ops_copy_b(td, state);
}

#[verifier::rlimit(100)]
fn emit_init_ops_noncopy_a(td: &CppTypeDefinition, state: &mut State)
    requires
        type_wf(td.ty),
    ensures
        final(state).text@ == old(state).text@ + init_ops_noncopy_a_text(*td),
        final(state).panic_to_exception == old(state).panic_to_exception,
{
    state.put("\n        template<>\n        inline void __zngur_internal_check_init< ");
    td.ty.emit_text(state);
    state.put(" >(const ");
    td.ty.emit_text(state);
    state.put(
        "& t) noexcept {\n            if (!t.drop_flag) {\n                ::std::cerr << \"Use of uninitialized or moved Zngur Rust object with type ",
    );
    td.ty.emit_text(state);
    state.put(
        "\" << ::std::endl;\n                while (true) raise(SIGSEGV);\n            }\n        }\n",
    );
}

fn emit_init_ops_noncopy(td: &CppTypeDefinition, state: &mut State)
    requires
        type_wf(td.ty),
    ensures
        final(state).text@ == old(state).text@ + init_ops_noncopy_text(*td),
        final(state).panic_to_exception == old(state).panic_to_exception,
{
    emit_init_ops_noncopy_a(td, state);
    emit_init_ops_noncopy_b(td, state);
}

#[verifier::rlimit(100)]
fn emit_init_ops_noncopy_b(td: &CppTypeDefinition, state: &mut State)
    requires
        type_wf(td.ty),
    ensures
        final(state).text@ == old(state).text@ + init_ops_noncopy_b_text(*td),
        final(state).panic_to_exception == old(state).panic_to_exception,
{
    state.put("\n        template<>\n        inline void __zngur_internal_assume_init< ");
    td.ty.emit_text(state);
    state.put(" >(");
    td.ty.emit_text(state);
    state.put(
        "& t) noexcept {\n            t.drop_flag = true;\n        }\n    \n        template<>\n        inline void __zngur_internal_assume_deinit< ",
    );
    td.ty.emit_text(state);
    state.put(" >(");
    td.ty.emit_text(state);
    state.put("& t) noexcept {\n            ::rust::__zngur_internal_check_init< ");
    td.ty.emit_text(state);
    state.put(" >(t);\n            t.drop_flag = false;\n        }\n");
    state.put("\n");
}

fn emit_data_ptr_tail(td: &CppTypeDefinition, state: &mut State)
    requires
        type_wf(td.ty),
    ensures
        final(state).text@ == old(state).text@ + data_ptr_tail_text(*td),
        final(state).panic_to_exception == old(state).panic_to_exception,
{
    state.put("\n    template<>\n    inline uint8_t* __zngur_internal_data_ptr< ");
    td.ty.emit_text(state);
    state.put(" >(");
    td.ty.emit_text(state);
    state.put(" const & t) noexcept {\n        return const_cast<uint8_t*>(&t.data[0]);\n    }\n}\n");
    state.put("\n");
}

fn emit_owned_tail(td: &CppTypeDefinition, state: &mut State)
    requires
        type_wf(td.ty),
    ensures
        final(state).text@ == old(state).text@ + owned_tail_text(*td),
        final(state).panic_to_exception == old(state).panic_to_exception,
{
    if !matches!(td.layout, CppLayoutPolicy::OnlyByRef) {
        emit_size_of_spec(td, state);
        if td.is_copy_exec() {
            emit_init_ops_copy(td, state);
        } else {
            emit_init_ops_noncopy(td, state);
        }
        emit_data_ptr_tail(td, state);
    } else {
        proof {
            assert(old(state).text@ + Seq::<char>::empty() =~= old(state).text@);
        }
    }
}

impl CppTypeDefinition {
    #[verifier::rlimit(100)]
    fn emit_lifecycle_section(&self, traits: &Vec<CppTraitDefinition>, state: &mut State)
        requires
            td_wf(*self, traits@),
            bool_layout_ok(*self),
            !is_copy(*self) ==> has_drop(*self),
        ensures
            final(state).text@ == old(state).text@ + owned_lifecycle_section_text(*self, traits@),
            final(state).panic_to_exception == old(state).panic_to_exception,
    {
        proof {
            reveal(owned_lifecycle_section_text);
        }
        self.emit_lc_section_a(state);
        self.emit_lc_section_b(traits, state);
    }

    #[verifier::rlimit(100)]
    fn emit_lc_section_a(&self, state: &mut State)
        requires
            type_wf(self.ty),
        ensures
            final(state).text@ == old(state).text@ + lc_section_a_text(*self),
            final(state).panic_to_exception == old(state).panic_to_exception,
    {
        emit_owned_storage(self, state);
        emit_owned_friends(self, state);
        if self.is_bool_exec() {
            state.put(
                "\npublic:\n    operator bool() {\n        return data[0];\n    }\n    Bool(bool b) {\n        data[0] = b;\n    }\nprivate:\n    ",
            );
            state.put("\n");
        } else {
            proof {
                assert(state.text@ + Seq::<char>::empty() =~= state.text@);
            }
        }
    }

    #[verifier::rlimit(100)]
    fn emit_lc_section_b(&self, traits: &Vec<CppTraitDefinition>, state: &mut State)
        requires
            td_wf(*self, traits@),
            !is_copy(*self) ==> has_drop(*self),
        ensures
            final(state).text@ == old(state).text@ + lc_section_b_text(*self, traits@),
            final(state).panic_to_exception == old(state).panic_to_exception,
    {
        let copy = self.is_copy_exec();
        if !copy {
            state.put("   bool drop_flag;");
            state.put("\n");
        } else {
            proof {
                assert(state.text@ + Seq::<char>::empty() =~= state.text@);
            }
        }
        state.put("public:");
        state.put("\n");
        if copy {
            emit_copy_lifecycle(self, state);
        } else {
            emit_noncopy_lifecycle(self, state);
        }
        emit_make_box_decl(self, traits, state);
    }

    #[verifier::rlimit(100)]
    fn emit_owned_body(&self, traits: &Vec<CppTraitDefinition>, state: &mut State)
        requires
            td_wf(*self, traits@),
            bool_layout_ok(*self),
            !is_unit(*self) && !only_by_ref(*self) && !is_copy(*self) ==> has_drop(*self),
        ensures
            final(state).text@ == old(state).text@ + owned_body_text(*self, traits@),
            final(state).panic_to_exception == old(state).panic_to_exception,
    {
        proof {
            reveal(owned_body_text);
        }
        if self.is_unit_exec() {
            state.put("template<> struct Tuple<> { ::std::array< ::uint8_t, 1> data; };");
        } else {
            self.ty.emit_specialization_decl(state);
            if matches!(self.layout, CppLayoutPolicy::OnlyByRef) {
                emit_owned_storage(self, state);
            } else {
                self.emit_lifecycle_section(traits, state);
            }
            emit_owned_cpp_value(self, state);
            emit_owned_method_decls(self, state);
            emit_ctor_decls(self, state);
            emit_owned_field_members(self, state);
            state.put("};");
            state.put("\n");
        }
    }

    /// The whole emission of this type: customization-point declarations,
    /// the owning struct (placeholder for the unit type, deleted construction
    /// for reference-only types, a byte-identical lifecycle for `Copy` types
    /// and a flagged move-only lifecycle otherwise), the customization
    /// block, and the reference and field-projection views.
    #[verifier::rlimit(100)]
    pub fn emit(&self, traits: &Vec<CppTraitDefinition>, state: &mut State)
        requires
            td_wf(*self, traits@),
            bool_layout_ok(*self),
            !is_unit(*self) && !only_by_ref(*self) && !is_copy(*self) ==> has_drop(*self),
        ensures
            final(state).text@ == old(state).text@ + type_def_text(*self, traits@),
            final(state).panic_to_exception == old(state).panic_to_exception,
    {
        proof {
            reveal(type_def_text);
        }
        self.emit_head(traits, state);
        self.emit_tail(traits, state);
    }

    #[verifier::rlimit(100)]
    fn emit_head(&self, traits: &Vec<CppTraitDefinition>, state: &mut State)
        requires
            td_wf(*self, traits@),
            bool_layout_ok(*self),
            !is_unit(*self) && !only_by_ref(*self) && !is_copy(*self) ==> has_drop(*self),
        ensures
            final(state).text@ == old(state).text@ + type_def_head_text(*self, traits@),
            final(state).panic_to_exception == old(state).panic_to_exception,
    {
        emit_owned_fwd_decls(self, state);
        self.ty.path.emit_namespace_open(state);
        self.emit_owned_body(traits, state);
        self.ty.path.emit_namespace_close(state);
    }

    #[verifier::rlimit(100)]
    fn emit_tail(&self, traits: &Vec<CppTraitDefinition>, state: &mut State)
        requires
            td_wf(*self, traits@),
        ensures
            final(state).text@ == old(state).text@ + type_def_tail_text(*self, traits@),
            final(state).panic_to_exception == old(state).panic_to_exception,
    {
        emit_owned_tail(self, state);
        self.emit_ref_specialization(traits, state);
        self.emit_field_specialization(state);
    }
}

/// The move-only lifecycle text writes the single-owner transfer out: the
/// destructor and the move-assignment run the drop function only under the
/// `drop_flag` guard, the move-assignment copies the source's flag into the
/// destination, and it then clears the source's flag — so a moved-from value
/// observably reports uninitialised and destructing it never drops.
pub proof fn lemma_move_only_lifecycle_protocol(td: CppTypeDefinition)
    ensures
        has_sub(noncopy_lc_a_text(td), "if (drop_flag) {"@),
        has_sub(noncopy_lc_d_text(td), "this->drop_flag = other.drop_flag;"@),
        has_sub(noncopy_lc_d_text(td), "other.drop_flag = false;"@),
        has_sub(noncopy_lifecycle_text(td), "if (drop_flag) {"@),
        has_sub(noncopy_lifecycle_text(td), "this->drop_flag = other.drop_flag;"@),
        has_sub(noncopy_lifecycle_text(td), "other.drop_flag = false;"@),
{
    let last = td.ty.path.0@.last()@;
    let guard = "if (drop_flag) {"@;
    let take = "this->drop_flag = other.drop_flag;"@;
    let clear = "other.drop_flag = false;"@;
    let pa = "\n    "@ + last + "() : drop_flag(false) { "@ + alloc_heap_text(td.layout)
        + " }\n    ~"@ + last + "() {\n        "@;
    lemma_has_sub_self(guard);
    lemma_has_sub_right(pa, guard, guard);
    lemma_has_sub_left(pa + guard, "\n            "@, guard);
    lemma_has_sub_left(pa + guard + "\n            "@, drop_fn_text(td), guard);
    lemma_has_sub_left(
        pa + guard + "\n            "@ + drop_fn_text(td),
        "(&data[0]);\n        }\n        "@,
        guard,
    );
    lemma_has_sub_left(
        pa + guard + "\n            "@ + drop_fn_text(td) + "(&data[0]);\n        }\n        "@,
        free_heap_text(td.layout),
        guard,
    );
    lemma_has_sub_left(
        pa + guard + "\n            "@ + drop_fn_text(td) + "(&data[0]);\n        }\n        "@
            + free_heap_text(td.layout),
        "\n    }\n    "@,
        guard,
    );
    assert(has_sub(noncopy_lc_a_text(td), guard));
    let pd = last + "& operator=("@ + last
        + "&& other) {\n        if (this != &other)\n        {\n            "@ + guard
        + "\n                "@ + drop_fn_text(td) + "(&data[0]);\n            }\n            "@;
    lemma_has_sub_self(take);
    lemma_has_sub_right(pd, take, take);
    lemma_has_sub_left(pd + take, "\n            "@, take);
    lemma_has_sub_left(pd + take + "\n            "@, copy_data_text(td.layout), take);
    lemma_has_sub_left(
        pd + take + "\n            "@ + copy_data_text(td.layout),
        "\n            "@,
        take,
    );
    lemma_has_sub_left(
        pd + take + "\n            "@ + copy_data_text(td.layout) + "\n            "@,
        clear,
        take,
    );
    let pd2 = pd + take + "\n            "@ + copy_data_text(td.layout) + "\n            "@
        + clear;
    lemma_has_sub_left(pd2, "\n        }\n        return *this;\n    }\n    "@, take);
    lemma_has_sub_left(
        pd2 + "\n        }\n        return *this;\n    }\n    "@,
        "\n"@,
        take,
    );
    assert(has_sub(noncopy_lc_d_text(td), take));
    lemma_has_sub_self(clear);
    lemma_has_sub_right(
        pd + take + "\n            "@ + copy_data_text(td.layout) + "\n            "@,
        clear,
        clear,
    );
    lemma_has_sub_left(pd2, "\n        }\n        return *this;\n    }\n    "@, clear);
    lemma_has_sub_left(
        pd2 + "\n        }\n        return *this;\n    }\n    "@,
        "\n"@,
        clear,
    );
    assert(has_sub(noncopy_lc_d_text(td), clear));
    lemma_has_sub_left(noncopy_lc_a_text(td), noncopy_lc_b_text(td), guard);
    lemma_has_sub_left(noncopy_lc_a_text(td) + noncopy_lc_b_text(td), noncopy_lc_c_text(td), guard);
    lemma_has_sub_left(
        noncopy_lc_a_text(td) + noncopy_lc_b_text(td) + noncopy_lc_c_text(td),
        noncopy_lc_d_text(td),
        guard,
    );
    lemma_has_sub_right(
        noncopy_lc_a_text(td) + noncopy_lc_b_text(td) + noncopy_lc_c_text(td),
        noncopy_lc_d_text(td),
        take,
    );
    lemma_has_sub_right(
        noncopy_lc_a_text(td) + noncopy_lc_b_text(td) + noncopy_lc_c_text(td),
        noncopy_lc_d_text(td),
        clear,
    );
}

/// For a `Copy` type, copy-construction and move-construction carry the one
/// shared byte-copy statement of the layout: duplication by moving is the
/// identical byte copy, and no flag exists in this lifecycle to consult.
pub proof fn lemma_copy_duplication_is_uniform(td: CppTypeDefinition)
    ensures
        has_sub(copy_lc_b_text(td), copy_data_text(td.layout)),
        has_sub(copy_lc_d_text(td), copy_data_text(td.layout)),
        has_sub(copy_lifecycle_text(td), copy_data_text(td.layout)),
{
    let last = td.ty.path.0@.last()@;
    let cp = copy_data_text(td.layout);
    lemma_has_sub_self(cp);
    let pb = last + "(const "@ + last + "& other) {\n        "@ + alloc_heap_text(td.layout)
        + "\n        "@;
    lemma_has_sub_right(pb, cp, cp);
    lemma_has_sub_left(pb + cp, "\n    }\n    "@, cp);
    assert(has_sub(copy_lc_b_text(td), cp));
    let pd = last + "("@ + last + "&& other) {\n        "@ + alloc_heap_text(td.layout)
        + "\n        "@;
    lemma_has_sub_right(pd, cp, cp);
    lemma_has_sub_left(pd + cp, "\n    }\n    "@, cp);
    assert(has_sub(copy_lc_d_text(td), cp));
    lemma_has_sub_right(copy_lc_a_text(td), copy_lc_b_text(td), cp);
    lemma_has_sub_left(copy_lc_a_text(td) + copy_lc_b_text(td), copy_lc_c_text(td), cp);
    lemma_has_sub_left(
        copy_lc_a_text(td) + copy_lc_b_text(td) + copy_lc_c_text(td),
        copy_lc_d_text(td),
        cp,
    );
    lemma_has_sub_left(
        copy_lc_a_text(td) + copy_lc_b_text(td) + copy_lc_c_text(td) + copy_lc_d_text(td),
        copy_lc_e_text(td),
        cp,
    );
}

/// The emitted storage and size query follow the declared layout exactly:
/// a stack layout's storage line embeds the declared alignment and size, and
/// its size query embeds the declared size as a constant; a heap layout's
/// size query embeds a call to the declared size function instead; a
/// reference-only type gets no size query at all.
pub proof fn lemma_size_query_follows_layout(td: CppTypeDefinition)
    ensures
        match td.layout {
            CppLayoutPolicy::StackAllocated { size, align } => has_sub(
                size_of_spec_text(td),
                dec_text(size as nat),
            ) && has_sub(owned_storage_text(td), dec_text(size as nat)) && has_sub(
                owned_storage_text(td),
                dec_text(align as nat),
            ),
            CppLayoutPolicy::HeapAllocated { size_fn, alloc_fn: _, free_fn: _ } => has_sub(
                size_of_spec_text(td),
                size_fn@,
            ),
            CppLayoutPolicy::OnlyByRef => size_of_spec_text(td) == Seq::<char>::empty(),
        },
{
    match td.layout {
        CppLayoutPolicy::StackAllocated { size, align } => {
            let d = dec_text(size as nat);
            let q = "\nnamespace rust {\n    template<>\n    inline size_t __zngur_internal_size_of< "@
                + type_text(td.ty) + " >() noexcept {\n        return "@;
            lemma_has_sub_self(d);
            lemma_has_sub_right(q, d, d);
            lemma_has_sub_left(q + d, ";\n    }\n        "@, d);
            lemma_has_sub_left(q + d + ";\n    }\n        "@, "\n"@, d);
            let a = dec_text(align as nat);
            let s1 = "\n{\nprivate:\n    alignas("@;
            lemma_has_sub_self(a);
            lemma_has_sub_right(s1, a, a);
            lemma_has_sub_left(s1 + a, ") mutable ::std::array<uint8_t, "@, a);
            lemma_has_sub_left(s1 + a + ") mutable ::std::array<uint8_t, "@, d, a);
            lemma_has_sub_left(
                s1 + a + ") mutable ::std::array<uint8_t, "@ + d,
                "> data;\n            "@,
                a,
            );
            lemma_has_sub_left(
                s1 + a + ") mutable ::std::array<uint8_t, "@ + d + "> data;\n            "@,
                "\n"@,
                a,
            );
            lemma_has_sub_right(s1 + a + ") mutable ::std::array<uint8_t, "@, d, d);
            lemma_has_sub_left(
                s1 + a + ") mutable ::std::array<uint8_t, "@ + d,
                "> data;\n            "@,
                d,
            );
            lemma_has_sub_left(
                s1 + a + ") mutable ::std::array<uint8_t, "@ + d + "> data;\n            "@,
                "\n"@,
                d,
            );
        },
        CppLayoutPolicy::HeapAllocated { size_fn, alloc_fn: _, free_fn: _ } => {
            let q = "\nnamespace rust {\n    template<>\n    inline size_t __zngur_internal_size_of< "@
                + type_text(td.ty) + " >() noexcept {\n        return "@;
            lemma_has_sub_self(size_fn@);
            lemma_has_sub_right(q, size_fn@, size_fn@);
            lemma_has_sub_left(q + size_fn@, "();\n    }\n        "@, size_fn@);
            lemma_has_sub_left(q + size_fn@ + "();\n    }\n        "@, "\n"@, size_fn@);
        },
        CppLayoutPolicy::OnlyByRef => {
        },
    }
}

/// For every owning type but the unit placeholder (which gets a fixed
/// one-byte struct with no lifecycle machinery), the whole emission carries
/// the declared storage line, the lifecycle block matching the `Copy`
/// marker, and the byte-size query — and through them the declared layout:
/// a stack layout's size and alignment stand in the text as declared, a heap
/// layout's size query names the declared size function.
#[verifier::rlimit(100)]
pub proof fn lemma_emission_follows_layout(td: CppTypeDefinition, traits: Seq<CppTraitDefinition>)
    requires
        !is_unit(td),
        !only_by_ref(td),
    ensures
        has_sub(type_def_text(td, traits), owned_storage_text(td)),
        is_copy(td) ==> has_sub(type_def_text(td, traits), copy_lifecycle_text(td)),
        !is_copy(td) ==> has_sub(type_def_text(td, traits), noncopy_lifecycle_text(td)),
        has_sub(type_def_text(td, traits), size_of_spec_text(td)),
        match td.layout {
            CppLayoutPolicy::StackAllocated { size, align } => has_sub(
                type_def_text(td, traits),
                dec_text(size as nat),
            ) && has_sub(type_def_text(td, traits), dec_text(align as nat)),
            CppLayoutPolicy::HeapAllocated { size_fn, alloc_fn: _, free_fn: _ } => has_sub(
                type_def_text(td, traits),
                size_fn@,
            ),
            CppLayoutPolicy::OnlyByRef => true,
        },
{
    reveal(type_def_text);
    reveal(owned_body_text);
    reveal(owned_lifecycle_section_text);
    let st = owned_storage_text(td);
    let lc = if is_copy(td) {
        copy_lifecycle_text(td)
    } else {
        noncopy_lifecycle_text(td)
    };
    lemma_has_sub_self(st);
    lemma_has_sub_left(st, owned_friends_a_text(td), st);
    lemma_has_sub_left(st + owned_friends_a_text(td), owned_friends_b_text(td), st);
    lemma_has_sub_left(
        st + owned_friends_a_text(td) + owned_friends_b_text(td),
        if is_bool(td) {
            bool_ops_text()
        } else {
            Seq::<char>::empty()
        },
        st,
    );
    assert(has_sub(lc_section_a_text(td), st));
    lemma_has_sub_left(lc_section_a_text(td), lc_section_b_text(td, traits), st);
    assert(has_sub(owned_lifecycle_section_text(td, traits), st));
    let flagpart = if !is_copy(td) {
        "   bool drop_flag;"@ + "\n"@
    } else {
        Seq::<char>::empty()
    };
    lemma_has_sub_self(lc);
    lemma_has_sub_right(flagpart + "public:"@ + "\n"@, lc, lc);
    lemma_has_sub_left(flagpart + "public:"@ + "\n"@ + lc, make_box_decl_text(td, traits), lc);
    assert(has_sub(lc_section_b_text(td, traits), lc));
    lemma_has_sub_right(lc_section_a_text(td), lc_section_b_text(td, traits), lc);
    assert(has_sub(owned_lifecycle_section_text(td, traits), lc));
    let sect = owned_lifecycle_section_text(td, traits);
    lemma_has_sub_right(specialization_decl_text(td.ty), sect, st);
    lemma_has_sub_right(specialization_decl_text(td.ty), sect, lc);
    let p1 = specialization_decl_text(td.ty) + sect;
    lemma_body_lift(td, traits, p1, st);
    lemma_body_lift(td, traits, p1, lc);
    assert(has_sub(owned_body_text(td, traits), st));
    assert(has_sub(owned_body_text(td, traits), lc));
    lemma_head_lift(td, traits, st);
    lemma_head_lift(td, traits, lc);
    lemma_has_sub_left(type_def_head_text(td, traits), type_def_tail_text(td, traits), st);
    lemma_has_sub_left(type_def_head_text(td, traits), type_def_tail_text(td, traits), lc);
    let q = size_of_spec_text(td);
    lemma_has_sub_self(q);
    lemma_has_sub_left(
        q,
        if is_copy(td) {
            init_ops_copy_text(td)
        } else {
            init_ops_noncopy_text(td)
        },
        q,
    );
    lemma_has_sub_left(
        q + (if is_copy(td) {
            init_ops_copy_text(td)
        } else {
            init_ops_noncopy_text(td)
        }),
        data_ptr_tail_text(td),
        q,
    );
    assert(has_sub(owned_tail_text(td), q));
    lemma_has_sub_left(owned_tail_text(td), ref_specialization_text(td, traits), q);
    lemma_has_sub_left(
        owned_tail_text(td) + ref_specialization_text(td, traits),
        field_specialization_text(td),
        q,
    );
    assert(has_sub(type_def_tail_text(td, traits), q));
    lemma_has_sub_right(type_def_head_text(td, traits), type_def_tail_text(td, traits), q);
    lemma_size_query_follows_layout(td);
    match td.layout {
        CppLayoutPolicy::StackAllocated { size, align } => {
            crate::text::lemma_has_sub_trans(
                type_def_text(td, traits),
                q,
                dec_text(size as nat),
            );
            crate::text::lemma_has_sub_trans(
                type_def_text(td, traits),
                st,
                dec_text(align as nat),
            );
        },
        CppLayoutPolicy::HeapAllocated { size_fn, alloc_fn: _, free_fn: _ } => {
            crate::text::lemma_has_sub_trans(type_def_text(td, traits), q, size_fn@);
        },
        CppLayoutPolicy::OnlyByRef => {
        },
    }
}

/// Lifts a substring of the declaration-and-lifecycle prefix through the
/// rest of the struct body.
proof fn lemma_body_lift(
    td: CppTypeDefinition,
    traits: Seq<CppTraitDefinition>,
    p1: Seq<char>,
    x: Seq<char>,
)
    requires
        has_sub(p1, x),
    ensures
        has_sub(
            p1 + owned_cpp_value_text(td) + owned_method_decls_join(
                td.methods@,
                td.methods@.len() as int,
            ) + ctor_decls_join(
                td.constructors@,
                td.ty.path.0@.last()@,
                td.constructors@.len() as int,
            ) + owned_field_members_join(td.fields@, td.fields@.len() as int) + "};"@ + "\n"@,
            x,
        ),
{
    lemma_has_sub_left(p1, owned_cpp_value_text(td), x);
    let p2 = p1 + owned_cpp_value_text(td);
    lemma_has_sub_left(p2, owned_method_decls_join(td.methods@, td.methods@.len() as int), x);
    let p3 = p2 + owned_method_decls_join(td.methods@, td.methods@.len() as int);
    lemma_has_sub_left(
        p3,
        ctor_decls_join(td.constructors@, td.ty.path.0@.last()@, td.constructors@.len() as int),
        x,
    );
    let p4 = p3 + ctor_decls_join(
        td.constructors@,
        td.ty.path.0@.last()@,
        td.constructors@.len() as int,
    );
    lemma_has_sub_left(p4, owned_field_members_join(td.fields@, td.fields@.len() as int), x);
    let p5 = p4 + owned_field_members_join(td.fields@, td.fields@.len() as int);
    lemma_has_sub_left(p5, "};"@, x);
    lemma_has_sub_left(p5 + "};"@, "\n"@, x);
}

/// Lifts a substring of the struct body into the whole header-side emission
/// of the type.
proof fn lemma_head_lift(td: CppTypeDefinition, traits: Seq<CppTraitDefinition>, x: Seq<char>)
    requires
        has_sub(owned_body_text(td, traits), x),
    ensures
        has_sub(type_def_head_text(td, traits), x),
{
    lemma_has_sub_right(
        owned_fwd_decls_text(td) + ns_open_text(td.ty.path, td.ty.path.0@.len() - 1),
        owned_body_text(td, traits),
        x,
    );
    lemma_has_sub_left(
        owned_fwd_decls_text(td) + ns_open_text(td.ty.path, td.ty.path.0@.len() - 1)
            + owned_body_text(td, traits),
        ns_close_text(td.ty.path.0@.len() - 1),
        x,
    );
}

} // verus!
