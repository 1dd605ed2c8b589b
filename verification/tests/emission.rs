use zngur_cpp::file::CppFile;
use zngur_cpp::path::CppPath;
use zngur_cpp::sig::{CppFnDefinition, CppFnSig, CppMethod, CppTraitMethod, Mutability,
    ZngurField, ZngurMethodReceiver};
use zngur_cpp::text::State;
use zngur_cpp::trait_def::CppTraitDefinition;
use zngur_cpp::ty::CppType;
use zngur_cpp::type_def::{CppLayoutPolicy, CppTypeDefinition, ZngurWellknownTraitData};

fn ty(segs: &[&str]) -> CppType {
    CppType {
        path: CppPath(segs.iter().map(|s| s.to_string()).collect()),
        generic_args: Vec::new(),
    }
}

fn sig(link: &str, inputs: Vec<CppType>, output: CppType) -> CppFnSig {
    CppFnSig {
        rust_link_name: link.to_string(),
        inputs,
        output,
    }
}

fn plain_type(segs: &[&str], layout: CppLayoutPolicy) -> CppTypeDefinition {
    CppTypeDefinition {
        ty: ty(segs),
        layout,
        methods: Vec::new(),
        constructors: Vec::new(),
        fields: Vec::new(),
        from_trait: None,
        from_trait_ref: None,
        wellknown_traits: Vec::new(),
        cpp_value: None,
        cpp_ref: None,
    }
}

#[test]
fn rust_path_prefixes_rust_and_handles_keywords() {
    let p = CppPath::from_rust_path(&["mem".to_string(), "new".to_string()]);
    assert_eq!(p.0, vec!["rust", "mem", "new_"]);
}

#[test]
fn generic_type_headers_declare_arguments_first() {
    let inner = ty(&["rust", "Inner"]);
    let outer = CppType {
        path: CppPath(vec!["rust".to_string(), "Outer".to_string()]),
        generic_args: vec![inner],
    };
    let mut st = State::new(false);
    outer.emit_header(&mut st);
    let inner_at = st.text.find("struct Inner;").unwrap();
    let outer_at = st.text.find("struct Outer;").unwrap();
    assert!(inner_at < outer_at);
    assert!(st.text.contains("template<typename ...T>\nstruct Outer;"));
    let mut decl = State::new(false);
    outer.emit_specialization_decl(&mut decl);
    assert_eq!(decl.text, "template<> struct Outer< ::rust::Inner >");
}

#[test]
fn borrowed_trait_construction_emits_both_view_constructors() {
    let tr = CppTraitDefinition::Normal {
        as_ty: ty(&["rust", "Greeter"]),
        methods: Vec::new(),
        link_name: "__zngur_new_greeter".to_string(),
        link_name_ref: "__zngur_new_greeter_ref".to_string(),
    };
    let traits = vec![tr];
    let mut td = plain_type(&["rust", "GreeterBox"], CppLayoutPolicy::OnlyByRef);
    td.from_trait_ref = Some(0);
    let mut defs = State::new(false);
    td.emit_cpp_fn_defs(&mut defs, &traits);
    assert!(defs.text.contains("rust::Ref< rust::GreeterBox >::Ref(::rust::Greeter& args) {"));
    // the exclusive-view constructor keeps its stray leading space
    assert!(defs.text.contains("rust:: RefMut< rust::GreeterBox >:: RefMut(::rust::Greeter& args) {"));
    assert_eq!(defs.text.matches("__zngur_new_greeter_ref(\n(uint8_t *)data_as_impl,").count(), 2);
}

#[test]
fn exported_impl_blocks_declare_and_define_their_methods() {
    let f = CppFile {
        exported_impls: vec![zngur_cpp::sig::CppExportedImplDefinition {
            tr: None,
            ty: ty(&["rust", "Adder"]),
            methods: vec![(
                "add".to_string(),
                sig("__zngur_adder_add", vec![ty(&["int32_t"])], ty(&["int32_t"])),
            )],
        }],
        ..CppFile::default()
    };
    let (h, cpp) = f.render();
    assert!(h.contains(
        "namespace rust { template<> class Impl< ::rust::Adder, ::rust::Inherent > { public:"
    ));
    assert!(h.contains("   static ::int32_t add(::int32_t i0);"));
    let cpp = cpp.unwrap();
    assert!(cpp.contains("::int32_t oo = ::rust::Impl< ::rust::Adder, ::rust::Inherent >::add("));
}

#[test]
fn rendered_header_keeps_the_section_order() {
    let mut td = plain_type(
        &["rust", "Point"],
        CppLayoutPolicy::StackAllocated { size: 8, align: 4 },
    );
    td.wellknown_traits.push(ZngurWellknownTraitData::Copy);
    let f = CppFile {
        type_defs: vec![td],
        ..CppFile::default()
    };
    let (h, _) = f.render();
    let fwd = h.find("struct Point;").unwrap();
    let full = h.find("struct Point\n{").unwrap_or(h.len());
    let api = h.find("class __zngur_dyn_api {").unwrap();
    assert!(api < fwd);
    assert!(fwd <= full);
    assert!(h.contains("alignas(4) mutable ::std::array<uint8_t, 8> data;"));
}

#[test]
fn rust_link_prototype_is_exact() {
    let s = sig("__zngur_f", vec![ty(&["i32"]), ty(&["i32"])], ty(&["i32"]));
    let mut st = State::new(false);
    s.emit_rust_link(&mut st);
    assert_eq!(st.text, "void __zngur_f(uint8_t* i0,uint8_t* i1,uint8_t* o)");
}

#[test]
fn cpp_wrapper_definition_is_exact() {
    let s = sig("__zngur_g", vec![ty(&["A"])], ty(&["B"]));
    let mut st = State::new(false);
    s.emit_cpp_def(&mut st, "ns::g");
    let expected = "inline ::B ns::g(__zngur_dyn_api* api, ::A i0) noexcept {\n            \
                    ::B o{};\n            \
                    ::rust::__zngur_internal_assume_deinit(i0);\n            \
                    api->__zngur_g(::rust::__zngur_internal_data_ptr(i0), ::rust::__zngur_internal_data_ptr(o));\n            \
                    \n            ::rust::__zngur_internal_assume_init(o);\n            return o;\n        }\n";
    assert_eq!(st.text, expected);
}

#[test]
fn wrapper_checks_panics_only_in_panic_mode() {
    let s = sig("__zngur_g", Vec::new(), ty(&["B"]));
    let mut quiet = State::new(false);
    s.emit_cpp_def(&mut quiet, "g");
    assert!(!quiet.text.contains("__zngur_detect_panic"));
    let mut loud = State::new(true);
    s.emit_cpp_def(&mut loud, "g");
    assert!(loud.text.contains("__zngur_detect_panic"));
    assert!(loud.text.contains("throw ::rust::Panic{};"));
}

#[test]
fn free_function_definition_sits_in_its_namespace() {
    let d = CppFnDefinition {
        name: CppPath(vec!["rust".to_string(), "exported".to_string(), "go".to_string()]),
        sig: sig("__zngur_go", Vec::new(), ty(&["rust", "Unit"])),
    };
    let mut st = State::new(false);
    d.emit_cpp_def(&mut st);
    assert!(st.text.starts_with("namespace rust {\nnamespace exported {\n"));
    assert!(st.text.contains("inline ::rust::Unit go(__zngur_dyn_api* api) noexcept {"));
    assert!(st.text.ends_with("}\n}\n"));
}

#[test]
fn constructor_definition_routes_through_the_dispatch_table() {
    let mut td = plain_type(
        &["rust", "Pair"],
        CppLayoutPolicy::StackAllocated { size: 8, align: 8 },
    );
    td.wellknown_traits.push(ZngurWellknownTraitData::Drop {
        drop_in_place: "__zngur_drop_pair".to_string(),
    });
    td.constructors.push(sig(
        "__zngur_new_pair",
        vec![ty(&["int32_t"]), ty(&["int32_t"])],
        ty(&["rust", "Pair"]),
    ));
    let mut defs = State::new(false);
    td.emit_cpp_fn_defs(&mut defs, &Vec::new());
    let expected = "inline rust::Pair::Pair(__zngur_dyn_api* api, ::int32_t i0, ::int32_t i1) noexcept {\n            \
                    ::rust::__zngur_internal_assume_init(*this);\n            \
                    api->__zngur_new_pair(::rust::__zngur_internal_data_ptr(i0), ::rust::__zngur_internal_data_ptr(i1), ::rust::__zngur_internal_data_ptr(*this));\n            \
                    ::rust::__zngur_internal_assume_deinit(i0);\n::rust::__zngur_internal_assume_deinit(i1);\n        }\n";
    assert!(defs.text.contains(expected));
    // the constructor symbol is still registered for resolution in the table
    assert_eq!(td.get_link_names(), vec!["__zngur_new_pair", "__zngur_drop_pair"]);
}

#[test]
fn stack_layout_storage_carries_declared_size_and_alignment() {
    let mut td = plain_type(
        &["rust", "Wide"],
        CppLayoutPolicy::StackAllocated { size: 24, align: 16 },
    );
    td.wellknown_traits.push(ZngurWellknownTraitData::Drop {
        drop_in_place: "__zngur_drop_wide".to_string(),
    });
    let mut st = State::new(false);
    td.emit(&Vec::new(), &mut st);
    assert!(st.text.contains("alignas(16) mutable ::std::array<uint8_t, 24> data;"));
    assert!(st.text.contains("return 24;"));
    // not marked Copy, so the initialisation flag is declared
    assert!(st.text.contains("bool drop_flag;"));
}

#[test]
fn heap_layout_size_query_delegates_to_the_declared_function() {
    let mut td = plain_type(
        &["rust", "Opaque"],
        CppLayoutPolicy::HeapAllocated {
            size_fn: "__zngur_sz".to_string(),
            alloc_fn: "__zngur_al".to_string(),
            free_fn: "__zngur_fr".to_string(),
        },
    );
    td.wellknown_traits.push(ZngurWellknownTraitData::Drop {
        drop_in_place: "__zngur_drop".to_string(),
    });
    let mut st = State::new(false);
    td.emit(&Vec::new(), &mut st);
    assert!(st.text.contains("return __zngur_sz();"));
    assert!(!st.text.contains("return 0;"));
    assert!(st.text.contains("data = __zngur_al();"));
    assert!(st.text.contains("__zngur_fr(data);"));
    assert!(st.text.contains("memcpy(this->data, other.data, __zngur_sz());"));
}

#[test]
fn copy_types_duplicate_without_a_flag() {
    let mut td = plain_type(
        &["rust", "Small"],
        CppLayoutPolicy::StackAllocated { size: 4, align: 4 },
    );
    td.wellknown_traits.push(ZngurWellknownTraitData::Copy);
    let mut st = State::new(false);
    td.emit(&Vec::new(), &mut st);
    assert!(!st.text.contains("drop_flag"));
    // copy construction and move construction share the byte copy
    assert!(st.text.contains("Small(const Small& other) {\n        \n        this->data = other.data;\n    }"));
    assert!(st.text.contains("Small(Small&& other) {\n        \n        this->data = other.data;\n    }"));
}

#[test]
fn noncopy_types_guard_drop_and_clear_the_source_flag() {
    let mut td = plain_type(
        &["rust", "Owned"],
        CppLayoutPolicy::StackAllocated { size: 8, align: 8 },
    );
    td.wellknown_traits.push(ZngurWellknownTraitData::Drop {
        drop_in_place: "__zngur_drop".to_string(),
    });
    let mut st = State::new(false);
    td.emit(&Vec::new(), &mut st);
    assert!(st.text.contains("bool drop_flag;"));
    assert!(st.text.contains("if (drop_flag) {\n            __zngur_drop(&data[0]);"));
    assert!(st.text.contains("other.drop_flag = false;"));
    assert!(st.text.contains("Owned(const Owned& other) = delete;"));
    // the initialisation check aborts on an unset flag
    assert!(st.text.contains("if (!t.drop_flag) {"));
    assert!(st.text.contains("while (true) raise(SIGSEGV);"));
}

#[test]
fn reference_views_never_check_or_drop() {
    let mut td = plain_type(
        &["rust", "Thing"],
        CppLayoutPolicy::StackAllocated { size: 8, align: 8 },
    );
    td.wellknown_traits.push(ZngurWellknownTraitData::Drop {
        drop_in_place: "__zngur_drop_thing".to_string(),
    });
    let mut st = State::new(false);
    td.emit_ref_specialization(&Vec::new(), &mut st);
    // both views' check/assume operations are empty bodies
    assert!(st.text.contains(
        "inline void __zngur_internal_check_init< Ref < ::rust::Thing > >(const Ref< ::rust::Thing >&) noexcept {\n}"
    ));
    assert!(st.text.contains(
        "inline void __zngur_internal_check_init< RefMut < ::rust::Thing > >(const RefMut< ::rust::Thing >&) noexcept {\n}"
    ));
    assert!(st.text.contains(
        "inline void __zngur_internal_assume_deinit< Ref < ::rust::Thing > >(Ref< ::rust::Thing >&) noexcept {\n}"
    ));
    // no destructor is declared on a view, and a view is one address word
    assert!(!st.text.contains("~Ref"));
    assert!(st.text.contains("return 8;"));
}

#[test]
fn unsized_views_carry_two_words() {
    let mut td = plain_type(&["rust", "Str"], CppLayoutPolicy::OnlyByRef);
    td.wellknown_traits.push(ZngurWellknownTraitData::Unsized);
    let mut st = State::new(false);
    td.emit_ref_specialization(&Vec::new(), &mut st);
    assert!(st.text.contains("::std::array<size_t, 2> data;"));
    assert!(st.text.contains("return 16;"));
    // the shared view of Str gets the string-literal operator
    assert!(st.text.contains("operator\"\"_rs"));
}

// A stack-allocated non-`Copy` type with one shared-reference method: the
// method must be declared on both reference views, and every path funnels
// into the same static wrapper, so identical backing storage gives identical
// output bytes.
#[test]
fn shared_method_reaches_both_reference_kinds() {
    let receiver = ty(&["rust", "Pair"]).into_ref();
    let mut td = plain_type(
        &["rust", "Pair"],
        CppLayoutPolicy::StackAllocated { size: 8, align: 8 },
    );
    td.wellknown_traits.push(ZngurWellknownTraitData::Drop {
        drop_in_place: "__zngur_drop_pair".to_string(),
    });
    td.methods.push(CppMethod {
        name: "first".to_string(),
        kind: ZngurMethodReceiver::Ref(Mutability::Not),
        sig: sig("__zngur_pair_first", vec![receiver], ty(&["int32_t"])),
    });
    let mut st = State::new(false);
    td.emit(&Vec::new(), &mut st);
    let mut defs = State::new(false);
    td.emit_cpp_fn_defs(&mut defs, &Vec::new());
    let ref_decl = "::int32_t first(__zngur_dyn_api* api) const noexcept ;";
    // declared on the owning value, the shared view and the exclusive view
    assert!(st.text.contains("struct Ref< ::rust::Pair > {"));
    assert!(st.text.contains("struct RefMut< ::rust::Pair > {"));
    assert_eq!(st.text.matches(ref_decl).count(), 3);
    // both view wrappers forward to the one static wrapper
    assert!(defs.text.contains(
        "inline ::int32_t rust::Ref< ::rust::Pair >::first(__zngur_dyn_api* api) const noexcept {\n                    return rust::Pair::first(api, *this);"
    ));
    assert!(defs.text.contains(
        "inline ::int32_t rust::RefMut< ::rust::Pair >::first(__zngur_dyn_api* api) const noexcept {\n                    return rust::Pair::first(api, *this);"
    ));
    // and the owning value's member wrapper reaches the same static wrapper
    assert!(defs.text.contains(
        "inline ::int32_t rust::Pair::first(__zngur_dyn_api* api) const noexcept {\n                    return rust::Pair::first(api, *this);"
    ));
}

#[test]
fn mutating_method_is_absent_from_shared_views() {
    let receiver = ty(&["rust", "Cell"]).into_ref();
    let mut td = plain_type(
        &["rust", "Cell"],
        CppLayoutPolicy::StackAllocated { size: 8, align: 8 },
    );
    td.wellknown_traits.push(ZngurWellknownTraitData::Drop {
        drop_in_place: "__zngur_drop_cell".to_string(),
    });
    td.fields.push(ZngurField {
        name: "inner".to_string(),
        offset: 0,
        ty: ty(&["int32_t"]),
    });
    td.methods.push(CppMethod {
        name: "bump".to_string(),
        kind: ZngurMethodReceiver::Ref(Mutability::Mut),
        sig: sig("__zngur_cell_bump", vec![receiver], ty(&["rust", "Unit"])),
    });
    let mut st = State::new(false);
    td.emit_ref_specialization(&Vec::new(), &mut st);
    // one declaration only: on the exclusive view, none on the shared one
    assert_eq!(st.text.matches("bump(").count(), 1);
    let shared_part = st.text.split("struct Ref< ::rust::Cell >").nth(1).unwrap();
    assert!(!shared_part.contains("bump("));
    // the shared field projection also omits it
    let mut fields = State::new(false);
    td.emit_field_specialization(&mut fields);
    let field_ref_part: Vec<&str> = fields.text.split("struct FieldRef< ").collect();
    assert_eq!(field_ref_part.len(), 2);
    assert!(!field_ref_part[1].split("};").next().unwrap().contains("bump("));
}

// A single-input single-output closure trait: constructing the host wrapper
// boxes the function object once, registers a destructor thunk for it, and
// the call thunk unmarshals the input, invokes the payload once, and
// marshals the result back.
#[test]
fn closure_bridge_registers_payload_destructor_and_call() {
    let f_sig = sig("__zngur_mk_cb", vec![ty(&["int32_t"])], ty(&["int32_t"]));
    let traits = vec![CppTraitDefinition::Fn { sig: f_sig }];
    let mut td = plain_type(
        &["rust", "Callback"],
        CppLayoutPolicy::StackAllocated { size: 16, align: 8 },
    );
    td.wellknown_traits.push(ZngurWellknownTraitData::Drop {
        drop_in_place: "__zngur_drop_cb".to_string(),
    });
    td.from_trait = Some(0);
    let mut st = State::new(false);
    td.emit(&traits, &mut st);
    assert!(st.text.contains(
        "static inline Callback make_box(::std::function< ::int32_t(::int32_t)> f);"
    ));
    let mut defs = State::new(false);
    td.emit_cpp_fn_defs(&mut defs, &traits);
    let mk = &defs.text;
    // the payload is boxed exactly once
    assert_eq!(mk.matches("new ::std::function< ::int32_t(::int32_t)>(f)").count(), 1);
    // the destructor thunk deletes the same payload type: no leak on destruction
    assert!(mk.contains("[](uint8_t *d) { delete reinterpret_cast< ::std::function< ::int32_t(::int32_t)>*>(d); }"));
    // the call thunk unmarshals the input, calls the payload once, and
    // marshals the output back
    assert!(mk.contains("::int32_t oo = (*dd)(::rust::__zngur_internal_move_from_rust< ::int32_t >(i0));"));
    assert_eq!(mk.matches("(*dd)(").count(), 1);
    assert!(mk.contains("::rust::__zngur_internal_move_to_rust< ::int32_t >(o, oo);"));
    // registration passes the boxed payload and the output slot
    assert!(mk.contains("__zngur_mk_cb(\nreinterpret_cast<uint8_t*>(data),"));
}

#[test]
fn trait_interface_and_trampolines() {
    let tr = CppTraitDefinition::Normal {
        as_ty: ty(&["rust", "Greeter"]),
        methods: vec![CppTraitMethod {
            name: "greet".to_string(),
            rust_link_name: "__zngur_greet".to_string(),
            inputs: vec![ty(&["int32_t"])],
            output: ty(&["int32_t"]),
        }],
        link_name: "__zngur_new_greeter".to_string(),
        link_name_ref: "__zngur_new_greeter_ref".to_string(),
    };
    let mut st = State::new(false);
    tr.emit(&mut st);
    assert!(st.text.contains("virtual ~Greeter() {}"));
    assert!(st.text.contains("virtual ::int32_t greet(::int32_t i0) = 0;"));
    let mut links = State::new(false);
    tr.emit_rust_links(&mut links);
    assert!(links.text.contains(
        "void __zngur_new_greeter(uint8_t *data, void destructor(uint8_t *), uint8_t *o);"
    ));
    assert!(links.text.contains("void __zngur_new_greeter_ref(uint8_t *data, uint8_t *o);"));
    let mut tramp = State::new(false);
    tr.emit_cpp(&mut tramp);
    assert!(tramp.text.contains("void __zngur_greet(uint8_t* data, uint8_t* i0, uint8_t* o) {"));
    assert!(tramp.text.contains(
        "::rust::Greeter* data_typed = reinterpret_cast< ::rust::Greeter* >(data);"
    ));
    assert!(tramp.text.contains("oo = data_typed->greet("));
}

#[test]
fn link_names_follow_resolution_order() {
    let mut td = plain_type(
        &["rust", "Box"],
        CppLayoutPolicy::HeapAllocated {
            size_fn: "s".to_string(),
            alloc_fn: "a".to_string(),
            free_fn: "f".to_string(),
        },
    );
    td.methods.push(CppMethod {
        name: "m".to_string(),
        kind: ZngurMethodReceiver::Static,
        sig: sig("m_link", Vec::new(), ty(&["rust", "Unit"])),
    });
    td.constructors.push(sig("c_link", Vec::new(), ty(&["rust", "Box"])));
    td.wellknown_traits.push(ZngurWellknownTraitData::Debug {
        pretty_print: "pp".to_string(),
        debug_print: "dp".to_string(),
    });
    td.wellknown_traits.push(ZngurWellknownTraitData::Drop {
        drop_in_place: "drop_it".to_string(),
    });
    let names = td.get_link_names();
    assert_eq!(names, vec!["m_link", "c_link", "s", "a", "f", "pp", "dp", "drop_it"]);
}

#[test]
fn rendered_header_holds_the_fixed_skeleton() {
    let f = CppFile::default();
    let (h, cpp) = f.render();
    assert!(h.starts_with("\n#pragma once\n"));
    assert!(h.contains("#include <dlfcn.h>"));
    assert!(h.contains("class __zngur_dyn_api {"));
    assert!(h.contains("bool init(std::string &error_message) {"));
    assert!(h.contains("  return true;"));
    // the fixed built-in table is present, size_t under its platform guard
    assert!(h.contains("struct Ref< int8_t >"));
    assert!(h.contains("struct RefMut< ::rust::ZngurCppOpaqueOwnedObject >"));
    assert!(h.contains("#ifdef __APPLE__"));
    assert!(h.contains("#endif"));
    // no panic machinery outside panic mode
    assert!(!h.contains("__zngur_detect_panic"));
    assert!(h.contains(" noexcept "));
    // nothing is exported, so no source unit is needed
    assert!(cpp.is_none());
}

#[test]
fn panic_mode_strips_noexcept_and_declares_the_detectors() {
    let f = CppFile {
        panic_to_exception: true,
        ..CppFile::default()
    };
    let (h, _) = f.render();
    assert!(h.contains("uint8_t __zngur_detect_panic();"));
    assert!(h.contains("void __zngur_take_panic();"));
    assert!(!h.contains(" noexcept "));
}

#[test]
fn exported_functions_make_the_source_unit_needed() {
    let f = CppFile {
        exported_fn_defs: vec![zngur_cpp::sig::CppExportedFnDefinition {
            name: "add_one".to_string(),
            sig: sig("__zngur_add_one", vec![ty(&["int32_t"])], ty(&["int32_t"])),
        }],
        ..CppFile::default()
    };
    let (h, cpp) = f.render();
    assert!(h.contains("namespace rust { namespace exported_functions {"));
    assert!(h.contains("   ::int32_t add_one(::int32_t i0);"));
    let cpp = cpp.unwrap();
    assert!(cpp.starts_with("#include \"./generated.h\"\n"));
    assert!(cpp.contains("void __zngur_add_one(uint8_t* i0,uint8_t* o)"));
    assert!(cpp.contains("::int32_t oo = ::rust::exported_functions::add_one(::rust::__zngur_internal_move_from_rust< ::int32_t >(i0));"));
    assert!(cpp.contains("::rust::__zngur_internal_move_to_rust(o, oo);"));
}

#[test]
fn dispatch_table_resolves_every_declared_symbol() {
    let f = CppFile {
        fn_defs: vec![CppFnDefinition {
            name: CppPath(vec!["rust".to_string(), "go".to_string()]),
            sig: sig("__zngur_go", Vec::new(), ty(&["rust", "Unit"])),
        }],
        ..CppFile::default()
    };
    let (h, _) = f.render();
    assert!(h.contains("decltype(&::__zngur_go) __zngur_go;"));
    assert!(h.contains("dlsym(_dylib_handle, \"__zngur_go\")"));
    assert!(h.contains("error_message = \"Failed to load __zngur_go from dynamic library: \""));
}
