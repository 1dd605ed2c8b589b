use zngur_cpp::names::{cpp_handle_field_name, cpp_handle_keyword, parses_as_u32};
use zngur_cpp::path::{trim, CppPath};
use zngur_cpp::text::{replace_all, str_eq, str_starts_with, State};
use zngur_cpp::ty::{split_string, CppType};

fn path(segs: &[&str]) -> CppPath {
    CppPath(segs.iter().map(|s| s.to_string()).collect())
}

#[test]
fn keyword_table_renames_reserved_words() {
    assert_eq!(cpp_handle_keyword("new"), "new_");
    assert_eq!(cpp_handle_keyword("default"), "default_");
    assert_eq!(cpp_handle_keyword("len"), "len");
}

#[test]
fn numeric_field_names_get_a_prefix() {
    assert_eq!(cpp_handle_field_name("0"), "f0");
    assert_eq!(cpp_handle_field_name("17"), "f17");
    assert_eq!(cpp_handle_field_name("4294967295"), "f4294967295");
    // one past u32::MAX no longer parses, so the keyword table applies
    assert_eq!(cpp_handle_field_name("4294967296"), "4294967296");
    // a leading plus sign is accepted by a u32 parse
    assert_eq!(cpp_handle_field_name("+12"), "f+12");
    assert_eq!(cpp_handle_field_name("new"), "new_");
    assert_eq!(cpp_handle_field_name("x1"), "x1");
}

#[test]
fn u32_parse_acceptance() {
    assert!(parses_as_u32("0"));
    assert!(parses_as_u32("007"));
    assert!(!parses_as_u32(""));
    assert!(!parses_as_u32("+"));
    assert!(!parses_as_u32("-1"));
    assert!(!parses_as_u32("1a"));
    assert!(!parses_as_u32("99999999999"));
}

#[test]
fn trim_strips_both_ends() {
    assert_eq!(trim("  a b \t\n"), "a b");
    assert_eq!(trim(""), "");
    assert_eq!(trim("   "), "");
    assert_eq!(trim("x"), "x");
}

#[test]
fn path_parsing_splits_on_double_colons() {
    assert_eq!(CppPath::from_text(" a::b ").0, vec!["a", "b"]);
    assert_eq!(CppPath::from_text("x").0, vec!["x"]);
    assert_eq!(CppPath::from_text("a:::b").0, vec!["a", ":b"]);
    assert_eq!(CppPath::from_text("::x").0, vec!["", "x"]);
}

#[test]
fn path_rendering_is_fully_qualified() {
    assert_eq!(path(&["rust", "Str"]).to_text(), "::rust::Str");
    assert_eq!(path(&["x"]).to_text(), "::x");
}

#[test]
fn need_header_spares_the_primitives() {
    assert!(path(&["rust", "Foo"]).need_header());
    assert!(!path(&["rust", "Unit"]).need_header());
    assert!(!path(&["rust", "Ref"]).need_header());
    assert!(!path(&["rust", "RefMut"]).need_header());
    assert!(!path(&["std", "Foo"]).need_header());
}

#[test]
fn split_string_respects_angle_bracket_depth() {
    assert_eq!(split_string("a,b"), vec!["a", "b"]);
    assert_eq!(split_string("Box<T, U>,c"), vec!["Box<T, U>", "c"]);
    assert_eq!(split_string(""), Vec::<String>::new());
    assert_eq!(split_string("a,,b"), vec!["a", "", "b"]);
    assert_eq!(split_string("a,"), vec!["a"]);
    // an unbalanced closing bracket takes the depth negative, so the comma
    // after it is not a split point
    assert_eq!(split_string("a>,b"), vec!["a>,b"]);
}

#[test]
fn type_parsing_handles_nested_generics() {
    let t = CppType::from_text("Vec<Box<T>, U>").unwrap();
    assert_eq!(t.to_text(), "::Vec< ::Box< ::T >, ::U >");
    let plain = CppType::from_text("  a::b  ").unwrap();
    assert_eq!(plain.to_text(), "::a::b");
}

#[test]
fn type_parsing_rejects_an_unclosed_generic() {
    assert!(CppType::from_text("A<B").is_none());
    assert!(CppType::from_text("A<").is_none());
    assert!(CppType::from_text("A<B<C>").is_none());
}

#[test]
fn into_ref_wraps_in_rust_ref() {
    let t = CppType {
        path: path(&["i32"]),
        generic_args: Vec::new(),
    };
    assert_eq!(t.into_ref().to_text(), "::rust::Ref< ::i32 >");
}

#[test]
fn decimal_rendering() {
    let mut st = State::new(false);
    st.put_usize(0);
    st.put(",");
    st.put_usize(907);
    st.put(",");
    st.put_usize(10);
    assert_eq!(st.text, "0,907,10");
}

#[test]
fn string_helpers() {
    assert!(str_eq("abc", "abc"));
    assert!(!str_eq("abc", "abd"));
    assert!(!str_eq("abc", "ab"));
    assert!(str_starts_with("uint8_t", "uint"));
    assert!(!str_starts_with("int8_t", "uint"));
}

#[test]
fn replace_all_rewrites_every_occurrence() {
    assert_eq!(replace_all("a noexcept b noexcept c", " noexcept ", " "), "a b c");
    assert_eq!(replace_all("xx", "x", "yy"), "yyyy");
    assert_eq!(replace_all("abc", "zz", "q"), "abc");
}

#[test]
fn panic_handler_text_follows_the_mode() {
    let on = State::new(true);
    assert!(on.panic_handler().contains("__zngur_take_panic();"));
    let off = State::new(false);
    assert_eq!(off.panic_handler(), "");
}

#[test]
fn default_type_definition_is_the_placeholder() {
    let td = zngur_cpp::type_def::CppTypeDefinition::default();
    assert_eq!(td.ty.to_text(), "::fill::me::you::forgot::it");
    assert!(td.methods.is_empty());
    assert!(td.cpp_value.is_none());
}

#[test]
fn noexcept_markers_leave_in_panic_mode() {
    let mut st = State::new(true);
    st.put("void f() noexcept ;");
    st.remove_no_except_in_panic();
    assert_eq!(st.text, "void f() ;");
    let mut st2 = State::new(false);
    st2.put("void f() noexcept ;");
    st2.remove_no_except_in_panic();
    assert_eq!(st2.text, "void f() noexcept ;");
}
