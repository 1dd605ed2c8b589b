//! Owning-type definitions: the layout policy, well-known trait markers, and
//! the emission of field-projection views.

use vstd::prelude::*;
use crate::text::{State, dec_text};
use crate::names::field_name_text;
use crate::names::cpp_handle_field_name;
use crate::path::{path_text, path_wf};
use crate::ty::{CppType, type_wf, type_text};
use crate::sig::{CppFnSig, CppMethod, ZngurField, ZngurMethodReceiver, Mutability, sig_wf,
    input_defs_text, dyn_api_def_text};
use crate::trait_def::{CppTraitDefinition, trait_wf};

verus! {

/// The storage strategy of an owning type: inline bytes, an opaque heap
/// pointer with its three boundary functions, or no owning form at all.
#[derive(Debug, Clone, PartialEq, Eq)]
pub enum CppLayoutPolicy {
    StackAllocated { size: usize, align: usize },
    HeapAllocated { size_fn: String, alloc_fn: String, free_fn: String },
    OnlyByRef,
}

/// The well-known trait markers an owning type may carry.
#[derive(Debug)]
pub enum ZngurWellknownTraitData {
    Debug { pretty_print: String, debug_print: String },
    Unsized,
    Copy,
    Drop { drop_in_place: String },
}

/// One owning type: its C++ type, layout, methods, constructors, fields,
/// optional construction bridges (indices into the trait list), trait
/// markers, and optional embedded host-side value accessors.
#[derive(Debug)]
pub struct CppTypeDefinition {
    pub ty: CppType,
    pub layout: CppLayoutPolicy,
    pub methods: Vec<CppMethod>,
    pub constructors: Vec<CppFnSig>,
    pub fields: Vec<ZngurField>,
    pub from_trait: Option<usize>,
    pub from_trait_ref: Option<usize>,
    pub wellknown_traits: Vec<ZngurWellknownTraitData>,
    pub cpp_value: Option<(String, String)>,
    pub cpp_ref: Option<String>,
}

pub open spec fn is_copy(td: CppTypeDefinition) -> bool {
    exists|i: int|
        0 <= i < td.wellknown_traits@.len() && (#[trigger] td.wellknown_traits@[i])
            is Copy
}

pub open spec fn is_unsized(td: CppTypeDefinition) -> bool {
    exists|i: int|
        0 <= i < td.wellknown_traits@.len() && (#[trigger] td.wellknown_traits@[i])
            is Unsized
}

/// The index of the first `Drop` marker, or `-1`.
pub open spec fn first_drop(tds: Seq<ZngurWellknownTraitData>) -> int
    decreases tds.len(),
{
    if tds.len() == 0 {
        -1
    } else if tds[0] is Drop {
        0
    } else {
        let r = first_drop(tds.skip(1));
        if r < 0 {
            -1
        } else {
            1 + r
        }
    }
}

pub proof fn lemma_first_drop(tds: Seq<ZngurWellknownTraitData>)
    ensures
        first_drop(tds) == -1 <==> (forall|j: int| 0 <= j < tds.len() ==> !(#[trigger] tds[j]
            is Drop)),
        first_drop(tds) >= 0 ==> 0 <= first_drop(tds) < tds.len() && tds[first_drop(tds)]
            is Drop && (forall|j: int| 0 <= j < first_drop(tds) ==> !(#[trigger] tds[j] is Drop)),
    decreases tds.len(),
{
    if tds.len() > 0 && !(tds[0] is Drop) {
        lemma_first_drop(tds.skip(1));
        assert(forall|j: int| 1 <= j < tds.len() ==> tds[j] == tds.skip(1)[j - 1]);
    }
}

/// The name of the managed-side drop function: that of the first `Drop`
/// marker.
pub open spec fn drop_fn_text(td: CppTypeDefinition) -> Seq<char> {
    match td.wellknown_traits@[first_drop(td.wellknown_traits@)] {
        ZngurWellknownTraitData::Drop { drop_in_place } => drop_in_place@,
        _ => Seq::<char>::empty(),
    }
}

pub open spec fn has_drop(td: CppTypeDefinition) -> bool {
    first_drop(td.wellknown_traits@) >= 0
}

/// Whether the type renders as `::rust::Str`, whose shared reference gets a
/// string-literal operator.
pub open spec fn is_str(td: CppTypeDefinition) -> bool {
    path_text(td.ty.path) == "::rust::Str"@
}

pub open spec fn only_by_ref(td: CppTypeDefinition) -> bool {
    td.layout is OnlyByRef
}

/// Well-formedness of a type definition against the trait list it indexes:
/// every embedded type is well formed and every non-static method carries
/// its receiver as its first input.
pub open spec fn td_wf(td: CppTypeDefinition, traits: Seq<CppTraitDefinition>) -> bool {
    &&& type_wf(td.ty)
    &&& (forall|i: int| 0 <= i < td.fields@.len() ==> type_wf(#[trigger] td.fields@[i].ty))
    &&& (forall|i: int|
        0 <= i < td.methods@.len() ==> sig_wf(#[trigger] td.methods@[i].sig) && (
        !(td.methods@[i].kind is Static) ==> td.methods@[i].sig.inputs@.len() >= 1))
    &&& (forall|i: int| 0 <= i < td.constructors@.len() ==> sig_wf(#[trigger] td.constructors@[i]))
    &&& (match td.from_trait {
        Some(i) => i < traits.len() && trait_wf(traits[i as int]),
        None => true,
    })
    &&& (match td.from_trait_ref {
        Some(i) => i < traits.len() && trait_wf(traits[i as int]),
        None => true,
    })
}

impl CppTypeDefinition {
    /// Whether the `Copy` marker is present.
    pub fn is_copy_exec(&self) -> (r: bool)
        ensures
            r == is_copy(*self),
    {
        let n: usize = self.wellknown_traits.len();
        let mut i: usize = 0;
        while i < n
            invariant
                0 <= i <= n,
                n == self.wellknown_traits@.len(),
                forall|j: int| 0 <= j < i ==> !((#[trigger] self.wellknown_traits@[j]) is Copy),
            decreases n - i,
        {
            if matches!(&self.wellknown_traits[i], ZngurWellknownTraitData::Copy) {
                return true;
            }
            i = i + 1;
        }
        false
    }

    /// Whether the `Unsized` marker is present.
    pub fn is_unsized_exec(&self) -> (r: bool)
        ensures
            r == is_unsized(*self),
    {
        let n: usize = self.wellknown_traits.len();
        let mut i: usize = 0;
        while i < n
            invariant
                0 <= i <= n,
                n == self.wellknown_traits@.len(),
                forall|j: int| 0 <= j < i ==> !((#[trigger] self.wellknown_traits@[j]) is Unsized),
            decreases n - i,
        {
            if matches!(&self.wellknown_traits[i], ZngurWellknownTraitData::Unsized) {
                return true;
            }
            i = i + 1;
        }
        false
    }

    /// The drop function of the first `Drop` marker, if any.
    pub fn drop_in_place_fn(&self) -> (r: Option<&String>)
        ensures
            r.is_some() == has_drop(*self),
            match r {
                Some(s) => s@ == drop_fn_text(*self),
                None => true,
            },
    {
        proof {
            lemma_first_drop(self.wellknown_traits@);
        }
        let n: usize = self.wellknown_traits.len();
        let mut i: usize = 0;
        while i < n
            invariant
                0 <= i <= n,
                n == self.wellknown_traits@.len(),
                forall|j: int| 0 <= j < i ==> !((#[trigger] self.wellknown_traits@[j]) is Drop),
            decreases n - i,
        {
            if let ZngurWellknownTraitData::Drop { drop_in_place } = &self.wellknown_traits[i] {
                proof {
                    lemma_first_drop(self.wellknown_traits@);
                    assert(first_drop(self.wellknown_traits@) == i);
                }
                return Some(drop_in_place);
            }
            i = i + 1;
        }
        None
    }

    /// Whether this type renders as `::rust::Str`.
    pub fn is_str_exec(&self) -> (r: bool)
        requires
            type_wf(self.ty),
        ensures
            r == is_str(*self),
    {
        let rendered = self.ty.path.to_text();
        crate::text::str_eq(rendered.as_str(), "::rust::Str")
    }
}

/// Whether a method is declared on a borrow view: it must have a reference
/// receiver, and a mutating receiver is kept off shared views.
pub open spec fn method_on_view(m: CppMethod, allow_mut: bool) -> bool {
    match m.kind {
        ZngurMethodReceiver::Ref(mu) => allow_mut || mu is Not,
        _ => false,
    }
}

/// The effective non-receiver argument count, as the dispatch-table comma
/// rule sees it.
pub open spec fn rest_args(n_inputs: int) -> int {
    if n_inputs <= 1 {
        0
    } else {
        n_inputs - 1
    }
}

/// A method declaration on a field-projection view (no dispatch-table
/// parameter).
pub open spec fn field_method_decl_text(m: CppMethod) -> Seq<char> {
    type_text(m.sig.output) + " "@ + m.name@ + "("@ + input_defs_text(
        m.sig.inputs@,
        1,
        m.sig.inputs@.len() - 1,
    ) + ") const noexcept ;\n"@
}

pub open spec fn field_method_decls_join(ms: Seq<CppMethod>, n: int, allow_mut: bool) -> Seq<char>
    decreases n,
{
    if n <= 0 || n > ms.len() {
        Seq::empty()
    } else {
        field_method_decls_join(ms, n - 1, allow_mut) + (if method_on_view(ms[n - 1], allow_mut) {
            field_method_decl_text(ms[n - 1])
        } else {
            Seq::<char>::empty()
        })
    }
}

/// One `[[no_unique_address]]` member of a field-projection view.
pub open spec fn field_member_text(f: ZngurField, kind: Seq<char>) -> Seq<char> {
    "[[no_unique_address]] "@ + kind + "<"@ + type_text(f.ty) + ", OFFSET + "@ + dec_text(
        f.offset as nat,
    ) + "> "@ + field_name_text(f.name@) + ";\n"@
}

pub open spec fn field_members_join(fs: Seq<ZngurField>, kind: Seq<char>, n: int) -> Seq<char>
    decreases n,
{
    if n <= 0 || n > fs.len() {
        Seq::empty()
    } else {
        field_members_join(fs, kind, n - 1) + field_member_text(fs[n - 1], kind)
    }
}

/// One field-projection specialization (`FieldOwned`, `FieldRef` or
/// `FieldRefMut`) of this type.
pub open spec fn field_spec_kind_text(td: CppTypeDefinition, kind: Seq<char>, allow_mut: bool) -> Seq<char> {
    "\n    namespace rust {\n    template<size_t OFFSET>\n    struct "@ + kind + "< "@ + type_text(
        td.ty,
    ) + ", OFFSET > {\n                "@ + "\n"@ + field_members_join(
        td.fields@,
        kind,
        td.fields@.len() as int,
    ) + field_method_decls_join(td.methods@, td.methods@.len() as int, allow_mut)
        + "};\n}\n"@
}

/// All three field-projection specializations.
pub open spec fn field_specialization_text(td: CppTypeDefinition) -> Seq<char> {
    field_spec_kind_text(td, "FieldOwned"@, true) + field_spec_kind_text(td, "FieldRef"@, false)
        + field_spec_kind_text(td, "FieldRefMut"@, true)
}

fn emit_field_member(f: &ZngurField, kind: &str, state: &mut State)
    requires
        type_wf(f.ty),
    ensures
        final(state).text@ == old(state).text@ + field_member_text(*f, kind@),
        final(state).panic_to_exception == old(state).panic_to_exception,
{
    state.put("[[no_unique_address]] ");
    state.put(kind);
    state.put("<");
    f.ty.emit_text(state);
    state.put(", OFFSET + ");
    state.put_usize(f.offset);
    state.put("> ");
    let fname = cpp_handle_field_name(f.name.as_str());
    state.put(fname.as_str());
    state.put(";\n");
}

fn emit_field_method_decl(m: &CppMethod, state: &mut State)
    requires
        sig_wf(m.sig),
        m.sig.inputs@.len() >= 1,
    ensures
        final(state).text@ == old(state).text@ + field_method_decl_text(*m),
        final(state).panic_to_exception == old(state).panic_to_exception,
{
    m.sig.output.emit_text(state);
    state.put(" ");
    state.put(m.name.as_str());
    state.put("(");
    state.put_input_defs(&m.sig.inputs, 1);
    state.put(") const noexcept ;\n");
}

impl CppTypeDefinition {
    #[verifier::loop_isolation(false)]
    #[verifier::rlimit(100)]
    fn emit_field_spec_kind(&self, state: &mut State, kind: &str, allow_mut: bool)
        requires
            forall|i: int| 0 <= i < self.fields@.len() ==> type_wf(#[trigger] self.fields@[i].ty),
            forall|i: int|
                0 <= i < self.methods@.len() ==> sig_wf(#[trigger] self.methods@[i].sig) && (!(
                self.methods@[i].kind is Static) ==> self.methods@[i].sig.inputs@.len() >= 1),
            type_wf(self.ty),
        ensures
            final(state).text@ == old(state).text@ + field_spec_kind_text(
                *self,
                kind@,
                allow_mut,
            ),
            final(state).panic_to_exception == old(state).panic_to_exception,
    {
        state.put("\n    namespace rust {\n    template<size_t OFFSET>\n    struct ");
        state.put(kind);
        state.put("< ");
        self.ty.emit_text(state);
        state.put(", OFFSET > {\n                ");
        state.put("\n");
        let ghost pre = state.text@;
        let nf: usize = self.fields.len();
        let mut i: usize = 0;
        proof {
            assert(pre + Seq::<char>::empty() =~= pre);
        }
        while i < nf
            invariant
                0 <= i <= nf,
                state.text@ == pre + field_members_join(self.fields@, kind@, i as int),
                state.panic_to_exception == old(state).panic_to_exception,
            decreases nf - i,
        {
            emit_field_member(&self.fields[i], kind, state);
            i = i + 1;
        }
        let ghost pre2 = state.text@;
        let nm: usize = self.methods.len();
        let mut j: usize = 0;
        proof {
            assert(pre2 + Seq::<char>::empty() =~= pre2);
        }
        while j < nm
            invariant
                0 <= j <= nm,
                state.text@ == pre2 + field_method_decls_join(self.methods@, j as int, allow_mut),
                state.panic_to_exception == old(state).panic_to_exception,
            decreases nm - j,
        {
            let declared = match &self.methods[j].kind {
                ZngurMethodReceiver::Ref(mu) => {
                    allow_mut || matches!(mu, Mutability::Not)
                },
                _ => false,
            };
            if declared {
                emit_field_method_decl(&self.methods[j], state);
            } else {
                proof {
                    assert(state.text@ + Seq::<char>::empty() =~= state.text@);
                }
            }
            j = j + 1;
        }
        state.put("};\n}\n");
    }

    /// The three offset-parameterised field-projection views of this type;
    /// a mutating method is absent from the shared (`FieldRef`) view.
    pub fn emit_field_specialization(&self, state: &mut State)
        requires
            forall|i: int| 0 <= i < self.fields@.len() ==> type_wf(#[trigger] self.fields@[i].ty),
            forall|i: int|
                0 <= i < self.methods@.len() ==> sig_wf(#[trigger] self.methods@[i].sig) && (!(
                self.methods@[i].kind is Static) ==> self.methods@[i].sig.inputs@.len() >= 1),
            type_wf(self.ty),
        ensures
            final(state).text@ == old(state).text@ + field_specialization_text(*self),
            final(state).panic_to_exception == old(state).panic_to_exception,
    {
        self.emit_field_spec_kind(state, "FieldOwned", true);
        self.emit_field_spec_kind(state, "FieldRef", false);
        self.emit_field_spec_kind(state, "FieldRefMut", true);
    }
}

/// `Ref` or `RefMut`, by the mutability of the view.
pub open spec fn ref_kind_text(shared: bool) -> Seq<char> {
    if shared {
        "Ref"@
    } else {
        "RefMut"@
    }
}

/// The string-literal operator declaration, on the shared view of `Str`.
pub open spec fn ref_str_decl_text(td: CppTypeDefinition, shared: bool) -> Seq<char> {
    if shared && is_str(td) {
        "\n    auto operator\"\"_rs(const char* input, size_t len) -> ::rust::Ref<::rust::Str>;\n"@
            + "\n"@
    } else {
        Seq::<char>::empty()
    }
}

/// The data-pointer friend line shared by both storage shapes.
pub open spec fn ref_friend_ptr_text(td: CppTypeDefinition, shared: bool) -> Seq<char> {
    "    friend uint8_t* ::rust::__zngur_internal_data_ptr< ::rust::"@ + ref_kind_text(shared)
        + "< "@ + type_text(td.ty) + " > >(const ::rust::"@ + ref_kind_text(shared) + "< "@
        + type_text(td.ty) + " >& t) noexcept ;\n"@
}

/// The pretty-printer friend line shared by both storage shapes.
pub open spec fn ref_friend_printer_text(td: CppTypeDefinition, shared: bool) -> Seq<char> {
    "    friend ::rust::ZngurPrettyPrinter< ::rust::"@ + ref_kind_text(shared) + "< "@ + type_text(
        td.ty,
    ) + " > >;\n"@ + "\n"@
}

/// The opening of the fat (address plus metadata) reference view.
pub open spec fn ref_open_unsized_text(td: CppTypeDefinition, shared: bool) -> Seq<char> {
    "\nnamespace rust {\ntemplate<>\nstruct "@ + ref_kind_text(shared) + "< "@ + type_text(td.ty)
        + " > {\n    "@ + ref_kind_text(shared)
        + "() {\n        data = {0, 0};\n    }\nprivate:\n    ::std::array<size_t, 2> data;\n"@
        + ref_friend_ptr_text(td, shared) + ref_friend_printer_text(td, shared)
}

/// The opening line of the one-word reference view.
pub open spec fn ref_open_sized_head_text(td: CppTypeDefinition, shared: bool) -> Seq<char> {
    "\nnamespace rust {\ntemplate<>\nstruct "@ + ref_kind_text(shared) + "< "@ + type_text(td.ty)
        + " > {\n    "@ + ref_kind_text(shared) + "() {\n        data = 0;\n    }\n"@ + "\n"@
}

/// The converting constructor from an owning value, absent for
/// reference-only types.
pub open spec fn ref_from_owned_ctor_text(td: CppTypeDefinition, shared: bool) -> Seq<char> {
    "\n    "@ + ref_kind_text(shared) + "(const "@ + type_text(td.ty)
        + "& t) {\n        ::rust::__zngur_internal_check_init< "@ + type_text(td.ty)
        + " >(t);\n        data = reinterpret_cast<size_t>(__zngur_internal_data_ptr(t));\n    }\n"@
        + "\n"@
}

/// One `[[no_unique_address]]` field member of a reference view.
pub open spec fn ref_field_member_text(f: ZngurField, shared: bool) -> Seq<char> {
    "[[no_unique_address]] ::rust::Field"@ + ref_kind_text(shared) + "<"@ + type_text(f.ty)
        + ", "@ + dec_text(f.offset as nat) + "> "@ + field_name_text(f.name@) + ";\n"@
}

pub open spec fn ref_field_members_join(fs: Seq<ZngurField>, shared: bool, n: int) -> Seq<char>
    decreases n,
{
    if n <= 0 || n > fs.len() {
        Seq::empty()
    } else {
        ref_field_members_join(fs, shared, n - 1) + ref_field_member_text(fs[n - 1], shared)
    }
}

/// The private data word and friends of the one-word reference view.
pub open spec fn ref_open_sized_tail_text(td: CppTypeDefinition, shared: bool) -> Seq<char> {
    "\nprivate:\n    size_t data;\n"@ + ref_friend_ptr_text(td, shared) + ref_friend_printer_text(
        td,
        shared,
    )
}

/// The whole struct opening: fat or one-word storage, constructors and field
/// members.
pub open spec fn ref_open_text(td: CppTypeDefinition, shared: bool) -> Seq<char> {
    if is_unsized(td) {
        ref_open_unsized_text(td, shared)
    } else {
        ref_open_sized_head_text(td, shared) + (if !only_by_ref(td) {
            ref_from_owned_ctor_text(td, shared)
        } else {
            Seq::<char>::empty()
        }) + ref_field_members_join(td.fields@, shared, td.fields@.len() as int)
            + ref_open_sized_tail_text(td, shared)
    }
}

/// The conversion from the exclusive to the shared view.
pub open spec fn ref_conv_shared_head_text(td: CppTypeDefinition) -> Seq<char> {
    "\n    Ref(RefMut< "@ + type_text(td.ty) + " > rm) {\n        data = rm.data;\n    }\n    "@
        + "\n"@
}

/// The shared view's conversions from the three field projections.
pub open spec fn ref_conv_shared_fields_text(td: CppTypeDefinition) -> Seq<char> {
    "\n    template<size_t OFFSET>\n    Ref(const FieldOwned< "@ + type_text(td.ty)
        + ", OFFSET >& f) {\n        data = reinterpret_cast<size_t>(&f) + OFFSET;\n    }\n\n    template<size_t OFFSET>\n    Ref(const FieldRef< "@
        + type_text(td.ty)
        + ", OFFSET >& f) {\n        data = *reinterpret_cast<const size_t*>(&f) + OFFSET;\n    }\n\n    template<size_t OFFSET>\n    Ref(const FieldRefMut< "@
        + type_text(td.ty)
        + ", OFFSET >& f) {\n        data = *reinterpret_cast<const size_t*>(&f) + OFFSET;\n    }\n    "@
        + "\n"@
}

/// The implicit conversions of the shared view: from the exclusive view and,
/// for sized types, from each field projection.
pub open spec fn ref_conversions_shared_text(td: CppTypeDefinition) -> Seq<char> {
    ref_conv_shared_head_text(td) + (if !is_unsized(td) {
        ref_conv_shared_fields_text(td)
    } else {
        Seq::<char>::empty()
    })
}

/// The exclusive view befriends the shared one.
pub open spec fn ref_conv_mut_head_text(td: CppTypeDefinition) -> Seq<char> {
    "\n    friend Ref< "@ + type_text(td.ty) + " >;\n    "@ + "\n"@
}

/// The exclusive view's conversions from the mutable field projections.
pub open spec fn ref_conv_mut_fields_text(td: CppTypeDefinition) -> Seq<char> {
    "\n    template<size_t OFFSET>\n    RefMut(const FieldOwned< "@ + type_text(td.ty)
        + ", OFFSET >& f) {\n        data = reinterpret_cast<size_t>(&f) + OFFSET;\n    }\n\n    template<size_t OFFSET>\n    RefMut(const FieldRefMut< "@
        + type_text(td.ty)
        + ", OFFSET >& f) {\n        data = *reinterpret_cast<const size_t*>(&f) + OFFSET;\n    }\n    "@
        + "\n"@
}

/// The exclusive view's conversions.
pub open spec fn ref_conversions_mut_text(td: CppTypeDefinition) -> Seq<char> {
    ref_conv_mut_head_text(td) + (if !is_unsized(td) {
        ref_conv_mut_fields_text(td)
    } else {
        Seq::<char>::empty()
    })
}

pub open spec fn ref_conversions_text(td: CppTypeDefinition, shared: bool) -> Seq<char> {
    "public:"@ + "\n"@ + (if shared {
        ref_conversions_shared_text(td)
    } else {
        ref_conversions_mut_text(td)
    })
}

/// The declaration of a borrowed construction from a trait implementer.
pub open spec fn ref_from_trait_text(
    td: CppTypeDefinition,
    traits: Seq<CppTraitDefinition>,
    shared: bool,
) -> Seq<char> {
    match td.from_trait_ref {
        None => Seq::<char>::empty(),
        Some(i) => match traits[i as int] {
            CppTraitDefinition::Fn { sig } => "\ninline "@ + td.ty.path.0@.last()@ + "("@
                + crate::sig::std_function_text(sig) + " f);\n"@ + "\n"@,
            CppTraitDefinition::Normal { as_ty, .. } => "\n            inline "@ + ref_kind_text(
                shared,
            ) + "("@ + type_text(as_ty) + "& arg);\n            "@ + "\n"@,
        },
    }
}

/// The embedded host-value accessor on a reference view.
pub open spec fn ref_cpp_value_text(td: CppTypeDefinition) -> Seq<char> {
    match td.cpp_value {
        Some(v) => "\n                inline "@ + v.1@ + "& cpp() {\n                    return (*"@
            + v.0@ + "(reinterpret_cast<uint8_t*>(data))).as_cpp< "@ + v.1@
            + " >();\n                }"@ + "\n"@,
        None => Seq::<char>::empty(),
    }
}

/// The host-reference accessor and converting constructor.
pub open spec fn ref_cpp_ref_text(td: CppTypeDefinition, shared: bool) -> Seq<char> {
    match td.cpp_ref {
        Some(c) => "\n                inline "@ + c@ + "& cpp() {\n                    return *reinterpret_cast< "@
            + c@ + "* >(data);\n                }"@ + "\n"@ + "\n                inline "@
            + ref_kind_text(shared) + "(const "@ + c@
            + "& t) : data(reinterpret_cast<size_t>(&t)) {}"@ + "\n"@,
        None => Seq::<char>::empty(),
    }
}

/// A method declaration on a reference view (with the dispatch-table
/// parameter).
pub open spec fn ref_method_decl_text(m: CppMethod) -> Seq<char> {
    type_text(m.sig.output) + " "@ + m.name@ + "("@ + dyn_api_def_text(
        rest_args(m.sig.inputs@.len() as int),
    ) + input_defs_text(m.sig.inputs@, 1, m.sig.inputs@.len() - 1) + ") const noexcept ;\n"@
}

pub open spec fn ref_method_decls_join(ms: Seq<CppMethod>, n: int, allow_mut: bool) -> Seq<char>
    decreases n,
{
    if n <= 0 || n > ms.len() {
        Seq::empty()
    } else {
        ref_method_decls_join(ms, n - 1, allow_mut) + (if method_on_view(ms[n - 1], allow_mut) {
            ref_method_decl_text(ms[n - 1])
        } else {
            Seq::<char>::empty()
        })
    }
}

/// The closing brace; the shared view of `Str` befriends the literal
/// operator first.
pub open spec fn ref_close_text(td: CppTypeDefinition, shared: bool) -> Seq<char> {
    if shared && is_str(td) {
        "\n    friend auto ::operator\"\"_rs(const char* input, size_t len) -> ::rust::Ref<::rust::Str>;\n};\n"@
            + "\n"@
    } else {
        "};"@ + "\n"@
    }
}

/// The customization-point specializations of a reference view: data pointer,
/// then the three no-op initialisation operations, then the byte size.
pub open spec fn ref_data_ptr_spec_text(td: CppTypeDefinition, shared: bool) -> Seq<char> {
    "\ntemplate<>\ninline uint8_t* __zngur_internal_data_ptr< "@ + ref_kind_text(shared) + " < "@
        + type_text(td.ty) + " > >(const "@ + ref_kind_text(shared) + "< "@ + type_text(td.ty)
        + " >& t) noexcept {\n    return const_cast<uint8_t*>(reinterpret_cast<const uint8_t*>(&t.data));\n}\n"@
}

pub open spec fn ref_assume_init_spec_text(td: CppTypeDefinition, shared: bool) -> Seq<char> {
    "\ntemplate<>\ninline void __zngur_internal_assume_init< "@ + ref_kind_text(shared) + " < "@
        + type_text(td.ty) + " > >("@ + ref_kind_text(shared) + "< "@ + type_text(td.ty)
        + " >&) noexcept {\n}\n"@
}

pub open spec fn ref_check_init_spec_text(td: CppTypeDefinition, shared: bool) -> Seq<char> {
    "\ntemplate<>\ninline void __zngur_internal_check_init< "@ + ref_kind_text(shared) + " < "@
        + type_text(td.ty) + " > >(const "@ + ref_kind_text(shared) + "< "@ + type_text(td.ty)
        + " >&) noexcept {\n}\n"@
}

pub open spec fn ref_assume_deinit_spec_text(td: CppTypeDefinition, shared: bool) -> Seq<char> {
    "\ntemplate<>\ninline void __zngur_internal_assume_deinit< "@ + ref_kind_text(shared) + " < "@
        + type_text(td.ty) + " > >("@ + ref_kind_text(shared) + "< "@ + type_text(td.ty)
        + " >&) noexcept {\n}\n"@
}

pub open spec fn ref_size_of_spec_text(td: CppTypeDefinition, shared: bool) -> Seq<char> {
    "\ntemplate<>\ninline size_t __zngur_internal_size_of< "@ + ref_kind_text(shared) + " < "@
        + type_text(td.ty) + " > >() noexcept {\n    return "@ + (if is_unsized(td) {
        dec_text(16)
    } else {
        dec_text(8)
    }) + ";\n}\n}"@ + "\n"@
}

pub open spec fn ref_internal_specs_text(td: CppTypeDefinition, shared: bool) -> Seq<char> {
    ref_data_ptr_spec_text(td, shared) + ref_assume_init_spec_text(td, shared)
        + ref_check_init_spec_text(td, shared) + ref_assume_deinit_spec_text(td, shared)
        + ref_size_of_spec_text(td, shared)
}

/// The string-literal operator definition, after the shared view of `Str`.
pub open spec fn ref_str_op_text(td: CppTypeDefinition, shared: bool) -> Seq<char> {
    if shared && is_str(td) {
        "\ninline ::rust::Ref<::rust::Str> operator\"\"_rs(const char* input, size_t len) {\n    ::rust::Ref<::rust::Str> o;\n    o.data[0] = reinterpret_cast<size_t>(input);\n    o.data[1] = len;\n    return o;\n}\n                    "@
            + "\n"@
    } else {
        Seq::<char>::empty()
    }
}

/// The struct opening of a reference view.
pub open spec fn ref_h1_text(td: CppTypeDefinition, shared: bool) -> Seq<char> {
    ref_str_decl_text(td, shared) + ref_open_text(td, shared)
}

/// The conversions and construction bridges of a reference view.
pub open spec fn ref_h2_text(
    td: CppTypeDefinition,
    traits: Seq<CppTraitDefinition>,
    shared: bool,
) -> Seq<char> {
    ref_conversions_text(td, shared) + ref_from_trait_text(td, traits, shared)
        + ref_cpp_value_text(td)
}

/// The first half of a reference view: up to the embedded-value accessor.
pub open spec fn ref_spec_kind_head_text(
    td: CppTypeDefinition,
    traits: Seq<CppTraitDefinition>,
    shared: bool,
) -> Seq<char> {
    ref_h1_text(td, shared) + ref_h2_text(td, traits, shared)
}

/// The accessors and method declarations of a reference view.
pub open spec fn ref_t1_text(td: CppTypeDefinition, shared: bool) -> Seq<char> {
    ref_cpp_ref_text(td, shared) + ref_method_decls_join(
        td.methods@,
        td.methods@.len() as int,
        !shared,
    )
}

/// The closing and customization points of a reference view.
pub open spec fn ref_t2_text(td: CppTypeDefinition, shared: bool) -> Seq<char> {
    ref_close_text(td, shared) + ref_internal_specs_text(td, shared) + ref_str_op_text(td, shared)
}

/// The second half of a reference view: accessors, methods, closing and the
/// customization points.
pub open spec fn ref_spec_kind_tail_text(td: CppTypeDefinition, shared: bool) -> Seq<char> {
    ref_t1_text(td, shared) + ref_t2_text(td, shared)
}

/// One whole reference view of the type.
pub open spec fn ref_spec_kind_text(
    td: CppTypeDefinition,
    traits: Seq<CppTraitDefinition>,
    shared: bool,
) -> Seq<char> {
    ref_spec_kind_head_text(td, traits, shared) + ref_spec_kind_tail_text(td, shared)
}

/// Both reference views, the exclusive one first.
pub open spec fn ref_specialization_text(
    td: CppTypeDefinition,
    traits: Seq<CppTraitDefinition>,
) -> Seq<char> {
    ref_spec_kind_text(td, traits, false) + ref_spec_kind_text(td, traits, true)
}

fn emit_ref_str_decl(td: &CppTypeDefinition, shared: bool, state: &mut State, is_str_ty: bool)
    requires
        is_str_ty == is_str(*td),
    ensures
        final(state).text@ == old(state).text@ + ref_str_decl_text(*td, shared),
        final(state).panic_to_exception == old(state).panic_to_exception,
{
    if shared && is_str_ty {
        state.put(
            "\n    auto operator\"\"_rs(const char* input, size_t len) -> ::rust::Ref<::rust::Str>;\n",
        );
        state.put("\n");
    } else {
        proof {
            assert(old(state).text@ + Seq::<char>::empty() =~= old(state).text@);
        }
    }
}

#[verifier::rlimit(100)]
fn emit_ref_friend_ptr(td: &CppTypeDefinition, shared: bool, kind: &str, state: &mut State)
    requires
        type_wf(td.ty),
        kind@ == ref_kind_text(shared),
    ensures
        final(state).text@ == old(state).text@ + ref_friend_ptr_text(*td, shared),
        final(state).panic_to_exception == old(state).panic_to_exception,
{
    state.put("    friend uint8_t* ::rust::__zngur_internal_data_ptr< ::rust::");
    state.put(kind);
    state.put("< ");
    td.ty.emit_text(state);
    state.put(" > >(const ::rust::");
    state.put(kind);
    state.put("< ");
    td.ty.emit_text(state);
    state.put(" >& t) noexcept ;\n");
}

fn emit_ref_friend_printer(td: &CppTypeDefinition, shared: bool, kind: &str, state: &mut State)
    requires
        type_wf(td.ty),
        kind@ == ref_kind_text(shared),
    ensures
        final(state).text@ == old(state).text@ + ref_friend_printer_text(*td, shared),
        final(state).panic_to_exception == old(state).panic_to_exception,
{
    state.put("    friend ::rust::ZngurPrettyPrinter< ::rust::");
    state.put(kind);
    state.put("< ");
    td.ty.emit_text(state);
    state.put(" > >;\n");
    state.put("\n");
}

#[verifier::rlimit(100)]
fn emit_ref_open_unsized(td: &CppTypeDefinition, shared: bool, kind: &str, state: &mut State)
    requires
        type_wf(td.ty),
        kind@ == ref_kind_text(shared),
    ensures
        final(state).text@ == old(state).text@ + ref_open_unsized_text(*td, shared),
        final(state).panic_to_exception == old(state).panic_to_exception,
{
    state.put("\nnamespace rust {\ntemplate<>\nstruct ");
    state.put(kind);
    state.put("< ");
    td.ty.emit_text(state);
    state.put(" > {\n    ");
    state.put(kind);
    state.put("() {\n        data = {0, 0};\n    }\nprivate:\n    ::std::array<size_t, 2> data;\n");
    emit_ref_friend_ptr(td, shared, kind, state);
    emit_ref_friend_printer(td, shared, kind, state);
}

fn emit_ref_field_member(f: &ZngurField, shared: bool, kind: &str, state: &mut State)
    requires
        type_wf(f.ty),
        kind@ == ref_kind_text(shared),
    ensures
        final(state).text@ == old(state).text@ + ref_field_member_text(*f, shared),
        final(state).panic_to_exception == old(state).panic_to_exception,
{
    state.put("[[no_unique_address]] ::rust::Field");
    state.put(kind);
    state.put("<");
    f.ty.emit_text(state);
    state.put(", ");
    state.put_usize(f.offset);
    state.put("> ");
    let fname = cpp_handle_field_name(f.name.as_str());
    state.put(fname.as_str());
    state.put(";\n");
}

fn emit_ref_open_sized_head(td: &CppTypeDefinition, shared: bool, kind: &str, state: &mut State)
    requires
        type_wf(td.ty),
        kind@ == ref_kind_text(shared),
    ensures
        final(state).text@ == old(state).text@ + ref_open_sized_head_text(*td, shared),
        final(state).panic_to_exception == old(state).panic_to_exception,
{
    state.put("\nnamespace rust {\ntemplate<>\nstruct ");
    state.put(kind);
    state.put("< ");
    td.ty.emit_text(state);
    state.put(" > {\n    ");
    state.put(kind);
    state.put("() {\n        data = 0;\n    }\n");
    state.put("\n");
}

#[verifier::rlimit(100)]
fn emit_ref_from_owned_ctor(td: &CppTypeDefinition, shared: bool, kind: &str, state: &mut State)
    requires
        type_wf(td.ty),
        kind@ == ref_kind_text(shared),
    ensures
        final(state).text@ == old(state).text@ + ref_from_owned_ctor_text(*td, shared),
        final(state).panic_to_exception == old(state).panic_to_exception,
{
    state.put("\n    ");
    state.put(kind);
    state.put("(const ");
    td.ty.emit_text(state);
    state.put("& t) {\n        ::rust::__zngur_internal_check_init< ");
    td.ty.emit_text(state);
    state.put(
        " >(t);\n        data = reinterpret_cast<size_t>(__zngur_internal_data_ptr(t));\n    }\n",
    );
    state.put("\n");
}

fn emit_ref_field_members(td: &CppTypeDefinition, shared: bool, kind: &str, state: &mut State)
    requires
        forall|i: int| 0 <= i < td.fields@.len() ==> type_wf(#[trigger] td.fields@[i].ty),
        kind@ == ref_kind_text(shared),
    ensures
        final(state).text@ == old(state).text@ + ref_field_members_join(
            td.fields@,
            shared,
            td.fields@.len() as int,
        ),
        final(state).panic_to_exception == old(state).panic_to_exception,
{
    let nf: usize = td.fields.len();
    let mut i: usize = 0;
    proof {
        assert(old(state).text@ + Seq::<char>::empty() =~= old(state).text@);
    }
    while i < nf
        invariant
            0 <= i <= nf,
            nf == td.fields@.len(),
            forall|k: int| 0 <= k < td.fields@.len() ==> type_wf(#[trigger] td.fields@[k].ty),
            kind@ == ref_kind_text(shared),
            state.text@ == old(state).text@ + ref_field_members_join(
                td.fields@,
                shared,
                i as int,
            ),
            state.panic_to_exception == old(state).panic_to_exception,
        decreases nf - i,
    {
        emit_ref_field_member(&td.fields[i], shared, kind, state);
        i = i + 1;
    }
}

#[verifier::rlimit(100)]
fn emit_ref_open_sized(td: &CppTypeDefinition, shared: bool, kind: &str, state: &mut State)
    requires
        type_wf(td.ty),
        forall|i: int| 0 <= i < td.fields@.len() ==> type_wf(#[trigger] td.fields@[i].ty),
        kind@ == ref_kind_text(shared),
        !is_unsized(*td),
    ensures
        final(state).text@ == old(state).text@ + ref_open_text(*td, shared),
        final(state).panic_to_exception == old(state).panic_to_exception,
{
    emit_ref_open_sized_a(td, shared, kind, state);
    emit_ref_field_members(td, shared, kind, state);
    emit_ref_open_sized_b(td, shared, kind, state);
}

#[verifier::rlimit(100)]
fn emit_ref_open_sized_a(td: &CppTypeDefinition, shared: bool, kind: &str, state: &mut State)
    requires
        type_wf(td.ty),
        kind@ == ref_kind_text(shared),
    ensures
        final(state).text@ == old(state).text@ + ref_open_sized_head_text(*td, shared) + (
        if !only_by_ref(*td) {
            ref_from_owned_ctor_text(*td, shared)
        } else {
            Seq::<char>::empty()
        }),
        final(state).panic_to_exception == old(state).panic_to_exception,
{
    emit_ref_open_sized_head(td, shared, kind, state);
    if !matches!(td.layout, CppLayoutPolicy::OnlyByRef) {
        emit_ref_from_owned_ctor(td, shared, kind, state);
    } else {
        proof {
            assert(state.text@ + Seq::<char>::empty() =~= state.text@);
        }
    }
}

#[verifier::rlimit(100)]
fn emit_ref_open_sized_b(td: &CppTypeDefinition, shared: bool, kind: &str, state: &mut State)
    requires
        type_wf(td.ty),
        kind@ == ref_kind_text(shared),
    ensures
        final(state).text@ == old(state).text@ + ref_open_sized_tail_text(*td, shared),
        final(state).panic_to_exception == old(state).panic_to_exception,
{
    state.put("\nprivate:\n    size_t data;\n");
    emit_ref_friend_ptr(td, shared, kind, state);
    emit_ref_friend_printer(td, shared, kind, state);
}

#[verifier::rlimit(100)]
fn emit_ref_conv_shared_fields(td: &CppTypeDefinition, state: &mut State)
    requires
        type_wf(td.ty),
    ensures
        final(state).text@ == old(state).text@ + ref_conv_shared_fields_text(*td),
        final(state).panic_to_exception == old(state).panic_to_exception,
{
    state.put("\n    template<size_t OFFSET>\n    Ref(const FieldOwned< ");
    td.ty.emit_text(state);
    state.put(
        ", OFFSET >& f) {\n        data = reinterpret_cast<size_t>(&f) + OFFSET;\n    }\n\n    template<size_t OFFSET>\n    Ref(const FieldRef< ",
    );
    td.ty.emit_text(state);
    state.put(
        ", OFFSET >& f) {\n        data = *reinterpret_cast<const size_t*>(&f) + OFFSET;\n    }\n\n    template<size_t OFFSET>\n    Ref(const FieldRefMut< ",
    );
    td.ty.emit_text(state);
    state.put(
        ", OFFSET >& f) {\n        data = *reinterpret_cast<const size_t*>(&f) + OFFSET;\n    }\n    ",
    );
    state.put("\n");
}

#[verifier::rlimit(100)]
fn emit_ref_conv_mut_fields(td: &CppTypeDefinition, state: &mut State)
    requires
        type_wf(td.ty),
    ensures
        final(state).text@ == old(state).text@ + ref_conv_mut_fields_text(*td),
        final(state).panic_to_exception == old(state).panic_to_exception,
{
    state.put("\n    template<size_t OFFSET>\n    RefMut(const FieldOwned< ");
    td.ty.emit_text(state);
    state.put(
        ", OFFSET >& f) {\n        data = reinterpret_cast<size_t>(&f) + OFFSET;\n    }\n\n    template<size_t OFFSET>\n    RefMut(const FieldRefMut< ",
    );
    td.ty.emit_text(state);
    state.put(
        ", OFFSET >& f) {\n        data = *reinterpret_cast<const size_t*>(&f) + OFFSET;\n    }\n    ",
    );
    state.put("\n");
}

fn emit_ref_conversions(td: &CppTypeDefinition, shared: bool, state: &mut State, uns: bool)
    requires
        type_wf(td.ty),
        uns == is_unsized(*td),
    ensures
        final(state).text@ == old(state).text@ + ref_conversions_text(*td, shared),
        final(state).panic_to_exception == old(state).panic_to_exception,
{
    state.put("public:");
    state.put("\n");
    if shared {
        state.put("\n    Ref(RefMut< ");
        td.ty.emit_text(state);
        state.put(" > rm) {\n        data = rm.data;\n    }\n    ");
        state.put("\n");
        if !uns {
            emit_ref_conv_shared_fields(td, state);
        } else {
            proof {
                assert(state.text@ + Seq::<char>::empty() =~= state.text@);
            }
        }
    } else {
        state.put("\n    friend Ref< ");
        td.ty.emit_text(state);
        state.put(" >;\n    ");
        state.put("\n");
        if !uns {
            emit_ref_conv_mut_fields(td, state);
        } else {
            proof {
                assert(state.text@ + Seq::<char>::empty() =~= state.text@);
            }
        }
    }
}

fn emit_ref_from_trait(
    td: &CppTypeDefinition,
    traits: &Vec<CppTraitDefinition>,
    shared: bool,
    kind: &str,
    state: &mut State,
)
    requires
        type_wf(td.ty),
        kind@ == ref_kind_text(shared),
        match td.from_trait_ref {
            Some(i) => i < traits@.len() && trait_wf(traits@[i as int]),
            None => true,
        },
    ensures
        final(state).text@ == old(state).text@ + ref_from_trait_text(*td, traits@, shared),
        final(state).panic_to_exception == old(state).panic_to_exception,
{
    match &td.from_trait_ref {
        None => {
            proof {
                assert(old(state).text@ + Seq::<char>::empty() =~= old(state).text@);
            }
        },
        Some(i) => {
            match &traits[*i] {
                CppTraitDefinition::Fn { sig } => {
                    state.put("\ninline ");
                    state.put(td.ty.path.name());
                    state.put("(");
                    state.put_std_function(sig);
                    state.put(" f);\n");
                    state.put("\n");
                },
                CppTraitDefinition::Normal { as_ty, .. } => {
                    state.put("\n            inline ");
                    state.put(kind);
                    state.put("(");
                    as_ty.emit_text(state);
                    state.put("& arg);\n            ");
                    state.put("\n");
                },
            }
        },
    }
}

#[verifier::rlimit(100)]
fn emit_ref_cpp_value(td: &CppTypeDefinition, state: &mut State)
    ensures
        final(state).text@ == old(state).text@ + ref_cpp_value_text(*td),
        final(state).panic_to_exception == old(state).panic_to_exception,
{
    match &td.cpp_value {
        Some(v) => {
            state.put("\n                inline ");
            state.put(v.1.as_str());
            state.put("& cpp() {\n                    return (*");
            state.put(v.0.as_str());
            state.put("(reinterpret_cast<uint8_t*>(data))).as_cpp< ");
            state.put(v.1.as_str());
            state.put(" >();\n                }");
            state.put("\n");
        },
        None => {
            proof {
                assert(old(state).text@ + Seq::<char>::empty() =~= old(state).text@);
            }
        },
    }
}

#[verifier::rlimit(100)]
fn emit_ref_cpp_ref(td: &CppTypeDefinition, shared: bool, kind: &str, state: &mut State)
    requires
        kind@ == ref_kind_text(shared),
    ensures
        final(state).text@ == old(state).text@ + ref_cpp_ref_text(*td, shared),
        final(state).panic_to_exception == old(state).panic_to_exception,
{
    match &td.cpp_ref {
        Some(c) => {
            state.put("\n                inline ");
            state.put(c.as_str());
            state.put("& cpp() {\n                    return *reinterpret_cast< ");
            state.put(c.as_str());
            state.put("* >(data);\n                }");
            state.put("\n");
            state.put("\n                inline ");
            state.put(kind);
            state.put("(const ");
            state.put(c.as_str());
            state.put("& t) : data(reinterpret_cast<size_t>(&t)) {}");
            state.put("\n");
        },
        None => {
            proof {
                assert(old(state).text@ + Seq::<char>::empty() =~= old(state).text@);
            }
        },
    }
}

fn emit_ref_method_decl(m: &CppMethod, state: &mut State)
    requires
        sig_wf(m.sig),
        m.sig.inputs@.len() >= 1,
    ensures
        final(state).text@ == old(state).text@ + ref_method_decl_text(*m),
        final(state).panic_to_exception == old(state).panic_to_exception,
{
    m.sig.output.emit_text(state);
    state.put(" ");
    state.put(m.name.as_str());
    state.put("(");
    let rest: usize = if m.sig.inputs.len() <= 1 {
        0
    } else {
        m.sig.inputs.len() - 1
    };
    state.put_dyn_api_def(rest);
    state.put_input_defs(&m.sig.inputs, 1);
    state.put(") const noexcept ;\n");
}

fn emit_ref_method_decls(td: &CppTypeDefinition, allow_mut: bool, state: &mut State)
    requires
        forall|i: int|
            0 <= i < td.methods@.len() ==> sig_wf(#[trigger] td.methods@[i].sig) && (!(
            td.methods@[i].kind is Static) ==> td.methods@[i].sig.inputs@.len() >= 1),
    ensures
        final(state).text@ == old(state).text@ + ref_method_decls_join(
            td.methods@,
            td.methods@.len() as int,
            allow_mut,
        ),
        final(state).panic_to_exception == old(state).panic_to_exception,
{
    let nm: usize = td.methods.len();
    let mut j: usize = 0;
    proof {
        assert(old(state).text@ + Seq::<char>::empty() =~= old(state).text@);
    }
    while j < nm
        invariant
            0 <= j <= nm,
            nm == td.methods@.len(),
            forall|k: int|
                0 <= k < td.methods@.len() ==> sig_wf(#[trigger] td.methods@[k].sig) && (!(
                td.methods@[k].kind is Static) ==> td.methods@[k].sig.inputs@.len() >= 1),
            state.text@ == old(state).text@ + ref_method_decls_join(
                td.methods@,
                j as int,
                allow_mut,
            ),
            state.panic_to_exception == old(state).panic_to_exception,
        decreases nm - j,
    {
        let declared = match &td.methods[j].kind {
            ZngurMethodReceiver::Ref(mu) => allow_mut || matches!(mu, Mutability::Not),
            _ => false,
        };
        if declared {
            emit_ref_method_decl(&td.methods[j], state);
        } else {
            proof {
                assert(state.text@ + Seq::<char>::empty() =~= state.text@);
            }
        }
        j = j + 1;
    }
}

fn emit_ref_close(td: &CppTypeDefinition, shared: bool, state: &mut State, is_str_ty: bool)
    requires
        is_str_ty == is_str(*td),
    ensures
        final(state).text@ == old(state).text@ + ref_close_text(*td, shared),
        final(state).panic_to_exception == old(state).panic_to_exception,
{
    if shared && is_str_ty {
        state.put(
            "\n    friend auto ::operator\"\"_rs(const char* input, size_t len) -> ::rust::Ref<::rust::Str>;\n};\n",
        );
        state.put("\n");
    } else {
        state.put("};");
        state.put("\n");
    }
}

fn emit_ref_data_ptr_spec(td: &CppTypeDefinition, shared: bool, kind: &str, state: &mut State)
    requires
        type_wf(td.ty),
        kind@ == ref_kind_text(shared),
    ensures
        final(state).text@ == old(state).text@ + ref_data_ptr_spec_text(*td, shared),
        final(state).panic_to_exception == old(state).panic_to_exception,
{
    state.put("\ntemplate<>\ninline uint8_t* __zngur_internal_data_ptr< ");
    state.put(kind);
    state.put(" < ");
    td.ty.emit_text(state);
    state.put(" > >(const ");
    state.put(kind);
    state.put("< ");
    td.ty.emit_text(state);
    state.put(
        " >& t) noexcept {\n    return const_cast<uint8_t*>(reinterpret_cast<const uint8_t*>(&t.data));\n}\n",
    );
}

fn emit_ref_assume_init_spec(td: &CppTypeDefinition, shared: bool, kind: &str, state: &mut State)
    requires
        type_wf(td.ty),
        kind@ == ref_kind_text(shared),
    ensures
        final(state).text@ == old(state).text@ + ref_assume_init_spec_text(*td, shared),
        final(state).panic_to_exception == old(state).panic_to_exception,
{
    state.put("\ntemplate<>\ninline void __zngur_internal_assume_init< ");
    state.put(kind);
    state.put(" < ");
    td.ty.emit_text(state);
    state.put(" > >(");
    state.put(kind);
    state.put("< ");
    td.ty.emit_text(state);
    state.put(" >&) noexcept {\n}\n");
}

fn emit_ref_check_init_spec(td: &CppTypeDefinition, shared: bool, kind: &str, state: &mut State)
    requires
        type_wf(td.ty),
        kind@ == ref_kind_text(shared),
    ensures
        final(state).text@ == old(state).text@ + ref_check_init_spec_text(*td, shared),
        final(state).panic_to_exception == old(state).panic_to_exception,
{
    state.put("\ntemplate<>\ninline void __zngur_internal_check_init< ");
    state.put(kind);
    state.put(" < ");
    td.ty.emit_text(state);
    state.put(" > >(const ");
    state.put(kind);
    state.put("< ");
    td.ty.emit_text(state);
    state.put(" >&) noexcept {\n}\n");
}

fn emit_ref_assume_deinit_spec(td: &CppTypeDefinition, shared: bool, kind: &str, state: &mut State)
    requires
        type_wf(td.ty),
        kind@ == ref_kind_text(shared),
    ensures
        final(state).text@ == old(state).text@ + ref_assume_deinit_spec_text(*td, shared),
        final(state).panic_to_exception == old(state).panic_to_exception,
{
    state.put("\ntemplate<>\ninline void __zngur_internal_assume_deinit< ");
    state.put(kind);
    state.put(" < ");
    td.ty.emit_text(state);
    state.put(" > >(");
    state.put(kind);
    state.put("< ");
    td.ty.emit_text(state);
    state.put(" >&) noexcept {\n}\n");
}

fn emit_ref_size_of_spec(
    td: &CppTypeDefinition,
    shared: bool,
    kind: &str,
    state: &mut State,
    uns: bool,
)
    requires
        type_wf(td.ty),
        kind@ == ref_kind_text(shared),
        uns == is_unsized(*td),
    ensures
        final(state).text@ == old(state).text@ + ref_size_of_spec_text(*td, shared),
        final(state).panic_to_exception == old(state).panic_to_exception,
{
    state.put("\ntemplate<>\ninline size_t __zngur_internal_size_of< ");
    state.put(kind);
    state.put(" < ");
    td.ty.emit_text(state);
    state.put(" > >() noexcept {\n    return ");
    if uns {
        state.put_usize(16);
    } else {
        state.put_usize(8);
    }
    state.put(";\n}\n}");
    state.put("\n");
}

#[verifier::rlimit(100)]
fn emit_ref_internal_specs(
    td: &CppTypeDefinition,
    shared: bool,
    kind: &str,
    state: &mut State,
    uns: bool,
)
    requires
        type_wf(td.ty),
        kind@ == ref_kind_text(shared),
        uns == is_unsized(*td),
    ensures
        final(state).text@ == old(state).text@ + ref_internal_specs_text(*td, shared),
        final(state).panic_to_exception == old(state).panic_to_exception,
{
    emit_ref_data_ptr_spec(td, shared, kind, state);
    emit_ref_assume_init_spec(td, shared, kind, state);
    emit_ref_check_init_spec(td, shared, kind, state);
    emit_ref_assume_deinit_spec(td, shared, kind, state);
    emit_ref_size_of_spec(td, shared, kind, state, uns);
}

fn emit_ref_str_op(td: &CppTypeDefinition, shared: bool, state: &mut State, is_str_ty: bool)
    requires
        is_str_ty == is_str(*td),
    ensures
        final(state).text@ == old(state).text@ + ref_str_op_text(*td, shared),
        final(state).panic_to_exception == old(state).panic_to_exception,
{
    if shared && is_str_ty {
        state.put(
            "\ninline ::rust::Ref<::rust::Str> operator\"\"_rs(const char* input, size_t len) {\n    ::rust::Ref<::rust::Str> o;\n    o.data[0] = reinterpret_cast<size_t>(input);\n    o.data[1] = len;\n    return o;\n}\n                    ",
        );
        state.put("\n");
    } else {
        proof {
            assert(old(state).text@ + Seq::<char>::empty() =~= old(state).text@);
        }
    }
}

impl CppTypeDefinition {
    #[verifier::rlimit(100)]
    fn emit_ref_spec_kind_head(
        &self,
        traits: &Vec<CppTraitDefinition>,
        shared: bool,
        kind: &str,
        state: &mut State,
    )
        requires
            td_wf(*self, traits@),
            kind@ == ref_kind_text(shared),
        ensures
            final(state).text@ == old(state).text@ + ref_spec_kind_head_text(
                *self,
                traits@,
                shared,
            ),
            final(state).panic_to_exception == old(state).panic_to_exception,
    {
        self.emit_ref_h1(shared, kind, state);
        self.emit_ref_h2(traits, shared, kind, state);
    }

    #[verifier::rlimit(100)]
    fn emit_ref_h1(&self, shared: bool, kind: &str, state: &mut State)
        requires
            type_wf(self.ty),
            forall|i: int| 0 <= i < self.fields@.len() ==> type_wf(#[trigger] self.fields@[i].ty),
            kind@ == ref_kind_text(shared),
        ensures
            final(state).text@ == old(state).text@ + ref_h1_text(*self, shared),
            final(state).panic_to_exception == old(state).panic_to_exception,
    {
        let is_str_ty = self.is_str_exec();
        let uns = self.is_unsized_exec();
        emit_ref_str_decl(self, shared, state, is_str_ty);
        if uns {
            emit_ref_open_unsized(self, shared, kind, state);
        } else {
            emit_ref_open_sized(self, shared, kind, state);
        }
    }

    #[verifier::rlimit(100)]
    fn emit_ref_h2(
        &self,
        traits: &Vec<CppTraitDefinition>,
        shared: bool,
        kind: &str,
        state: &mut State,
    )
        requires
            type_wf(self.ty),
            kind@ == ref_kind_text(shared),
            match self.from_trait_ref {
                Some(i) => i < traits@.len() && trait_wf(traits@[i as int]),
                None => true,
            },
        ensures
            final(state).text@ == old(state).text@ + ref_h2_text(*self, traits@, shared),
            final(state).panic_to_exception == old(state).panic_to_exception,
    {
        let uns = self.is_unsized_exec();
        emit_ref_conversions(self, shared, state, uns);
        emit_ref_from_trait(self, traits, shared, kind, state);
        emit_ref_cpp_value(self, state);
    }

    #[verifier::rlimit(100)]
    fn emit_ref_spec_kind_tail(&self, shared: bool, kind: &str, state: &mut State)
        requires
            type_wf(self.ty),
            forall|i: int|
                0 <= i < self.methods@.len() ==> sig_wf(#[trigger] self.methods@[i].sig) && (!(
                self.methods@[i].kind is Static) ==> self.methods@[i].sig.inputs@.len() >= 1),
            kind@ == ref_kind_text(shared),
        ensures
            final(state).text@ == old(state).text@ + ref_spec_kind_tail_text(*self, shared),
            final(state).panic_to_exception == old(state).panic_to_exception,
    {
        self.emit_ref_t1(shared, kind, state);
        self.emit_ref_t2(shared, kind, state);
    }

    #[verifier::rlimit(100)]
    fn emit_ref_t1(&self, shared: bool, kind: &str, state: &mut State)
        requires
            type_wf(self.ty),
            forall|i: int|
                0 <= i < self.methods@.len() ==> sig_wf(#[trigger] self.methods@[i].sig) && (!(
                self.methods@[i].kind is Static) ==> self.methods@[i].sig.inputs@.len() >= 1),
            kind@ == ref_kind_text(shared),
        ensures
            final(state).text@ == old(state).text@ + ref_t1_text(*self, shared),
            final(state).panic_to_exception == old(state).panic_to_exception,
    {
        emit_ref_cpp_ref(self, shared, kind, state);
        emit_ref_method_decls(self, !shared, state);
    }

    #[verifier::rlimit(100)]
    fn emit_ref_t2(&self, shared: bool, kind: &str, state: &mut State)
        requires
            type_wf(self.ty),
            kind@ == ref_kind_text(shared),
        ensures
            final(state).text@ == old(state).text@ + ref_t2_text(*self, shared),
            final(state).panic_to_exception == old(state).panic_to_exception,
    {
        let is_str_ty = self.is_str_exec();
        let uns = self.is_unsized_exec();
        emit_ref_close(self, shared, state, is_str_ty);
        emit_ref_internal_specs(self, shared, kind, state, uns);
        emit_ref_str_op(self, shared, state, is_str_ty);
    }

    #[verifier::rlimit(100)]
    fn emit_ref_spec_kind(
        &self,
        traits: &Vec<CppTraitDefinition>,
        shared: bool,
        kind: &str,
        state: &mut State,
    )
        requires
            td_wf(*self, traits@),
            kind@ == ref_kind_text(shared),
        ensures
            final(state).text@ == old(state).text@ + ref_spec_kind_text(*self, traits@, shared),
            final(state).panic_to_exception == old(state).panic_to_exception,
    {
        self.emit_ref_spec_kind_head(traits, shared, kind, state);
        self.emit_ref_spec_kind_tail(shared, kind, state);
    }

    /// The two borrow views of this type, the exclusive one first; their
    /// initialisation operations are no-ops and they never destroy, and a
    /// mutating method is absent from the shared view.
    #[verifier::rlimit(100)]
    pub fn emit_ref_specialization(
        &self,
        traits: &Vec<CppTraitDefinition>,
        state: &mut State,
    )
        requires
            td_wf(*self, traits@),
        ensures
            final(state).text@ == old(state).text@ + ref_specialization_text(*self, traits@),
            final(state).panic_to_exception == old(state).panic_to_exception,
    {
        self.emit_ref_spec_kind(traits, false, "RefMut", state);
        self.emit_ref_spec_kind(traits, true, "Ref", state);
    }
}

impl Default for CppTypeDefinition {
    /// The placeholder a model builder starts from: an unmistakable
    /// fill-me path, no owning representation, and nothing else set.
    fn default() -> (r: Self)
        ensures
            r.ty.path.0@.map_values(|s: String| s@) == seq![
                "fill"@,
                "me"@,
                "you"@,
                "forgot"@,
                "it"@,
            ],
            r.ty.generic_args@.len() == 0,
            r.layout is OnlyByRef,
            r.methods@.len() == 0,
            r.constructors@.len() == 0,
            r.fields@.len() == 0,
            r.from_trait is None,
            r.from_trait_ref is None,
            r.wellknown_traits@.len() == 0,
            r.cpp_value is None,
            r.cpp_ref is None,
    {
        let mut segs: Vec<String> = Vec::new();
        segs.push(String::from_str("fill"));
        segs.push(String::from_str("me"));
        segs.push(String::from_str("you"));
        segs.push(String::from_str("forgot"));
        segs.push(String::from_str("it"));
        proof {
            assert(segs@.map_values(|s: String| s@) =~= seq![
                "fill"@,
                "me"@,
                "you"@,
                "forgot"@,
                "it"@,
            ]);
        }
        CppTypeDefinition {
            ty: crate::ty::CppType {
                path: crate::path::CppPath(segs),
                generic_args: Vec::new(),
            },
            layout: CppLayoutPolicy::OnlyByRef,
            methods: Vec::new(),
            constructors: Vec::new(),
            fields: Vec::new(),
            wellknown_traits: Vec::new(),
            from_trait: None,
            from_trait_ref: None,
            cpp_value: None,
            cpp_ref: None,
        }
    }
}

/// The view filter spelled out: a mutating receiver is admitted only on
/// exclusive views, a shared receiver on every view, and static or by-value
/// receivers on none.
pub proof fn lemma_method_on_view(m: CppMethod)
    ensures
        m.kind == (ZngurMethodReceiver::Ref(Mutability::Mut)) ==> !method_on_view(m, false)
            && method_on_view(m, true),
        m.kind == (ZngurMethodReceiver::Ref(Mutability::Not)) ==> method_on_view(m, false)
            && method_on_view(m, true),
        (m.kind is Static || m.kind is Move) ==> !method_on_view(m, false) && !method_on_view(
            m,
            true,
        ),
{
}

proof fn lemma_ref_decls_agree(ms1: Seq<CppMethod>, ms2: Seq<CppMethod>, n: int, allow_mut: bool)
    requires
        0 <= n <= ms1.len(),
        n <= ms2.len(),
        forall|k: int| 0 <= k < n ==> ms1[k] == ms2[k],
    ensures
        ref_method_decls_join(ms1, n, allow_mut) == ref_method_decls_join(ms2, n, allow_mut),
    decreases n,
{
    if n > 0 {
        lemma_ref_decls_agree(ms1, ms2, n - 1, allow_mut);
    }
}

/// A method with a mutating receiver is never declared on the shared
/// reference view: the shared view's declarations over a method list are
/// exactly those over the list with the mutating method taken out.
pub proof fn lemma_shared_view_omits_mut_method(ms: Seq<CppMethod>, i: int, n: int)
    requires
        0 <= i < n <= ms.len(),
        ms[i].kind == (ZngurMethodReceiver::Ref(Mutability::Mut)),
    ensures
        ref_method_decls_join(ms, n, false) == ref_method_decls_join(ms.remove(i), n - 1, false),
    decreases n,
{
    ms.remove_ensures(i);
    if n - 1 == i {
        assert(!method_on_view(ms[i], false));
        assert(ref_method_decls_join(ms, n, false) == ref_method_decls_join(ms, n - 1, false)
            + Seq::<char>::empty());
        assert(ref_method_decls_join(ms, n - 1, false) + Seq::<char>::empty()
            =~= ref_method_decls_join(ms, n - 1, false));
        lemma_ref_decls_agree(ms, ms.remove(i), n - 1, false);
    } else {
        lemma_shared_view_omits_mut_method(ms, i, n - 1);
        assert(ms.remove(i)[n - 2] == ms[n - 1]);
    }
}

proof fn lemma_field_decls_agree(ms1: Seq<CppMethod>, ms2: Seq<CppMethod>, n: int, allow_mut: bool)
    requires
        0 <= n <= ms1.len(),
        n <= ms2.len(),
        forall|k: int| 0 <= k < n ==> ms1[k] == ms2[k],
    ensures
        field_method_decls_join(ms1, n, allow_mut) == field_method_decls_join(ms2, n, allow_mut),
    decreases n,
{
    if n > 0 {
        lemma_field_decls_agree(ms1, ms2, n - 1, allow_mut);
    }
}

/// The shared field projection likewise omits every mutating method.
pub proof fn lemma_shared_field_omits_mut_method(ms: Seq<CppMethod>, i: int, n: int)
    requires
        0 <= i < n <= ms.len(),
        ms[i].kind == (ZngurMethodReceiver::Ref(Mutability::Mut)),
    ensures
        field_method_decls_join(ms, n, false) == field_method_decls_join(
            ms.remove(i),
            n - 1,
            false,
        ),
    decreases n,
{
    ms.remove_ensures(i);
    if n - 1 == i {
        assert(!method_on_view(ms[i], false));
        assert(field_method_decls_join(ms, n, false) == field_method_decls_join(ms, n - 1, false)
            + Seq::<char>::empty());
        assert(field_method_decls_join(ms, n - 1, false) + Seq::<char>::empty()
            =~= field_method_decls_join(ms, n - 1, false));
        lemma_field_decls_agree(ms, ms.remove(i), n - 1, false);
    } else {
        lemma_shared_field_omits_mut_method(ms, i, n - 1);
        assert(ms.remove(i)[n - 2] == ms[n - 1]);
    }
}

} // verus!
