//! Trait bridges: single-call closure traits register a payload with a
//! destructor and a call thunk; general traits become an abstract interface
//! whose methods are reached through trampoline functions.

use vstd::prelude::*;
use crate::text::{State, dec_text};
use crate::ty::{CppType, type_wf, type_text, specialization_decl_text};
use crate::path::{path_wf, ns_open_text, ns_close_text};
use crate::sig::{CppFnSig, CppTraitMethod, sig_wf, uint8_ptr_commas_text, input_defs_text,
    move_from_rust_args_text};

verus! {

/// A trait definition: a single-call closure shape, or a general
/// dynamic-dispatch interface with its registration link names.
#[derive(Debug)]
pub enum CppTraitDefinition {
    Fn { sig: CppFnSig },
    Normal {
        as_ty: CppType,
        methods: Vec<CppTraitMethod>,
        link_name: String,
        link_name_ref: String,
    },
}

pub open spec fn trait_method_wf(m: CppTraitMethod) -> bool {
    (forall|i: int| 0 <= i < m.inputs@.len() ==> type_wf(#[trigger] m.inputs@[i])) && type_wf(
        m.output,
    )
}

pub open spec fn trait_wf(t: CppTraitDefinition) -> bool {
    match t {
        CppTraitDefinition::Fn { sig } => sig_wf(sig),
        CppTraitDefinition::Normal { as_ty, methods, .. } => type_wf(as_ty) && path_wf(as_ty.path)
            && (forall|i: int|
            0 <= i < methods@.len() ==> trait_method_wf(#[trigger] methods@[i])),
    }
}

/// `, uint8_t* i0, uint8_t* i1` ... one raw slot per trampoline input.
pub open spec fn comma_uint8_args_text(n: int) -> Seq<char>
    decreases n,
{
    if n <= 0 {
        Seq::empty()
    } else {
        comma_uint8_args_text(n - 1) + ", uint8_t* i"@ + dec_text((n - 1) as nat)
    }
}

/// The boundary declarations a trait requires: one registration symbol for a
/// closure (payload, destructor and call thunk), or two for a general trait
/// (owned and borrowed registration).
pub open spec fn trait_rust_links_text(t: CppTraitDefinition) -> Seq<char> {
    match t {
        CppTraitDefinition::Fn { sig } => "void "@ + sig.rust_link_name@
            + "(uint8_t *data, void destructor(uint8_t *),\n                void call(uint8_t *, "@
            + uint8_ptr_commas_text(sig.inputs@.len() as int)
            + " uint8_t *),\n                uint8_t *o);"@ + "\n"@,
        CppTraitDefinition::Normal { as_ty: _, methods: _, link_name, link_name_ref } => "void "@
            + link_name@ + "(uint8_t *data, void destructor(uint8_t *), uint8_t *o);"@ + "\n"@
            + "void "@ + link_name_ref@ + "(uint8_t *data, uint8_t *o);"@ + "\n"@,
    }
}

/// One pure-virtual method declaration of the abstract interface.
pub open spec fn trait_virtual_method_text(m: CppTraitMethod) -> Seq<char> {
    "\n            virtual "@ + type_text(m.output) + " "@ + m.name@ + "("@ + input_defs_text(
        m.inputs@,
        0,
        m.inputs@.len() as int,
    ) + ") = 0;\n    "@
}

pub open spec fn trait_virtual_methods_join(methods: Seq<CppTraitMethod>, n: int) -> Seq<char>
    decreases n,
{
    if n <= 0 || n > methods.len() {
        Seq::empty()
    } else {
        trait_virtual_methods_join(methods, n - 1) + trait_virtual_method_text(methods[n - 1])
    }
}

/// The abstract interface type for a general trait; closures get none.
pub open spec fn trait_def_text(t: CppTraitDefinition) -> Seq<char> {
    match t {
        CppTraitDefinition::Fn { .. } => Seq::<char>::empty(),
        CppTraitDefinition::Normal { as_ty, methods, .. } => ns_open_text(
            as_ty.path,
            as_ty.path.0@.len() - 1,
        ) + specialization_decl_text(as_ty) + "{\n    public:\n        virtual ~"@
            + as_ty.path.0@.last()@ + "() {}\n    "@ + trait_virtual_methods_join(
            methods@,
            methods@.len() as int,
        ) + "\n    };\n    "@ + ns_close_text(as_ty.path.0@.len() - 1),
    }
}

/// The prototype line of one trampoline.
pub open spec fn trampoline_head_text(m: CppTraitMethod, as_ty: CppType) -> Seq<char> {
    "void "@ + m.rust_link_name@ + "(uint8_t* data"@ + comma_uint8_args_text(
        m.inputs@.len() as int,
    ) + ", uint8_t* o) {"@ + "\n"@ + "   "@ + type_text(as_ty)
        + "* data_typed = reinterpret_cast< "@ + type_text(as_ty) + "* >(data);"@ + "\n"@
}

/// The body of one trampoline: unmarshal, virtual call, marshal back.
pub open spec fn trampoline_tail_text(m: CppTraitMethod) -> Seq<char> {
    "   "@ + type_text(m.output) + " oo = data_typed->"@ + m.name@ + "("@
        + move_from_rust_args_text(m.inputs@, m.inputs@.len() as int) + ");"@
        + "   ::rust::__zngur_internal_move_to_rust(o, oo);"@ + "\n"@ + "}"@ + "\n"@
}

pub open spec fn trampolines_join(methods: Seq<CppTraitMethod>, as_ty: CppType, n: int) -> Seq<
    char,
>
    decreases n,
{
    if n <= 0 || n > methods.len() {
        Seq::empty()
    } else {
        trampolines_join(methods, as_ty, n - 1) + trampoline_head_text(methods[n - 1], as_ty)
            + trampoline_tail_text(methods[n - 1])
    }
}

/// The `extern "C"` trampoline definitions for a general trait.
pub open spec fn trait_cpp_text(t: CppTraitDefinition) -> Seq<char> {
    match t {
        CppTraitDefinition::Fn { .. } => Seq::<char>::empty(),
        CppTraitDefinition::Normal { as_ty, methods, .. } => trampolines_join(
            methods@,
            as_ty,
            methods@.len() as int,
        ),
    }
}

impl State {
    fn put_comma_uint8_args(&mut self, n: usize)
        ensures
            final(self).text@ == old(self).text@ + comma_uint8_args_text(n as int),
            final(self).panic_to_exception == old(self).panic_to_exception,
    {
        let mut i: usize = 0;
        proof {
            assert(old(self).text@ + Seq::<char>::empty() =~= old(self).text@);
        }
        while i < n
            invariant
                0 <= i <= n,
                self.text@ == old(self).text@ + comma_uint8_args_text(i as int),
                self.panic_to_exception == old(self).panic_to_exception,
            decreases n - i,
        {
            self.put(", uint8_t* i");
            self.put_usize(i);
            i = i + 1;
        }
    }
}

fn emit_virtual_method(m: &CppTraitMethod, state: &mut State)
    requires
        trait_method_wf(*m),
    ensures
        final(state).text@ == old(state).text@ + trait_virtual_method_text(*m),
        final(state).panic_to_exception == old(state).panic_to_exception,
{
    state.put("\n            virtual ");
    m.output.emit_text(state);
    state.put(" ");
    state.put(m.name.as_str());
    state.put("(");
    state.put_input_defs(&m.inputs, 0);
    state.put(") = 0;\n    ");
}

#[verifier::rlimit(100)]
fn emit_trampoline_head(m: &CppTraitMethod, as_ty: &CppType, state: &mut State)
    requires
        trait_method_wf(*m),
        type_wf(*as_ty),
    ensures
        final(state).text@ == old(state).text@ + trampoline_head_text(*m, *as_ty),
        final(state).panic_to_exception == old(state).panic_to_exception,
{
    state.put("void ");
    state.put(m.rust_link_name.as_str());
    state.put("(uint8_t* data");
    state.put_comma_uint8_args(m.inputs.len());
    state.put(", uint8_t* o) {");
    state.put("\n");
    state.put("   ");
    as_ty.emit_text(state);
    state.put("* data_typed = reinterpret_cast< ");
    as_ty.emit_text(state);
    state.put("* >(data);");
    state.put("\n");
}

#[verifier::rlimit(100)]
fn emit_trampoline_tail(m: &CppTraitMethod, state: &mut State)
    requires
        trait_method_wf(*m),
    ensures
        final(state).text@ == old(state).text@ + trampoline_tail_text(*m),
        final(state).panic_to_exception == old(state).panic_to_exception,
{
    state.put("   ");
    m.output.emit_text(state);
    state.put(" oo = data_typed->");
    state.put(m.name.as_str());
    state.put("(");
    state.put_move_from_rust_args(&m.inputs);
    state.put(");");
    state.put("   ::rust::__zngur_internal_move_to_rust(o, oo);");
    state.put("\n");
    state.put("}");
    state.put("\n");
}

fn emit_trampoline(m: &CppTraitMethod, as_ty: &CppType, state: &mut State)
    requires
        trait_method_wf(*m),
        type_wf(*as_ty),
    ensures
        final(state).text@ == old(state).text@ + trampoline_head_text(*m, *as_ty)
            + trampoline_tail_text(*m),
        final(state).panic_to_exception == old(state).panic_to_exception,
{
    emit_trampoline_head(m, as_ty, state);
    emit_trampoline_tail(m, state);
}

impl CppTraitDefinition {
    /// The boundary declarations this trait adds to the `extern "C"` block.
    pub fn emit_rust_links(&self, state: &mut State)
        ensures
            final(state).text@ == old(state).text@ + trait_rust_links_text(*self),
            final(state).panic_to_exception == old(state).panic_to_exception,
    {
        match self {
            CppTraitDefinition::Fn { sig } => {
                state.put("void ");
                state.put(sig.rust_link_name.as_str());
                state.put(
                    "(uint8_t *data, void destructor(uint8_t *),\n                void call(uint8_t *, ",
                );
                state.put_uint8_ptr_commas(sig.inputs.len());
                state.put(" uint8_t *),\n                uint8_t *o);");
                state.put("\n");
            },
            CppTraitDefinition::Normal { as_ty: _, methods: _, link_name, link_name_ref } => {
                state.put("void ");
                state.put(link_name.as_str());
                state.put("(uint8_t *data, void destructor(uint8_t *), uint8_t *o);");
                state.put("\n");
                state.put("void ");
                state.put(link_name_ref.as_str());
                state.put("(uint8_t *data, uint8_t *o);");
                state.put("\n");
            },
        }
    }

    /// The abstract interface with one pure-virtual method per trait method.
    #[verifier::loop_isolation(false)]
    #[verifier::rlimit(100)]
    pub fn emit(&self, state: &mut State)
        requires
            trait_wf(*self),
        ensures
            final(state).text@ == old(state).text@ + trait_def_text(*self),
            final(state).panic_to_exception == old(state).panic_to_exception,
    {
        match self {
            CppTraitDefinition::Fn { .. } => {
                proof {
                    assert(old(state).text@ + Seq::<char>::empty() =~= old(state).text@);
                }
            },
            CppTraitDefinition::Normal { as_ty, methods, link_name: _, link_name_ref: _ } => {
                as_ty.path.emit_namespace_open(state);
                as_ty.emit_specialization_decl(state);
                state.put("{\n    public:\n        virtual ~");
                state.put(as_ty.path.name());
                state.put("() {}\n    ");
                let ghost pre = state.text@;
                let n: usize = methods.len();
                let mut i: usize = 0;
                proof {
                    assert(pre + Seq::<char>::empty() =~= pre);
                }
                while i < n
                    invariant
                        0 <= i <= n,
                        state.text@ == pre + trait_virtual_methods_join(methods@, i as int),
                        state.panic_to_exception == old(state).panic_to_exception,
                    decreases n - i,
                {
                    emit_virtual_method(&methods[i], state);
                    i = i + 1;
                }
                state.put("\n    };\n    ");
                as_ty.path.emit_namespace_close(state);
            },
        }
    }

    /// The trampoline definitions for the source unit.
    pub fn emit_cpp(&self, state: &mut State)
        requires
            trait_wf(*self),
        ensures
            final(state).text@ == old(state).text@ + trait_cpp_text(*self),
            final(state).panic_to_exception == old(state).panic_to_exception,
    {
        match self {
            CppTraitDefinition::Fn { .. } => {
                proof {
                    assert(old(state).text@ + Seq::<char>::empty() =~= old(state).text@);
                }
            },
            CppTraitDefinition::Normal { as_ty, methods, link_name: _, link_name_ref: _ } => {
                let n: usize = methods.len();
                let mut i: usize = 0;
                proof {
                    assert(old(state).text@ + Seq::<char>::empty() =~= old(state).text@);
                }
                while i < n
                    invariant
                        0 <= i <= n,
                        n == methods@.len(),
                        type_wf(*as_ty),
                        forall|k: int|
                            0 <= k < methods@.len() ==> trait_method_wf(#[trigger] methods@[k]),
                        state.text@ == old(state).text@ + trampolines_join(
                            methods@,
                            *as_ty,
                            i as int,
                        ),
                        state.panic_to_exception == old(state).panic_to_exception,
                    decreases n - i,
                {
                    emit_trampoline(&methods[i], as_ty, state);
                    i = i + 1;
                }
            },
        }
    }
}

} // verus!
