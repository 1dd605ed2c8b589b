//! Cross-boundary function signatures and the argument-list fragments that
//! every emitter shares: `uint8_t*` slots, typed parameter lists, data-pointer
//! arguments, deinitialisation runs and move chains.

use vstd::prelude::*;
use crate::text::{State, dec_text, panic_handler_text};
use crate::path::{CppPath, path_wf, ns_open_text, ns_close_text};
use crate::ty::{CppType, type_wf, type_text};

verus! {

/// Whether a receiver borrow may mutate.
#[derive(Debug, Clone, Copy, PartialEq, Eq, Structural)]
pub enum Mutability {
    Mut,
    Not,
}

/// How a method takes its receiver.
#[derive(Debug, Clone, Copy, PartialEq, Eq, Structural)]
pub enum ZngurMethodReceiver {
    Static,
    Ref(Mutability),
    Move,
}

/// One signature crossing the boundary: a globally unique link name, inputs
/// and one output.
#[derive(Debug)]
pub struct CppFnSig {
    pub rust_link_name: String,
    pub inputs: Vec<CppType>,
    pub output: CppType,
}

/// A method of a generated trait interface.
#[derive(Debug)]
pub struct CppTraitMethod {
    pub name: String,
    pub rust_link_name: String,
    pub inputs: Vec<CppType>,
    pub output: CppType,
}

/// A free function: a qualified name with its signature.
pub struct CppFnDefinition {
    pub name: CppPath,
    pub sig: CppFnSig,
}

/// A host-implemented function that the managed side calls.
pub struct CppExportedFnDefinition {
    pub name: String,
    pub sig: CppFnSig,
}

/// A host-implemented impl block that the managed side calls.
pub struct CppExportedImplDefinition {
    pub tr: Option<CppType>,
    pub ty: CppType,
    pub methods: Vec<(String, CppFnSig)>,
}

/// A method of an owning type, tagged by its receiver kind.
#[derive(Debug)]
pub struct CppMethod {
    pub name: String,
    pub kind: ZngurMethodReceiver,
    pub sig: CppFnSig,
}

/// The signature a type constructible from a closure is built from.
#[derive(Debug)]
pub struct BuildFromFunction {
    pub sig: CppFnSig,
}

/// A field of an owning type: its name, byte offset and type.
#[derive(Debug)]
pub struct ZngurField {
    pub name: String,
    pub offset: usize,
    pub ty: CppType,
}

pub open spec fn sig_wf(s: CppFnSig) -> bool {
    (forall|i: int| 0 <= i < s.inputs@.len() ==> type_wf(#[trigger] s.inputs@[i])) && type_wf(
        s.output,
    )
}

/// `uint8_t* i0,uint8_t* i1,` ... one raw slot per input.
pub open spec fn uint8_args_text(n: int) -> Seq<char>
    decreases n,
{
    if n <= 0 {
        Seq::empty()
    } else {
        uint8_args_text(n - 1) + "uint8_t* i"@ + dec_text((n - 1) as nat) + ","@
    }
}

/// The dispatch-table parameter, with a trailing comma when more follow.
pub open spec fn dyn_api_def_text(n_rest: int) -> Seq<char> {
    if n_rest == 0 {
        "__zngur_dyn_api* api"@
    } else {
        "__zngur_dyn_api* api, "@
    }
}

/// `ty0 i0, ty1 i1` ... the first `n` inputs after `skip`, typed and named.
pub open spec fn input_defs_text(inputs: Seq<CppType>, skip: int, n: int) -> Seq<char>
    decreases n,
{
    if n <= 0 || skip < 0 || skip + n > inputs.len() {
        Seq::empty()
    } else if n == 1 {
        type_text(inputs[skip]) + " i"@ + dec_text(0)
    } else {
        input_defs_text(inputs, skip, n - 1) + ", "@ + type_text(inputs[skip + n - 1]) + " i"@
            + dec_text((n - 1) as nat)
    }
}

/// `::rust::__zngur_internal_data_ptr(i0), ` ... for each of `n` inputs.
pub open spec fn data_ptr_args_text(n: int) -> Seq<char>
    decreases n,
{
    if n <= 0 {
        Seq::empty()
    } else {
        data_ptr_args_text(n - 1) + "::rust::__zngur_internal_data_ptr(i"@ + dec_text(
            (n - 1) as nat,
        ) + "), "@
    }
}

/// `::rust::__zngur_internal_assume_deinit(i0);` ... joined by newlines.
pub open spec fn deinits_text(n: int) -> Seq<char>
    decreases n,
{
    if n <= 0 {
        Seq::empty()
    } else if n == 1 {
        "::rust::__zngur_internal_assume_deinit(i"@ + dec_text(0) + ");"@
    } else {
        deinits_text(n - 1) + "\n"@ + "::rust::__zngur_internal_assume_deinit(i"@ + dec_text(
            (n - 1) as nat,
        ) + ");"@
    }
}

/// `, ::std::move(i0)` ... for each of `n` forwarded inputs.
pub open spec fn move_args_text(n: int) -> Seq<char>
    decreases n,
{
    if n <= 0 {
        Seq::empty()
    } else {
        move_args_text(n - 1) + ", ::std::move(i"@ + dec_text((n - 1) as nat) + ")"@
    }
}

/// `::rust::__zngur_internal_move_from_rust< ty >(i0)` ... joined by `, `.
pub open spec fn move_from_rust_args_text(inputs: Seq<CppType>, n: int) -> Seq<char>
    decreases n,
{
    if n <= 0 || n > inputs.len() {
        Seq::empty()
    } else if n == 1 {
        "::rust::__zngur_internal_move_from_rust< "@ + type_text(inputs[0]) + " >(i"@ + dec_text(
            0,
        ) + ")"@
    } else {
        move_from_rust_args_text(inputs, n - 1) + ", "@
            + "::rust::__zngur_internal_move_from_rust< "@ + type_text(inputs[n - 1]) + " >(i"@
            + dec_text((n - 1) as nat) + ")"@
    }
}

/// `ty0, ty1` ... the first `n` types joined with `, `.
pub open spec fn types_commas_text(ts: Seq<CppType>, n: int) -> Seq<char>
    decreases n,
{
    if n <= 0 || n > ts.len() {
        Seq::empty()
    } else if n == 1 {
        type_text(ts[0])
    } else {
        types_commas_text(ts, n - 1) + ", "@ + type_text(ts[n - 1])
    }
}

/// The `::std::function< out(in0, in1)>` host type of a closure signature.
pub open spec fn std_function_text(s: CppFnSig) -> Seq<char> {
    "::std::function< "@ + type_text(s.output) + "("@ + types_commas_text(
        s.inputs@,
        s.inputs@.len() as int,
    ) + ")>"@
}

/// `uint8_t* i0, uint8_t* i1,` ... raw slots joined by single spaces.
pub open spec fn uint8_args_space_text(n: int) -> Seq<char>
    decreases n,
{
    if n <= 0 {
        Seq::empty()
    } else if n == 1 {
        "uint8_t* i"@ + dec_text(0) + ","@
    } else {
        uint8_args_space_text(n - 1) + " "@ + "uint8_t* i"@ + dec_text((n - 1) as nat) + ","@
    }
}

/// `uint8_t *, ` repeated for `n` inputs, joined by single spaces.
pub open spec fn uint8_ptr_commas_text(n: int) -> Seq<char>
    decreases n,
{
    if n <= 0 {
        Seq::empty()
    } else if n == 1 {
        "uint8_t *, "@
    } else {
        uint8_ptr_commas_text(n - 1) + " "@ + "uint8_t *, "@
    }
}

impl State {
    pub fn put_uint8_args(&mut self, n: usize)
        ensures
            final(self).text@ == old(self).text@ + uint8_args_text(n as int),
            final(self).panic_to_exception == old(self).panic_to_exception,
    {
        let mut i: usize = 0;
        proof {
            assert(old(self).text@ + Seq::<char>::empty() =~= old(self).text@);
        }
        while i < n
            invariant
                0 <= i <= n,
                self.text@ == old(self).text@ + uint8_args_text(i as int),
                self.panic_to_exception == old(self).panic_to_exception,
            decreases n - i,
        {
            self.put("uint8_t* i");
            self.put_usize(i);
            self.put(",");
            i = i + 1;
        }
    }

    pub fn put_dyn_api_def(&mut self, n_rest: usize)
        ensures
            final(self).text@ == old(self).text@ + dyn_api_def_text(n_rest as int),
            final(self).panic_to_exception == old(self).panic_to_exception,
    {
        if n_rest == 0 {
            self.put("__zngur_dyn_api* api");
        } else {
            self.put("__zngur_dyn_api* api, ");
        }
    }

    /// The typed parameter list of `inputs[skip..]`.
    pub fn put_input_defs(&mut self, inputs: &Vec<CppType>, skip: usize)
        requires
            skip <= inputs@.len(),
            forall|i: int| 0 <= i < inputs@.len() ==> type_wf(#[trigger] inputs@[i]),
        ensures
            final(self).text@ == old(self).text@ + input_defs_text(
                inputs@,
                skip as int,
                inputs@.len() - skip,
            ),
            final(self).panic_to_exception == old(self).panic_to_exception,
    {
        let len: usize = inputs.len();
        let mut j: usize = skip;
        proof {
            assert(old(self).text@ + Seq::<char>::empty() =~= old(self).text@);
        }
        while j < len
            invariant
                skip <= j <= len,
                len == inputs@.len(),
                forall|k: int| 0 <= k < inputs@.len() ==> type_wf(#[trigger] inputs@[k]),
                self.text@ == old(self).text@ + input_defs_text(
                    inputs@,
                    skip as int,
                    j - skip,
                ),
                self.panic_to_exception == old(self).panic_to_exception,
            decreases len - j,
        {
            if j > skip {
                self.put(", ");
            }
            inputs[j].emit_text(self);
            self.put(" i");
            self.put_usize(j - skip);
            j = j + 1;
        }
    }

    pub fn put_data_ptr_args(&mut self, n: usize)
        ensures
            final(self).text@ == old(self).text@ + data_ptr_args_text(n as int),
            final(self).panic_to_exception == old(self).panic_to_exception,
    {
        let mut i: usize = 0;
        proof {
            assert(old(self).text@ + Seq::<char>::empty() =~= old(self).text@);
        }
        while i < n
            invariant
                0 <= i <= n,
                self.text@ == old(self).text@ + data_ptr_args_text(i as int),
                self.panic_to_exception == old(self).panic_to_exception,
            decreases n - i,
        {
            self.put("::rust::__zngur_internal_data_ptr(i");
            self.put_usize(i);
            self.put("), ");
            i = i + 1;
        }
    }

    pub fn put_deinits(&mut self, n: usize)
        ensures
            final(self).text@ == old(self).text@ + deinits_text(n as int),
            final(self).panic_to_exception == old(self).panic_to_exception,
    {
        let mut i: usize = 0;
        proof {
            assert(old(self).text@ + Seq::<char>::empty() =~= old(self).text@);
        }
        while i < n
            invariant
                0 <= i <= n,
                self.text@ == old(self).text@ + deinits_text(i as int),
                self.panic_to_exception == old(self).panic_to_exception,
            decreases n - i,
        {
            if i > 0 {
                self.put("\n");
            }
            self.put("::rust::__zngur_internal_assume_deinit(i");
            self.put_usize(i);
            self.put(");");
            i = i + 1;
        }
    }

    pub fn put_move_args(&mut self, n: usize)
        ensures
            final(self).text@ == old(self).text@ + move_args_text(n as int),
            final(self).panic_to_exception == old(self).panic_to_exception,
    {
        let mut i: usize = 0;
        proof {
            assert(old(self).text@ + Seq::<char>::empty() =~= old(self).text@);
        }
        while i < n
            invariant
                0 <= i <= n,
                self.text@ == old(self).text@ + move_args_text(i as int),
                self.panic_to_exception == old(self).panic_to_exception,
            decreases n - i,
        {
            self.put(", ::std::move(i");
            self.put_usize(i);
            self.put(")");
            i = i + 1;
        }
    }

    pub fn put_move_from_rust_args(&mut self, inputs: &Vec<CppType>)
        requires
            forall|i: int| 0 <= i < inputs@.len() ==> type_wf(#[trigger] inputs@[i]),
        ensures
            final(self).text@ == old(self).text@ + move_from_rust_args_text(
                inputs@,
                inputs@.len() as int,
            ),
            final(self).panic_to_exception == old(self).panic_to_exception,
    {
        let n: usize = inputs.len();
        let mut i: usize = 0;
        proof {
            assert(old(self).text@ + Seq::<char>::empty() =~= old(self).text@);
        }
        while i < n
            invariant
                0 <= i <= n,
                n == inputs@.len(),
                forall|k: int| 0 <= k < inputs@.len() ==> type_wf(#[trigger] inputs@[k]),
                self.text@ == old(self).text@ + move_from_rust_args_text(inputs@, i as int),
                self.panic_to_exception == old(self).panic_to_exception,
            decreases n - i,
        {
            if i > 0 {
                self.put(", ");
            }
            self.put("::rust::__zngur_internal_move_from_rust< ");
            inputs[i].emit_text(self);
            self.put(" >(i");
            self.put_usize(i);
            self.put(")");
            i = i + 1;
        }
    }

    pub fn put_types_commas(&mut self, ts: &Vec<CppType>)
        requires
            forall|i: int| 0 <= i < ts@.len() ==> type_wf(#[trigger] ts@[i]),
        ensures
            final(self).text@ == old(self).text@ + types_commas_text(ts@, ts@.len() as int),
            final(self).panic_to_exception == old(self).panic_to_exception,
    {
        let n: usize = ts.len();
        let mut i: usize = 0;
        proof {
            assert(old(self).text@ + Seq::<char>::empty() =~= old(self).text@);
        }
        while i < n
            invariant
                0 <= i <= n,
                n == ts@.len(),
                forall|k: int| 0 <= k < ts@.len() ==> type_wf(#[trigger] ts@[k]),
                self.text@ == old(self).text@ + types_commas_text(ts@, i as int),
                self.panic_to_exception == old(self).panic_to_exception,
            decreases n - i,
        {
            if i > 0 {
                self.put(", ");
            }
            ts[i].emit_text(self);
            i = i + 1;
        }
    }

    /// The `::std::function< out(ins)>` type of a closure signature.
    pub fn put_std_function(&mut self, s: &CppFnSig)
        requires
            sig_wf(*s),
        ensures
            final(self).text@ == old(self).text@ + std_function_text(*s),
            final(self).panic_to_exception == old(self).panic_to_exception,
    {
        self.put("::std::function< ");
        s.output.emit_text(self);
        self.put("(");
        self.put_types_commas(&s.inputs);
        self.put(")>");
    }

    pub fn put_uint8_args_space(&mut self, n: usize)
        ensures
            final(self).text@ == old(self).text@ + uint8_args_space_text(n as int),
            final(self).panic_to_exception == old(self).panic_to_exception,
    {
        let mut i: usize = 0;
        proof {
            assert(old(self).text@ + Seq::<char>::empty() =~= old(self).text@);
        }
        while i < n
            invariant
                0 <= i <= n,
                self.text@ == old(self).text@ + uint8_args_space_text(i as int),
                self.panic_to_exception == old(self).panic_to_exception,
            decreases n - i,
        {
            if i > 0 {
                self.put(" ");
            }
            self.put("uint8_t* i");
            self.put_usize(i);
            self.put(",");
            i = i + 1;
        }
    }

    pub fn put_uint8_ptr_commas(&mut self, n: usize)
        ensures
            final(self).text@ == old(self).text@ + uint8_ptr_commas_text(n as int),
            final(self).panic_to_exception == old(self).panic_to_exception,
    {
        let mut i: usize = 0;
        proof {
            assert(old(self).text@ + Seq::<char>::empty() =~= old(self).text@);
        }
        while i < n
            invariant
                0 <= i <= n,
                self.text@ == old(self).text@ + uint8_ptr_commas_text(i as int),
                self.panic_to_exception == old(self).panic_to_exception,
            decreases n - i,
        {
            if i > 0 {
                self.put(" ");
            }
            self.put("uint8_t *, ");
            i = i + 1;
        }
    }
}

/// `void link(uint8_t* i0,...,uint8_t* o)` — the raw boundary prototype.
pub open spec fn rust_link_text(s: CppFnSig) -> Seq<char> {
    "void "@ + s.rust_link_name@ + "("@ + uint8_args_text(s.inputs@.len() as int)
        + "uint8_t* o)"@
}

/// The boundary prototype as an `extern "C"` declaration line.
pub open spec fn rust_link_decl_text(s: CppFnSig) -> Seq<char> {
    rust_link_text(s) + " noexcept ;\n"@
}

/// One function-pointer field of the dispatch table.
pub open spec fn dyn_api_field_text(s: CppFnSig) -> Seq<char> {
    "decltype(&::"@ + s.rust_link_name@ + ") "@ + s.rust_link_name@ + ";"@
}

/// The C++-level prototype of the wrapper for this signature.
pub open spec fn cpp_header_text(s: CppFnSig, fn_name: Seq<char>) -> Seq<char> {
    type_text(s.output) + " "@ + fn_name + "("@ + dyn_api_def_text(s.inputs@.len() as int)
        + input_defs_text(s.inputs@, 0, s.inputs@.len() as int) + ") noexcept ;\n"@
}

/// The wrapper signature and output slot, up to the deinitialisation runs.
pub open spec fn cpp_def_head_text(s: CppFnSig, fn_name: Seq<char>) -> Seq<char> {
    "inline "@ + type_text(s.output) + " "@ + fn_name + "("@ + dyn_api_def_text(
        s.inputs@.len() as int,
    ) + input_defs_text(s.inputs@, 0, s.inputs@.len() as int) + ") noexcept {\n            "@
        + type_text(s.output) + " o{};\n            "@ + deinits_text(s.inputs@.len() as int)
}

/// The boundary call, the optional panic check, and the initialised result.
pub open spec fn cpp_def_tail_text(s: CppFnSig, panic: bool) -> Seq<char> {
    "\n            api->"@ + s.rust_link_name@ + "("@ + data_ptr_args_text(
        s.inputs@.len() as int,
    ) + "::rust::__zngur_internal_data_ptr(o));\n            "@ + panic_handler_text(panic)
        + "\n            ::rust::__zngur_internal_assume_init(o);\n            return o;\n        }"@
        + "\n"@
}

/// The inline wrapper body: an output slot, deinitialisation of the moved
/// inputs, the boundary call through the dispatch table, the optional panic
/// check, and the initialised result.
pub open spec fn cpp_def_text(s: CppFnSig, fn_name: Seq<char>, panic: bool) -> Seq<char> {
    cpp_def_head_text(s, fn_name) + cpp_def_tail_text(s, panic)
}

impl CppFnSig {
    pub fn emit_rust_link(&self, state: &mut State)
        ensures
            final(state).text@ == old(state).text@ + rust_link_text(*self),
            final(state).panic_to_exception == old(state).panic_to_exception,
    {
        state.put("void ");
        state.put(self.rust_link_name.as_str());
        state.put("(");
        state.put_uint8_args(self.inputs.len());
        state.put("uint8_t* o)");
    }

    pub fn emit_rust_link_decl(&self, state: &mut State)
        ensures
            final(state).text@ == old(state).text@ + rust_link_decl_text(*self),
            final(state).panic_to_exception == old(state).panic_to_exception,
    {
        self.emit_rust_link(state);
        state.put(" noexcept ;\n");
    }

    pub fn emit_zngur_dyn_api_field(&self, state: &mut State)
        ensures
            final(state).text@ == old(state).text@ + dyn_api_field_text(*self),
            final(state).panic_to_exception == old(state).panic_to_exception,
    {
        state.put("decltype(&::");
        state.put(self.rust_link_name.as_str());
        state.put(") ");
        state.put(self.rust_link_name.as_str());
        state.put(";");
    }

    pub fn emit_cpp_header(&self, state: &mut State, fn_name: &str)
        requires
            sig_wf(*self),
        ensures
            final(state).text@ == old(state).text@ + cpp_header_text(*self, fn_name@),
            final(state).panic_to_exception == old(state).panic_to_exception,
    {
        self.output.emit_text(state);
        state.put(" ");
        state.put(fn_name);
        state.put("(");
        state.put_dyn_api_def(self.inputs.len());
        state.put_input_defs(&self.inputs, 0);
        state.put(") noexcept ;\n");
    }

    fn emit_cpp_def_head(&self, state: &mut State, fn_name: &str)
        requires
            sig_wf(*self),
        ensures
            final(state).text@ == old(state).text@ + cpp_def_head_text(*self, fn_name@),
            final(state).panic_to_exception == old(state).panic_to_exception,
    {
        state.put("inline ");
        self.output.emit_text(state);
        state.put(" ");
        state.put(fn_name);
        state.put("(");
        state.put_dyn_api_def(self.inputs.len());
        state.put_input_defs(&self.inputs, 0);
        state.put(") noexcept {\n            ");
        self.output.emit_text(state);
        state.put(" o{};\n            ");
        state.put_deinits(self.inputs.len());
    }

    fn emit_cpp_def_tail(&self, state: &mut State)
        ensures
            final(state).text@ == old(state).text@ + cpp_def_tail_text(
                *self,
                old(state).panic_to_exception,
            ),
            final(state).panic_to_exception == old(state).panic_to_exception,
    {
        state.put("\n            api->");
        state.put(self.rust_link_name.as_str());
        state.put("(");
        state.put_data_ptr_args(self.inputs.len());
        state.put("::rust::__zngur_internal_data_ptr(o));\n            ");
        if state.panic_to_exception {
            state.put(
                "\n            if (__zngur_detect_panic()) {\n                __zngur_take_panic();\n                throw ::rust::Panic{};\n            }\n            ",
            );
        }
        state.put("\n            ::rust::__zngur_internal_assume_init(o);\n            return o;\n        }");
        state.put("\n");
    }

    pub fn emit_cpp_def(&self, state: &mut State, fn_name: &str)
        requires
            sig_wf(*self),
        ensures
            final(state).text@ == old(state).text@ + cpp_def_text(
                *self,
                fn_name@,
                old(state).panic_to_exception,
            ),
            final(state).panic_to_exception == old(state).panic_to_exception,
    {
        self.emit_cpp_def_head(state, fn_name);
        self.emit_cpp_def_tail(state);
    }
}

/// A free-function wrapper definition inside its namespace.
#[verifier::opaque]
pub open spec fn fn_def_text(d: CppFnDefinition, panic: bool) -> Seq<char> {
    ns_open_text(d.name, d.name.0@.len() - 1) + cpp_def_text(d.sig, d.name.0@.last()@, panic)
        + ns_close_text(d.name.0@.len() - 1)
}

impl CppFnDefinition {
    pub fn emit_cpp_def(&self, state: &mut State)
        requires
            path_wf(self.name),
            sig_wf(self.sig),
        ensures
            final(state).text@ == old(state).text@ + fn_def_text(
                *self,
                old(state).panic_to_exception,
            ),
            final(state).panic_to_exception == old(state).panic_to_exception,
    {
        proof {
            reveal(fn_def_text);
        }
        self.name.emit_namespace_open(state);
        self.sig.emit_cpp_def(state, self.name.name());
        self.name.emit_namespace_close(state);
    }
}

} // verus!
