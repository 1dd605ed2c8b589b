//! The boundary symbols a type definition contributes: the list of link
//! names the dispatch table must resolve, and their `extern "C"`
//! declarations.

use vstd::prelude::*;
use crate::text::State;
use crate::sig::{CppFnSig, CppMethod, rust_link_decl_text};
use crate::type_def::{CppTypeDefinition, CppLayoutPolicy, ZngurWellknownTraitData};

verus! {

pub open spec fn method_links(ms: Seq<CppMethod>, n: int) -> Seq<Seq<char>>
    decreases n,
{
    if n <= 0 || n > ms.len() {
        Seq::empty()
    } else {
        method_links(ms, n - 1).push(ms[n - 1].sig.rust_link_name@)
    }
}

pub open spec fn ctor_links(cs: Seq<CppFnSig>, n: int) -> Seq<Seq<char>>
    decreases n,
{
    if n <= 0 || n > cs.len() {
        Seq::empty()
    } else {
        ctor_links(cs, n - 1).push(cs[n - 1].rust_link_name@)
    }
}

/// The three boundary functions of a heap layout.
pub open spec fn heap_links(l: CppLayoutPolicy) -> Seq<Seq<char>> {
    match l {
        CppLayoutPolicy::HeapAllocated { size_fn, alloc_fn, free_fn } => seq![
            size_fn@,
            alloc_fn@,
            free_fn@,
        ],
        _ => Seq::empty(),
    }
}

pub open spec fn wellknown_item_links(w: ZngurWellknownTraitData) -> Seq<Seq<char>> {
    match w {
        ZngurWellknownTraitData::Debug { pretty_print, debug_print } => seq![
            pretty_print@,
            debug_print@,
        ],
        ZngurWellknownTraitData::Drop { drop_in_place } => seq![drop_in_place@],
        _ => Seq::empty(),
    }
}

pub open spec fn wellknown_links(ws: Seq<ZngurWellknownTraitData>, n: int) -> Seq<Seq<char>>
    decreases n,
{
    if n <= 0 || n > ws.len() {
        Seq::empty()
    } else {
        wellknown_links(ws, n - 1) + wellknown_item_links(ws[n - 1])
    }
}

/// Every boundary symbol of this type, in resolution order: methods,
/// constructors, the heap layout functions, then the well-known trait
/// functions.
pub open spec fn type_link_names(td: CppTypeDefinition) -> Seq<Seq<char>> {
    method_links(td.methods@, td.methods@.len() as int) + ctor_links(
        td.constructors@,
        td.constructors@.len() as int,
    ) + heap_links(td.layout) + wellknown_links(
        td.wellknown_traits@,
        td.wellknown_traits@.len() as int,
    )
}

impl CppTypeDefinition {
    /// The boundary symbols this type asks the dispatch table to resolve.
    /// An embedded host value is not representable there, so it is ruled out.
    pub fn get_link_names<'a>(&'a self) -> (r: Vec<&'a str>)
        requires
            self.cpp_value is None,
        ensures
            r@.map_values(|s: &str| s@) == type_link_names(*self),
    {
        let mut names: Vec<&str> = Vec::new();
        let ghost target = type_link_names(*self);
        let nm: usize = self.methods.len();
        let mut i: usize = 0;
        proof {
            assert(names@.map_values(|s: &str| s@) =~= Seq::<Seq<char>>::empty());
        }
        while i < nm
            invariant
                0 <= i <= nm,
                nm == self.methods@.len(),
                names@.map_values(|s: &str| s@) == method_links(self.methods@, i as int),
            decreases nm - i,
        {
            let s: &str = self.methods[i].sig.rust_link_name.as_str();
            proof {
                assert(names@.push(s).map_values(|x: &str| x@) =~= names@.map_values(
                    |x: &str| x@,
                ).push(s@));
            }
            names.push(s);
            i = i + 1;
        }
        let nc: usize = self.constructors.len();
        let mut j: usize = 0;
        proof {
            assert(names@.map_values(|s: &str| s@) + Seq::<Seq<char>>::empty() =~= names@.map_values(
                |s: &str| s@,
            ));
        }
        while j < nc
            invariant
                0 <= j <= nc,
                nc == self.constructors@.len(),
                nm == self.methods@.len(),
                names@.map_values(|s: &str| s@) == method_links(self.methods@, nm as int)
                    + ctor_links(self.constructors@, j as int),
            decreases nc - j,
        {
            let s: &str = self.constructors[j].rust_link_name.as_str();
            proof {
                assert(names@.push(s).map_values(|x: &str| x@) =~= names@.map_values(
                    |x: &str| x@,
                ).push(s@));
                assert(method_links(self.methods@, nm as int) + ctor_links(
                    self.constructors@,
                    j + 1,
                ) =~= (method_links(self.methods@, nm as int) + ctor_links(
                    self.constructors@,
                    j as int,
                )).push(self.constructors@[j as int].rust_link_name@));
            }
            names.push(s);
            j = j + 1;
        }
        let ghost before_heap = names@.map_values(|s: &str| s@);
        match &self.layout {
            CppLayoutPolicy::HeapAllocated { size_fn, alloc_fn, free_fn } => {
                names.push(size_fn.as_str());
                names.push(alloc_fn.as_str());
                names.push(free_fn.as_str());
                proof {
                    assert(names@.map_values(|s: &str| s@) =~= before_heap + heap_links(
                        self.layout,
                    ));
                }
            },
            _ => {
                proof {
                    assert(names@.map_values(|s: &str| s@) =~= before_heap + heap_links(
                        self.layout,
                    ));
                }
            },
        }
        let ghost before_wk = names@.map_values(|s: &str| s@);
        let nw: usize = self.wellknown_traits.len();
        let mut q: usize = 0;
        proof {
            assert(before_wk + Seq::<Seq<char>>::empty() =~= before_wk);
        }
        while q < nw
            invariant
                0 <= q <= nw,
                nw == self.wellknown_traits@.len(),
                names@.map_values(|s: &str| s@) == before_wk + wellknown_links(
                    self.wellknown_traits@,
                    q as int,
                ),
            decreases nw - q,
        {
            match &self.wellknown_traits[q] {
                ZngurWellknownTraitData::Debug { pretty_print, debug_print } => {
                    let p: &str = pretty_print.as_str();
                    proof {
                        assert(names@.push(p).map_values(|x: &str| x@) =~= names@.map_values(
                            |x: &str| x@,
                        ).push(p@));
                    }
                    names.push(p);
                    let d: &str = debug_print.as_str();
                    proof {
                        assert(names@.push(d).map_values(|x: &str| x@) =~= names@.map_values(
                            |x: &str| x@,
                        ).push(d@));
                    }
                    names.push(d);
                    proof {
                        assert(names@.map_values(|s: &str| s@) =~= before_wk + wellknown_links(
                            self.wellknown_traits@,
                            q + 1,
                        ));
                    }
                },
                ZngurWellknownTraitData::Drop { drop_in_place } => {
                    let dp: &str = drop_in_place.as_str();
                    proof {
                        assert(names@.push(dp).map_values(|x: &str| x@) =~= names@.map_values(
                            |x: &str| x@,
                        ).push(dp@));
                    }
                    names.push(dp);
                    proof {
                        assert(names@.map_values(|s: &str| s@) =~= before_wk + wellknown_links(
                            self.wellknown_traits@,
                            q + 1,
                        ));
                    }
                },
                _ => {
                    proof {
                        assert(names@.map_values(|s: &str| s@) =~= before_wk + wellknown_links(
                            self.wellknown_traits@,
                            q + 1,
                        ));
                    }
                },
            }
            q = q + 1;
        }
        proof {
            assert(names@.map_values(|s: &str| s@) =~= target);
        }
        names
    }
}

/// The `extern "C"` declarations of this type's symbols.
pub open spec fn method_link_decls(ms: Seq<CppMethod>, n: int) -> Seq<char>
    decreases n,
{
    if n <= 0 || n > ms.len() {
        Seq::empty()
    } else {
        method_link_decls(ms, n - 1) + rust_link_decl_text(ms[n - 1].sig)
    }
}

pub open spec fn ctor_link_decls(cs: Seq<CppFnSig>, n: int) -> Seq<char>
    decreases n,
{
    if n <= 0 || n > cs.len() {
        Seq::empty()
    } else {
        ctor_link_decls(cs, n - 1) + rust_link_decl_text(cs[n - 1])
    }
}

pub open spec fn cpp_value_link_decl(td: CppTypeDefinition) -> Seq<char> {
    match td.cpp_value {
        Some(v) => "::rust::ZngurCppOpaqueOwnedObject* "@ + v.0@ + "(uint8_t*);"@ + "\n"@,
        None => Seq::<char>::empty(),
    }
}

pub open spec fn heap_link_decls(l: CppLayoutPolicy) -> Seq<char> {
    match l {
        CppLayoutPolicy::HeapAllocated { size_fn, alloc_fn, free_fn } => "size_t "@ + size_fn@
            + "();"@ + "\n"@ + "uint8_t* "@ + alloc_fn@ + "();"@ + "\n"@ + "void "@ + free_fn@
            + "(uint8_t*);"@ + "\n"@,
        _ => Seq::<char>::empty(),
    }
}

pub open spec fn wellknown_link_decl(w: ZngurWellknownTraitData) -> Seq<char> {
    match w {
        ZngurWellknownTraitData::Debug { pretty_print, debug_print } => "void "@ + pretty_print@
            + "(uint8_t *data);"@ + "\n"@ + "void "@ + debug_print@ + "(uint8_t *data);"@ + "\n"@,
        ZngurWellknownTraitData::Drop { drop_in_place } => "void "@ + drop_in_place@
            + "(uint8_t *data);"@ + "\n"@,
        _ => Seq::<char>::empty(),
    }
}

pub open spec fn wellknown_link_decls(ws: Seq<ZngurWellknownTraitData>, n: int) -> Seq<char>
    decreases n,
{
    if n <= 0 || n > ws.len() {
        Seq::empty()
    } else {
        wellknown_link_decls(ws, n - 1) + wellknown_link_decl(ws[n - 1])
    }
}

pub open spec fn type_rust_links_text(td: CppTypeDefinition) -> Seq<char> {
    method_link_decls(td.methods@, td.methods@.len() as int) + ctor_link_decls(
        td.constructors@,
        td.constructors@.len() as int,
    ) + cpp_value_link_decl(td) + heap_link_decls(td.layout) + wellknown_link_decls(
        td.wellknown_traits@,
        td.wellknown_traits@.len() as int,
    )
}

impl CppTypeDefinition {
    /// The `extern "C"` declarations of every symbol this type relies on.
    #[verifier::rlimit(100)]
    pub fn emit_rust_links(&self, state: &mut State)
        ensures
            final(state).text@ == old(state).text@ + type_rust_links_text(*self),
            final(state).panic_to_exception == old(state).panic_to_exception,
    {
        let nm: usize = self.methods.len();
        let mut i: usize = 0;
        proof {
            assert(old(state).text@ + Seq::<char>::empty() =~= old(state).text@);
        }
        while i < nm
            invariant
                0 <= i <= nm,
                nm == self.methods@.len(),
                state.text@ == old(state).text@ + method_link_decls(self.methods@, i as int),
                state.panic_to_exception == old(state).panic_to_exception,
            decreases nm - i,
        {
            self.methods[i].sig.emit_rust_link_decl(state);
            i = i + 1;
        }
        let ghost after_m = state.text@;
        let nc: usize = self.constructors.len();
        let mut j: usize = 0;
        proof {
            assert(after_m + Seq::<char>::empty() =~= after_m);
        }
        while j < nc
            invariant
                0 <= j <= nc,
                nc == self.constructors@.len(),
                state.text@ == after_m + ctor_link_decls(self.constructors@, j as int),
                state.panic_to_exception == old(state).panic_to_exception,
            decreases nc - j,
        {
            self.constructors[j].emit_rust_link_decl(state);
            j = j + 1;
        }
        self.emit_rust_links_tail(state);
    }

    #[verifier::rlimit(100)]
    fn emit_rust_links_tail(&self, state: &mut State)
        ensures
            final(state).text@ == old(state).text@ + cpp_value_link_decl(*self)
                + heap_link_decls(self.layout) + wellknown_link_decls(
                self.wellknown_traits@,
                self.wellknown_traits@.len() as int,
            ),
            final(state).panic_to_exception == old(state).panic_to_exception,
    {
        match &self.cpp_value {
            Some(v) => {
                state.put("::rust::ZngurCppOpaqueOwnedObject* ");
                state.put(v.0.as_str());
                state.put("(uint8_t*);");
                state.put("\n");
            },
            None => {
                proof {
                    assert(state.text@ + Seq::<char>::empty() =~= state.text@);
                }
            },
        }
        match &self.layout {
            CppLayoutPolicy::HeapAllocated { size_fn, alloc_fn, free_fn } => {
                state.put("size_t ");
                state.put(size_fn.as_str());
                state.put("();");
                state.put("\n");
                state.put("uint8_t* ");
                state.put(alloc_fn.as_str());
                state.put("();");
                state.put("\n");
                state.put("void ");
                state.put(free_fn.as_str());
                state.put("(uint8_t*);");
                state.put("\n");
            },
            _ => {
                proof {
                    assert(state.text@ + Seq::<char>::empty() =~= state.text@);
                }
            },
        }
        let ghost after_h = state.text@;
        let nw: usize = self.wellknown_traits.len();
        let mut q: usize = 0;
        proof {
            assert(after_h + Seq::<char>::empty() =~= after_h);
        }
        while q < nw
            invariant
                0 <= q <= nw,
                nw == self.wellknown_traits@.len(),
                state.text@ == after_h + wellknown_link_decls(self.wellknown_traits@, q as int),
                state.panic_to_exception == old(state).panic_to_exception,
            decreases nw - q,
        {
            match &self.wellknown_traits[q] {
                ZngurWellknownTraitData::Debug { pretty_print, debug_print } => {
                    state.put("void ");
                    state.put(pretty_print.as_str());
                    state.put("(uint8_t *data);");
                    state.put("\n");
                    state.put("void ");
                    state.put(debug_print.as_str());
                    state.put("(uint8_t *data);");
                    state.put("\n");
                },
                ZngurWellknownTraitData::Drop { drop_in_place } => {
                    state.put("void ");
                    state.put(drop_in_place.as_str());
                    state.put("(uint8_t *data);");
                    state.put("\n");
                },
                _ => {
                    proof {
                        assert(state.text@ + Seq::<char>::empty() =~= state.text@);
                    }
                },
            }
            q = q + 1;
        }
    }
}

} // verus!
