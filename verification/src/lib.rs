//! Generator for the host-language (C++) side of a Rust/C++ binding.
//!
//! The crate turns an immutable model of a Rust type surface — qualified type
//! paths, function signatures, owning-type definitions with a layout policy,
//! trait definitions and free functions — into the text of a C++ header and an
//! optional C++ source unit.  Every emitting function carries a contract that
//! pins the produced text exactly, as a spec-level function of the model; the
//! ownership protocol the emitted wrappers implement and the behaviour of the
//! emitted dispatch-table initialisation are stated and proved over models of
//! their own.

pub mod dispatch;
pub mod file;
pub mod lifecycle;
pub mod links;
pub mod names;
pub mod path;
pub mod sig;
pub mod text;
pub mod trait_def;
pub mod ty;
pub mod type_cpp;
pub mod type_def;
pub mod type_emit;
