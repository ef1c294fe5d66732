//! Renders annotated Rust declarations as the text of a C header.
//!
//! A front end hands over the top-level declarations of a crate, in source order, each
//! with its visibility, its attributes and its types as Rust syntax ([`ast`]). A
//! [`CheddarPass`] takes them one by one and renders those that belong to the crate's C
//! interface: public type aliases, public `#[repr(C)]` enums and structs, and public
//! `#[no_mangle]` functions with a C calling convention. What asks to be exported and
//! cannot be rendered in C is reported ([`diag`]) and leaves no text behind. At the end
//! the pass is finalized into a [`Header`], whose parts a caller writes to a file.
//!
//! Every function states what it returns over the mathematical views of its arguments,
//! and is proved to do so. How a type is written in C is defined in [`mapper`], what
//! each declaration renders to in [`render`]; what holds of every translation is proved
//! in [`laws`].

pub mod ast;
pub mod attr;
pub mod diag;
pub mod header;
pub mod laws;
pub mod mapper;
pub mod pass;
pub mod render;
pub mod search;
pub mod text;

pub use ast::{
    Abi, Arg, Attribute, FunctionRetTy, Item, ItemKind, Span, StructField, Variant, VariantData,
    Visibility,
};
pub use attr::{check_no_mangle, check_repr_c, parse_attr, retrieve_docstring};
pub use diag::{Diagnostic, Outcome, Reason};
pub use header::{Config, Header};
pub use mapper::rust_to_c;
pub use pass::{translate, CheddarPass, Translation};
