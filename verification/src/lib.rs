//! Reduces a WebAssembly module to a chosen subset of its items.
//!
//! Given a module and a selection of original indices, the library finds
//! every item that the selection reaches through the module's references,
//! renumbers each index space densely, and plans the sections of the smaller
//! module, with the selected items exported under well-known names.
//!
//! A decoder hands the entries of the input to [`module::Module`] through
//! the functions of [`bridge`]. [`isolate::isolate`] checks the module
//! ([`check`]), searches the use graph ([`uses`], [`reach`]), renumbers the
//! live items ([`relocation`]) and plans each section ([`emit`]). The
//! sections that the plan determines completely are built with the encoder
//! in [`encode`]; the others name the entries to write, and every index in
//! them is rewritten by [`relocation::RelocatingReencoder`]. What holds of
//! the result for every module is proved in [`laws`].

pub mod bridge;
pub mod check;
pub mod emit;
pub mod encode;
pub mod isolate;
pub mod laws;
pub mod module;
pub mod names;
pub mod operators;
pub mod reach;
pub mod relocation;
pub mod sorted;
pub mod types;
pub mod uses;
