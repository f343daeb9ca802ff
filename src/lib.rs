//! Build-time annotation of vanilla-extract style modules: debug identifiers
//! for style calls and a file-scope bracket around the module.
pub mod ast;
pub mod constants;
pub mod debug_id_find;
pub mod debug_id_inject;
pub mod import_collect;
pub mod module_wrap;
pub mod outside;
pub mod relevant_call;
pub mod laws;

pub use module_wrap::{create_extract_visitor, VanillaExtractVisitor};
