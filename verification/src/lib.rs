//! Turn the inner doc comments of a source file into README text.
//!
//! The crate locates the module-level doc block among the lines of a source
//! file, strips the comment markers, rewrites code fences to plain markdown and
//! renders the result alone or through a small text template.

pub mod badges;
pub mod config;
pub mod extract;
pub mod load;
pub mod manifest;
pub mod pattern;
pub mod process;
pub mod readme;
pub mod template;
pub mod text;

pub use crate::manifest::Manifest;
pub use crate::readme::generate_readme;
