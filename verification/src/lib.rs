//! Rewrites of component classes that keep a module hot-swappable, and the
//! smaller passes that run beside them.

pub mod class;
pub mod config;
pub mod fields;
pub mod hash;
pub mod import;
pub mod laws;
pub mod lists;
pub mod memo;
pub mod minify;
pub mod module;
pub mod names;
pub mod path;
pub mod pattern;
pub mod preload;
pub mod safety;
pub mod selector;
pub mod shadow;
pub mod surface;
pub mod syntax;
pub mod text;
pub mod visitor;
pub mod zed;
