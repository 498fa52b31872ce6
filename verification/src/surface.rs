//! The names in generated code that the runtime and other tools rely on.

use vstd::prelude::*;

verus! {

/// The decorator whose argument declares the identity of an element.
pub const ELEMENT_DECORATOR: &'static str = "customElement";

/// What every made-up identity starts with.
pub const HASH_KEY_PREFIX: &'static str = "hash_";

/// The property of a class on which its field table is written.
pub const FIELDS_PROPERTY: &'static str = "_defined_fields_";

/// The global hook that a rewritten class is registered with; where the
/// hook is absent the registration does nothing.
pub const REGISTER_HOOK: &'static str = "_hmrRegisterClass";

/// The property of `import.meta` through which a module accepts or declines
/// hot updates.
pub const HOT_OBJECT: &'static str = "webpackHot";

} // verus!
