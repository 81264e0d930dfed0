//! Generation of native interop descriptions for managed classes.
//!
//! A managed class is described by its namespace, its name, a set of typed
//! fields and a set of method signatures, all using the managed runtime's
//! type names. The crate resolves those names to a closed set of logical
//! types, maps each logical type to a native representation, and renders a
//! class into native source text: a fields struct mirroring the managed
//! layout, a wrapper struct holding the raw object and class pointers, and
//! a fallible conversion from a raw object pointer into the wrapper.

pub mod emit;
pub mod model;
pub mod strutil;
pub mod types;

pub use model::Args;
pub use model::Class;
pub use model::Fields;
pub use model::Method;
pub use model::Methods;
pub use model::Namespace;
pub use model::Variable;
pub use types::Type;
