//! Translates the pretty-printed type syntax of a statically typed source
//! language into the structural type syntax of a scripting target language.
//!
//! The crate has two layers: a lexical shape recognizer, which finds the
//! recognized generic-wrapper shapes (sequence, optional, fallible result,
//! associative map) in a textual type expression, and the translator proper,
//! which dispatches on primitives and recognized shapes and assembles the
//! target type string.

pub mod expr;
pub mod laws;
pub mod pattern;
pub mod recognize;
pub mod translate;
pub mod typedef;

pub use expr::ty_to_ts_type;
pub use expr::TypeExpr;
pub use translate::str_to_ts_type;
pub use typedef::ToTypeDef;
pub use typedef::TypeDef;
