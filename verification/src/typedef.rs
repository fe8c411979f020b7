//! The record that the surrounding generation pass emits for each translated
//! declaration: its kind, its name, and the target-language type text that
//! the translator produced for it.

use vstd::prelude::*;
use vstd::string::StringExecFns;

verus! {

/// One emitted type definition. `def` is expected to hold a type expression
/// already rendered for the target language.
pub struct TypeDef {
    pub kind: String,
    pub name: String,
    pub def: String,
}

/// The serialized form of a definition record: one object with the three
/// fields as double-quoted strings.
pub open spec fn type_def_text(kind: Seq<char>, name: Seq<char>, def: Seq<char>) -> Seq<
    char,
> {
    "{\"kind\": \""@ + kind + "\", \"name\": \""@ + name + "\", \"def\": \""@ + def
        + "\"}"@
}

impl TypeDef {
    /// Render the record as one line of object text.
    pub fn to_string(&self) -> (r: String)
        ensures
            r@ == type_def_text(self.kind@, self.name@, self.def@),
    {
        let mut out = String::from_str("{\"kind\": \"");
        out.append(self.kind.as_str());
        out.append("\", \"name\": \"");
        out.append(self.name.as_str());
        out.append("\", \"def\": \"");
        out.append(self.def.as_str());
        out.append("\"}");
        out
    }
}

impl Default for TypeDef {
    /// The empty record: all three fields empty.
    fn default() -> (r: TypeDef)
        ensures
            r.kind@ == Seq::<char>::empty(),
            r.name@ == Seq::<char>::empty(),
            r.def@ == Seq::<char>::empty(),
    {
        TypeDef { kind: String::new(), name: String::new(), def: String::new() }
    }
}

/// Implemented by each extracted declaration form that can describe itself
/// as a type definition record.
pub trait ToTypeDef {
    fn to_type_def(&self) -> TypeDef;
}

} // verus!
