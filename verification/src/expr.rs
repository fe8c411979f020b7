//! Structured type expressions: the shapes of the source language's own
//! syntax tree that the translator reads, held as plain values. A host that
//! has the real syntax tree converts each node into a `TypeExpr` and gets
//! the same translation as for the node's printed text.

use vstd::prelude::*;
use vstd::string::StringExecFns;

use crate::translate::str_to_ts_type;
use crate::translate::translate_text;

verus! {

/// A structured type expression: a reference to a type, a tuple of types, a
/// plain named path given by its printed token text, or any other shape,
/// which the translator does not inspect.
pub enum TypeExpr {
    /// A reference (shared or mutable) to an inner type; ownership and
    /// borrowing are erased by the translation.
    Reference(Box<TypeExpr>),
    /// A tuple of element types.
    Tuple(Vec<TypeExpr>),
    /// A named path without a qualifying self-type prefix, as its printed
    /// token text in canonical spacing.
    Path(String),
    /// Any other structural shape (function pointers, trait objects,
    /// arrays with lengths, qualified paths), rendered as the target's
    /// "any" type.
    Unsupported,
}

/// The translation of a structured type expression. A reference is erased
/// with the context flag kept; a tuple is rendered as a bracketed
/// comma-joined list, the empty tuple as the "no value" primitive; a named
/// path is re-dispatched as text; anything else becomes the "any" marker.
pub open spec fn translate_expr(t: TypeExpr, omit_top_level_result: bool) -> Seq<char>
    decreases t, 1int, 0int,
{
    match t {
        TypeExpr::Reference(inner) => translate_expr(*inner, omit_top_level_result),
        TypeExpr::Tuple(elems) => if elems@.len() == 0 {
            "undefined"@
        } else {
            "["@ + translate_elems(elems, 0) + "]"@
        },
        TypeExpr::Path(p) => translate_text(p@, omit_top_level_result),
        TypeExpr::Unsupported => "any"@,
    }
}

/// The comma-joined translations of the tuple elements from index `i` on,
/// each translated with the context flag off.
pub open spec fn translate_elems(elems: Vec<TypeExpr>, i: int) -> Seq<char>
    decreases elems, 0int, elems@.len() - i,
{
    if i < 0 || i >= elems@.len() {
        Seq::empty()
    } else if i == elems@.len() - 1 {
        translate_expr(elems[i], false)
    } else {
        translate_expr(elems[i], false) + ", "@ + translate_elems(elems, i + 1)
    }
}

/// Translate a structured type expression into the target type system.
pub fn ty_to_ts_type(ty: &TypeExpr, omit_top_level_result: bool) -> (r: String)
    ensures
        r@ == translate_expr(*ty, omit_top_level_result),
    decreases *ty, 1int, 0int,
{
    match ty {
        TypeExpr::Reference(inner) => ty_to_ts_type(inner, omit_top_level_result),
        TypeExpr::Tuple(elems) => {
            if elems.len() == 0 {
                String::from_str("undefined")
            } else {
                let mut out = String::from_str("[");
                let joined = elems_to_ts(elems, 0);
                out.append(joined.as_str());
                out.append("]");
                out
            }
        },
        TypeExpr::Path(p) => str_to_ts_type(p.as_str(), omit_top_level_result),
        TypeExpr::Unsupported => String::from_str("any"),
    }
}

/// Render the comma-joined translations of the tuple elements from `i` on.
fn elems_to_ts(elems: &Vec<TypeExpr>, i: usize) -> (r: String)
    requires
        i < elems@.len(),
    ensures
        r@ == translate_elems(*elems, i as int),
    decreases *elems, 0int, elems@.len() - i,
{
    let head = ty_to_ts_type(&elems[i], false);
    if i == elems.len() - 1 {
        head
    } else {
        let mut out = head;
        out.append(", ");
        let rest = elems_to_ts(elems, i + 1);
        out.append(rest.as_str());
        out
    }
}

} // verus!
