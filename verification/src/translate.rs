//! The type translator: dispatches a textual type expression over the
//! primitive table and the shape recognizer and assembles the target-language
//! type string.
//!
//! The translation is total: a string that matches no primitive token and no
//! recognized shape is returned unchanged, presumed to name a user-defined
//! type that the surrounding generation pass emits elsewhere.

use vstd::prelude::*;
use vstd::string::StrSliceExecFns;
use vstd::string::StringExecFns;

use crate::pattern::str_eq;
use crate::recognize::fallible_inner;
use crate::recognize::fallible_matches;
use crate::recognize::has_suffix;
use crate::recognize::lemma_capture_bounds;
use crate::recognize::map_key;
use crate::recognize::map_matches;
use crate::recognize::map_value;
use crate::recognize::optional_inner;
use crate::recognize::optional_matches;
use crate::recognize::recognize_fallible;
use crate::recognize::recognize_map;
use crate::recognize::recognize_optional;
use crate::recognize::recognize_sequence;
use crate::recognize::sequence_inner;
use crate::recognize::sequence_matches;
use crate::pattern::matches_at;

verus! {

/// The empty-tuple token, rendered as the target's "no value" type.
pub open spec fn is_unit_token(s: Seq<char>) -> bool {
    s == "()"@
}

/// The 8-, 16- and 32-bit integer names, rendered as the target's plain
/// numeric type.
pub open spec fn is_number_token(s: Seq<char>) -> bool {
    ||| s == "i8"@
    ||| s == "i16"@
    ||| s == "i32"@
    ||| s == "u8"@
    ||| s == "u16"@
    ||| s == "u32"@
}

/// The 64- and 128-bit and pointer-sized integer names, rendered as the
/// target's arbitrary-precision integer type.
pub open spec fn is_bigint_token(s: Seq<char>) -> bool {
    ||| s == "i64"@
    ||| s == "u64"@
    ||| s == "i128"@
    ||| s == "u128"@
    ||| s == "isize"@
    ||| s == "usize"@
}

/// The boolean name.
pub open spec fn is_boolean_token(s: Seq<char>) -> bool {
    s == "bool"@
}

/// The owned-string, string-slice and single-character names.
pub open spec fn is_string_token(s: Seq<char>) -> bool {
    s == "String"@ || s == "str"@ || s == "char"@
}

/// The generic object marker name.
pub open spec fn is_object_token(s: Seq<char>) -> bool {
    s == "Object"@
}

/// Any token of the primitive table, including the trailing string-slice
/// rule that covers borrowed and lifetime-annotated string slices.
pub open spec fn is_primitive_token(s: Seq<char>) -> bool {
    ||| is_unit_token(s)
    ||| is_number_token(s)
    ||| is_bigint_token(s)
    ||| is_boolean_token(s)
    ||| is_string_token(s)
    ||| is_object_token(s)
    ||| has_suffix(s, " str"@)
}

/// The translation of a textual type expression, with `omit_top_level_result`
/// telling whether a fallible shape at this level is surfaced through the
/// calling convention's own error channel instead of an explicit union.
///
/// First match wins: the primitive table, then the four recognized shapes,
/// then passthrough. Nested arguments are always translated with the flag
/// off, since the special case applies only at depth zero.
pub open spec fn translate_text(s: Seq<char>, omit_top_level_result: bool) -> Seq<char>
    decreases s.len(),
{
    if is_unit_token(s) {
        "undefined"@
    } else if is_number_token(s) {
        "number"@
    } else if is_bigint_token(s) {
        "BigInt"@
    } else if is_boolean_token(s) {
        "boolean"@
    } else if is_string_token(s) {
        "string"@
    } else if is_object_token(s) {
        "object"@
    } else if has_suffix(s, " str"@) {
        "string"@
    } else if sequence_matches(s) {
        "Array<"@ + translate_text(sequence_inner(s), false) + ">"@
    } else if optional_matches(s) {
        proof {
            lemma_capture_bounds(s);
        }
        translate_text(optional_inner(s), false) + " | null"@
    } else if fallible_matches(s) {
        proof {
            lemma_capture_bounds(s);
        }
        if omit_top_level_result {
            translate_text(fallible_inner(s), false)
        } else {
            "Error | "@ + translate_text(fallible_inner(s), false)
        }
    } else if map_matches(s) {
        proof {
            lemma_capture_bounds(s);
        }
        "Record<"@ + translate_text(map_key(s), false) + ", "@ + translate_text(
            map_value(s),
            false,
        ) + ">"@
    } else {
        s
    }
}

/// Translate a textual type expression into the target type system.
///
/// Every input maps to some output: unrecognized text passes through
/// unchanged, so the function never fails.
pub fn str_to_ts_type(ty: &str, omit_top_level_result: bool) -> (r: String)
    ensures
        r@ == translate_text(ty@, omit_top_level_result),
    decreases ty@.len(),
{
    if str_eq(ty, "()") {
        return String::from_str("undefined");
    }
    if str_eq(ty, "i8") || str_eq(ty, "i16") || str_eq(ty, "i32") || str_eq(ty, "u8")
        || str_eq(ty, "u16") || str_eq(ty, "u32") {
        return String::from_str("number");
    }
    if str_eq(ty, "i64") || str_eq(ty, "u64") || str_eq(ty, "i128") || str_eq(
        ty,
        "u128",
    ) || str_eq(ty, "isize") || str_eq(ty, "usize") {
        return String::from_str("BigInt");
    }
    if str_eq(ty, "bool") {
        return String::from_str("boolean");
    }
    if str_eq(ty, "String") || str_eq(ty, "str") || str_eq(ty, "char") {
        return String::from_str("string");
    }
    if str_eq(ty, "Object") {
        return String::from_str("object");
    }
    let n: usize = ty.unicode_len();
    proof {
        reveal_strlit(" str");
    }
    if n >= 4 && matches_at(ty, " str", n - 4) {
        return String::from_str("string");
    }
    assert(!has_suffix(ty@, " str"@));
    if let Some(inner) = recognize_sequence(ty, n) {
        let t = str_to_ts_type(inner, false);
        let mut out = String::from_str("Array<");
        out.append(t.as_str());
        out.append(">");
        return out;
    }
    if let Some(inner) = recognize_optional(ty, n) {
        let mut out = str_to_ts_type(inner, false);
        out.append(" | null");
        return out;
    }
    if let Some(inner) = recognize_fallible(ty, n) {
        let t = str_to_ts_type(inner, false);
        if omit_top_level_result {
            return t;
        }
        let mut out = String::from_str("Error | ");
        out.append(t.as_str());
        return out;
    }
    if let Some((key, value)) = recognize_map(ty, n) {
        let k = str_to_ts_type(key, false);
        let v = str_to_ts_type(value, false);
        let mut out = String::from_str("Record<");
        out.append(k.as_str());
        out.append(", ");
        out.append(v.as_str());
        out.append(">");
        return out;
    }
    String::from_str(ty)
}

} // verus!
