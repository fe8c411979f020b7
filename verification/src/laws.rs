//! The laws of the translation, stated over the spec-level `translate_text`
//! and `translate_expr` and proved once for all inputs: the primitive table,
//! the rendering of each recognized wrapper shape built from arbitrary
//! arguments, reference erasure, tuple rendering, and passthrough of
//! unrecognized text.

use vstd::prelude::*;

use crate::expr::translate_expr;
use crate::expr::TypeExpr;
use crate::pattern::contains;
use crate::pattern::lemma_occurs_char;
use crate::pattern::lemma_rfind_at_or_before;
use crate::pattern::occurs_at;
use crate::pattern::rfind_at_or_before;
use crate::recognize::close_pos;
use crate::recognize::has_prefix;
use crate::recognize::has_suffix;
use crate::recognize::sep_pos;
use crate::translate::is_primitive_token;
use crate::translate::translate_text;

verus! {

/// A string that is no primitive token and matches none of the four
/// recognized shapes is returned unchanged, whatever the context flag.
pub proof fn lemma_passthrough(s: Seq<char>, f: bool)
    requires
        !is_primitive_token(s),
        !crate::recognize::sequence_matches(s),
        !crate::recognize::optional_matches(s),
        !crate::recognize::fallible_matches(s),
        !crate::recognize::map_matches(s),
    ensures
        translate_text(s, f) == s,
{
}

/// Translating a passthrough string twice changes nothing: the first
/// translation returns it unchanged, and so does the second.
pub proof fn lemma_passthrough_idempotent(s: Seq<char>, f: bool)
    requires
        !is_primitive_token(s),
        !crate::recognize::sequence_matches(s),
        !crate::recognize::optional_matches(s),
        !crate::recognize::fallible_matches(s),
        !crate::recognize::map_matches(s),
    ensures
        translate_text(translate_text(s, f), f) == s,
{
    lemma_passthrough(s, f);
}

/// Lengths and distinguishing characters of the primitive tokens and of the
/// string-slice suffix, revealed once for the proofs below.
proof fn lemma_token_facts()
    ensures
        "()"@.len() == 2 && "()"@[0] == '(',
        "i8"@.len() == 2 && "i8"@[0] == 'i',
        "u8"@.len() == 2 && "u8"@[0] == 'u',
        "i16"@.len() == 3 && "i16"@[0] == 'i' && "i16"@[1] == '1',
        "i32"@.len() == 3 && "i32"@[0] == 'i' && "i32"@[1] == '3',
        "u16"@.len() == 3 && "u16"@[0] == 'u' && "u16"@[1] == '1',
        "u32"@.len() == 3 && "u32"@[0] == 'u' && "u32"@[1] == '3',
        "i64"@.len() == 3 && "i64"@[0] == 'i' && "i64"@[1] == '6',
        "u64"@.len() == 3 && "u64"@[0] == 'u' && "u64"@[1] == '6',
        "i128"@.len() == 4 && "i128"@[0] == 'i',
        "u128"@.len() == 4 && "u128"@[0] == 'u',
        "isize"@.len() == 5 && "isize"@[0] == 'i' && "isize"@[1] == 's',
        "usize"@.len() == 5 && "usize"@[0] == 'u' && "usize"@[1] == 's',
        "bool"@.len() == 4 && "bool"@[0] == 'b',
        "String"@.len() == 6 && "String"@[0] == 'S' && "String"@[2] == 'r',
        "str"@.len() == 3 && "str"@[0] == 's',
        "char"@.len() == 4 && "char"@[0] == 'c',
        "Object"@.len() == 6 && "Object"@[0] == 'O' && "Object"@[2] == 'j',
        " str"@.len() == 4 && " str"@[0] == ' ' && " str"@[1] == 's' && " str"@[2]
            == 't' && " str"@[3] == 'r',
{
    reveal_strlit("()");
    reveal_strlit("i8");
    reveal_strlit("i16");
    reveal_strlit("i32");
    reveal_strlit("u8");
    reveal_strlit("u16");
    reveal_strlit("u32");
    reveal_strlit("i64");
    reveal_strlit("u64");
    reveal_strlit("i128");
    reveal_strlit("u128");
    reveal_strlit("isize");
    reveal_strlit("usize");
    reveal_strlit("bool");
    reveal_strlit("String");
    reveal_strlit("str");
    reveal_strlit("char");
    reveal_strlit("Object");
    reveal_strlit(" str");
}

/// A string of length at least 8 whose last character is `>` is no
/// primitive token: every exact token is shorter, and the string-slice
/// suffix ends in `r`.
pub proof fn lemma_wrapper_not_primitive(s: Seq<char>)
    requires
        s.len() >= 8,
        s[s.len() - 1] == '>',
    ensures
        !is_primitive_token(s),
{
    lemma_token_facts();
    if has_suffix(s, " str"@) {
        lemma_occurs_char(s, " str"@, s.len() - 4, 3);
    }
}

/// Every primitive token of the table translates to exactly its mapped
/// target string, whatever the context flag.
pub proof fn lemma_primitive_table(f: bool)
    ensures
        translate_text("()"@, f) == "undefined"@,
        translate_text("i8"@, f) == "number"@,
        translate_text("i16"@, f) == "number"@,
        translate_text("i32"@, f) == "number"@,
        translate_text("u8"@, f) == "number"@,
        translate_text("u16"@, f) == "number"@,
        translate_text("u32"@, f) == "number"@,
        translate_text("i64"@, f) == "BigInt"@,
        translate_text("u64"@, f) == "BigInt"@,
        translate_text("i128"@, f) == "BigInt"@,
        translate_text("u128"@, f) == "BigInt"@,
        translate_text("isize"@, f) == "BigInt"@,
        translate_text("usize"@, f) == "BigInt"@,
        translate_text("bool"@, f) == "boolean"@,
        translate_text("String"@, f) == "string"@,
        translate_text("str"@, f) == "string"@,
        translate_text("char"@, f) == "string"@,
        translate_text("Object"@, f) == "object"@,
{
    lemma_token_facts();
}

/// Any token that ends in the string-slice suffix translates to the
/// target's string type, whatever the context flag: nothing but a borrowed,
/// possibly lifetime-annotated string slice prints with that ending.
pub proof fn lemma_string_slice_suffix(s: Seq<char>, f: bool)
    requires
        has_suffix(s, " str"@),
    ensures
        translate_text(s, f) == "string"@,
{
    lemma_token_facts();
    lemma_occurs_char(s, " str"@, s.len() - 4, 0);
    lemma_occurs_char(s, " str"@, s.len() - 4, 1);
    lemma_occurs_char(s, " str"@, s.len() - 4, 2);
    lemma_occurs_char(s, " str"@, s.len() - 4, 3);
}

/// A sequence wrapper around any inner text renders as the target's array
/// type around the inner translation, whatever the context flag.
pub proof fn lemma_sequence_wrapper(t: Seq<char>, f: bool)
    ensures
        translate_text("Vec < "@ + t + " >"@, f) == "Array<"@ + translate_text(
            t,
            false,
        ) + ">"@,
{
    reveal_strlit("Vec < ");
    reveal_strlit(" >");
    let s = "Vec < "@ + t + " >"@;
    assert(s.len() == t.len() + 8);
    assert(s[s.len() - 1] == '>');
    lemma_wrapper_not_primitive(s);
    assert(s.subrange(0, 6) =~= "Vec < "@);
    assert(s.subrange(s.len() - 2, s.len() as int) =~= " >"@);
    assert(crate::recognize::sequence_matches(s));
    assert(crate::recognize::sequence_inner(s) =~= t);
}

/// An optional wrapper around any inner text renders as the inner
/// translation followed by a null union member, whatever the context flag.
pub proof fn lemma_optional_wrapper(t: Seq<char>, f: bool)
    ensures
        translate_text("Option < "@ + t + " >"@, f) == translate_text(t, false)
            + " | null"@,
{
    reveal_strlit("Option < ");
    reveal_strlit("Vec < ");
    reveal_strlit(" >");
    let s = "Option < "@ + t + " >"@;
    assert(s.len() == t.len() + 11);
    assert(s[s.len() - 1] == '>');
    lemma_wrapper_not_primitive(s);
    assert(s.subrange(0, 9) =~= "Option < "@);
    if occurs_at(s, "Vec < "@, 0) {
        lemma_occurs_char(s, "Vec < "@, 0, 0);
        lemma_occurs_char(s, "Option < "@, 0, 0);
    }
    assert(occurs_at(s, " >"@, s.len() - 2)) by {
        assert(s.subrange(s.len() - 2, s.len() as int) =~= " >"@);
    }
    assert(close_pos(s) == s.len() - 2);
    assert(crate::recognize::optional_matches(s));
    assert(crate::recognize::optional_inner(s) =~= t);
}

/// When the text after a separator occurrence holds no further separator,
/// and does not begin mid-separator, the greedy search finds exactly that
/// occurrence.
proof fn lemma_last_separator(s: Seq<char>, j0: int, e: Seq<char>)
    requires
        9 <= j0,
        j0 + 3 + e.len() + 2 == s.len(),
        occurs_at(s, " , "@, j0),
        forall|i: int| 0 <= i < e.len() ==> s[j0 + 3 + i] == e[i],
        !contains(e, " , "@),
        !has_prefix(e, ", "@),
    ensures
        rfind_at_or_before(s, " , "@, s.len() - 5) == j0,
{
    reveal_strlit(" , ");
    reveal_strlit(", ");
    lemma_rfind_at_or_before(s, " , "@, s.len() - 5);
    let r = rfind_at_or_before(s, " , "@, s.len() - 5);
    if r > j0 {
        lemma_occurs_char(s, " , "@, r, 0);
        lemma_occurs_char(s, " , "@, r, 1);
        lemma_occurs_char(s, " , "@, r, 2);
        lemma_occurs_char(s, " , "@, j0, 0);
        lemma_occurs_char(s, " , "@, j0, 1);
        lemma_occurs_char(s, " , "@, j0, 2);
        if r == j0 + 1 {
            assert(false);
        } else if r == j0 + 2 {
            assert(e.subrange(0, 2) =~= ", "@);
            assert(false);
        } else {
            let q = r - (j0 + 3);
            assert(e.subrange(q, q + 3) =~= " , "@);
            assert(occurs_at(e, " , "@, q));
            assert(false);
        }
    }
}

/// A fallible wrapper whose error text holds no further argument separator
/// renders as the success translation alone when the top-level flag asks to
/// omit it, and as an error union around it otherwise.
pub proof fn lemma_fallible_wrapper(t: Seq<char>, e: Seq<char>)
    requires
        !contains(e, " , "@),
        !has_prefix(e, ", "@),
    ensures
        translate_text("Result < "@ + t + " , "@ + e + " >"@, true) == translate_text(
            t,
            false,
        ),
        translate_text("Result < "@ + t + " , "@ + e + " >"@, false) == "Error | "@
            + translate_text(t, false),
{
    reveal_strlit("Result < ");
    reveal_strlit("Option < ");
    reveal_strlit("Vec < ");
    reveal_strlit(" >");
    reveal_strlit(" , ");
    let s = "Result < "@ + t + " , "@ + e + " >"@;
    let j0: int = 9 + t.len() as int;
    assert(s.len() == t.len() + e.len() + 14);
    assert(s[s.len() - 1] == '>');
    lemma_wrapper_not_primitive(s);
    assert(s.subrange(0, 9) =~= "Result < "@);
    if occurs_at(s, "Vec < "@, 0) {
        lemma_occurs_char(s, "Vec < "@, 0, 0);
        lemma_occurs_char(s, "Result < "@, 0, 0);
    }
    if occurs_at(s, "Option < "@, 0) {
        lemma_occurs_char(s, "Option < "@, 0, 0);
        lemma_occurs_char(s, "Result < "@, 0, 0);
    }
    assert(occurs_at(s, " >"@, s.len() - 2)) by {
        assert(s.subrange(s.len() - 2, s.len() as int) =~= " >"@);
    }
    assert(close_pos(s) == s.len() - 2);
    assert(crate::recognize::fallible_matches(s));
    assert(occurs_at(s, " , "@, j0)) by {
        assert(s.subrange(j0, j0 + 3) =~= " , "@);
    }
    assert(forall|i: int| 0 <= i < e.len() ==> s[j0 + 3 + i] == e[i]);
    lemma_last_separator(s, j0, e);
    assert(sep_pos(s) == j0);
    assert(crate::recognize::fallible_inner(s) =~= t);
}

/// A map wrapper whose value text holds no further argument separator
/// renders as the target's record type around the key and value
/// translations, whatever the context flag.
pub proof fn lemma_map_wrapper(k: Seq<char>, v: Seq<char>, f: bool)
    requires
        !contains(v, " , "@),
        !has_prefix(v, ", "@),
    ensures
        translate_text("HashMap < "@ + k + " , "@ + v + " >"@, f) == "Record<"@
            + translate_text(k, false) + ", "@ + translate_text(v, false) + ">"@,
{
    reveal_strlit("HashMap < ");
    reveal_strlit("Result < ");
    reveal_strlit("Option < ");
    reveal_strlit("Vec < ");
    reveal_strlit(" >");
    reveal_strlit(" , ");
    let s = "HashMap < "@ + k + " , "@ + v + " >"@;
    let j0: int = 10 + k.len() as int;
    assert(s.len() == k.len() + v.len() + 15);
    assert(s[s.len() - 1] == '>');
    lemma_wrapper_not_primitive(s);
    assert(s.subrange(0, 10) =~= "HashMap < "@);
    assert(occurs_at(s, "HashMap < "@, 0));
    if occurs_at(s, "Vec < "@, 0) {
        lemma_occurs_char(s, "Vec < "@, 0, 0);
        lemma_occurs_char(s, "HashMap < "@, 0, 0);
    }
    if occurs_at(s, "Option < "@, 0) {
        lemma_occurs_char(s, "Option < "@, 0, 0);
        lemma_occurs_char(s, "HashMap < "@, 0, 0);
    }
    if occurs_at(s, "Result < "@, 0) {
        lemma_occurs_char(s, "Result < "@, 0, 0);
        lemma_occurs_char(s, "HashMap < "@, 0, 0);
    }
    assert(occurs_at(s, " >"@, s.len() - 2)) by {
        assert(s.subrange(s.len() - 2, s.len() as int) =~= " >"@);
    }
    assert(close_pos(s) == s.len() - 2);
    assert(crate::recognize::map_start(s) == 0);
    assert(occurs_at(s, " , "@, j0)) by {
        assert(s.subrange(j0, j0 + 3) =~= " , "@);
    }
    assert(forall|i: int| 0 <= i < v.len() ==> s[j0 + 3 + i] == v[i]);
    lemma_last_separator(s, j0, v);
    assert(sep_pos(s) == j0);
    assert(crate::recognize::map_matches(s));
    assert(crate::recognize::map_key(s) =~= k);
    assert(crate::recognize::map_value(s) =~= v);
}

/// Reference erasure: translating a reference to a type is translating the
/// type itself, with the context flag propagated unchanged.
pub proof fn lemma_reference_erasure(inner: Box<TypeExpr>, f: bool)
    ensures
        translate_expr(TypeExpr::Reference(inner), f) == translate_expr(*inner, f),
{
}

/// The empty tuple renders as the target's "no value" primitive.
pub proof fn lemma_tuple_empty(elems: Vec<TypeExpr>, f: bool)
    requires
        elems@.len() == 0,
    ensures
        translate_expr(TypeExpr::Tuple(elems), f) == "undefined"@,
{
}

/// A pair renders as a bracketed comma-joined list of its two element
/// translations, each with the context flag off.
pub proof fn lemma_tuple_pair(elems: Vec<TypeExpr>, f: bool)
    requires
        elems@.len() == 2,
    ensures
        translate_expr(TypeExpr::Tuple(elems), f) == "["@ + translate_expr(
            elems[0],
            false,
        ) + ", "@ + translate_expr(elems[1], false) + "]"@,
{
    reveal_with_fuel(crate::expr::translate_elems, 3);
    assert(crate::expr::translate_elems(elems, 1) == translate_expr(elems[1], false));
    assert(crate::expr::translate_elems(elems, 0) == translate_expr(elems[0], false)
        + ", "@ + crate::expr::translate_elems(elems, 1));
    assert(translate_expr(TypeExpr::Tuple(elems), f) == "["@
        + crate::expr::translate_elems(elems, 0) + "]"@);
    assert(translate_expr(TypeExpr::Tuple(elems), f) =~= "["@ + translate_expr(
        elems[0],
        false,
    ) + ", "@ + translate_expr(elems[1], false) + "]"@);
}

} // verus!
