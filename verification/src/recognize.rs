//! The shape recognizer: pattern matchers for the four recognized
//! generic-wrapper shapes of the source type syntax, in its canonical
//! pretty-printed form (single spaces around `<`, `>` and `,`).
//!
//! - sequence: `Vec < T >`, anchored at both ends;
//! - optional: `Option < T >`, with trailing content allowed after the last
//!   ` >`;
//! - fallible result: `Result < T >` or `Result < T , E >`, with trailing
//!   content allowed; the error type is discarded;
//! - associative map: `HashMap < K , V >`, anywhere in the string.
//!
//! Captures are greedy: the inner argument of an optional or fallible shape
//! extends to the last ` >` of the string, and the key of a map to the last
//! ` , ` before that. No balancing of nested angle brackets is attempted, so
//! an argument that itself contains the closing syntax can mis-capture; the
//! caller accepts this.

use vstd::prelude::*;
use vstd::string::StrSliceExecFns;

use crate::pattern::find_at_or_after;
use crate::pattern::lemma_find_at_or_after;
use crate::pattern::lemma_rfind_at_or_before;
use crate::pattern::matches_at;
use crate::pattern::occurs_at;
use crate::pattern::rfind;
use crate::pattern::rfind_at_or_before;
use crate::pattern::find;

verus! {

/// `s` begins with `p`.
pub open spec fn has_prefix(s: Seq<char>, p: Seq<char>) -> bool {
    occurs_at(s, p, 0)
}

/// `s` ends with `p`.
pub open spec fn has_suffix(s: Seq<char>, p: Seq<char>) -> bool {
    occurs_at(s, p, s.len() - p.len())
}

/// Position of the closing ` >` shared by the optional, fallible and map
/// shapes: the last occurrence in the whole string, or -1.
pub open spec fn close_pos(s: Seq<char>) -> int {
    rfind_at_or_before(s, " >"@, s.len() - 2)
}

/// Position of the last argument separator ` , ` that still leaves room for
/// the closing ` >` behind it, or -1.
pub open spec fn sep_pos(s: Seq<char>) -> int {
    rfind_at_or_before(s, " , "@, close_pos(s) - 3)
}

/// The sequence shape: exactly `Vec < T >`.
pub open spec fn sequence_matches(s: Seq<char>) -> bool {
    s.len() >= 8 && has_prefix(s, "Vec < "@) && has_suffix(s, " >"@)
}

/// The captured element type of a sequence shape.
pub open spec fn sequence_inner(s: Seq<char>) -> Seq<char> {
    s.subrange(6, s.len() - 2)
}

/// The optional shape: `Option < T >` with trailing content allowed.
pub open spec fn optional_matches(s: Seq<char>) -> bool {
    has_prefix(s, "Option < "@) && close_pos(s) >= 9
}

/// The captured inner type of an optional shape.
pub open spec fn optional_inner(s: Seq<char>) -> Seq<char> {
    s.subrange(9, close_pos(s))
}

/// The fallible shape: `Result < T >` or `Result < T , E >`, with trailing
/// content allowed.
pub open spec fn fallible_matches(s: Seq<char>) -> bool {
    has_prefix(s, "Result < "@) && close_pos(s) >= 9
}

/// The captured success type of a fallible shape; any error type after the
/// separator is discarded.
pub open spec fn fallible_inner(s: Seq<char>) -> Seq<char> {
    if sep_pos(s) >= 9 {
        s.subrange(9, sep_pos(s))
    } else {
        s.subrange(9, close_pos(s))
    }
}

/// Position of the first `HashMap < ` in the string, or -1.
pub open spec fn map_start(s: Seq<char>) -> int {
    find_at_or_after(s, "HashMap < "@, 0)
}

/// The map shape: `HashMap < K , V >` anywhere in the string. Both arguments
/// are required.
pub open spec fn map_matches(s: Seq<char>) -> bool {
    map_start(s) >= 0 && close_pos(s) >= 0 && sep_pos(s) >= map_start(s) + 10
}

/// The captured key type of a map shape.
pub open spec fn map_key(s: Seq<char>) -> Seq<char> {
    s.subrange(map_start(s) + 10, sep_pos(s))
}

/// The captured value type of a map shape.
pub open spec fn map_value(s: Seq<char>) -> Seq<char> {
    s.subrange(sep_pos(s) + 3, close_pos(s))
}

/// Bounds of the recognized capture positions, from the search lemmas: the
/// closing ` >` lies within the string and the separator leaves room for it.
pub proof fn lemma_capture_bounds(s: Seq<char>)
    ensures
        close_pos(s) >= -1,
        close_pos(s) >= 0 ==> close_pos(s) <= s.len() - 2 && occurs_at(
            s,
            " >"@,
            close_pos(s),
        ),
        sep_pos(s) >= -1,
        sep_pos(s) >= 0 ==> sep_pos(s) <= close_pos(s) - 3 && occurs_at(
            s,
            " , "@,
            sep_pos(s),
        ),
        map_start(s) >= -1,
        map_start(s) >= 0 ==> map_start(s) + 10 <= s.len(),
{
    lemma_rfind_at_or_before(s, " >"@, s.len() - 2);
    lemma_rfind_at_or_before(s, " , "@, close_pos(s) - 3);
    lemma_find_at_or_after(s, "HashMap < "@, 0);
    if map_start(s) >= 0 {
        reveal_strlit("HashMap < ");
    }
}

/// Recognize the sequence shape and hand back the captured element type.
pub fn recognize_sequence<'a>(s: &'a str, n: usize) -> (r: Option<&'a str>)
    requires
        n == s@.len(),
    ensures
        match r {
            Some(t) => sequence_matches(s@) && t@ == sequence_inner(s@)
                && t@.len() < s@.len(),
            None => !sequence_matches(s@),
        },
{
    proof {
        reveal_strlit("Vec < ");
        reveal_strlit(" >");
    }
    if n >= 8 && matches_at(s, "Vec < ", 0) && matches_at(s, " >", n - 2) {
        Some(s.substring_char(6, n - 2))
    } else {
        None
    }
}

/// Recognize the optional shape and hand back the captured inner type.
pub fn recognize_optional<'a>(s: &'a str, n: usize) -> (r: Option<&'a str>)
    requires
        n == s@.len(),
    ensures
        match r {
            Some(t) => optional_matches(s@) && t@ == optional_inner(s@)
                && t@.len() < s@.len(),
            None => !optional_matches(s@),
        },
{
    proof {
        reveal_strlit("Option < ");
        reveal_strlit(" >");
        lemma_rfind_at_or_before(s@, " >"@, s@.len() - 2);
    }
    if n >= 9 && matches_at(s, "Option < ", 0) {
        match rfind(s, n, " >", 2, n - 2) {
            Some(j) => {
                if j >= 9 {
                    Some(s.substring_char(9, j))
                } else {
                    None
                }
            },
            None => None,
        }
    } else {
        None
    }
}

/// Recognize the fallible shape and hand back the captured success type; the
/// error type, if present, is discarded.
pub fn recognize_fallible<'a>(s: &'a str, n: usize) -> (r: Option<&'a str>)
    requires
        n == s@.len(),
    ensures
        match r {
            Some(t) => fallible_matches(s@) && t@ == fallible_inner(s@)
                && t@.len() < s@.len(),
            None => !fallible_matches(s@),
        },
{
    proof {
        reveal_strlit("Result < ");
        reveal_strlit(" >");
        reveal_strlit(" , ");
        lemma_rfind_at_or_before(s@, " >"@, s@.len() - 2);
    }
    if n >= 9 && matches_at(s, "Result < ", 0) {
        match rfind(s, n, " >", 2, n - 2) {
            Some(j) => {
                if j >= 9 {
                    proof {
                        lemma_rfind_at_or_before(s@, " , "@, j - 3);
                    }
                    match rfind(s, n, " , ", 3, j - 3) {
                        Some(c) => {
                            if c >= 9 {
                                Some(s.substring_char(9, c))
                            } else {
                                Some(s.substring_char(9, j))
                            }
                        },
                        None => Some(s.substring_char(9, j)),
                    }
                } else {
                    None
                }
            },
            None => None,
        }
    } else {
        None
    }
}

/// Recognize the map shape and hand back the captured key and value types.
pub fn recognize_map<'a>(s: &'a str, n: usize) -> (r: Option<(&'a str, &'a str)>)
    requires
        n == s@.len(),
    ensures
        match r {
            Some(kv) => map_matches(s@) && kv.0@ == map_key(s@) && kv.1@
                == map_value(s@) && kv.0@.len() < s@.len() && kv.1@.len()
                < s@.len(),
            None => !map_matches(s@),
        },
{
    proof {
        reveal_strlit("HashMap < ");
        reveal_strlit(" >");
        reveal_strlit(" , ");
        lemma_find_at_or_after(s@, "HashMap < "@, 0);
        lemma_rfind_at_or_before(s@, " >"@, s@.len() - 2);
    }
    match find(s, n, "HashMap < ", 10, 0) {
        Some(i) => {
            if n >= 2 {
                match rfind(s, n, " >", 2, n - 2) {
                    Some(j) => {
                        if j >= 3 {
                            proof {
                                lemma_rfind_at_or_before(s@, " , "@, j - 3);
                            }
                            match rfind(s, n, " , ", 3, j - 3) {
                                Some(c) => {
                                    if c >= i + 10 {
                                        Some(
                                            (
                                                s.substring_char(i + 10, c),
                                                s.substring_char(c + 3, j),
                                            ),
                                        )
                                    } else {
                                        None
                                    }
                                },
                                None => None,
                            }
                        } else {
                            proof {
                                assert(rfind_at_or_before(s@, " , "@, close_pos(s@) - 3)
                                    == -1);
                            }
                            None
                        }
                    },
                    None => {
                        proof {
                            assert(rfind_at_or_before(s@, " , "@, close_pos(s@) - 3)
                                == -1);
                        }
                        None
                    },
                }
            } else {
                proof {
                    assert(rfind_at_or_before(s@, " >"@, s@.len() - 2) == -1);
                    assert(rfind_at_or_before(s@, " , "@, close_pos(s@) - 3) == -1);
                }
                None
            }
        },
        None => None,
    }
}

} // verus!
