//! Ordering of match records.
//!
//! Canonical output is sorted by the composite key `(file, line)`, string
//! first (lexicographically by character code point), then numerically by
//! line. This module defines that order, proves it is a strict total order
//! on keys, and provides executable comparators.

use vstd::prelude::*;
use vstd::string::*;

use crate::results::{MatchView, ResultNode};

verus! {

/// Strict lexicographic order on character sequences, by code point.
pub open spec fn lex_lt(a: Seq<char>, b: Seq<char>) -> bool
    decreases a.len(),
{
    if b.len() == 0 {
        false
    } else if a.len() == 0 {
        true
    } else if a[0] == b[0] {
        lex_lt(a.drop_first(), b.drop_first())
    } else {
        (a[0] as int) < (b[0] as int)
    }
}

/// Two records fall in the same deduplication group exactly when they share
/// file and line.
pub open spec fn same_key(a: MatchView, b: MatchView) -> bool {
    a.file == b.file && a.line == b.line
}

/// Strict order on deduplication keys: by file, then by line.
pub open spec fn key_lt(a: MatchView, b: MatchView) -> bool {
    lex_lt(a.file, b.file) || (a.file == b.file && a.line < b.line)
}

/// `lex_lt` is irreflexive, asymmetric, and connected: of two distinct
/// sequences one is strictly below the other, and never both.
pub proof fn lemma_lex_lt_trichotomy(a: Seq<char>, b: Seq<char>)
    ensures
        a == b || lex_lt(a, b) || lex_lt(b, a),
        lex_lt(a, b) ==> !lex_lt(b, a),
        lex_lt(a, b) ==> a != b,
    decreases a.len(),
{
    if a.len() == 0 || b.len() == 0 {
        if a.len() == 0 && b.len() == 0 {
            assert(a =~= b);
        }
    } else if a[0] == b[0] {
        let a1 = a.drop_first();
        let b1 = b.drop_first();
        lemma_lex_lt_trichotomy(a1, b1);
        if a1 == b1 {
            assert(a.len() == b.len());
            assert(forall|j: int| 0 < j < a.len() ==> #[trigger] a[j] == a1[j - 1] && b[j] == b1[
            j - 1]);
            assert(a =~= b);
        }
        if lex_lt(a, b) {
            assert(lex_lt(a1, b1));
            assert(a1 != b1);
            assert(a != b) by {
                if a == b {
                    assert(a1 =~= b1);
                }
            }
        }
    } else {
        assert(a != b);
    }
}

/// `lex_lt` is transitive.
pub proof fn lemma_lex_lt_transitive(a: Seq<char>, b: Seq<char>, c: Seq<char>)
    requires
        lex_lt(a, b),
        lex_lt(b, c),
    ensures
        lex_lt(a, c),
    decreases a.len(),
{
    if a.len() == 0 {
    } else {
        if a[0] == b[0] && b[0] == c[0] {
            lemma_lex_lt_transitive(a.drop_first(), b.drop_first(), c.drop_first());
        }
    }
}

/// Where two sequences agree on their first `i` characters, their order is
/// decided at position `i`: by the character there, or by length if one of
/// them ends.
pub proof fn lemma_lex_lt_common_prefix(a: Seq<char>, b: Seq<char>, i: int)
    requires
        0 <= i <= a.len(),
        i <= b.len(),
        forall|j: int| 0 <= j < i ==> a[j] == b[j],
    ensures
        i < a.len() && i < b.len() && a[i] != b[i] ==> lex_lt(a, b) == ((a[i] as int) < (
        b[i] as int)),
        i == a.len() ==> lex_lt(a, b) == (a.len() < b.len()),
        i == b.len() && i < a.len() ==> !lex_lt(a, b),
    decreases i,
{
    if i == 0 {
    } else {
        assert(a[0] == b[0]);
        let a1 = a.drop_first();
        let b1 = b.drop_first();
        assert(forall|j: int| 0 <= j < i - 1 ==> #[trigger] a1[j] == b1[j]) by {
            assert(forall|j: int| 0 <= j < i - 1 ==> #[trigger] a1[j] == a[j + 1] && b1[j] == b[
            j + 1]);
        }
        lemma_lex_lt_common_prefix(a1, b1, i - 1);
        assert(lex_lt(a, b) == lex_lt(a1, b1));
        if i < a.len() && i < b.len() && a[i] != b[i] {
            assert(a1[i - 1] == a[i] && b1[i - 1] == b[i]);
        }
    }
}

/// Executable lexicographic comparison of two strings.
pub fn str_lt(a: &str, b: &str) -> (r: bool)
    ensures
        r == lex_lt(a@, b@),
{
    let alen = a.unicode_len();
    let blen = b.unicode_len();
    let mut i: usize = 0;
    loop
        invariant
            i <= alen,
            i <= blen,
            alen == a@.len(),
            blen == b@.len(),
            forall|j: int| 0 <= j < i ==> a@[j] == b@[j],
        decreases alen - i,
    {
        if i == alen || i == blen {
            proof {
                lemma_lex_lt_common_prefix(a@, b@, i as int);
            }
            return i == alen && alen < blen;
        }
        let ca = a.get_char(i);
        let cb = b.get_char(i);
        if ca as u32 != cb as u32 {
            proof {
                lemma_lex_lt_common_prefix(a@, b@, i as int);
            }
            return (ca as u32) < (cb as u32);
        }
        proof {
            assert(ca == cb);
        }
        i = i + 1;
    }
}

/// Executable string equality, by character content.
pub fn str_content_eq(a: &str, b: &str) -> (r: bool)
    ensures
        r == (a@ == b@),
{
    let alen = a.unicode_len();
    let blen = b.unicode_len();
    if alen != blen {
        return false;
    }
    let mut i: usize = 0;
    while i < alen
        invariant
            i <= alen,
            alen == a@.len(),
            alen == b@.len(),
            forall|j: int| 0 <= j < i ==> a@[j] == b@[j],
        decreases alen - i,
    {
        let ca = a.get_char(i);
        let cb = b.get_char(i);
        if ca as u32 != cb as u32 {
            proof {
                assert(a@[i as int] != b@[i as int]);
            }
            return false;
        }
        proof {
            assert(ca == cb);
        }
        i = i + 1;
    }
    proof {
        assert(a@ =~= b@);
    }
    true
}

/// Do two records share a deduplication key?
pub fn node_same_key(a: &ResultNode, b: &ResultNode) -> (r: bool)
    ensures
        r == same_key(a@, b@),
{
    a.line_number == b.line_number && str_content_eq(a.file_uri.as_str(), b.file_uri.as_str())
}

/// Executable key comparison of two records.
pub fn node_key_lt(a: &ResultNode, b: &ResultNode) -> (r: bool)
    ensures
        r == key_lt(a@, b@),
{
    if str_lt(a.file_uri.as_str(), b.file_uri.as_str()) {
        true
    } else if str_content_eq(a.file_uri.as_str(), b.file_uri.as_str()) {
        a.line_number < b.line_number
    } else {
        false
    }
}

/// The key order is a strict total order on keys: two records are ordered
/// one way, the other way, or share their key — and only one of the three.
pub proof fn lemma_key_lt_trichotomy(a: MatchView, b: MatchView)
    ensures
        same_key(a, b) || key_lt(a, b) || key_lt(b, a),
        key_lt(a, b) ==> !key_lt(b, a),
        key_lt(a, b) ==> !same_key(a, b),
{
    lemma_lex_lt_trichotomy(a.file, b.file);
}

/// The key order is transitive.
pub proof fn lemma_key_lt_transitive(a: MatchView, b: MatchView, c: MatchView)
    requires
        key_lt(a, b),
        key_lt(b, c),
    ensures
        key_lt(a, c),
{
    if lex_lt(a.file, b.file) && lex_lt(b.file, c.file) {
        lemma_lex_lt_transitive(a.file, b.file, c.file);
    }
}

} // verus!
