//! Type label resolution: a column's declared type label picks the decode
//! strategy. Resolution never fails; unrecognized labels degrade to the
//! opaque-binary fallback.
//!
//! The ordered rules are, and must stay, explicit: an exact primitive match
//! first; then, if the label has an underscore, a semantic-alias match on the
//! part before the first underscore; then a primitive match on the part after
//! it; a label without an underscore may match a semantic alias whole; all
//! else is opaque binary. Reordering these rules changes the outcome for
//! ambiguous labels.

use vstd::prelude::*;

use crate::DecodeStrategy;

verus! {

/// Case-insensitive match of one label character against one keyword
/// character. Keywords are lowercase ASCII, so this is ASCII case folding.
pub open spec fn eq_ci(c: char, k: char) -> bool {
    c == k || (97 <= k as u32 <= 122 && c as u32 + 32 == k as u32)
}

/// The label text `l`, lowercased, equals the keyword `k`.
pub open spec fn label_eq(l: Seq<char>, k: Seq<char>) -> bool {
    l.len() == k.len() && (forall|i: int| 0 <= i < l.len() ==> eq_ci(l[i], k[i]))
}

/// The strategy a primitive type label names, if any.
pub open spec fn primitive_of(l: Seq<char>) -> Option<DecodeStrategy> {
    if label_eq(l, "text"@) {
        Some(DecodeStrategy::Text)
    } else if label_eq(l, "integer"@) || label_eq(l, "int4"@) {
        Some(DecodeStrategy::Int32)
    } else if label_eq(l, "bigint"@) || label_eq(l, "int8"@) {
        Some(DecodeStrategy::Int64)
    } else if label_eq(l, "real"@) {
        Some(DecodeStrategy::Double)
    } else if label_eq(l, "boolean"@) {
        Some(DecodeStrategy::Boolean)
    } else {
        None
    }
}

/// The strategy a semantic alias names, if any.
pub open spec fn alias_of(l: Seq<char>) -> Option<DecodeStrategy> {
    if label_eq(l, "uuid"@) {
        Some(DecodeStrategy::UuidText)
    } else if label_eq(l, "datetime"@) {
        Some(DecodeStrategy::TimestampText)
    } else if label_eq(l, "password"@) {
        Some(DecodeStrategy::Text)
    } else if label_eq(l, "email"@) {
        Some(DecodeStrategy::Text)
    } else if label_eq(l, "json"@) {
        Some(DecodeStrategy::StructuredData)
    } else {
        None
    }
}

/// Index of the first underscore at or after `i`, if any.
pub open spec fn first_underscore_from(l: Seq<char>, i: int) -> Option<int>
    decreases l.len() - i,
{
    if i < 0 || i >= l.len() {
        None
    } else if l[i] == '_' {
        Some(i)
    } else {
        first_underscore_from(l, i + 1)
    }
}

/// Index of the first underscore of the label, if any.
pub open spec fn first_underscore(l: Seq<char>) -> Option<int> {
    first_underscore_from(l, 0)
}

/// The strategy a declared type label resolves to. Total: every label gets
/// a strategy, the unrecognized ones the opaque-binary fallback.
pub open spec fn resolve_spec(label: Seq<char>) -> DecodeStrategy {
    match primitive_of(label) {
        Some(s) => s,
        None => match first_underscore(label) {
            Some(i) => {
                let prefix = label.subrange(0, i);
                let suffix = label.subrange(i + 1, label.len() as int);
                match alias_of(prefix) {
                    Some(s) => s,
                    None => match primitive_of(suffix) {
                        Some(s) => s,
                        None => DecodeStrategy::OpaqueBinary,
                    },
                }
            },
            None => match alias_of(label) {
                Some(s) => s,
                None => DecodeStrategy::OpaqueBinary,
            },
        },
    }
}

/// Compares the label segment `s[from..to]`, lowercased, to the keyword.
fn seg_eq_ci(s: &str, from: usize, to: usize, k: &str) -> (r: bool)
    requires
        from <= to <= s@.len(),
    ensures
        r == label_eq(s@.subrange(from as int, to as int), k@),
{
    let klen = k.unicode_len();
    if to - from != klen {
        return false;
    }
    let ghost seg = s@.subrange(from as int, to as int);
    let mut i: usize = 0;
    while i < klen
        invariant
            from <= to <= s@.len(),
            to - from == klen,
            klen == k@.len(),
            i <= klen,
            seg == s@.subrange(from as int, to as int),
            forall|j: int| 0 <= j < i ==> eq_ci(seg[j], k@[j]),
        decreases klen - i,
    {
        let c = s.get_char(from + i);
        let kc = k.get_char(i);
        let cu = c as u32;
        let ku = kc as u32;
        if !(c == kc || (97 <= ku && ku <= 122 && cu + 32 == ku)) {
            assert(!eq_ci(seg[i as int], k@[i as int]));
            return false;
        }
        assert(eq_ci(seg[i as int], k@[i as int]));
        i += 1;
    }
    true
}

/// Matches the label segment `s[from..to]` against the primitive labels.
fn match_primitive(s: &str, from: usize, to: usize) -> (r: Option<DecodeStrategy>)
    requires
        from <= to <= s@.len(),
    ensures
        r == primitive_of(s@.subrange(from as int, to as int)),
{
    if seg_eq_ci(s, from, to, "text") {
        Some(DecodeStrategy::Text)
    } else if seg_eq_ci(s, from, to, "integer") || seg_eq_ci(s, from, to, "int4") {
        Some(DecodeStrategy::Int32)
    } else if seg_eq_ci(s, from, to, "bigint") || seg_eq_ci(s, from, to, "int8") {
        Some(DecodeStrategy::Int64)
    } else if seg_eq_ci(s, from, to, "real") {
        Some(DecodeStrategy::Double)
    } else if seg_eq_ci(s, from, to, "boolean") {
        Some(DecodeStrategy::Boolean)
    } else {
        None
    }
}

/// Matches the label segment `s[from..to]` against the semantic aliases.
fn match_alias(s: &str, from: usize, to: usize) -> (r: Option<DecodeStrategy>)
    requires
        from <= to <= s@.len(),
    ensures
        r == alias_of(s@.subrange(from as int, to as int)),
{
    if seg_eq_ci(s, from, to, "uuid") {
        Some(DecodeStrategy::UuidText)
    } else if seg_eq_ci(s, from, to, "datetime") {
        Some(DecodeStrategy::TimestampText)
    } else if seg_eq_ci(s, from, to, "password") {
        Some(DecodeStrategy::Text)
    } else if seg_eq_ci(s, from, to, "email") {
        Some(DecodeStrategy::Text)
    } else if seg_eq_ci(s, from, to, "json") {
        Some(DecodeStrategy::StructuredData)
    } else {
        None
    }
}

proof fn lemma_first_underscore_from(l: Seq<char>, i: int, p: int)
    requires
        0 <= i <= p <= l.len(),
        forall|j: int| i <= j < p ==> l[j] != '_',
        p == l.len() || l[p] == '_',
    ensures
        first_underscore_from(l, i) == (if p == l.len() {
            Option::<int>::None
        } else {
            Some(p)
        }),
    decreases p - i,
{
    if i < p {
        lemma_first_underscore_from(l, i + 1, p);
    }
}

/// Resolves a declared type label to its decode strategy.
pub fn resolve(label: &str) -> (r: DecodeStrategy)
    ensures
        r == resolve_spec(label@),
{
    let n = label.unicode_len();
    proof {
        assert(label@.subrange(0, n as int) =~= label@);
    }
    if let Some(s) = match_primitive(label, 0, n) {
        return s;
    }
    let mut i: usize = 0;
    while i < n
        invariant
            i <= n,
            n == label@.len(),
            forall|j: int| 0 <= j < i ==> label@[j] != '_',
            primitive_of(label@) is None,
        decreases n - i,
    {
        if label.get_char(i) == '_' {
            proof {
                lemma_first_underscore_from(label@, 0, i as int);
            }
            if let Some(s) = match_alias(label, 0, i) {
                return s;
            }
            if let Some(s) = match_primitive(label, i + 1, n) {
                return s;
            }
            return DecodeStrategy::OpaqueBinary;
        }
        i += 1;
    }
    proof {
        lemma_first_underscore_from(label@, 0, n as int);
    }
    if let Some(s) = match_alias(label, 0, n) {
        return s;
    }
    DecodeStrategy::OpaqueBinary
}

} // verus!
