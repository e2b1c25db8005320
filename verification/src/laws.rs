use vstd::prelude::*;
use crate::compare::{hash_chars, lex_cmp};
use crate::wstring::{push_cap, reserve_cap, wide_units};
use core::cmp::Ordering;

verus! {

/// Two character sequences are equal exactly when their raw wide-unit views
/// are: going to code points loses nothing, since a character is its code
/// point.
pub proof fn lemma_eq_iff_wide_units(a: Seq<char>, b: Seq<char>)
    ensures
        (a == b) <==> (wide_units(a) == wide_units(b)),
{
    if wide_units(a) == wide_units(b) {
        assert(wide_units(a).len() == a.len());
        assert(wide_units(b).len() == b.len());
        assert(a.len() == b.len());
        assert forall|i: int| 0 <= i < a.len() implies a[i] == b[i] by {
            assert(0 <= i < b.len());
            assert(wide_units(a)[i] == (a[i] as u32));
            assert(wide_units(b)[i] == (b[i] as u32));
            vstd::utf8::char_u32_cast(a[i], a[i] as u32);
            vstd::utf8::char_u32_cast(b[i], b[i] as u32);
        }
        assert(a =~= b);
    }
}

/// Equality of handles is an equivalence relation: reflexive, symmetric and
/// transitive over the contents.
pub proof fn lemma_eq_equivalence(a: Seq<char>, b: Seq<char>, c: Seq<char>)
    ensures
        a == a,
        (a == b) ==> (b == a),
        (a == b && b == c) ==> (a == c),
{
}

/// Appending twice appends the concatenation: pushing `s1`, then `s2`,
/// leaves the old contents followed by `s1` followed by `s2`, both as
/// characters and as raw wide units.
pub proof fn lemma_push_order(h: Seq<char>, s1: Seq<char>, s2: Seq<char>)
    ensures
        (h + s1) + s2 == h + (s1 + s2),
        wide_units((h + s1) + s2) == wide_units(h) + wide_units(s1) + wide_units(s2),
{
    assert((h + s1) + s2 =~= h + (s1 + s2));
    assert(wide_units((h + s1) + s2) =~= wide_units(h) + wide_units(s1) + wide_units(s2));
}

/// After reserving `n` additional units on contents of `len` units, appends
/// that bring the length to at most `len + n` stay within the reserved
/// capacity, so none of them makes the storage grow.
pub proof fn lemma_reserve_covers_pushes(cap: nat, len: nat, n: nat, k: nat)
    requires
        k <= n,
    ensures
        push_cap(reserve_cap(cap, len + n), len + k) == reserve_cap(cap, len + n),
{
}

/// The lexicographic order agrees with equality: two character sequences
/// compare `Equal` exactly when they are equal.
pub proof fn lemma_lex_cmp_eq(a: Seq<char>, b: Seq<char>)
    ensures
        (lex_cmp(a, b) == Ordering::Equal) <==> (a == b),
    decreases a.len() + b.len(),
{
    if a.len() == 0 && b.len() == 0 {
        assert(a =~= b);
    } else if a.len() == 0 || b.len() == 0 {
        assert(a != b);
    } else {
        lemma_lex_cmp_eq(a.drop_first(), b.drop_first());
        if (a[0] as u32) == (b[0] as u32) {
            vstd::utf8::char_u32_cast(a[0], a[0] as u32);
            vstd::utf8::char_u32_cast(b[0], b[0] as u32);
            assert(a[0] == b[0]);
            if a.drop_first() == b.drop_first() {
                assert(a.len() == b.len());
                assert forall|i: int| 0 <= i < a.len() implies a[i] == b[i] by {
                    if i > 0 {
                        assert(a.drop_first()[i - 1] == a[i]);
                        assert(b.drop_first()[i - 1] == b[i]);
                    }
                }
                assert(a =~= b);
            } else {
                assert(a != b);
            }
        } else {
            assert(a != b);
        }
    }
}

/// Hashing is a function of the contents alone: equal handles hash
/// identically.
pub proof fn lemma_hash_consistency(a: Seq<char>, b: Seq<char>)
    requires
        a == b,
    ensures
        hash_chars(a) == hash_chars(b),
{
}

} // verus!
