use vstd::prelude::*;
use vstd::string::StrSliceExecFns;
use crate::wstring::{wide_units, CxxWString};
use core::cmp::Ordering;

verus! {

/// Seed of the 64-bit FNV-1a hash.
pub const FNV_OFFSET_BASIS: u64 = 0xcbf2_9ce4_8422_2325;

/// Multiplier of the 64-bit FNV-1a hash.
pub const FNV_PRIME: u64 = 0x0000_0100_0000_01b3;

/// One FNV-1a step: fold a character's code point into the running hash.
pub open spec fn hash_step(h: u64, c: char) -> u64 {
    vstd::wrapping::u64_specs::wrapping_mul(h ^ ((c as u32) as u64), FNV_PRIME)
}

/// FNV-1a hash of a character sequence, a function of the sequence alone.
pub open spec fn hash_chars(s: Seq<char>) -> u64
    decreases s.len(),
{
    if s.len() == 0 {
        FNV_OFFSET_BASIS
    } else {
        hash_step(hash_chars(s.drop_last()), s.last())
    }
}

/// Lexicographic, code-point-wise order of two character sequences.
pub open spec fn lex_cmp(a: Seq<char>, b: Seq<char>) -> Ordering
    decreases a.len() + b.len(),
{
    if a.len() == 0 && b.len() == 0 {
        Ordering::Equal
    } else if a.len() == 0 {
        Ordering::Less
    } else if b.len() == 0 {
        Ordering::Greater
    } else if (a[0] as u32) < (b[0] as u32) {
        Ordering::Less
    } else if (a[0] as u32) > (b[0] as u32) {
        Ordering::Greater
    } else {
        lex_cmp(a.drop_first(), b.drop_first())
    }
}

/// Element-wise equality of two character slices.
pub fn chars_eq(a: &[char], b: &[char]) -> (r: bool)
    ensures
        r == (a@ == b@),
{
    if a.len() != b.len() {
        proof {
            assert(a@.len() != b@.len());
        }
        return false;
    }
    let n: usize = a.len();
    let mut i: usize = 0;
    while i < n
        invariant
            n == a@.len() == b@.len(),
            i <= n,
            forall|j: int| 0 <= j < i ==> a@[j] == b@[j],
        decreases n - i,
    {
        if a[i] != b[i] {
            return false;
        }
        i += 1;
    }
    proof {
        assert(a@ =~= b@);
    }
    true
}

/// Lexicographic comparison of two character slices, code point by code
/// point.
pub fn cmp_chars(a: &[char], b: &[char]) -> (r: Ordering)
    ensures
        r == lex_cmp(a@, b@),
{
    let an: usize = a.len();
    let bn: usize = b.len();
    let mut i: usize = 0;
    proof {
        assert(a@.skip(0) =~= a@);
        assert(b@.skip(0) =~= b@);
    }
    while i < an && i < bn
        invariant
            an == a@.len(),
            bn == b@.len(),
            i <= an,
            i <= bn,
            lex_cmp(a@, b@) == lex_cmp(a@.skip(i as int), b@.skip(i as int)),
        decreases an - i,
    {
        let ca: u32 = a[i] as u32;
        let cb: u32 = b[i] as u32;
        proof {
            assert(a@.skip(i as int)[0] == a@[i as int]);
            assert(b@.skip(i as int)[0] == b@[i as int]);
        }
        if ca < cb {
            return Ordering::Less;
        }
        if ca > cb {
            return Ordering::Greater;
        }
        proof {
            assert(a@.skip(i as int).drop_first() =~= a@.skip(i as int + 1));
            assert(b@.skip(i as int).drop_first() =~= b@.skip(i as int + 1));
        }
        i += 1;
    }
    proof {
        assert(a@.skip(i as int).len() == an - i);
        assert(b@.skip(i as int).len() == bn - i);
    }
    if an < bn {
        Ordering::Less
    } else if an > bn {
        Ordering::Greater
    } else {
        Ordering::Equal
    }
}

impl CxxWString {
    /// Hash of the contents alone, so equal strings hash identically.
    pub fn hash_value(&self) -> (r: u64)
        ensures
            r == hash_chars(self@),
    {
        let cs: &[char] = self.as_chars();
        let n: usize = cs.len();
        let mut h: u64 = FNV_OFFSET_BASIS;
        let mut i: usize = 0;
        while i < n
            invariant
                cs@ == self@,
                n == self@.len(),
                i <= n,
                h == hash_chars(self@.take(i as int)),
            decreases n - i,
        {
            h = (h ^ ((cs[i] as u32) as u64)).wrapping_mul(FNV_PRIME);
            proof {
                assert(self@.take(i as int + 1).drop_last() =~= self@.take(i as int));
                assert(self@.take(i as int + 1).last() == self@[i as int]);
            }
            i += 1;
        }
        proof {
            assert(self@.take(n as int) =~= self@);
        }
        h
    }

    /// Unit-wise equality against a borrowed wide-unit sequence, without
    /// decoding either side.
    pub fn eq_wide_units(&self, units: &[u32]) -> (r: bool)
        ensures
            r == (wide_units(self@) == units@),
    {
        let cs: &[char] = self.as_chars();
        if cs.len() != units.len() {
            proof {
                assert(wide_units(self@).len() != units@.len());
            }
            return false;
        }
        let n: usize = cs.len();
        let mut i: usize = 0;
        while i < n
            invariant
                cs@ == self@,
                n == self@.len() == units@.len(),
                i <= n,
                forall|j: int| 0 <= j < i ==> (self@[j] as u32) == units@[j],
            decreases n - i,
        {
            if (cs[i] as u32) != units[i] {
                proof {
                    assert(wide_units(self@)[i as int] != units@[i as int]);
                }
                return false;
            }
            i += 1;
        }
        proof {
            assert(wide_units(self@) =~= units@);
        }
        true
    }

    /// Character-wise equality against a string slice.
    pub fn eq_str(&self, s: &str) -> (r: bool)
        ensures
            r == (self@ == s@),
    {
        let n: usize = s.unicode_len();
        let cs: &[char] = self.as_chars();
        if cs.len() != n {
            proof {
                assert(self@.len() != s@.len());
            }
            return false;
        }
        let mut i: usize = 0;
        while i < n
            invariant
                cs@ == self@,
                n == self@.len() == s@.len(),
                i <= n,
                forall|j: int| 0 <= j < i ==> self@[j] == s@[j],
            decreases n - i,
        {
            if cs[i] != s.get_char(i) {
                return false;
            }
            i += 1;
        }
        proof {
            assert(self@ =~= s@);
        }
        true
    }
}

impl PartialEq for CxxWString {
    /// Unit-wise equality over the full contents; capacity plays no part.
    fn eq(&self, other: &Self) -> (r: bool) {
        chars_eq(self.as_chars(), other.as_chars())
    }
}

impl vstd::std_specs::cmp::PartialEqSpecImpl for CxxWString {
    open spec fn obeys_eq_spec() -> bool {
        true
    }

    open spec fn eq_spec(&self, other: &Self) -> bool {
        self@ == other@
    }
}

impl Eq for CxxWString {}

impl PartialOrd for CxxWString {
    /// Lexicographic, code-point-wise order of the contents.
    fn partial_cmp(&self, other: &Self) -> (r: Option<Ordering>) {
        Some(cmp_chars(self.as_chars(), other.as_chars()))
    }
}

impl vstd::std_specs::cmp::PartialOrdSpecImpl for CxxWString {
    open spec fn obeys_partial_cmp_spec() -> bool {
        true
    }

    open spec fn partial_cmp_spec(&self, other: &Self) -> Option<Ordering> {
        Some(lex_cmp(self@, other@))
    }
}

} // verus!
