use vstd::prelude::*;
use vstd::string::StrSliceExecFns;

verus! {

/// A wide string held as the foreign runtime sees it: a sequence of
/// code-point-valued wide-character units, plus the total capacity the
/// runtime has set aside for it.
///
/// Every unit stored through this interface comes from a `char`, so the
/// contents are kept as characters; the raw 32-bit unit view is derived from
/// them by [`wide_units`].
pub struct CxxWString {
    chars: Vec<char>,
    cap: usize,
}

/// The raw wide-character units of a character sequence: each character's
/// code point as one unsigned 32-bit unit.
pub open spec fn wide_units(s: Seq<char>) -> Seq<u32> {
    s.map(|i: int, c: char| c as u32)
}

/// Capacity after a total-capacity reservation request: capacity never
/// shrinks, and reaches at least the requested total.
pub open spec fn reserve_cap(cap: nat, total: nat) -> nat {
    if total > cap {
        total
    } else {
        cap
    }
}

/// Capacity after the contents grow to `new_len` units: growth within
/// capacity reallocates nothing; growth beyond it makes the storage fit.
pub open spec fn push_cap(cap: nat, new_len: nat) -> nat {
    if new_len > cap {
        new_len
    } else {
        cap
    }
}

/// Relies on `String::push`: appends exactly the given character at the end.
#[verifier::external_body]
fn string_push_char(s: &mut String, c: char)
    ensures
        final(s)@ == old(s)@.push(c),
{
    s.push(c);
}

impl View for CxxWString {
    type V = Seq<char>;

    closed spec fn view(&self) -> Seq<char> {
        self.chars@
    }
}

impl CxxWString {
    /// Modeled total capacity, in wide-character units.
    pub closed spec fn spec_cap(self) -> nat {
        self.cap as nat
    }

    /// An empty wide string with no capacity set aside.
    pub fn new() -> (r: Self)
        ensures
            r@ == Seq::<char>::empty(),
            r.spec_cap() == 0,
    {
        CxxWString { chars: Vec::new(), cap: 0 }
    }

    /// Length in wide-character units (not bytes).
    pub fn len(&self) -> (r: usize)
        ensures
            r == self@.len(),
    {
        self.chars.len()
    }

    /// True exactly when the string holds no units.
    pub fn is_empty(&self) -> (r: bool)
        ensures
            r == (self@.len() == 0),
    {
        self.len() == 0
    }

    /// The contents as characters, without copying.
    pub fn as_chars(&self) -> (r: &[char])
        ensures
            r@ == self@,
    {
        self.chars.as_slice()
    }

    /// The characters, one by one, as an owned sequence.
    pub fn as_char_iter(&self) -> (r: Vec<char>)
        ensures
            r@ == self@,
    {
        vstd::slice::slice_to_vec(self.chars.as_slice())
    }

    /// The contents as raw wide-character units.
    pub fn as_wchars(&self) -> (r: Vec<u32>)
        ensures
            r@ == wide_units(self@),
    {
        let n: usize = self.chars.len();
        let mut out: Vec<u32> = Vec::new();
        let mut i: usize = 0;
        while i < n
            invariant
                n == self@.len(),
                i <= n,
                out@.len() == i,
                forall|j: int| 0 <= j < i ==> out@[j] == (self@[j] as u32),
            decreases n - i,
        {
            out.push(self.chars[i] as u32);
            i += 1;
        }
        proof {
            assert(out@ =~= wide_units(self@));
        }
        out
    }

    /// The contents decoded into an owned text value.
    ///
    /// Every stored unit came from a `char`, so the decoding is exact: the
    /// result holds the same characters in the same order.
    pub fn to_str(&self) -> (r: String)
        ensures
            r@ == self@,
    {
        let n: usize = self.chars.len();
        let mut r = String::new();
        let mut i: usize = 0;
        while i < n
            invariant
                n == self@.len(),
                i <= n,
                r@ == self@.take(i as int),
            decreases n - i,
        {
            string_push_char(&mut r, self.chars[i]);
            proof {
                assert(self@.take(i as int).push(self@[i as int]) =~= self@.take(i as int + 1));
            }
            i += 1;
        }
        proof {
            assert(self@.take(n as int) =~= self@);
        }
        r
    }

    /// Empties the contents.  What becomes of the capacity is the foreign
    /// runtime's choice, so no caller may rely on it.
    pub fn clear(&mut self)
        ensures
            final(self)@ == Seq::<char>::empty(),
    {
        self.chars.clear();
    }

    /// Modeled total capacity in wide-character units.
    pub fn capacity(&self) -> (r: usize)
        ensures
            r == self.spec_cap(),
    {
        self.cap
    }

    /// Makes room for at least `additional` units beyond the current length.
    ///
    /// The requested total is `len + additional`; the caller rules out
    /// overflow of that addition ([`Self::checked_reserve`] reports it
    /// instead of demanding this).
    pub fn reserve(&mut self, additional: usize)
        requires
            old(self)@.len() + additional <= usize::MAX,
        ensures
            final(self)@ == old(self)@,
            final(self).spec_cap() == reserve_cap(
                old(self).spec_cap(),
                (old(self)@.len() + additional) as nat,
            ),
    {
        let total: usize = self.chars.len() + additional;
        if total > self.cap {
            self.cap = total;
        }
    }

    /// Like [`Self::reserve`], but a request whose total would overflow
    /// `usize` is refused: the result is `false` and the string is
    /// unchanged, instead of a fatal failure.
    pub fn checked_reserve(&mut self, additional: usize) -> (r: bool)
        ensures
            r == (old(self)@.len() + additional <= usize::MAX),
            final(self)@ == old(self)@,
            r ==> final(self).spec_cap() == reserve_cap(
                old(self).spec_cap(),
                (old(self)@.len() + additional) as nat,
            ),
            !r ==> final(self).spec_cap() == old(self).spec_cap(),
    {
        match self.chars.len().checked_add(additional) {
            Some(total) => {
                if total > self.cap {
                    self.cap = total;
                }
                true
            },
            None => false,
        }
    }

    /// Appends the given characters, in order, at the end.
    pub fn push_chars(&mut self, chars: &[char])
        requires
            old(self)@.len() + chars@.len() <= usize::MAX,
        ensures
            final(self)@ == old(self)@ + chars@,
            final(self).spec_cap() == push_cap(
                old(self).spec_cap(),
                (old(self)@.len() + chars@.len()) as nat,
            ),
    {
        let n: usize = chars.len();
        let mut i: usize = 0;
        while i < n
            invariant
                n == chars@.len(),
                i <= n,
                old(self)@.len() + n <= usize::MAX,
                self.chars@ == old(self)@ + chars@.take(i as int),
                self.spec_cap() == old(self).spec_cap(),
            decreases n - i,
        {
            let c = chars[i];
            self.chars.push(c);
            proof {
                assert((old(self)@ + chars@.take(i as int)).push(chars@[i as int]) =~= old(
                    self,
                )@ + chars@.take(i as int + 1));
            }
            i += 1;
        }
        proof {
            assert(old(self)@ + chars@.take(n as int) =~= old(self)@ + chars@);
        }
        let new_len: usize = self.chars.len();
        if new_len > self.cap {
            self.cap = new_len;
        }
    }

    /// Appends every character of a string slice, in order, at the end.
    pub fn push_str(&mut self, s: &str)
        requires
            old(self)@.len() + s@.len() <= usize::MAX,
        ensures
            final(self)@ == old(self)@ + s@,
            final(self).spec_cap() == push_cap(
                old(self).spec_cap(),
                (old(self)@.len() + s@.len()) as nat,
            ),
    {
        let n: usize = s.unicode_len();
        let mut buf: Vec<char> = Vec::new();
        let mut i: usize = 0;
        while i < n
            invariant
                n == s@.len(),
                i <= n,
                buf@.len() == i,
                forall|j: int| 0 <= j < i ==> buf@[j] == s@[j],
            decreases n - i,
        {
            buf.push(s.get_char(i));
            i += 1;
        }
        proof {
            assert(buf@ =~= s@);
        }
        self.push_chars(buf.as_slice());
    }

    /// A heap-allocated wide string holding the given characters, handed to
    /// the caller as its sole owner.
    pub fn create(chars: &[char]) -> (r: Box<CxxWString>)
        ensures
            r@ == chars@,
            r.spec_cap() == chars@.len(),
    {
        let n: usize = chars.len();
        proof {
            assert(chars@.len() == n);
        }
        let mut s = CxxWString::new();
        s.push_chars(chars);
        Box::new(s)
    }
}

} // verus!
