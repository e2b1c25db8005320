use vstd::prelude::*;
use crate::wstring::CxxWString;

verus! {

/// Lifecycle of a stack-construction cell: storage starts uninitialized, a
/// wide string is placement-constructed into it exactly once, and teardown
/// ends the value for good.
enum Phase {
    Uninitialized,
    Initialized,
    Destroyed,
}

/// A caller-owned cell that a wide string is constructed into for the span
/// of a scope.
///
/// The cell enforces the single-use state machine
/// uninitialized -> initialized -> destroyed through its contracts: `init`
/// demands an uninitialized cell, every accessor and mutator demands an
/// initialized one, and `destroy` leaves the cell unusable, so no path
/// initializes twice or touches a destroyed value.
pub struct StackWString {
    value: CxxWString,
    phase: Phase,
}

impl StackWString {
    /// The cell is still waiting for `init`.
    pub closed spec fn is_uninitialized(self) -> bool {
        self.phase is Uninitialized
    }

    /// The cell holds a live wide string.
    pub closed spec fn is_initialized(self) -> bool {
        self.phase is Initialized
    }

    /// The cell's wide string has been torn down.
    pub closed spec fn is_destroyed(self) -> bool {
        self.phase is Destroyed
    }

    /// The characters of the wide string living in the cell.
    pub closed spec fn chars(self) -> Seq<char> {
        self.value@
    }

    /// Modeled capacity of the wide string living in the cell.
    pub closed spec fn spec_cap(self) -> nat {
        self.value.spec_cap()
    }

    /// Fresh, uninitialized storage.
    pub fn new() -> (r: Self)
        ensures
            r.is_uninitialized(),
            !r.is_initialized(),
            !r.is_destroyed(),
    {
        StackWString { value: CxxWString::new(), phase: Phase::Uninitialized }
    }

    /// Placement-constructs a wide string holding the given characters into
    /// the cell.  The cell must never have been initialized before, so no
    /// path constructs into the same storage twice.
    pub fn init(&mut self, chars: &[char])
        requires
            old(self).is_uninitialized(),
        ensures
            final(self).is_initialized(),
            !final(self).is_uninitialized(),
            !final(self).is_destroyed(),
            final(self).chars() == chars@,
            final(self).spec_cap() == chars@.len(),
    {
        let n: usize = chars.len();
        proof {
            assert(chars@.len() == n);
        }
        let mut value = CxxWString::new();
        value.push_chars(chars);
        self.value = value;
        self.phase = Phase::Initialized;
    }

    /// Borrows the live wide string in the cell.
    pub fn handle(&self) -> (r: &CxxWString)
        requires
            self.is_initialized(),
        ensures
            r@ == self.chars(),
            r.spec_cap() == self.spec_cap(),
    {
        &self.value
    }

    /// Empties the live wide string; see [`CxxWString::clear`].
    pub fn clear(&mut self)
        requires
            old(self).is_initialized(),
        ensures
            final(self).is_initialized(),
            final(self).chars() == Seq::<char>::empty(),
    {
        self.value.clear();
    }

    /// Reserves room in the live wide string; see [`CxxWString::reserve`].
    pub fn reserve(&mut self, additional: usize)
        requires
            old(self).is_initialized(),
            old(self).chars().len() + additional <= usize::MAX,
        ensures
            final(self).is_initialized(),
            final(self).chars() == old(self).chars(),
            final(self).spec_cap() == crate::wstring::reserve_cap(
                old(self).spec_cap(),
                (old(self).chars().len() + additional) as nat,
            ),
    {
        self.value.reserve(additional);
    }

    /// Reserves room, refusing a request whose total would overflow `usize`;
    /// see [`CxxWString::checked_reserve`].
    pub fn checked_reserve(&mut self, additional: usize) -> (r: bool)
        requires
            old(self).is_initialized(),
        ensures
            final(self).is_initialized(),
            r == (old(self).chars().len() + additional <= usize::MAX),
            final(self).chars() == old(self).chars(),
            r ==> final(self).spec_cap() == crate::wstring::reserve_cap(
                old(self).spec_cap(),
                (old(self).chars().len() + additional) as nat,
            ),
            !r ==> final(self).spec_cap() == old(self).spec_cap(),
    {
        self.value.checked_reserve(additional)
    }

    /// Appends characters to the live wide string; see
    /// [`CxxWString::push_chars`].
    pub fn push_chars(&mut self, chars: &[char])
        requires
            old(self).is_initialized(),
            old(self).chars().len() + chars@.len() <= usize::MAX,
        ensures
            final(self).is_initialized(),
            final(self).chars() == old(self).chars() + chars@,
            final(self).spec_cap() == crate::wstring::push_cap(
                old(self).spec_cap(),
                (old(self).chars().len() + chars@.len()) as nat,
            ),
    {
        self.value.push_chars(chars);
    }

    /// Appends a string slice to the live wide string; see
    /// [`CxxWString::push_str`].
    pub fn push_str(&mut self, s: &str)
        requires
            old(self).is_initialized(),
            old(self).chars().len() + s@.len() <= usize::MAX,
        ensures
            final(self).is_initialized(),
            final(self).chars() == old(self).chars() + s@,
            final(self).spec_cap() == crate::wstring::push_cap(
                old(self).spec_cap(),
                (old(self).chars().len() + s@.len()) as nat,
            ),
    {
        self.value.push_str(s);
    }

    /// Tears the cell's wide string down, exactly once: only an initialized
    /// cell can be destroyed, and a destroyed cell satisfies no method's
    /// precondition ever again.
    pub fn destroy(&mut self)
        requires
            old(self).is_initialized(),
        ensures
            final(self).is_destroyed(),
            !final(self).is_initialized(),
            !final(self).is_uninitialized(),
    {
        self.value.clear();
        self.phase = Phase::Destroyed;
    }
}

} // verus!
