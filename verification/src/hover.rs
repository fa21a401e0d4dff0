//! Hover sources: one independently-owned "currently hovered" flag per
//! interactive sub-region (background and icons, nested chooser, ...), with
//! the aggregate "any source hovered" signal derived from them.

use vstd::prelude::*;

verus! {

/// True when at least one source in `s` is currently hovered.
pub open spec fn any_hovered(s: Seq<bool>) -> bool {
    exists|i: int| 0 <= i < s.len() && s[i]
}

/// The set of hover flags, one per interactive sub-region. The number of
/// sources is fixed at construction; each enter/leave edge updates exactly
/// one flag.
pub struct HoverSet {
    flags: Vec<bool>,
}

impl View for HoverSet {
    type V = Seq<bool>;

    closed spec fn view(&self) -> Seq<bool> {
        self.flags@
    }
}

impl HoverSet {
    /// A set of `n` sources, none of them hovered.
    pub fn new(n: usize) -> (s: Self)
        ensures
            s@.len() == n,
            forall|i: int| 0 <= i < n ==> !s@[i],
    {
        let mut flags: Vec<bool> = Vec::new();
        while flags.len() < n
            invariant
                flags.len() <= n,
                forall|i: int| 0 <= i < flags.len() ==> !flags@[i],
            decreases n - flags.len(),
        {
            flags.push(false);
        }
        HoverSet { flags }
    }

    /// The number of sources.
    pub fn len(&self) -> (n: usize)
        ensures
            n == self@.len(),
    {
        self.flags.len()
    }

    /// The pointer entered the region of `source`: its flag becomes true.
    pub fn enter(&mut self, source: usize)
        requires
            source < old(self)@.len(),
        ensures
            final(self)@ == old(self)@.update(source as int, true),
    {
        self.flags.set(source, true);
    }

    /// The pointer left the region of `source`: its flag becomes false.
    pub fn leave(&mut self, source: usize)
        requires
            source < old(self)@.len(),
        ensures
            final(self)@ == old(self)@.update(source as int, false),
    {
        self.flags.set(source, false);
    }

    /// The aggregate signal: true exactly when some source is hovered.
    pub fn is_any_hovered(&self) -> (b: bool)
        ensures
            b == any_hovered(self@),
    {
        let n = self.flags.len();
        let mut i: usize = 0;
        while i < n
            invariant
                n == self@.len(),
                i <= n,
                forall|j: int| 0 <= j < i ==> !self@[j],
            decreases n - i,
        {
            if self.flags[i] {
                assert(self@[i as int]);
                return true;
            }
            i += 1;
        }
        false
    }
}

} // verus!
