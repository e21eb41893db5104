//! Cursor-driven wrappers over collected sequences.
//!
//! Each wrapper owns a sequence and a cursor. Forward iteration advances the
//! cursor before reading, so it starts at position 1: the element at position
//! 0 is reached only through `first` or `get`. This asymmetry is part of the
//! wrappers' contract and is kept deliberately.

use vstd::prelude::*;

verus! {

/// The element a lookup at position 0 yields: the first element, if any.
pub open spec fn seq_first<A>(s: Seq<A>) -> Option<A> {
    if s.len() > 0 {
        Some(s[0])
    } else {
        None
    }
}

/// The element a lookup at position `i` yields, if `i` is in bounds.
pub open spec fn seq_get<A>(s: Seq<A>, i: int) -> Option<A> {
    if 0 <= i < s.len() {
        Some(s[i])
    } else {
        None
    }
}

/// One forward-iteration step over `s` from cursor `cur`: the cursor moves
/// one position forward before the element there is read, and never moves
/// past the end of the sequence.
pub open spec fn iter_step<A>(s: Seq<A>, cur: int) -> (int, Option<A>) {
    if cur + 1 < s.len() {
        (cur + 1, Some(s[cur + 1]))
    } else {
        (s.len() as int, None)
    }
}

/// A cursor-driven wrapper over a collected sequence of characters.
pub struct Chars {
    index: usize,
    inner: Vec<char>,
}

impl Chars {
    /// The wrapped sequence, which no operation ever changes.
    pub closed spec fn seq(&self) -> Seq<char> {
        self.inner@
    }

    /// The cursor: the position iteration last consulted.
    pub closed spec fn cursor(&self) -> int {
        self.index as int
    }

    /// The cursor never stands past the end of the sequence.
    pub open spec fn wf(&self) -> bool {
        0 <= self.cursor() <= self.seq().len()
    }

    pub fn from(src: Vec<char>) -> (r: Chars)
        ensures
            r.seq() == src@,
            r.cursor() == 0,
            r.wf(),
    {
        Chars { index: 0, inner: src }
    }

    pub fn first(&self) -> (r: Option<char>)
        ensures
            r == seq_first(self.seq()),
    {
        if self.inner.len() > 0 {
            Some(self.inner[0])
        } else {
            None
        }
    }

    pub fn get(&self, idx: usize) -> (r: Option<char>)
        ensures
            r == seq_get(self.seq(), idx as int),
    {
        if idx < self.inner.len() {
            Some(self.inner[idx])
        } else {
            None
        }
    }

    /// Advances the cursor, then reads the element there: iteration starts
    /// at position 1 and, once exhausted, keeps returning nothing.
    pub fn next(&mut self) -> (r: Option<char>)
        requires
            old(self).wf(),
        ensures
            final(self).wf(),
            final(self).seq() == old(self).seq(),
            (final(self).cursor(), r) == iter_step(old(self).seq(), old(self).cursor()),
    {
        let n = self.inner.len();
        if n > 0 && self.index < n - 1 {
            self.index = self.index + 1;
            Some(self.inner[self.index])
        } else {
            self.index = n;
            None
        }
    }
}

/// A cursor-driven wrapper over a collected sequence of text lines.
pub struct Lines {
    index: usize,
    inner: Vec<String>,
}

impl Lines {
    /// The wrapped sequence of lines, each as its characters.
    pub closed spec fn seq(&self) -> Seq<Seq<char>> {
        self.inner@.map_values(|t: String| t@)
    }

    /// The cursor: the position iteration last consulted.
    pub closed spec fn cursor(&self) -> int {
        self.index as int
    }

    /// The cursor never stands past the end of the sequence.
    pub open spec fn wf(&self) -> bool {
        0 <= self.cursor() <= self.seq().len()
    }

    pub fn from(src: Vec<String>) -> (r: Lines)
        ensures
            r.seq() == src@.map_values(|t: String| t@),
            r.cursor() == 0,
            r.wf(),
    {
        Lines { index: 0, inner: src }
    }

    pub fn first(&self) -> (r: Option<String>)
        ensures
            r matches Some(t) ==> seq_first(self.seq()) == Some(t@),
            r is None ==> seq_first(self.seq()) is None,
    {
        if self.inner.len() > 0 {
            Some(self.inner[0].clone())
        } else {
            None
        }
    }

    pub fn get(&self, idx: usize) -> (r: Option<String>)
        ensures
            r matches Some(t) ==> seq_get(self.seq(), idx as int) == Some(t@),
            r is None ==> seq_get(self.seq(), idx as int) is None,
    {
        if idx < self.inner.len() {
            Some(self.inner[idx].clone())
        } else {
            None
        }
    }

    /// Advances the cursor, then reads the element there: iteration starts
    /// at position 1 and, once exhausted, keeps returning nothing.
    pub fn next(&mut self) -> (r: Option<String>)
        requires
            old(self).wf(),
        ensures
            final(self).wf(),
            final(self).seq() == old(self).seq(),
            r matches Some(t) ==> iter_step(old(self).seq(), old(self).cursor()) == (
                final(self).cursor(),
                Some(t@),
            ),
            r is None ==> iter_step(old(self).seq(), old(self).cursor()) == (
                final(self).cursor(),
                None::<Seq<char>>,
            ),
    {
        let n = self.inner.len();
        if n > 0 && self.index < n - 1 {
            self.index = self.index + 1;
            Some(self.inner[self.index].clone())
        } else {
            self.index = n;
            None
        }
    }
}

/// The iteration asymmetry, spelled out for a three-element sequence
/// `[a0, a1, a2]`: a lookup at position 0 yields `a0` and a lookup at
/// position 2 yields `a2`, while a lookup past the end yields nothing;
/// iteration from the start yields `a1`, then `a2`, then nothing, and every
/// further step keeps yielding nothing.
pub proof fn lemma_iteration_skips_first<A>(a0: A, a1: A, a2: A)
    ensures
        seq_first(seq![a0, a1, a2]) == Some(a0),
        seq_get(seq![a0, a1, a2], 2) == Some(a2),
        seq_get(seq![a0, a1, a2], 3) is None,
        iter_step(seq![a0, a1, a2], 0) == (1int, Some(a1)),
        iter_step(seq![a0, a1, a2], 1) == (2int, Some(a2)),
        iter_step(seq![a0, a1, a2], 2) == (3int, None::<A>),
        iter_step(seq![a0, a1, a2], 3) == (3int, None::<A>),
{
}

} // verus!
