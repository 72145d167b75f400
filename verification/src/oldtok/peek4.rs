//! A character reader that shows the next four characters at each step.

use vstd::prelude::*;

verus! {

/// The character at `i` of `chars`, or `None` past the end.
pub open spec fn char_at(chars: Seq<char>, i: int) -> Option<char> {
    if 0 <= i < chars.len() {
        Some(chars[i])
    } else {
        None
    }
}

/// The window of four characters that starts at `i`.
pub open spec fn window(chars: Seq<char>, i: int) -> (Option<char>, Option<char>, Option<char>, Option<char>) {
    (char_at(chars, i), char_at(chars, i + 1), char_at(chars, i + 2), char_at(chars, i + 3))
}

/// The position after one step from `i`: one further, but not past the end.
pub open spec fn advanced(chars: Seq<char>, i: nat) -> nat {
    if i < chars.len() {
        i + 1
    } else {
        i
    }
}

/// Reads characters, each step showing the next four.
pub struct CharReader {
    chars: Vec<char>,
    pos: usize,
}

impl CharReader {
    pub closed spec fn chars(&self) -> Seq<char> {
        self.chars@
    }

    pub closed spec fn pos(&self) -> nat {
        self.pos as nat
    }

    pub closed spec fn wf(&self) -> bool {
        self.pos <= self.chars@.len()
    }

    /// A well-formed reader stands within its characters.
    pub proof fn lemma_wf(&self)
        requires
            self.wf(),
        ensures
            self.pos() <= self.chars().len(),
    {
    }

    pub fn new(chars: Vec<char>) -> (r: CharReader)
        ensures
            r.wf(),
            r.chars() == chars@,
            r.pos() == 0,
    {
        CharReader { chars, pos: 0 }
    }

    fn get(&self, i: usize) -> (c: Option<char>)
        requires
            self.wf(),
        ensures
            c == char_at(self.chars(), i as int),
    {
        if i < self.chars.len() {
            Some(self.chars[i])
        } else {
            None
        }
    }

    /// The next four characters; the first of them is consumed.
    pub fn entry(&mut self) -> (r: (Option<char>, Option<char>, Option<char>, Option<char>))
        requires
            old(self).wf(),
        ensures
            final(self).wf(),
            final(self).chars() == old(self).chars(),
            r == window(old(self).chars(), old(self).pos() as int),
            final(self).pos() == advanced(old(self).chars(), old(self).pos()),
    {
        let p = self.pos;
        let a = self.get(p);
        let left = self.chars.len() - p;
        let b = if left > 1 { self.get(p + 1) } else { None };
        let c = if left > 2 { self.get(p + 2) } else { None };
        let d = if left > 3 { self.get(p + 3) } else { None };
        if p < self.chars.len() {
            self.pos = p + 1;
        }
        (a, b, c, d)
    }

    /// The next four characters; none is consumed.
    pub fn peek(&self) -> (r: (Option<char>, Option<char>, Option<char>, Option<char>))
        requires
            self.wf(),
        ensures
            r == window(self.chars(), self.pos() as int),
    {
        let p = self.pos;
        let left = self.chars.len() - p;
        let a = if left > 0 { self.get(p) } else { None };
        let b = if left > 1 { self.get(p + 1) } else { None };
        let c = if left > 2 { self.get(p + 2) } else { None };
        let d = if left > 3 { self.get(p + 3) } else { None };
        (a, b, c, d)
    }

    /// The next character, which is consumed.
    pub fn next(&mut self) -> (r: Option<char>)
        requires
            old(self).wf(),
        ensures
            final(self).wf(),
            final(self).chars() == old(self).chars(),
            r == char_at(old(self).chars(), old(self).pos() as int),
            final(self).pos() == advanced(old(self).chars(), old(self).pos()),
    {
        let (next, _, _, _) = self.entry();
        next
    }
}

} // verus!
