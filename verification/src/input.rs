use vstd::prelude::*;
use vstd::assert_seqs_equal;
use crate::action::InputRequest;

verus! {

/// Where the caret lands after skipping the run of spaces that ends at
/// position `i`, walking left.
pub open spec fn back_past_spaces(s: Seq<char>, i: int) -> int
    decreases i,
{
    if 0 < i <= s.len() && s[i - 1] == ' ' {
        back_past_spaces(s, i - 1)
    } else {
        i
    }
}

/// Where the caret lands after skipping the run of non-spaces that ends
/// at position `i`, walking left.
pub open spec fn back_past_word(s: Seq<char>, i: int) -> int
    decreases i,
{
    if 0 < i <= s.len() && s[i - 1] != ' ' {
        back_past_word(s, i - 1)
    } else {
        i
    }
}

/// The position a delete-previous-word starting at caret `i` erases back
/// to: first any trailing spaces, then the word before them.
pub open spec fn word_start(s: Seq<char>, i: int) -> int {
    back_past_word(s, back_past_spaces(s, i))
}

/// A focused text buffer under Input mode: the characters typed so far
/// and a caret position inside them.  The caret never leaves the buffer,
/// and the buffer stays below the machine's address-space bound.
#[derive(Clone, Debug, PartialEq, Eq)]
pub struct InputBuffer {
    pub chars: Vec<char>,
    pub caret: usize,
}

impl InputBuffer {
    /// The caret is a position in the buffer (its end included).
    pub open spec fn wf(self) -> bool {
        self.caret <= self.chars@.len() && self.chars@.len() < usize::MAX
    }

    /// An empty buffer with the caret at its start.
    pub fn new() -> (r: Self)
        ensures
            r.chars@ == Seq::<char>::empty(),
            r.caret == 0,
            r.wf(),
    {
        InputBuffer { chars: Vec::new(), caret: 0 }
    }

    /// What one text-editing request does to the buffer: insert at the
    /// caret, move the caret one position (stopping at either end),
    /// delete the character before or after the caret (doing nothing at
    /// the respective end), or delete the previous word — the trailing
    /// spaces before the caret and the run of non-spaces before them.
    /// An insert into a buffer already at the address-space bound is
    /// dropped.
    pub open spec fn apply_rel(pre: Self, req: InputRequest, post: Self) -> bool {
        match req {
            InputRequest::InsertChar(c) => if pre.chars@.len() + 1 < usize::MAX {
                &&& post.chars@ == pre.chars@.insert(pre.caret as int, c)
                &&& post.caret == pre.caret + 1
            } else {
                post == pre
            },
            InputRequest::GoToPrevChar => {
                &&& post.chars@ == pre.chars@
                &&& post.caret == (if pre.caret > 0 { pre.caret - 1 } else { 0int })
            },
            InputRequest::GoToNextChar => {
                &&& post.chars@ == pre.chars@
                &&& post.caret == (if pre.caret < pre.chars@.len() { pre.caret + 1 } else { pre.chars@.len() as int })
            },
            InputRequest::DeletePrevChar => if pre.caret > 0 {
                &&& post.chars@ == pre.chars@.remove(pre.caret - 1)
                &&& post.caret == pre.caret - 1
            } else {
                post == pre
            },
            InputRequest::DeleteNextChar => if pre.caret < pre.chars@.len() {
                &&& post.chars@ == pre.chars@.remove(pre.caret as int)
                &&& post.caret == pre.caret
            } else {
                post == pre
            },
            InputRequest::DeletePrevWord => {
                &&& post.caret == word_start(pre.chars@, pre.caret as int)
                &&& post.chars@ == pre.chars@.subrange(0, word_start(pre.chars@, pre.caret as int)) + pre.chars@.subrange(pre.caret as int, pre.chars@.len() as int)
            },
        }
    }

    /// Applies one text-editing request, per `apply_rel`.
    pub fn apply(&mut self, req: InputRequest)
        requires
            old(self).wf(),
        ensures
            final(self).wf(),
            Self::apply_rel(*old(self), req, *final(self)),
    {
        match req {
            InputRequest::InsertChar(c) => {
                if self.chars.len() < usize::MAX - 1 {
                    self.chars.insert(self.caret, c);
                    self.caret = self.caret + 1;
                }
            },
            InputRequest::GoToPrevChar => {
                if self.caret > 0 {
                    self.caret = self.caret - 1;
                }
            },
            InputRequest::GoToNextChar => {
                if self.caret < self.chars.len() {
                    self.caret = self.caret + 1;
                }
            },
            InputRequest::DeletePrevChar => {
                if self.caret > 0 {
                    self.chars.remove(self.caret - 1);
                    self.caret = self.caret - 1;
                }
            },
            InputRequest::DeleteNextChar => {
                if self.caret < self.chars.len() {
                    self.chars.remove(self.caret);
                }
            },
            InputRequest::DeletePrevWord => {
                self.delete_prev_word();
            },
        }
    }

    /// Deletes back from the caret over trailing spaces and the word
    /// before them, keeping everything from the caret on.
    fn delete_prev_word(&mut self)
        requires
            old(self).wf(),
        ensures
            final(self).wf(),
            final(self).caret == word_start(old(self).chars@, old(self).caret as int),
            final(self).chars@ == old(self).chars@.subrange(
                0,
                word_start(old(self).chars@, old(self).caret as int),
            ) + old(self).chars@.subrange(old(self).caret as int, old(self).chars@.len() as int),
    {
        let ghost s = self.chars@;
        let ghost c0: int = self.caret as int;
        let mut k: usize = self.caret;
        while k > 0 && self.chars[k - 1] == ' '
            invariant
                k <= c0 <= s.len() < usize::MAX,
                self.chars@ == s,
                self.caret == c0,
                back_past_spaces(s, c0) == back_past_spaces(s, k as int),
            decreases k,
        {
            k = k - 1;
        }
        let ghost k1: int = k as int;
        proof {
            assert(back_past_spaces(s, k1) == k1);
            assert(back_past_spaces(s, c0) == k1);
        }
        while k > 0 && self.chars[k - 1] != ' '
            invariant
                k <= k1 <= c0 <= s.len() < usize::MAX,
                self.chars@ == s,
                self.caret == c0,
                back_past_word(s, k1) == back_past_word(s, k as int),
            decreases k,
        {
            k = k - 1;
        }
        proof {
            assert(back_past_word(s, k as int) == k as int);
            assert(word_start(s, c0) == k as int);
            assert_seqs_equal!(self.chars@ == s.subrange(0, c0) + s.subrange(c0, s.len() as int));
        }
        while self.caret > k
            invariant
                k <= self.caret <= c0 <= s.len() < usize::MAX,
                self.chars@.len() == self.caret + s.len() - c0,
                self.chars@ == s.subrange(0, self.caret as int) + s.subrange(c0, s.len() as int),
            decreases self.caret,
        {
            let ghost c_pre: int = self.caret as int;
            let idx: usize = self.caret - 1;
            self.chars.remove(idx);
            self.caret = idx;
            proof {
                assert_seqs_equal!(
                    self.chars@ == s.subrange(0, c_pre - 1) + s.subrange(c0, s.len() as int)
                );
            }
        }
    }
}

} // verus!
