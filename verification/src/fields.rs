//! The mutable input state: free-text buffers, bounded option selectors,
//! and the two scroll offsets.

use vstd::prelude::*;
use crate::text::chars_to_string;

verus! {

/// A free-text buffer edited only at its end: characters are appended, and
/// backspace removes the last one.
pub struct EditableField {
    chars: Vec<char>,
}

impl View for EditableField {
    type V = Seq<char>;

    closed spec fn view(&self) -> Seq<char> {
        self.chars@
    }
}

impl EditableField {
    /// What appending a character does to a buffer.
    pub open spec fn append_spec(s: Seq<char>, c: char) -> Seq<char> {
        s.push(c)
    }

    /// What deleting the last character does to a buffer: a no-op when the
    /// buffer is empty.
    pub open spec fn delete_last_spec(s: Seq<char>) -> Seq<char> {
        if s.len() == 0 {
            s
        } else {
            s.drop_last()
        }
    }

    pub fn new() -> (r: EditableField)
        ensures
            r@ == Seq::<char>::empty(),
    {
        EditableField { chars: Vec::new() }
    }

    pub fn append(&mut self, c: char)
        ensures
            final(self)@ == Self::append_spec(old(self)@, c),
    {
        self.chars.push(c);
    }

    pub fn delete_last(&mut self)
        ensures
            final(self)@ == Self::delete_last_spec(old(self)@),
    {
        if self.chars.len() > 0 {
            self.chars.pop();
        }
    }

    /// The buffer's contents as a string.
    pub fn text(&self) -> (r: String)
        ensures
            r@ == self@,
    {
        chars_to_string(&self.chars)
    }
}

/// Appending a character and then deleting the last character restores the
/// buffer, whatever it held beforehand; on an empty buffer deleting the last
/// character on its own is a no-op.
pub proof fn lemma_append_then_delete_last(s: Seq<char>, c: char)
    ensures
        EditableField::delete_last_spec(EditableField::append_spec(s, c)) == s,
        EditableField::delete_last_spec(Seq::<char>::empty()) == Seq::<char>::empty(),
{
    assert(s.push(c).drop_last() =~= s);
}

/// A selection among a fixed number of options: an index stepped left or
/// right one place at a time, never below zero nor past the last option.
pub struct SelectableField {
    index: usize,
    count: usize,
}

impl SelectableField {
    pub closed spec fn index_spec(&self) -> int {
        self.index as int
    }

    pub closed spec fn count_spec(&self) -> int {
        self.count as int
    }

    /// The selected index stays within the option list.
    pub open spec fn wf(&self) -> bool {
        0 <= self.index_spec() < self.count_spec()
    }

    pub fn new(count: usize) -> (r: SelectableField)
        requires
            count > 0,
        ensures
            r.wf(),
            r.index_spec() == 0,
            r.count_spec() == count,
    {
        SelectableField { index: 0, count }
    }

    pub fn index(&self) -> (r: usize)
        ensures
            r == self.index_spec(),
    {
        self.index
    }

    /// Step to the previous option; at the first option this is a no-op,
    /// otherwise the index moves down by exactly one.
    pub fn step_left(&mut self)
        ensures
            final(self).count_spec() == old(self).count_spec(),
            final(self).index_spec() == if old(self).index_spec() == 0 {
                0int
            } else {
                old(self).index_spec() - 1
            },
            old(self).wf() ==> final(self).wf(),
    {
        if self.index > 0 {
            self.index = self.index - 1;
        }
    }

    /// Step to the next option; at the last option this is a no-op,
    /// otherwise the index moves up by exactly one.
    pub fn step_right(&mut self)
        requires
            old(self).wf(),
        ensures
            final(self).wf(),
            final(self).count_spec() == old(self).count_spec(),
            final(self).index_spec() == if old(self).index_spec() == old(self).count_spec() - 1 {
                old(self).index_spec()
            } else {
                old(self).index_spec() + 1
            },
    {
        if self.index < self.count - 1 {
            self.index = self.index + 1;
        }
    }
}

/// The two independent scroll offsets, each saturating at zero when scrolled
/// up and at the type's maximum when scrolled down.
pub struct ScrollState {
    pub response: u16,
    pub body: u16,
}

impl ScrollState {
    pub fn new() -> (r: ScrollState)
        ensures
            r.response == 0,
            r.body == 0,
    {
        ScrollState { response: 0, body: 0 }
    }

    /// Scroll one line up: the body offset when `on_body` holds, else the
    /// response offset; the other offset is untouched.
    pub fn up(&mut self, on_body: bool)
        ensures
            on_body ==> final(self).body == (if old(self).body == 0 {
                0u16
            } else {
                (old(self).body - 1) as u16
            }) && final(self).response == old(self).response,
            !on_body ==> final(self).response == (if old(self).response == 0 {
                0u16
            } else {
                (old(self).response - 1) as u16
            }) && final(self).body == old(self).body,
    {
        if on_body {
            if self.body > 0 {
                self.body = self.body - 1;
            }
        } else {
            if self.response > 0 {
                self.response = self.response - 1;
            }
        }
    }

    /// Scroll one line down, saturating at the largest offset.
    pub fn down(&mut self, on_body: bool)
        ensures
            on_body ==> final(self).body == (if old(self).body == u16::MAX {
                u16::MAX
            } else {
                (old(self).body + 1) as u16
            }) && final(self).response == old(self).response,
            !on_body ==> final(self).response == (if old(self).response == u16::MAX {
                u16::MAX
            } else {
                (old(self).response + 1) as u16
            }) && final(self).body == old(self).body,
    {
        if on_body {
            if self.body < u16::MAX {
                self.body = self.body + 1;
            }
        } else {
            if self.response < u16::MAX {
                self.response = self.response + 1;
            }
        }
    }

    /// Reset the response offset, as the session does when a response lands.
    pub fn reset_response(&mut self)
        ensures
            final(self).response == 0,
            final(self).body == old(self).body,
    {
        self.response = 0;
    }
}

} // verus!
