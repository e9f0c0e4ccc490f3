//! The input buffer: the text the user has typed so far for the current
//! passage. The session resets it whenever a different passage is entered,
//! and refuses to let it grow past the target text (the bound itself is
//! enforced by the session, which knows the current passage).

use vstd::prelude::*;

verus! {

/// The in-progress typed text for the current passage.
#[derive(Debug)]
pub struct InputBuffer {
    pub content: Vec<char>,
}

impl InputBuffer {
    pub fn new() -> (b: InputBuffer)
        ensures
            b.content@ == Seq::<char>::empty(),
    {
        InputBuffer { content: Vec::new() }
    }

    pub fn len(&self) -> (n: usize)
        ensures
            n == self.content@.len(),
    {
        self.content.len()
    }

    /// Appends one typed character.
    pub fn append(&mut self, c: char)
        ensures
            final(self).content@ == old(self).content@.push(c),
    {
        self.content.push(c);
    }

    /// Removes the last typed character; a no-op when the buffer is empty.
    pub fn erase(&mut self)
        ensures
            old(self).content@.len() > 0 ==> final(self).content@ == old(self).content@.drop_last(),
            old(self).content@.len() == 0 ==> final(self).content@ == old(self).content@,
    {
        let popped = self.content.pop();
        proof {
            if old(self).content@.len() > 0 {
                assert(self.content@ =~= old(self).content@.drop_last());
            }
        }
    }

    /// Empties the buffer.
    pub fn clear(&mut self)
        ensures
            final(self).content@ == Seq::<char>::empty(),
    {
        self.content.clear();
    }
}

} // verus!
