//! The text that is drawn on the terminal, built up piece by piece.

use vstd::prelude::*;
use vstd::string::StringExecFns;
use crate::text::{newliner, newlines};

verus! {

/// A buffer of text to be printed as one screen.
#[derive(Debug)]
pub struct Screen {
    pub s: String,
}

impl Screen {
    /// An empty screen.
    pub fn new() -> (r: Screen)
        ensures
            r.s@ == Seq::<char>::empty(),
    {
        Screen { s: String::new() }
    }

    /// Appends `s`.
    pub fn _concat(&mut self, s: &str)
        ensures
            final(self).s@ == old(self).s@ + s@,
    {
        self.s.append(s);
    }

    /// Appends `before_amount` line breaks, `s`, then `after_amount` line breaks.
    pub fn concat_with_newlines(&mut self, s: &str, before_amount: i32, after_amount: i32)
        ensures
            final(self).s@ == old(self).s@ + newlines(before_amount as int) + s@ + newlines(
                after_amount as int,
            ),
    {
        let before = newliner(before_amount);
        let after = newliner(after_amount);
        self.s.append(before.as_str());
        self.s.append(s);
        self.s.append(after.as_str());
    }

    /// Empties the screen.
    pub fn clear(&mut self)
        ensures
            final(self).s@ == Seq::<char>::empty(),
    {
        self.s = String::new();
    }
}

} // verus!
