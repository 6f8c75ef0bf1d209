use vstd::prelude::*;

use crate::text::{chars_of, push_char};

verus! {

/// A text buffer that always holds exactly one character, for editing a `char` in a
/// text box: typing replaces the character with the first one typed, and deleting
/// leaves it in place.
pub struct CharString {
    text: String,
}

impl View for CharString {
    type V = char;

    closed spec fn view(&self) -> char {
        self.text@[0]
    }
}

impl CharString {
    #[verifier::type_invariant]
    spec fn inv(&self) -> bool {
        self.text@.len() == 1
    }

    /// A buffer holding `c`.
    pub fn new(c: char) -> (r: Self)
        ensures
            r@ == c,
    {
        let mut text = String::new();
        push_char(&mut text, c);
        CharString { text }
    }

    /// The character held.
    pub fn char(&self) -> (r: char)
        ensures
            r == self@,
    {
        proof {
            use_type_invariant(self);
        }
        let cs = chars_of(self.text.as_str());
        cs[0]
    }

    /// The buffer can be edited.
    pub fn is_mutable(&self) -> (r: bool)
        ensures
            r,
    {
        true
    }

    /// The text held: the one character.
    pub fn as_str(&self) -> (r: &str)
        ensures
            r@ == seq![self@],
    {
        proof {
            use_type_invariant(self);
            assert(self.text@ =~= seq![self.text@[0]]);
        }
        self.text.as_str()
    }

    /// Typing `text`: the character becomes the first one of `text`, if any. No
    /// character is counted as inserted.
    pub fn insert_text(&mut self, text: &str, _char_index: usize) -> (r: usize)
        ensures
            r == 0,
            final(self)@ == if text@.len() > 0 {
                text@[0]
            } else {
                old(self)@
            },
    {
        let cs = chars_of(text);
        if cs.len() > 0 {
            let mut s = String::new();
            push_char(&mut s, cs[0]);
            self.text = s;
        }
        0
    }

    /// Deleting: the one character stays.
    pub fn delete_char_range(&mut self, _start: usize, _end: usize)
        ensures
            final(self)@ == old(self)@,
    {
    }
}

} // verus!
