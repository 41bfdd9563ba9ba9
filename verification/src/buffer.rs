//! The command-line buffer: an editable character sequence for command
//! mode. Editing is append and delete-from-end only; deleting from an
//! empty buffer is a no-op, never an error.

use vstd::prelude::*;

use crate::text::chars_to_string;

verus! {

/// The text typed so far in command mode. Its view is the sequence of
/// characters, oldest first.
#[derive(Debug)]
pub struct CommandBuffer {
    chars: Vec<char>,
}

impl View for CommandBuffer {
    type V = Seq<char>;

    closed spec fn view(&self) -> Seq<char> {
        self.chars@
    }
}

impl CommandBuffer {
    /// An empty buffer.
    pub fn new() -> (b: CommandBuffer)
        ensures
            b@ == Seq::<char>::empty(),
    {
        CommandBuffer { chars: Vec::new() }
    }

    /// Appends one character at the end. Any character is accepted
    /// verbatim; the length is unbounded by design.
    pub fn insert(&mut self, c: char)
        ensures
            final(self)@ == old(self)@.push(c),
    {
        self.chars.push(c);
    }

    /// Removes the last character if there is one; does nothing on an
    /// empty buffer.
    pub fn delete_last(&mut self)
        ensures
            final(self)@ == deleted_last(old(self)@),
    {
        let _ = self.chars.pop();
    }

    /// Empties the buffer.
    pub fn clear(&mut self)
        ensures
            final(self)@ == Seq::<char>::empty(),
    {
        self.chars.clear();
    }

    /// The buffered characters, oldest first.
    pub fn as_chars(&self) -> (r: &Vec<char>)
        ensures
            r@ == self@,
    {
        &self.chars
    }

    /// The buffered text as a string.
    pub fn contents(&self) -> (r: String)
        ensures
            r@ == self@,
    {
        chars_to_string(&self.chars)
    }

    /// How many characters are buffered.
    pub fn len(&self) -> (n: usize)
        ensures
            n == self@.len(),
    {
        self.chars.len()
    }
}

/// The buffer contents after one delete-from-end request.
pub open spec fn deleted_last(s: Seq<char>) -> Seq<char> {
    if s.len() == 0 {
        s
    } else {
        s.drop_last()
    }
}

/// The buffer contents after inserting the characters of `cs` in order.
pub open spec fn after_inserts(s: Seq<char>, cs: Seq<char>) -> Seq<char>
    decreases cs.len(),
{
    if cs.len() == 0 {
        s
    } else {
        after_inserts(s, cs.drop_last()).push(cs.last())
    }
}

/// The buffer contents after `n` delete-from-end requests.
pub open spec fn after_deletes(s: Seq<char>, n: nat) -> Seq<char>
    decreases n,
{
    if n == 0 {
        s
    } else {
        after_deletes(deleted_last(s), (n - 1) as nat)
    }
}

/// Inserting any characters and then deleting exactly as many times
/// restores the buffer to what it held before: in particular, starting
/// from an empty buffer, `n` inserts followed by `n` deletes leave it
/// empty.
pub proof fn lemma_insert_delete_round_trip(s: Seq<char>, cs: Seq<char>)
    ensures
        after_deletes(after_inserts(s, cs), cs.len()) == s,
    decreases cs.len(),
{
    if cs.len() > 0 {
        let grown = after_inserts(s, cs);
        lemma_after_inserts_len(s, cs);
        assert(deleted_last(grown) == after_inserts(s, cs.drop_last()));
        lemma_insert_delete_round_trip(s, cs.drop_last());
    }
}

/// Inserting `cs` grows the buffer by exactly `cs.len()` characters.
proof fn lemma_after_inserts_len(s: Seq<char>, cs: Seq<char>)
    ensures
        after_inserts(s, cs).len() == s.len() + cs.len(),
    decreases cs.len(),
{
    if cs.len() > 0 {
        lemma_after_inserts_len(s, cs.drop_last());
    }
}

} // verus!
