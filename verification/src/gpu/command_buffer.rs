//! The words of the GP0 command that is being received.

use vstd::prelude::*;

verus! {

/// The longest GP0 command takes this many words.
pub const CAPACITY: usize = 12;

/// A fixed-capacity, ordered store for the words of one GP0 command.
///
/// Its view is the sequence of words pushed since the last clear. More than
/// [`CAPACITY`] words, or a read at or past the current length, would mean
/// that the opcode table and a handler disagree; both are ruled out by the
/// preconditions here, which the interpreter is proved to meet.
#[derive(Clone, Copy)]
pub struct CommandBuffer {
    buffer: [u32; 12],
    len: u8,
}

impl View for CommandBuffer {
    type V = Seq<u32>;

    closed spec fn view(&self) -> Seq<u32> {
        self.buffer@.subrange(0, self.len as int)
    }
}

impl CommandBuffer {
    #[verifier::type_invariant]
    spec fn within_capacity(self) -> bool {
        self.len <= CAPACITY
    }

    /// An empty buffer.
    pub fn new() -> (b: CommandBuffer)
        ensures
            b@ == Seq::<u32>::empty(),
    {
        CommandBuffer { buffer: [0;12], len: 0 }
    }

    /// Forgets the words held.
    pub fn clear(&mut self)
        ensures
            final(self)@ == Seq::<u32>::empty(),
    {
        self.len = 0;
    }

    /// Appends `word`.
    pub fn push_word(&mut self, word: u32)
        requires
            old(self)@.len() < CAPACITY,
        ensures
            final(self)@ == old(self)@.push(word),
    {
        proof {
            use_type_invariant(&*self);
        }
        self.buffer[self.len as usize] = word;
        self.len += 1;
    }

    /// The number of words held.
    pub fn len(&self) -> (n: usize)
        ensures
            n == self@.len(),
            n <= CAPACITY,
    {
        proof {
            use_type_invariant(self);
        }
        self.len as usize
    }

    /// The word at `index`, counted from the first word pushed.
    pub fn index(&self, index: usize) -> (word: &u32)
        requires
            index < self@.len(),
        ensures
            *word == self@[index as int],
    {
        proof {
            use_type_invariant(self);
        }
        &self.buffer[index]
    }
}

} // verus!
