//! The program memory: 512 instruction words of 12 bits.

use crate::nbitnumber::{u12, u9};
use vstd::prelude::*;

verus! {

/// The number of words of the program memory.
pub const PROGRAM_MEMORY_SIZE: usize = 0x200;

/// The address that the program counter holds after a power-on reset. The
/// word there loads the oscillator calibration value; the first fetch moves
/// on from it to address zero.
pub const PC_POR_MOVLW_OSCCAL_ADDRESS: u16 = 0x0FF;

/// The address of the first instruction of a program.
pub const RESET_VECTOR: u16 = 0x000;

/// The program memory.
#[derive(Debug)]
pub struct ProgramMemory {
    words: [u16; 0x200],
}

impl View for ProgramMemory {
    type V = Seq<int>;

    /// The words as numbers, by address.
    closed spec fn view(&self) -> Seq<int> {
        Seq::new(PROGRAM_MEMORY_SIZE as nat, |i: int| self.words[i] as int)
    }
}

impl Clone for ProgramMemory {
    /// A copy that holds the same words.
    fn clone(&self) -> (r: Self)
        ensures
            r.wf(),
            r@ == self@,
    {
        proof {
            use_type_invariant(self);
        }
        ProgramMemory { words: self.words }
    }
}

/// The words of a program image as numbers, by address.
pub open spec fn image_of(words: [u12; 0x200]) -> Seq<int> {
    Seq::new(PROGRAM_MEMORY_SIZE as nat, |i: int| words[i]@)
}

/// The program memory in which every word is zero.
pub open spec fn blank_program() -> Seq<int> {
    Seq::new(PROGRAM_MEMORY_SIZE as nat, |i: int| 0int)
}

/// Whether `program` is what a program memory can hold: 512 words of 12
/// bits.
pub open spec fn is_program(program: Seq<int>) -> bool {
    &&& program.len() == PROGRAM_MEMORY_SIZE
    &&& forall|i: int| 0 <= i < PROGRAM_MEMORY_SIZE ==> 0 <= #[trigger] program[i] < 4096
}

impl ProgramMemory {
    /// Validity: every word has 12 bits. Every program memory that executable
    /// code can hold is valid.
    #[verifier::type_invariant]
    pub closed spec fn wf(&self) -> bool {
        forall|i: int| 0 <= i < PROGRAM_MEMORY_SIZE ==> #[trigger] self.words[i] < 4096
    }

    /// A valid program memory holds 512 words of 12 bits.
    pub proof fn lemma_valid(self)
        requires
            self.wf(),
        ensures
            is_program(self@),
    {
    }

    /// A program memory in which every word is zero.
    pub fn new() -> (r: ProgramMemory)
        ensures
            r.wf(),
            r@ == blank_program(),
    {
        let r = ProgramMemory { words: [0u16;0x200] };
        assert(r@ =~= blank_program());
        r
    }

    /// The word at `address`.
    pub fn fetch(&self, address: u9) -> (r: u12)
        ensures
            self.wf(),
            r@ == self@[address@],
            0 <= r@ < 4096,
    {
        proof {
            use_type_invariant(self);
        }
        u12::new(self.words[address.get() as usize])
    }

    /// Writes `word` to `address`; no other word changes.
    pub fn write(&mut self, address: u9, word: u12)
        ensures
            final(self).wf(),
            final(self)@ == old(self)@.update(address@, word@),
    {
        proof {
            use_type_invariant(&*self);
        }
        self.words[address.get() as usize] = word.get();
        assert(self@ =~= old(self)@.update(address@, word@));
    }

    /// Replaces the whole program by `new_program`.
    pub fn flash(&mut self, new_program: [u12; 0x200])
        ensures
            final(self).wf(),
            final(self)@ == image_of(new_program),
    {
        proof {
            use_type_invariant(&*self);
        }
        let mut i: usize = 0;
        while i < PROGRAM_MEMORY_SIZE
            invariant
                i <= PROGRAM_MEMORY_SIZE,
                self.wf(),
                forall|k: int| 0 <= k < i ==> self.words[k] as int == #[trigger] new_program[k]@,
            decreases PROGRAM_MEMORY_SIZE - i,
        {
            self.words[i] = new_program[i].get();
            i += 1;
        }
        assert(self@ =~= image_of(new_program));
    }
}

} // verus!
