//! Putting a program image into memory.

use vstd::prelude::*;
use crate::error::LoadError;
use crate::machine::CHIP8;
use crate::model::{MachineState, MEM_SIZE, PROGRAM_BASE};

verus! {

/// Memory with the words of an image at `offset`: each word takes two bytes,
/// the high byte first.
pub open spec fn load_spec(ram: Seq<u8>, words: Seq<u16>, offset: int) -> Seq<u8> {
    Seq::new(
        ram.len(),
        |a: int|
            if offset <= a < offset + 2 * words.len() {
                if (a - offset) % 2 == 0 {
                    (words[(a - offset) / 2] / 0x100) as u8
                } else {
                    (words[(a - offset) / 2] % 0x100) as u8
                }
            } else {
                ram[a]
            },
    )
}

/// Why an image of `len` words cannot go to `offset`, if it cannot.
pub open spec fn load_error(len: int, offset: int) -> Option<LoadError> {
    if offset < PROGRAM_BASE {
        Some(LoadError::ReservedArea)
    } else if offset + 2 * len > MEM_SIZE {
        Some(LoadError::TooLarge)
    } else {
        None
    }
}

impl CHIP8 {
    /// Loads the instruction words of a program image into memory from
    /// `offset` on. An image that would start in the reserved area or run
    /// past the end of memory is refused, and the machine is left as it
    /// was.
    pub fn lrom(&mut self, words: &[u16], offset: usize) -> (r: Result<(), LoadError>)
        ensures
            match load_error(words@.len() as int, offset as int) {
                Some(e) => r == Err::<(), LoadError>(e) && final(self)@ == old(self)@,
                None => r is Ok && final(self)@ == (MachineState {
                    ram: load_spec(old(self)@.ram, words@, offset as int),
                    ..old(self)@
                }),
            },
            final(self)@.wf(),
    {
        proof {
            use_type_invariant(&*self);
        }
        if offset < PROGRAM_BASE as usize {
            return Err(LoadError::ReservedArea);
        }
        if offset > MEM_SIZE || words.len() > (MEM_SIZE - offset) / 2 {
            return Err(LoadError::TooLarge);
        }
        let mut k: usize = 0;
        while k < words.len()
            invariant
                k <= words@.len(),
                offset + 2 * words@.len() <= MEM_SIZE,
                self.inv(),
                self@ == (MachineState { ram: self.ram@, ..old(self)@ }),
                self.ram@ =~= load_spec(old(self)@.ram, words@.take(k as int), offset as int),
            decreases words@.len() - k,
        {
            let idx = offset + 2 * k;
            let inst = words[k];
            self.ram[idx] = (inst / 0x100) as u8;
            self.ram[idx + 1] = (inst % 0x100) as u8;
            k += 1;
        }
        assert(words@.take(k as int) =~= words@);
        Ok(())
    }

    /// Sets the address of the next instruction; nothing else changes.
    pub fn set_pc(&mut self, pc: u16)
        ensures
            final(self)@ == (MachineState { pc, ..old(self)@ }),
            final(self)@.wf(),
    {
        proof {
            use_type_invariant(&*self);
        }
        self.pc = pc;
    }
}

} // verus!
