//! Key events from the host.

use vstd::prelude::*;
use crate::machine::CHIP8;
use crate::model::{key_down_spec, key_up_spec, resolve_spec, wrap16, KEYBOARD_SIZE};

verus! {

impl CHIP8 {
    /// Gives `key` to a pending key-wait: the waiting register takes the
    /// key's number, the wait is over and execution continues behind the
    /// waiting instruction. Without a pending wait, or with a number above
    /// 15, nothing changes.
    pub fn check_lock(&mut self, key: u8)
        ensures
            final(self)@ == resolve_spec(old(self)@, key),
            final(self)@.wf(),
    {
        proof {
            use_type_invariant(&*self);
        }
        if (key as usize) < KEYBOARD_SIZE {
            if let Some(x) = self.input_lock {
                self.vx[x as usize] = key;
                self.input_lock = None;
                self.pc = self.pc.wrapping_add(2);
                assert(self.pc == wrap16(old(self).pc + 2));
            }
        }
    }

    /// Records that `key` went down and gives it to a pending key-wait. A
    /// number above 15 is no key and changes nothing.
    pub fn key_down(&mut self, key: u8)
        ensures
            final(self)@ == key_down_spec(old(self)@, key),
            final(self)@.wf(),
    {
        proof {
            use_type_invariant(&*self);
        }
        if (key as usize) < KEYBOARD_SIZE {
            self.keyboard[key as usize] = true;
            self.check_lock(key);
        }
    }

    /// Records that `key` went up; a pending key-wait stays pending. A
    /// number above 15 is no key and changes nothing.
    pub fn key_up(&mut self, key: u8)
        ensures
            final(self)@ == key_up_spec(old(self)@, key),
            final(self)@.wf(),
    {
        proof {
            use_type_invariant(&*self);
        }
        if (key as usize) < KEYBOARD_SIZE {
            self.keyboard[key as usize] = false;
        }
    }
}

} // verus!
