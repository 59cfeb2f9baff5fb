//! Executing instructions on the machine.

use vstd::prelude::*;
use crate::decode::{decode, decode_spec, Instruction};
use crate::display::draw_sprite;
use crate::error::{EvalError, StackOp};
use crate::laws::law_random_byte_unused;
use crate::machine::CHIP8;
use crate::random::random_byte;
use crate::display::DISPLAY_CELLS;
use crate::model::{
    draws_random, execute_spec, flag, loaded_registers, outcome, step_spec, stored_registers,
    wrap16, wrap8, MachineState, KEYBOARD_SIZE, MEM_SIZE, PROGRAM_BASE, STACK_SIZE,
};

verus! {

spec fn is_flow(ins: Instruction) -> bool {
    ins is Return || ins is Call || ins is Jump || ins is JumpOffset || ins is SkipEqImm
        || ins is SkipNeImm || ins is SkipEqReg || ins is SkipNeReg || ins is SkipKey
        || ins is SkipNoKey
}

spec fn is_alu(ins: Instruction) -> bool {
    ins is LoadImm || ins is AddImm || ins is Or || ins is And || ins is Xor || ins is Add
        || ins is Sub || ins is ShiftRight || ins is SubReverse || ins is ShiftLeft
        || ins is Random || ins is GetDelay
}

spec fn is_memory(ins: Instruction) -> bool {
    ins is SetIndex || ins is AddIndex || ins is FontChar || ins is StoreBcd || ins is StoreRegs
        || ins is LoadRegs
}

fn kind_is_flow(ins: Instruction) -> (r: bool)
    ensures
        r == is_flow(ins),
{
    match ins {
        Instruction::Return
        | Instruction::Call { .. }
        | Instruction::Jump { .. }
        | Instruction::JumpOffset { .. }
        | Instruction::SkipEqImm { .. }
        | Instruction::SkipNeImm { .. }
        | Instruction::SkipEqReg { .. }
        | Instruction::SkipNeReg { .. }
        | Instruction::SkipKey { .. }
        | Instruction::SkipNoKey { .. } => true,
        _ => false,
    }
}

fn kind_is_alu(ins: Instruction) -> (r: bool)
    ensures
        r == is_alu(ins),
{
    match ins {
        Instruction::LoadImm { .. }
        | Instruction::AddImm { .. }
        | Instruction::Or { .. }
        | Instruction::And { .. }
        | Instruction::Xor { .. }
        | Instruction::Add { .. }
        | Instruction::Sub { .. }
        | Instruction::ShiftRight { .. }
        | Instruction::SubReverse { .. }
        | Instruction::ShiftLeft { .. }
        | Instruction::Random { .. }
        | Instruction::GetDelay { .. } => true,
        _ => false,
    }
}

fn kind_is_memory(ins: Instruction) -> (r: bool)
    ensures
        r == is_memory(ins),
{
    match ins {
        Instruction::SetIndex { .. }
        | Instruction::AddIndex { .. }
        | Instruction::FontChar { .. }
        | Instruction::StoreBcd { .. }
        | Instruction::StoreRegs { .. }
        | Instruction::LoadRegs { .. } => true,
        _ => false,
    }
}

/// `a + b` reduced to eight bits.
fn add8(a: u8, b: u8) -> (r: u8)
    ensures
        r == wrap8(a + b),
{
    a.wrapping_add(b)
}

/// `a - b` reduced to eight bits.
fn sub8(a: u8, b: u8) -> (r: u8)
    ensures
        r == wrap8(a - b),
{
    a.wrapping_sub(b)
}

/// `a + b` reduced to sixteen bits.
fn add16(a: u16, b: u16) -> (r: u16)
    ensures
        r == wrap16(a + b),
{
    a.wrapping_add(b)
}

/// 1 where `b` holds, else 0.
fn flag_of(b: bool) -> (r: u8)
    ensures
        r == flag(b),
{
    if b {
        1
    } else {
        0
    }
}

impl CHIP8 {
    /// Moves the program counter on by `k` bytes.
    fn advance(&mut self, k: u16)
        ensures
            final(self)@ == old(self)@.advance(k as int),
    {
        proof {
            use_type_invariant(&*self);
        }
        self.pc = add16(self.pc, k);
    }

    /// Moves the program counter past this instruction, and past the next
    /// one too where `cond` holds.
    fn skip_if(&mut self, cond: bool)
        ensures
            final(self)@ == old(self)@.skip_if(cond),
    {
        if cond {
            self.advance(4);
        } else {
            self.advance(2);
        }
    }

    /// Puts `val` in register `x` and then `f` in VF.
    fn set_v_flag(&mut self, x: u8, val: u8, f: u8)
        requires
            x < 16,
        ensures
            final(self)@ == old(self)@.set_v_flag(x as int, val, f),
    {
        proof {
            use_type_invariant(&*self);
        }
        self.vx[x as usize] = val;
        self.vx[0xF] = f;
    }

    /// Puts `val` in register `x`.
    fn set_v(&mut self, x: u8, val: u8)
        requires
            x < 16,
        ensures
            final(self)@ == old(self)@.set_v(x as int, val),
    {
        proof {
            use_type_invariant(&*self);
        }
        self.vx[x as usize] = val;
    }

    /// Continues at `addr`.
    fn jump(&mut self, addr: u16)
        ensures
            final(self)@ == (MachineState { pc: addr, ..old(self)@ }),
    {
        proof {
            use_type_invariant(&*self);
        }
        self.pc = addr;
    }

    /// Points I at `addr`.
    fn set_index(&mut self, addr: u16)
        ensures
            final(self)@ == (MachineState { i: addr, ..old(self)@ }),
    {
        proof {
            use_type_invariant(&*self);
        }
        self.i = addr;
    }

    /// Whether the key that register `x` numbers is down.
    fn key_down_at(&self, x: u8) -> (r: bool)
        requires
            x < 16,
        ensures
            r == self@.key_down_at(x as int),
    {
        let k = self.vx[x as usize];
        (k as usize) < KEYBOARD_SIZE && self.keyboard[k as usize]
    }

    /// Enters the subroutine at `addr`, keeping the address of the calling
    /// instruction on the stack.
    fn call(&mut self, addr: u16) -> (r: Result<(), EvalError>)
        ensures
            outcome(
                old(self)@,
                final(self)@,
                r,
                execute_spec(old(self)@, Instruction::Call { addr }, 0),
            ),
    {
        proof {
            use_type_invariant(&*self);
        }
        if self.sp as usize >= STACK_SIZE {
            return Err(EvalError::StackFault { sp: self.sp, op: StackOp::Call });
        }
        self.stack[self.sp as usize] = self.pc;
        self.sp += 1;
        self.pc = addr;
        assert(self@.stack =~= old(self)@.stack.push(old(self)@.pc));
        Ok(())
    }

    /// Leaves the subroutine: continues behind the instruction that called
    /// it.
    fn ret(&mut self) -> (r: Result<(), EvalError>)
        ensures
            outcome(old(self)@, final(self)@, r, execute_spec(old(self)@, Instruction::Return, 0)),
    {
        proof {
            use_type_invariant(&*self);
        }
        if self.sp == 0 {
            return Err(EvalError::StackFault { sp: 0, op: StackOp::Return });
        }
        self.sp -= 1;
        self.pc = add16(self.stack[self.sp as usize], 2);
        assert(self@.stack =~= old(self)@.stack.drop_last());
        Ok(())
    }

    /// Turns every cell off.
    fn clear_display(&mut self)
        ensures
            final(self)@ == (MachineState {
                display: Seq::new(DISPLAY_CELLS as nat, |k: int| false),
                ..old(self)@
            }),
    {
        proof {
            use_type_invariant(&*self);
        }
        self.display = [false;DISPLAY_CELLS];
        assert(self@.display =~= Seq::new(DISPLAY_CELLS as nat, |k: int| false));
    }

    /// Draws the sprite of `rows` bytes at I with its corner at (Vx, Vy) and
    /// leaves in VF whether a lit cell went off.
    fn draw(&mut self, x: u8, y: u8, rows: u8) -> (r: Result<(), EvalError>)
        requires
            x < 16,
            y < 16,
            rows < 16,
        ensures
            outcome(
                old(self)@,
                final(self)@,
                r,
                execute_spec(old(self)@, Instruction::Draw { x, y, rows }, 0),
            ),
    {
        proof {
            use_type_invariant(&*self);
        }
        if rows > 0 && self.i as usize + rows as usize > MEM_SIZE {
            return Err(EvalError::MemoryFault { pc: self.pc, address: self.i });
        }
        let x0 = self.vx[x as usize];
        let y0 = self.vx[y as usize];
        let hit = draw_sprite(&mut self.display, &self.ram, self.i as usize, rows as usize, x0, y0);
        self.vx[0xF] = flag_of(hit);
        self.advance(2);
        Ok(())
    }

    /// Writes the hundreds, tens and ones of Vx to I, I + 1 and I + 2.
    fn store_bcd(&mut self, x: u8) -> (r: Result<(), EvalError>)
        requires
            x < 16,
        ensures
            outcome(
                old(self)@,
                final(self)@,
                r,
                execute_spec(old(self)@, Instruction::StoreBcd { x }, 0),
            ),
    {
        proof {
            use_type_invariant(&*self);
        }
        if self.i < PROGRAM_BASE || self.i as usize + 3 > MEM_SIZE {
            return Err(EvalError::MemoryFault { pc: self.pc, address: self.i });
        }
        let val = self.vx[x as usize];
        let at = self.i as usize;
        self.ram[at] = val / 100;
        self.ram[at + 1] = (val / 10) % 10;
        self.ram[at + 2] = val % 10;
        self.advance(2);
        Ok(())
    }

    /// The instructions that decide where execution continues.
    fn execute_flow(&mut self, ins: Instruction) -> (r: Result<(), EvalError>)
        requires
            ins.wf(),
            is_flow(ins),
        ensures
            outcome(old(self)@, final(self)@, r, execute_spec(old(self)@, ins, 0)),
    {
        match ins {
            Instruction::Return => self.ret(),
            Instruction::Call { addr } => self.call(addr),
            Instruction::Jump { addr } => {
                self.jump(addr);
                Ok(())
            },
            Instruction::JumpOffset { addr } => {
                let target = addr + self.vx[0] as u16;
                self.jump(target);
                Ok(())
            },
            Instruction::SkipEqImm { x, byte } => {
                let cond = self.vx[x as usize] == byte;
                self.skip_if(cond);
                Ok(())
            },
            Instruction::SkipNeImm { x, byte } => {
                let cond = self.vx[x as usize] != byte;
                self.skip_if(cond);
                Ok(())
            },
            Instruction::SkipEqReg { x, y } => {
                let cond = self.vx[x as usize] == self.vx[y as usize];
                self.skip_if(cond);
                Ok(())
            },
            Instruction::SkipNeReg { x, y } => {
                let cond = self.vx[x as usize] != self.vx[y as usize];
                self.skip_if(cond);
                Ok(())
            },
            Instruction::SkipKey { x } => {
                let cond = self.key_down_at(x);
                self.skip_if(cond);
                Ok(())
            },
            Instruction::SkipNoKey { x } => {
                let cond = !self.key_down_at(x);
                self.skip_if(cond);
                Ok(())
            },
            // no other instruction decides where execution continues
            _ => Ok(()),
        }
    }

    /// The instructions that compute a register's value.
    fn execute_alu(&mut self, ins: Instruction, rnd: u8)
        requires
            ins.wf(),
            is_alu(ins),
        ensures
            execute_spec(old(self)@, ins, rnd) == Ok::<MachineState, EvalError>(final(self)@),
    {
        match ins {
            Instruction::LoadImm { x, byte } => {
                self.set_v(x, byte);
            },
            Instruction::AddImm { x, byte } => {
                let sum = add8(self.vx[x as usize], byte);
                self.set_v(x, sum);
            },
            Instruction::Or { x, y } => {
                let val = self.vx[x as usize] | self.vx[y as usize];
                self.set_v(x, val);
            },
            Instruction::And { x, y } => {
                let val = self.vx[x as usize] & self.vx[y as usize];
                self.set_v(x, val);
            },
            Instruction::Xor { x, y } => {
                let val = self.vx[x as usize] ^ self.vx[y as usize];
                self.set_v(x, val);
            },
            Instruction::Add { x, y } => {
                let a = self.vx[x as usize];
                let b = self.vx[y as usize];
                self.set_v_flag(x, add8(a, b), flag_of(a as u16 + b as u16 > 255));
            },
            Instruction::Sub { x, y } => {
                let a = self.vx[x as usize];
                let b = self.vx[y as usize];
                self.set_v_flag(x, sub8(a, b), flag_of(a >= b));
            },
            Instruction::ShiftRight { x, y } => {
                let a = self.vx[x as usize];
                self.set_v_flag(x, a / 2, a % 2);
            },
            Instruction::SubReverse { x, y } => {
                let a = self.vx[x as usize];
                let b = self.vx[y as usize];
                self.set_v_flag(x, sub8(b, a), flag_of(b >= a));
            },
            Instruction::ShiftLeft { x, y } => {
                let a = self.vx[x as usize];
                self.set_v_flag(x, add8(a, a), a / 128);
            },
            Instruction::Random { x, byte } => {
                self.set_v(x, rnd & byte);
            },
            Instruction::GetDelay { x } => {
                let val = self.dt;
                self.set_v(x, val);
            },
            // no other instruction computes a register's value
            _ => {},
        }
        self.advance(2);
    }

    /// The instructions that move I or go through it to memory.
    fn execute_memory(&mut self, ins: Instruction) -> (r: Result<(), EvalError>)
        requires
            ins.wf(),
            is_memory(ins),
        ensures
            outcome(old(self)@, final(self)@, r, execute_spec(old(self)@, ins, 0)),
    {
        match ins {
            Instruction::SetIndex { addr } => {
                self.set_index(addr);
                self.advance(2);
                Ok(())
            },
            Instruction::AddIndex { x } => {
                let target = add16(self.i, self.vx[x as usize] as u16);
                self.set_index(target);
                self.advance(2);
                Ok(())
            },
            Instruction::FontChar { x } => {
                let target = 5 * (self.vx[x as usize] as u16);
                self.set_index(target);
                self.advance(2);
                Ok(())
            },
            Instruction::StoreBcd { x } => self.store_bcd(x),
            Instruction::StoreRegs { x } => {
                if self.i < PROGRAM_BASE || self.i as usize + x as usize + 1 > MEM_SIZE {
                    Err(EvalError::MemoryFault { pc: self.pc, address: self.i })
                } else {
                    self.store_registers(x);
                    self.advance(2);
                    Ok(())
                }
            },
            Instruction::LoadRegs { x } => {
                if self.i as usize + x as usize + 1 > MEM_SIZE {
                    Err(EvalError::MemoryFault { pc: self.pc, address: self.i })
                } else {
                    self.load_registers(x);
                    self.advance(2);
                    Ok(())
                }
            },
            // no other instruction goes through I
            _ => Ok(()),
        }
    }

    /// The instructions that reach the display, the timers and the keypad.
    fn execute_device(&mut self, ins: Instruction) -> (r: Result<(), EvalError>)
        requires
            ins.wf(),
            !is_flow(ins),
            !is_alu(ins),
            !is_memory(ins),
        ensures
            outcome(old(self)@, final(self)@, r, execute_spec(old(self)@, ins, 0)),
    {
        proof {
            use_type_invariant(&*self);
        }
        match ins {
            Instruction::ClearScreen => {
                self.clear_display();
                self.advance(2);
                Ok(())
            },
            Instruction::Draw { x, y, rows } => self.draw(x, y, rows),
            Instruction::WaitKey { x } => {
                self.input_lock = Some(x);
                Ok(())
            },
            Instruction::SetDelay { x } => {
                self.dt = self.vx[x as usize];
                self.advance(2);
                Ok(())
            },
            Instruction::SetSound { x } => {
                self.st = self.vx[x as usize];
                self.advance(2);
                Ok(())
            },
            // every other instruction belongs to another family
            _ => Ok(()),
        }
    }

    /// Executes one instruction; `rnd` is the random byte for a `Random`
    /// instruction and is not looked at by any other.
    pub fn execute(&mut self, ins: Instruction, rnd: u8) -> (r: Result<(), EvalError>)
        requires
            ins.wf(),
        ensures
            outcome(old(self)@, final(self)@, r, execute_spec(old(self)@, ins, rnd)),
            final(self)@.wf(),
    {
        let r = if kind_is_flow(ins) {
            self.execute_flow(ins)
        } else if kind_is_alu(ins) {
            self.execute_alu(ins, rnd);
            Ok(())
        } else if kind_is_memory(ins) {
            self.execute_memory(ins)
        } else {
            self.execute_device(ins)
        };
        proof {
            use_type_invariant(&*self);
        }
        r
    }

    /// What the next step has to execute: nothing while a key-wait is
    /// pending, else the instruction at the program counter.
    fn next(&self) -> (r: Result<Option<Instruction>, EvalError>)
        ensures
            match r {
                Ok(None) => self@.waiting is Some,
                Ok(Some(ins)) => self@.waiting is None && self@.pc + 1 < MEM_SIZE && decode_spec(
                    self@.fetch(),
                ) == Some(ins) && ins.wf(),
                Err(e) => self@.waiting is None && step_spec(self@, 0) == Err::<
                    MachineState,
                    EvalError,
                >(e) && !draws_random(self@),
            },
    {
        if self.input_lock.is_some() {
            return Ok(None);
        }
        if self.pc as usize + 1 >= MEM_SIZE {
            return Err(EvalError::MemoryFault { pc: self.pc, address: self.pc });
        }
        let at = self.pc as usize;
        let word = self.ram[at] as u16 * 0x100 + self.ram[at + 1] as u16;
        match decode(word) {
            Some(ins) => Ok(Some(ins)),
            None => Err(EvalError::UnknownOpcode { pc: self.pc, instruction: word }),
        }
    }

    /// Takes one step with `rnd` as the random byte: does nothing while a
    /// key-wait is pending, else fetches, decodes and executes the
    /// instruction at the program counter. On an error the machine is left
    /// as it was.
    pub fn step_with(&mut self, rnd: u8) -> (r: Result<(), EvalError>)
        ensures
            outcome(old(self)@, final(self)@, r, step_spec(old(self)@, rnd)),
            final(self)@.wf(),
    {
        proof {
            use_type_invariant(&*self);
        }
        match self.next() {
            Ok(None) => Ok(()),
            Ok(Some(ins)) => self.execute(ins, rnd),
            Err(e) => Err(e),
        }
    }

    /// Takes one step, drawing the random byte where the instruction asks
    /// for one. The step is `step_with` for the byte drawn; where the
    /// instruction asks for none, it is `step_with` for any byte.
    pub fn step(&mut self) -> (r: Result<(), EvalError>)
        ensures
            exists|rnd: u8| outcome(old(self)@, final(self)@, r, #[trigger] step_spec(old(self)@, rnd)),
            !draws_random(old(self)@) ==> forall|rnd: u8|
                outcome(old(self)@, final(self)@, r, #[trigger] step_spec(old(self)@, rnd)),
            final(self)@.wf(),
    {
        proof {
            use_type_invariant(&*self);
        }
        match self.next() {
            Ok(None) => {
                assert(step_spec(old(self)@, 0) == Ok::<MachineState, EvalError>(old(self)@));
                Ok(())
            },
            Ok(Some(ins)) => {
                let rnd = match ins {
                    Instruction::Random { .. } => random_byte(),
                    _ => 0,
                };
                let r = self.execute(ins, rnd);
                proof {
                    assert(step_spec(old(self)@, rnd) == execute_spec(old(self)@, ins, rnd));
                    if !(ins is Random) {
                        assert forall|other: u8|
                            outcome(
                                old(self)@,
                                self@,
                                r,
                                #[trigger] step_spec(old(self)@, other),
                            ) by {
                            law_random_byte_unused(old(self)@, ins, rnd, other);
                        }
                    }
                }
                r
            },
            Err(e) => Err(e),
        }
    }

    /// Copies V0..=Vx to memory from I on.
    fn store_registers(&mut self, x: u8)
        requires
            x < 16,
            old(self).i + x + 1 <= MEM_SIZE,
        ensures
            final(self)@ == (MachineState {
                ram: stored_registers(
                    old(self)@.ram,
                    old(self)@.v,
                    old(self)@.i as int,
                    x as int,
                ),
                ..old(self)@
            }),
    {
        proof {
            use_type_invariant(&*self);
        }
        let base = self.i as usize;
        let mut k: usize = 0;
        while k <= x as usize
            invariant
                x < 16,
                k <= x + 1,
                base == old(self).i,
                base + x + 1 <= MEM_SIZE,
                self.inv(),
                self@ == (MachineState { ram: self.ram@, ..old(self)@ }),
                forall|a: int|
                    0 <= a < MEM_SIZE ==> self.ram@[a] == if base <= a < base + k {
                        old(self).vx@[a - base]
                    } else {
                        old(self).ram@[a]
                    },
            decreases x + 1 - k,
        {
            self.ram[base + k] = self.vx[k];
            k += 1;
        }
        assert(self@.ram =~= stored_registers(
            old(self)@.ram,
            old(self)@.v,
            old(self)@.i as int,
            x as int,
        ));
    }

    /// Copies memory from I on to V0..=Vx.
    fn load_registers(&mut self, x: u8)
        requires
            x < 16,
            old(self).i + x + 1 <= MEM_SIZE,
        ensures
            final(self)@ == (MachineState {
                v: loaded_registers(old(self)@.v, old(self)@.ram, old(self)@.i as int, x as int),
                ..old(self)@
            }),
    {
        proof {
            use_type_invariant(&*self);
        }
        let base = self.i as usize;
        let mut k: usize = 0;
        while k <= x as usize
            invariant
                x < 16,
                k <= x + 1,
                base == old(self).i,
                base + x + 1 <= MEM_SIZE,
                self.inv(),
                self@ == (MachineState { v: self.vx@, ..old(self)@ }),
                forall|j: int|
                    0 <= j < 16 ==> self.vx@[j] == if j < k {
                        old(self).ram@[base + j]
                    } else {
                        old(self).vx@[j]
                    },
            decreases x + 1 - k,
        {
            self.vx[k] = self.ram[base + k];
            k += 1;
        }
        assert(self@.v =~= loaded_registers(
            old(self)@.v,
            old(self)@.ram,
            old(self)@.i as int,
            x as int,
        ));
    }
}

} // verus!
