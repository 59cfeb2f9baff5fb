//! The machine as a mathematical value, and what each instruction, key event
//! and timer tick makes of it.

use vstd::prelude::*;
use crate::decode::{decode_spec, Instruction};
use crate::display::{draw_collides, draw_display, sprite_at, DISPLAY_CELLS};
use crate::error::{EvalError, StackOp};

verus! {

/// The number of general registers.
pub const REGISTERS: usize = 16;

/// The number of bytes of memory.
pub const MEM_SIZE: usize = 4096;

/// The number of return addresses that the stack can hold.
pub const STACK_SIZE: usize = 16;

/// The number of keys on the keypad.
pub const KEYBOARD_SIZE: usize = 16;

/// The first address above the reserved area, where programs start.
pub const PROGRAM_BASE: u16 = 0x200;

/// The state of the machine.
pub struct MachineState {
    /// The general registers V0..VF.
    pub v: Seq<u8>,
    /// The address register I.
    pub i: u16,
    /// The address of the next instruction.
    pub pc: u16,
    /// The return addresses, oldest first.
    pub stack: Seq<u16>,
    /// The delay timer.
    pub dt: u8,
    /// The sound timer.
    pub st: u8,
    /// The memory, one byte per address.
    pub ram: Seq<u8>,
    /// The display, row by row; `true` is a lit cell.
    pub display: Seq<bool>,
    /// The keypad; `true` is a key held down.
    pub keys: Seq<bool>,
    /// The register that a pending key-wait will fill.
    pub waiting: Option<u8>,
}

/// `n` reduced to eight bits.
pub open spec fn wrap8(n: int) -> u8 {
    (n % 0x100) as u8
}

/// `n` reduced to sixteen bits.
pub open spec fn wrap16(n: int) -> u16 {
    (n % 0x1_0000) as u16
}

/// 1 where `b` holds, 0 where it does not: the form flags take in VF.
pub open spec fn flag(b: bool) -> u8 {
    if b {
        1
    } else {
        0
    }
}

impl MachineState {
    /// The sizes are those of the machine: 16 registers, at most 16 return
    /// addresses, 4096 bytes, 64 x 32 cells, 16 keys; a pending key-wait
    /// names a register.
    pub open spec fn wf(self) -> bool {
        &&& self.v.len() == REGISTERS
        &&& self.stack.len() <= STACK_SIZE
        &&& self.ram.len() == MEM_SIZE
        &&& self.display.len() == DISPLAY_CELLS
        &&& self.keys.len() == KEYBOARD_SIZE
        &&& (self.waiting matches Some(x) ==> x < REGISTERS)
    }

    /// Whether the cell in column `x` of row `y` is lit.
    pub open spec fn pixel(self, x: int, y: int) -> bool {
        self.display[y * 64 + x]
    }

    /// The state with the program counter moved on by `k` bytes.
    pub open spec fn advance(self, k: int) -> MachineState {
        MachineState { pc: wrap16(self.pc + k), ..self }
    }

    /// The state after an instruction that skips its successor where `cond`
    /// holds.
    pub open spec fn skip_if(self, cond: bool) -> MachineState {
        self.advance(
            if cond {
                4
            } else {
                2
            },
        )
    }

    /// The state with `val` in register `x`.
    pub open spec fn set_v(self, x: int, val: u8) -> MachineState {
        MachineState { v: self.v.update(x, val), ..self }
    }

    /// The state with `val` in register `x` and then `f` in VF, so that the
    /// flag is what stays where `x` is VF itself.
    pub open spec fn set_v_flag(self, x: int, val: u8, f: u8) -> MachineState {
        MachineState { v: self.v.update(x, val).update(0xF, f), ..self }
    }

    /// Whether the key that register `x` numbers is down. A value above 15
    /// numbers no key, and no key is not down.
    pub open spec fn key_down_at(self, x: int) -> bool {
        self.v[x] < KEYBOARD_SIZE && self.keys[self.v[x] as int]
    }

    /// The word at the program counter, high byte first.
    pub open spec fn fetch(self) -> u16 {
        (self.ram[self.pc as int] * 0x100 + self.ram[self.pc + 1]) as u16
    }
}

/// Whether the bytes from `start` up to `start + len` lie inside memory.
pub open spec fn readable(start: int, len: int) -> bool {
    len <= 0 || start + len <= MEM_SIZE
}

/// Whether the bytes from `start` up to `start + len` lie inside memory and
/// above the reserved area, which instructions do not write.
pub open spec fn writable(start: int, len: int) -> bool {
    PROGRAM_BASE <= start && start + len <= MEM_SIZE
}

/// Memory after registers V0..=Vx have been stored from address `i` on.
pub open spec fn stored_registers(ram: Seq<u8>, v: Seq<u8>, i: int, x: int) -> Seq<u8> {
    Seq::new(
        ram.len(),
        |a: int|
            if i <= a <= i + x {
                v[a - i]
            } else {
                ram[a]
            },
    )
}

/// The registers after V0..=Vx have been loaded from address `i` on.
pub open spec fn loaded_registers(v: Seq<u8>, ram: Seq<u8>, i: int, x: int) -> Seq<u8> {
    Seq::new(
        v.len(),
        |k: int|
            if k <= x {
                ram[i + k]
            } else {
                v[k]
            },
    )
}

/// The three decimal digits of `val`: hundreds, tens, ones.
pub open spec fn bcd(val: u8) -> Seq<u8> {
    seq![(val / 100) as u8, ((val / 10) % 10) as u8, (val % 10) as u8]
}

/// What one instruction makes of the state `s`, where `rnd` is the random
/// byte that a `Random` instruction draws. An error leaves the state as it
/// was.
pub open spec fn execute_spec(s: MachineState, ins: Instruction, rnd: u8) -> Result<
    MachineState,
    EvalError,
> {
    match ins {
        Instruction::ClearScreen => Ok(
            MachineState { display: Seq::new(DISPLAY_CELLS as nat, |k: int| false), ..s }.advance(2),
        ),
        Instruction::Return => if s.stack.len() == 0 {
            Err(EvalError::StackFault { sp: 0, op: StackOp::Return })
        } else {
            Ok(MachineState { pc: wrap16(s.stack.last() + 2), stack: s.stack.drop_last(), ..s })
        },
        Instruction::Jump { addr } => Ok(MachineState { pc: addr, ..s }),
        Instruction::Call { addr } => if s.stack.len() >= STACK_SIZE {
            Err(EvalError::StackFault { sp: s.stack.len() as u8, op: StackOp::Call })
        } else {
            Ok(MachineState { pc: addr, stack: s.stack.push(s.pc), ..s })
        },
        Instruction::SkipEqImm { x, byte } => Ok(s.skip_if(s.v[x as int] == byte)),
        Instruction::SkipNeImm { x, byte } => Ok(s.skip_if(s.v[x as int] != byte)),
        Instruction::SkipEqReg { x, y } => Ok(s.skip_if(s.v[x as int] == s.v[y as int])),
        Instruction::SkipNeReg { x, y } => Ok(s.skip_if(s.v[x as int] != s.v[y as int])),
        Instruction::LoadImm { x, byte } => Ok(s.set_v(x as int, byte).advance(2)),
        Instruction::AddImm { x, byte } => Ok(
            s.set_v(x as int, wrap8(s.v[x as int] + byte)).advance(2),
        ),
        Instruction::Or { x, y } => Ok(s.set_v(x as int, s.v[x as int] | s.v[y as int]).advance(2)),
        Instruction::And { x, y } => Ok(
            s.set_v(x as int, s.v[x as int] & s.v[y as int]).advance(2),
        ),
        Instruction::Xor { x, y } => Ok(
            s.set_v(x as int, s.v[x as int] ^ s.v[y as int]).advance(2),
        ),
        Instruction::Add { x, y } => Ok(
            s.set_v_flag(
                x as int,
                wrap8(s.v[x as int] + s.v[y as int]),
                flag(s.v[x as int] + s.v[y as int] > 255),
            ).advance(2),
        ),
        Instruction::Sub { x, y } => Ok(
            s.set_v_flag(
                x as int,
                wrap8(s.v[x as int] - s.v[y as int]),
                flag(s.v[x as int] >= s.v[y as int]),
            ).advance(2),
        ),
        Instruction::ShiftRight { x, y } => Ok(
            s.set_v_flag(x as int, (s.v[x as int] / 2) as u8, (s.v[x as int] % 2) as u8).advance(2),
        ),
        Instruction::SubReverse { x, y } => Ok(
            s.set_v_flag(
                x as int,
                wrap8(s.v[y as int] - s.v[x as int]),
                flag(s.v[y as int] >= s.v[x as int]),
            ).advance(2),
        ),
        Instruction::ShiftLeft { x, y } => Ok(
            s.set_v_flag(x as int, wrap8(s.v[x as int] * 2), (s.v[x as int] / 128) as u8).advance(
                2,
            ),
        ),
        Instruction::SetIndex { addr } => Ok(MachineState { i: addr, ..s }.advance(2)),
        Instruction::JumpOffset { addr } => Ok(MachineState { pc: wrap16(addr + s.v[0]), ..s }),
        Instruction::Random { x, byte } => Ok(s.set_v(x as int, rnd & byte).advance(2)),
        Instruction::Draw { x, y, rows } => if !readable(s.i as int, rows as int) {
            Err(EvalError::MemoryFault { pc: s.pc, address: s.i })
        } else {
            let sprite = sprite_at(s.ram, s.i as int, rows as int);
            let x0 = s.v[x as int] as int;
            let y0 = s.v[y as int] as int;
            Ok(
                MachineState {
                    display: draw_display(s.display, sprite, x0, y0),
                    v: s.v.update(0xF, flag(draw_collides(s.display, sprite, x0, y0))),
                    ..s
                }.advance(2),
            )
        },
        Instruction::SkipKey { x } => Ok(s.skip_if(s.key_down_at(x as int))),
        Instruction::SkipNoKey { x } => Ok(s.skip_if(!s.key_down_at(x as int))),
        Instruction::GetDelay { x } => Ok(s.set_v(x as int, s.dt).advance(2)),
        Instruction::WaitKey { x } => Ok(MachineState { waiting: Some(x), ..s }),
        Instruction::SetDelay { x } => Ok(MachineState { dt: s.v[x as int], ..s }.advance(2)),
        Instruction::SetSound { x } => Ok(MachineState { st: s.v[x as int], ..s }.advance(2)),
        Instruction::AddIndex { x } => Ok(
            MachineState { i: wrap16(s.i + s.v[x as int]), ..s }.advance(2),
        ),
        Instruction::FontChar { x } => Ok(
            MachineState { i: (5 * s.v[x as int]) as u16, ..s }.advance(2),
        ),
        Instruction::StoreBcd { x } => if !writable(s.i as int, 3) {
            Err(EvalError::MemoryFault { pc: s.pc, address: s.i })
        } else {
            let digits = bcd(s.v[x as int]);
            Ok(
                MachineState {
                    ram: s.ram.update(s.i as int, digits[0]).update(s.i + 1, digits[1]).update(
                        s.i + 2,
                        digits[2],
                    ),
                    ..s
                }.advance(2),
            )
        },
        Instruction::StoreRegs { x } => if !writable(s.i as int, x + 1) {
            Err(EvalError::MemoryFault { pc: s.pc, address: s.i })
        } else {
            Ok(
                MachineState {
                    ram: stored_registers(s.ram, s.v, s.i as int, x as int),
                    ..s
                }.advance(2),
            )
        },
        Instruction::LoadRegs { x } => if !readable(s.i as int, x + 1) {
            Err(EvalError::MemoryFault { pc: s.pc, address: s.i })
        } else {
            Ok(
                MachineState {
                    v: loaded_registers(s.v, s.ram, s.i as int, x as int),
                    ..s
                }.advance(2),
            )
        },
    }
}

/// What one step makes of the state `s`: nothing while a key-wait is
/// pending; else the instruction at the program counter is fetched, decoded
/// and executed. A program counter that leaves no room for a whole word is a
/// memory fault, and a word that names no instruction an unknown opcode.
pub open spec fn step_spec(s: MachineState, rnd: u8) -> Result<MachineState, EvalError> {
    if s.waiting is Some {
        Ok(s)
    } else if s.pc + 1 >= MEM_SIZE {
        Err(EvalError::MemoryFault { pc: s.pc, address: s.pc })
    } else {
        match decode_spec(s.fetch()) {
            None => Err(EvalError::UnknownOpcode { pc: s.pc, instruction: s.fetch() }),
            Some(ins) => execute_spec(s, ins, rnd),
        }
    }
}

/// Whether the step that `s` is about to take draws a random byte.
pub open spec fn draws_random(s: MachineState) -> bool {
    s.waiting is None && s.pc + 1 < MEM_SIZE && decode_spec(s.fetch()) matches Some(
        Instruction::Random { .. },
    )
}

/// Whether `result`, with the state `after` that the call left, is what
/// `expected` asks for from the state `before`: the new state on success, the
/// old state and the same error on failure.
pub open spec fn outcome(
    before: MachineState,
    after: MachineState,
    result: Result<(), EvalError>,
    expected: Result<MachineState, EvalError>,
) -> bool {
    match expected {
        Ok(s) => result is Ok && after == s,
        Err(e) => result == Err::<(), EvalError>(e) && after == before,
    }
}

/// The state after one tick of the timers: each goes down by one and stays at
/// zero once there.
pub open spec fn tick_spec(s: MachineState) -> MachineState {
    MachineState {
        dt: if s.dt > 0 {
            (s.dt - 1) as u8
        } else {
            0
        },
        st: if s.st > 0 {
            (s.st - 1) as u8
        } else {
            0
        },
        ..s
    }
}

/// The state once a pending key-wait has been given `key`: the key's number
/// is in the waiting register, the wait is over and the program counter is
/// past the waiting instruction. Nothing changes where no wait is pending or
/// `key` numbers no key.
pub open spec fn resolve_spec(s: MachineState, key: u8) -> MachineState {
    match s.waiting {
        Some(x) if key < KEYBOARD_SIZE => MachineState {
            v: s.v.update(x as int, key),
            waiting: None,
            ..s
        }.advance(2),
        _ => s,
    }
}

/// The state after `key` went down: its flag is set and a pending key-wait
/// is resolved with it. A number above 15 is no key and changes nothing.
pub open spec fn key_down_spec(s: MachineState, key: u8) -> MachineState {
    if key < KEYBOARD_SIZE {
        resolve_spec(MachineState { keys: s.keys.update(key as int, true), ..s }, key)
    } else {
        s
    }
}

/// The state after `key` went up: its flag is cleared, and a pending
/// key-wait stays pending. A number above 15 is no key and changes nothing.
pub open spec fn key_up_spec(s: MachineState, key: u8) -> MachineState {
    if key < KEYBOARD_SIZE {
        MachineState { keys: s.keys.update(key as int, false), ..s }
    } else {
        s
    }
}

} // verus!
