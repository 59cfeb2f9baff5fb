//! The machine's state and its mathematical model.

use vstd::prelude::*;
use crate::display::{DISPLAY_CELLS, DISPLAY_MAX_X, DISPLAY_MAX_Y};
use crate::model::{MachineState, KEYBOARD_SIZE, MEM_SIZE, REGISTERS, STACK_SIZE};

pub mod engine;
pub mod input;
pub mod loader;
pub mod timers;

verus! {

/// The number of bytes in the font table.
pub const FONT_SIZE: usize = 80;

/// The font table: the sprites of the digits 0 to F, five bytes each, four
/// pixels wide in the high half of each byte.
pub const FONT: [u8; FONT_SIZE] = [
    0xf0, 0x90, 0x90, 0x90, 0xf0,
    0x20, 0x60, 0x20, 0x20, 0x70,
    0xf0, 0x10, 0xf0, 0x80, 0xf0,
    0xf0, 0x10, 0xf0, 0x10, 0xf0,
    0x90, 0x90, 0xf0, 0x10, 0x10,
    0xf0, 0x80, 0xf0, 0x10, 0xf0,
    0xf0, 0x80, 0xf0, 0x90, 0xf0,
    0xf0, 0x10, 0x20, 0x40, 0x40,
    0xf0, 0x90, 0xf0, 0x90, 0xf0,
    0xf0, 0x90, 0xf0, 0x10, 0xf0,
    0xf0, 0x90, 0xf0, 0x90, 0x90,
    0xe0, 0x90, 0xe0, 0x90, 0xe0,
    0xf0, 0x80, 0x80, 0x80, 0xf0,
    0xe0, 0x90, 0x90, 0x90, 0xe0,
    0xf0, 0x80, 0xf0, 0x80, 0xf0,
    0xf0, 0x80, 0xf0, 0x80, 0x80,
];

/// The bytes of `ram` with the font table laid over the first 80 of them.
pub open spec fn with_font(ram: Seq<u8>) -> Seq<u8> {
    Seq::new(
        ram.len(),
        |a: int|
            if a < FONT_SIZE {
                FONT@[a]
            } else {
                ram[a]
            },
    )
}

/// The machine: registers, memory, call stack, timers, display, keypad and
/// the marker of a pending key-wait.
pub struct CHIP8 {
    vx: [u8; REGISTERS],
    i: u16,
    pc: u16,
    stack: [u16; STACK_SIZE],
    sp: u8,
    dt: u8,
    st: u8,
    ram: [u8; MEM_SIZE],
    display: [bool; DISPLAY_CELLS],
    keyboard: [bool; KEYBOARD_SIZE],
    input_lock: Option<u8>,
}

impl View for CHIP8 {
    type V = MachineState;

    closed spec fn view(&self) -> MachineState {
        MachineState {
            v: self.vx@,
            i: self.i,
            pc: self.pc,
            stack: self.stack@.take(self.sp as int),
            dt: self.dt,
            st: self.st,
            ram: self.ram@,
            display: self.display@,
            keys: self.keyboard@,
            waiting: self.input_lock,
        }
    }
}

impl CHIP8 {
    #[verifier::type_invariant]
    spec fn inv(self) -> bool {
        &&& self.sp <= STACK_SIZE
        &&& (self.input_lock matches Some(x) ==> x < REGISTERS)
    }

    /// A machine with every register, byte, cell, key and timer at zero, an
    /// empty stack and no key-wait pending.
    pub fn new() -> (vm: CHIP8)
        ensures
            vm@.wf(),
            vm@.v == Seq::new(REGISTERS as nat, |k: int| 0u8),
            vm@.i == 0,
            vm@.pc == 0,
            vm@.stack == Seq::<u16>::empty(),
            vm@.dt == 0,
            vm@.st == 0,
            vm@.ram == Seq::new(MEM_SIZE as nat, |k: int| 0u8),
            vm@.display == Seq::new(DISPLAY_CELLS as nat, |k: int| false),
            vm@.keys == Seq::new(KEYBOARD_SIZE as nat, |k: int| false),
            vm@.waiting is None,
    {
        let vm = CHIP8 {
            vx: [0;REGISTERS],
            i: 0,
            pc: 0,
            stack: [0;STACK_SIZE],
            sp: 0,
            dt: 0,
            st: 0,
            ram: [0;MEM_SIZE],
            display: [false;DISPLAY_CELLS],
            keyboard: [false;KEYBOARD_SIZE],
            input_lock: None,
        };
        assert(vm@.v =~= Seq::new(REGISTERS as nat, |k: int| 0u8));
        assert(vm@.stack =~= Seq::<u16>::empty());
        assert(vm@.ram =~= Seq::new(MEM_SIZE as nat, |k: int| 0u8));
        assert(vm@.display =~= Seq::new(DISPLAY_CELLS as nat, |k: int| false));
        assert(vm@.keys =~= Seq::new(KEYBOARD_SIZE as nat, |k: int| false));
        vm
    }

    /// Lays the font table over the first 80 bytes of memory: five bytes for
    /// each of the digits 0 to F, in order. Nothing else changes.
    pub fn init(&mut self)
        ensures
            final(self)@ == (MachineState { ram: with_font(old(self)@.ram), ..old(self)@ }),
            final(self)@.wf(),
    {
        proof {
            use_type_invariant(&*self);
        }
        let mut addr: usize = 0;
        while addr < FONT_SIZE
            invariant
                addr <= FONT_SIZE,
                self.inv(),
                forall|a: int| 0 <= a < addr ==> self.ram@[a] == FONT@[a],
                forall|a: int| addr <= a < MEM_SIZE ==> self.ram@[a] == old(self).ram@[a],
                self@ == (MachineState { ram: self.ram@, ..old(self)@ }),
            decreases FONT_SIZE - addr,
        {
            self.ram[addr] = FONT[addr];
            addr += 1;
        }
        assert(self.ram@ =~= with_font(old(self)@.ram));
    }
    /// The address of the next instruction.
    pub fn pc(&self) -> (r: u16)
        ensures
            r == self@.pc,
    {
        self.pc
    }

    /// The address register I.
    pub fn index(&self) -> (r: u16)
        ensures
            r == self@.i,
    {
        self.i
    }

    /// The value of register `x`.
    pub fn register(&self, x: usize) -> (r: u8)
        requires
            x < REGISTERS,
        ensures
            r == self@.v[x as int],
    {
        self.vx[x]
    }

    /// The delay timer.
    pub fn delay_timer(&self) -> (r: u8)
        ensures
            r == self@.dt,
    {
        self.dt
    }

    /// The sound timer.
    pub fn sound_timer(&self) -> (r: u8)
        ensures
            r == self@.st,
    {
        self.st
    }

    /// The byte of memory at `addr`.
    pub fn memory(&self, addr: usize) -> (r: u8)
        requires
            addr < MEM_SIZE,
        ensures
            r == self@.ram[addr as int],
    {
        self.ram[addr]
    }

    /// Whether the cell in column `x` of row `y` is lit.
    pub fn pixel(&self, x: usize, y: usize) -> (r: bool)
        requires
            x < DISPLAY_MAX_X,
            y < DISPLAY_MAX_Y,
        ensures
            r == self@.pixel(x as int, y as int),
    {
        self.display[y * DISPLAY_MAX_X + x]
    }

    /// Whether `key` is held down.
    pub fn key(&self, key: usize) -> (r: bool)
        requires
            key < KEYBOARD_SIZE,
        ensures
            r == self@.keys[key as int],
    {
        self.keyboard[key]
    }

    /// The register that a pending key-wait will fill, if one is pending.
    pub fn waiting(&self) -> (r: Option<u8>)
        ensures
            r == self@.waiting,
    {
        self.input_lock
    }

    /// The number of return addresses on the stack.
    pub fn stack_depth(&self) -> (r: u8)
        ensures
            r == self@.stack.len(),
    {
        proof {
            use_type_invariant(self);
        }
        self.sp
    }
}

} // verus!
