//! What holds of the machine whatever program it runs.

use vstd::prelude::*;
use crate::decode::{decode_spec, Instruction};
use crate::display::{draw_collides, draw_display, sprite_at, sprite_pixel};
use crate::error::{EvalError, StackOp};
use crate::model::{
    bcd, execute_spec, flag, key_down_spec, key_up_spec, readable, step_spec, tick_spec, wrap16,
    MachineState, MEM_SIZE, PROGRAM_BASE,
};

verus! {

/// The state after `n` ticks of the timers.
pub open spec fn ticks(s: MachineState, n: nat) -> MachineState
    decreases n,
{
    if n == 0 {
        s
    } else {
        ticks(tick_spec(s), (n - 1) as nat)
    }
}

/// The state after calls to each of `addrs` in turn, each made inside the
/// subroutine entered by the one before; the first error where one fails.
pub open spec fn nested_calls(s: MachineState, addrs: Seq<u16>) -> Result<MachineState, EvalError>
    decreases addrs.len(),
{
    if addrs.len() == 0 {
        Ok(s)
    } else {
        match execute_spec(s, Instruction::Call { addr: addrs[0] }, 0) {
            Ok(t) => nested_calls(t, addrs.drop_first()),
            Err(e) => Err(e),
        }
    }
}

/// The state after one attempt to step for each byte of `rnds`, which is the
/// random byte of that step; the first error where one fails.
pub open spec fn steps(s: MachineState, rnds: Seq<u8>) -> Result<MachineState, EvalError>
    decreases rnds.len(),
{
    if rnds.len() == 0 {
        Ok(s)
    } else {
        match step_spec(s, rnds[0]) {
            Ok(t) => steps(t, rnds.drop_first()),
            Err(e) => Err(e),
        }
    }
}

/// An instruction leaves a well-formed state well-formed.
pub proof fn law_execute_keeps_wf(s: MachineState, ins: Instruction, rnd: u8)
    requires
        s.wf(),
        ins.wf(),
    ensures
        execute_spec(s, ins, rnd) matches Ok(t) ==> t.wf(),
{
}

/// No instruction writes below the program base: the font table stays as it
/// was loaded.
pub proof fn law_reserved_memory_kept(s: MachineState, ins: Instruction, rnd: u8, a: int)
    requires
        s.wf(),
        ins.wf(),
        0 <= a < PROGRAM_BASE,
    ensures
        execute_spec(s, ins, rnd) matches Ok(t) ==> t.ram[a] == s.ram[a],
{
}

/// Only a `Random` instruction looks at the random byte.
pub proof fn law_random_byte_unused(s: MachineState, ins: Instruction, a: u8, b: u8)
    requires
        !(ins is Random),
    ensures
        execute_spec(s, ins, a) == execute_spec(s, ins, b),
{
}

/// Every word that names an instruction gives it operands in range.
pub proof fn law_decode_in_range(word: u16)
    ensures
        decode_spec(word) matches Some(ins) ==> ins.wf(),
{
}

/// A step leaves a well-formed state well-formed and the reserved area of
/// memory as it was.
pub proof fn law_step_keeps_wf(s: MachineState, rnd: u8, a: int)
    requires
        s.wf(),
        0 <= a < PROGRAM_BASE,
    ensures
        step_spec(s, rnd) matches Ok(t) ==> t.wf() && t.ram[a] == s.ram[a],
{
    if s.waiting is None && s.pc + 1 < MEM_SIZE {
        law_decode_in_range(s.fetch());
        if let Some(ins) = decode_spec(s.fetch()) {
            law_execute_keeps_wf(s, ins, rnd);
            law_reserved_memory_kept(s, ins, rnd, a);
        }
    }
}

/// Whether every address that execution can continue at from `s` without a
/// jump is even: the program counter and the return addresses.
pub open spec fn aligned(s: MachineState) -> bool {
    &&& s.pc % 2 == 0
    &&& forall|k: int| 0 <= k < s.stack.len() ==> s.stack[k] % 2 == 0
}

/// Whether `ins`, executed in `s`, continues at an odd address of its own
/// choice: a jump or a call to one.
pub open spec fn jumps_to_odd(s: MachineState, ins: Instruction) -> bool {
    match ins {
        Instruction::Jump { addr } | Instruction::Call { addr } => addr % 2 == 1,
        Instruction::JumpOffset { addr } => (addr + s.v[0]) % 2 == 1,
        _ => false,
    }
}

/// The program counter and the return addresses stay on instruction
/// boundaries as long as no instruction jumps to an odd address.
pub proof fn law_alignment_kept(s: MachineState, ins: Instruction, rnd: u8)
    requires
        s.wf(),
        ins.wf(),
        aligned(s),
        !jumps_to_odd(s, ins),
    ensures
        execute_spec(s, ins, rnd) matches Ok(t) ==> aligned(t),
{
    if let Ok(t) = execute_spec(s, ins, rnd) {
        lemma_wrap16_parity(s.pc + 2);
        lemma_wrap16_parity(s.pc + 4);
        match ins {
            Instruction::Call { addr } => {
                assert forall|k: int| 0 <= k < t.stack.len() implies t.stack[k] % 2 == 0 by {
                    if k < s.stack.len() {
                        assert(t.stack[k] == s.stack[k]);
                    }
                }
            },
            Instruction::Return => {
                lemma_wrap16_parity(s.stack.last() + 2);
                assert forall|k: int| 0 <= k < t.stack.len() implies t.stack[k] % 2 == 0 by {
                    assert(t.stack[k] == s.stack[k]);
                }
            },
            Instruction::JumpOffset { addr } => {
                lemma_wrap16_parity(addr + s.v[0]);
            },
            _ => {
                assert(t.stack == s.stack);
            },
        }
    }
}

/// Reducing to sixteen bits keeps a number even or odd.
proof fn lemma_wrap16_parity(n: int)
    requires
        0 <= n,
    ensures
        wrap16(n) % 2 == n % 2,
{
    assert((n % 0x1_0000) % 2 == n % 2) by (nonlinear_arith)
        requires
            0 <= n,
    ;
}

/// The digits stored for a value are decimal digits and make up the value.
pub proof fn law_bcd_digits(val: u8)
    ensures
        bcd(val).len() == 3,
        forall|k: int| 0 <= k < 3 ==> bcd(val)[k] < 10,
        bcd(val)[0] * 100 + bcd(val)[1] * 10 + bcd(val)[2] == val,
{
}

/// Registers stored to memory and loaded back from there are as they were.
pub proof fn law_store_load_round_trip(s: MachineState, x: u8, rnd: u8)
    requires
        s.wf(),
        x < 16,
    ensures
        execute_spec(s, Instruction::StoreRegs { x }, rnd) matches Ok(t) ==> (execute_spec(
            t,
            Instruction::LoadRegs { x },
            rnd,
        ) matches Ok(u) && u.v == s.v && u.ram == t.ram),
{
    if let Ok(t) = execute_spec(s, Instruction::StoreRegs { x }, rnd) {
        let u = execute_spec(t, Instruction::LoadRegs { x }, rnd)->Ok_0;
        assert(u.v =~= s.v);
    }
}

/// The word made of the load-immediate class, a register and a literal
/// decodes to the load of that literal into that register.
pub proof fn law_load_immediate_word(x: u8, byte: u8)
    requires
        x < 16,
    ensures
        decode_spec((0x6000 + x * 0x100 + byte) as u16) == Some(Instruction::LoadImm { x, byte }),
{
    let word = (0x6000 + x * 0x100 + byte) as u16;
    assert(word / 0x1000 == 6);
    assert((word / 0x100) % 16 == x);
    assert(word % 0x100 == byte);
}

/// After a literal has been loaded into a register, the register holds
/// exactly the literal, and every other register is as before.
pub proof fn law_load_immediate(s: MachineState, x: u8, byte: u8, rnd: u8)
    requires
        s.wf(),
        x < 16,
    ensures
        execute_spec(s, Instruction::LoadImm { x, byte }, rnd) matches Ok(t) && t.v[x as int]
            == byte && t.pc == wrap16(s.pc + 2) && (forall|k: int|
            0 <= k < 16 && k != x ==> t.v[k] == s.v[k]),
{
}

/// Adding a literal wraps modulo 256 and leaves VF alone.
pub proof fn law_add_immediate_wraps(s: MachineState, x: u8, byte: u8, rnd: u8)
    requires
        s.wf(),
        x < 16,
    ensures
        execute_spec(s, Instruction::AddImm { x, byte }, rnd) matches Ok(t) && t.v[x as int] == (
        s.v[x as int] + byte) % 256 && (x != 0xF ==> t.v[0xF] == s.v[0xF]),
{
}

/// Adding two registers wraps modulo 256, and VF is 1 exactly when the sum
/// exceeds 255, else 0.
pub proof fn law_add_sets_carry(s: MachineState, x: u8, y: u8, rnd: u8)
    requires
        s.wf(),
        x < 16,
        y < 16,
    ensures
        execute_spec(s, Instruction::Add { x, y }, rnd) matches Ok(t) && (t.v[0xF] == 1 <==> s.v[x as int]
            + s.v[y as int] > 255) && (t.v[0xF] == 0 <==> s.v[x as int] + s.v[y as int] <= 255) && (x
            != 0xF ==> t.v[x as int] == (s.v[x as int] + s.v[y as int]) % 256),
{
}

/// Subtracting a register wraps modulo 256, and VF is 1 exactly when nothing
/// was borrowed, else 0.
pub proof fn law_sub_sets_no_borrow(s: MachineState, x: u8, y: u8, rnd: u8)
    requires
        s.wf(),
        x < 16,
        y < 16,
    ensures
        execute_spec(s, Instruction::Sub { x, y }, rnd) matches Ok(t) && (t.v[0xF] == 1 <==> s.v[x as int]
            >= s.v[y as int]) && (t.v[0xF] == 0 <==> s.v[x as int] < s.v[y as int]) && (x != 0xF
            ==> t.v[x as int] == (s.v[x as int] - s.v[y as int]) % 256),
{
}

/// A call followed by a return, whatever the subroutine did to the rest of
/// the machine as long as it left the stack as it found it, continues right
/// behind the call, with the stack as it was before the call.
pub proof fn law_call_return(s: MachineState, addr: u16, inside: MachineState, rnd: u8)
    requires
        s.wf(),
        s.stack.len() < 16,
        execute_spec(s, Instruction::Call { addr }, rnd) matches Ok(t) && inside.stack == t.stack,
    ensures
        execute_spec(s, Instruction::Call { addr }, rnd) matches Ok(t) && t.pc == addr,
        execute_spec(inside, Instruction::Return, rnd) matches Ok(u) && u.pc == wrap16(s.pc + 2)
            && u.stack == s.stack,
        s.pc <= 0xFFFD ==> (execute_spec(inside, Instruction::Return, rnd) matches Ok(u) && u.pc
            == s.pc + 2),
{
    let t = execute_spec(s, Instruction::Call { addr }, rnd)->Ok_0;
    assert(t.stack.drop_last() =~= s.stack);
}

/// A call succeeds exactly when fewer than 16 return addresses are held, and
/// then one more is held; with 16 it is a stack fault and nothing else.
pub proof fn law_call_depth(s: MachineState, addr: u16, rnd: u8)
    requires
        s.wf(),
    ensures
        s.stack.len() < 16 ==> (execute_spec(s, Instruction::Call { addr }, rnd) matches Ok(t)
            && t.stack.len() == s.stack.len() + 1),
        s.stack.len() == 16 ==> execute_spec(s, Instruction::Call { addr }, rnd) == Err::<
            MachineState,
            EvalError,
        >(EvalError::StackFault { sp: 16, op: StackOp::Call }),
{
}

/// Nested calls succeed exactly while the stack has room for all of them;
/// one more than it has room for is a stack fault on the full stack.
pub proof fn law_nested_calls_overflow(s: MachineState, addrs: Seq<u16>)
    requires
        s.wf(),
    ensures
        s.stack.len() + addrs.len() <= 16 ==> (nested_calls(s, addrs) matches Ok(t)
            && t.stack.len() == s.stack.len() + addrs.len()),
        s.stack.len() + addrs.len() > 16 ==> nested_calls(s, addrs) == Err::<
            MachineState,
            EvalError,
        >(EvalError::StackFault { sp: 16, op: StackOp::Call }),
    decreases addrs.len(),
{
    if addrs.len() > 0 {
        law_call_depth(s, addrs[0], 0);
        if s.stack.len() < 16 {
            let t = execute_spec(s, Instruction::Call { addr: addrs[0] }, 0)->Ok_0;
            law_nested_calls_overflow(t, addrs.drop_first());
        }
    }
}

/// A return with an empty stack is a stack fault.
pub proof fn law_return_underflow(s: MachineState, rnd: u8)
    requires
        s.wf(),
    ensures
        s.stack.len() == 0 <==> execute_spec(s, Instruction::Return, rnd) == Err::<
            MachineState,
            EvalError,
        >(EvalError::StackFault { sp: 0, op: StackOp::Return }),
        s.stack.len() > 0 ==> execute_spec(s, Instruction::Return, rnd) is Ok,
{
}

/// Drawing a sprite twice at the same place gives back the display as it
/// was. The second draw turns off exactly the cells that the first one lit,
/// so it reports a collision exactly when the sprite has a set pixel on a
/// cell that was dark at first.
pub proof fn law_draw_twice_display(display: Seq<bool>, sprite: Seq<u8>, x0: int, y0: int)
    requires
        display.len() == 2048,
    ensures
        draw_display(draw_display(display, sprite, x0, y0), sprite, x0, y0) == display,
        draw_collides(draw_display(display, sprite, x0, y0), sprite, x0, y0) <==> exists|k: int|
            0 <= k < 2048 && !display[k] && #[trigger] sprite_pixel(sprite, x0, y0, k),
{
    let once = draw_display(display, sprite, x0, y0);
    assert(draw_display(once, sprite, x0, y0) =~= display);
    if draw_collides(once, sprite, x0, y0) {
        let k = choose|k: int|
            0 <= k < once.len() && once[k] && #[trigger] sprite_pixel(sprite, x0, y0, k);
        assert(!display[k] && sprite_pixel(sprite, x0, y0, k));
    }
    if exists|k: int| 0 <= k < 2048 && !display[k] && #[trigger] sprite_pixel(sprite, x0, y0, k) {
        let k = choose|k: int|
            0 <= k < 2048 && !display[k] && #[trigger] sprite_pixel(sprite, x0, y0, k);
        assert(once[k] && sprite_pixel(sprite, x0, y0, k));
    }
}

/// Two draw instructions in a row with the same operands, where the first
/// left the two coordinate registers as they were (as it does unless one of
/// them is VF), give back the display as it was before the first. VF after
/// the first says whether the sprite met a lit cell, VF after the second
/// whether it met a dark one.
pub proof fn law_draw_twice(s: MachineState, x: u8, y: u8, rows: u8, rnd: u8)
    requires
        s.wf(),
        x < 16,
        y < 16,
        rows < 16,
        readable(s.i as int, rows as int),
        execute_spec(s, Instruction::Draw { x, y, rows }, rnd) matches Ok(t) && t.v[x as int]
            == s.v[x as int] && t.v[y as int] == s.v[y as int],
    ensures
        ({
            let draw = Instruction::Draw { x, y, rows };
            let sprite = sprite_at(s.ram, s.i as int, rows as int);
            let x0 = s.v[x as int] as int;
            let y0 = s.v[y as int] as int;
            &&& execute_spec(s, draw, rnd) matches Ok(t) && t.v[0xF] == flag(
                exists|k: int|
                    0 <= k < 2048 && s.display[k] && #[trigger] sprite_pixel(sprite, x0, y0, k),
            ) && (execute_spec(t, draw, rnd) matches Ok(u) && u.display == s.display && u.v[0xF]
                == flag(
                exists|k: int|
                    0 <= k < 2048 && !s.display[k] && #[trigger] sprite_pixel(sprite, x0, y0, k),
            ))
        }),
{
    let sprite = sprite_at(s.ram, s.i as int, rows as int);
    let x0 = s.v[x as int] as int;
    let y0 = s.v[y as int] as int;
    law_draw_twice_display(s.display, sprite, x0, y0);
}

/// Where neither coordinate register is VF, a draw leaves both as they were.
pub proof fn law_draw_keeps_coordinates(s: MachineState, x: u8, y: u8, rows: u8, rnd: u8)
    requires
        s.wf(),
        x < 0xF,
        y < 0xF,
        rows < 16,
    ensures
        execute_spec(s, Instruction::Draw { x, y, rows }, rnd) matches Ok(t) ==> t.v[x as int]
            == s.v[x as int] && t.v[y as int] == s.v[y as int],
{
}

/// Waiting for a key marks the register and moves nothing else, and while
/// the wait is pending no number of steps, key releases or timer ticks
/// changes the program counter, the registers or the wait.
pub proof fn law_key_wait_blocks(s: MachineState, x: u8, rnds: Seq<u8>, key: u8)
    requires
        s.wf(),
        x < 16,
    ensures
        ({
            let w = MachineState { waiting: Some(x), ..s };
            &&& execute_spec(s, Instruction::WaitKey { x }, 0) == Ok::<MachineState, EvalError>(w)
            &&& steps(w, rnds) == Ok::<MachineState, EvalError>(w)
            &&& key_up_spec(w, key).waiting == Some(x)
            &&& key_up_spec(w, key).pc == w.pc
            &&& key_up_spec(w, key).v == w.v
            &&& tick_spec(w).waiting == Some(x)
            &&& tick_spec(w).pc == w.pc
            &&& tick_spec(w).v == w.v
        }),
    decreases rnds.len(),
{
    if rnds.len() > 0 {
        law_key_wait_blocks(s, x, rnds.drop_first(), key);
    }
}

/// The first key to go down during a wait ends it: its number is in the
/// waiting register, no other register changes, and execution continues
/// behind the waiting instruction. A key that goes down after that finds no
/// wait and changes only the keypad.
pub proof fn law_key_down_resolves(s: MachineState, x: u8, key: u8, later: u8)
    requires
        s.wf(),
        s.waiting == Some(x),
        key < 16,
    ensures
        ({
            let t = key_down_spec(s, key);
            let u = key_down_spec(t, later);
            &&& t.waiting is None
            &&& t.v == s.v.update(x as int, key)
            &&& t.v[x as int] == key
            &&& t.pc == wrap16(s.pc + 2)
            &&& t.keys[key as int]
            &&& u.waiting is None
            &&& u.v == t.v
            &&& u.pc == t.pc
        }),
{
}

/// After `n` ticks a timer that stood at `n` or less is at zero, and one
/// that stood higher is lower by `n`; the timers never rise and nothing else
/// changes.
pub proof fn law_timer_decay(s: MachineState, n: nat)
    ensures
        ticks(s, n).dt == if s.dt >= n {
            s.dt - n
        } else {
            0
        },
        ticks(s, n).st == if s.st >= n {
            s.st - n
        } else {
            0
        },
        ticks(s, n) == (MachineState { dt: ticks(s, n).dt, st: ticks(s, n).st, ..s }),
    decreases n,
{
    if n > 0 {
        law_timer_decay(tick_spec(s), (n - 1) as nat);
    }
}

} // verus!
