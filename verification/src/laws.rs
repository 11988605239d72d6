//! Properties of the machine that span instructions and ticks.

use vstd::prelude::*;

use crate::semantics::{decode, initial_state, loaded_ram, reg_x, reg_y, Chip8State, OpKind};
use crate::{FLAG_REG, NUM_KEYS, PC_START_ADDR, RAM_SIZE, STACK_SIZE};

verus! {

/// The machine starts well formed, and loading a program keeps it so.
pub proof fn lemma_initial_state_wf(data: Seq<u8>)
    requires
        data.len() <= RAM_SIZE - PC_START_ADDR,
    ensures
        initial_state().wf(),
        (Chip8State { ram: loaded_ram(initial_state().ram, data), ..initial_state() }).wf(),
{
}

/// Every tick keeps the machine well formed: the sizes stay and the stack
/// pointer never leaves the stack.
pub proof fn lemma_step_preserves_wf(s: Chip8State, random: u8)
    requires
        s.wf(),
        s.can_tick(),
    ensures
        s.step(random).wf(),
{
}

/// No instruction writes memory, the keypad or the timers.
pub proof fn lemma_step_frame(s: Chip8State, random: u8)
    requires
        s.can_tick(),
    ensures
        s.step(random).ram == s.ram,
        s.step(random).keys == s.keys,
        s.step(random).dt == s.dt,
        s.step(random).st == s.st,
{
}

/// After loading a program into a fresh machine, the first word fetched is
/// the program's first two bytes, big-endian.
pub proof fn lemma_first_fetch_after_load(data: Seq<u8>)
    requires
        2 <= data.len() <= RAM_SIZE - PC_START_ADDR,
    ensures
        ({
            let s = Chip8State { ram: loaded_ram(initial_state().ram, data), ..initial_state() };
            &&& s.pc == PC_START_ADDR
            &&& s.fetch_word() == data[0] * 0x100 + data[1]
        }),
{
}

/// A call followed by a return resumes right after the call, with the
/// stack pointer back where it was.
pub proof fn lemma_call_then_return(s: Chip8State, r1: u8, r2: u8)
    requires
        s.wf(),
        s.pc + 1 < RAM_SIZE,
        decode(s.fetch_word()) == Some(OpKind::Call),
        s.sp < STACK_SIZE,
        s.step(r1).pc + 1 < RAM_SIZE,
        decode(s.step(r1).fetch_word()) == Some(OpKind::Return),
    ensures
        s.step(r1).step(r2) == (Chip8State {
            pc: (s.pc + 2) as u16,
            stack: s.stack.update(s.sp as int, (s.pc + 2) as u16),
            ..s
        }),
{
}

/// With no key pressed, `FX0A` leaves the machine exactly as it was, so the
/// next tick runs it again: it blocks until a key is pressed.
pub proof fn lemma_wait_key_blocks(s: Chip8State, random: u8)
    requires
        s.wf(),
        s.pc + 1 < RAM_SIZE,
        decode(s.fetch_word()) == Some(OpKind::WaitKey),
        forall|k: int| 0 <= k < NUM_KEYS ==> !s.keys[k],
    ensures
        s.step(random) == s,
{
    assert(!exists|k: int| crate::semantics::is_first_pressed(s.keys, k));
}

/// `8XY4` with `X` other than `F`: the new `VX` plus 256 times the carry in
/// `VF` is the true sum of `VX` and `VY`.
pub proof fn lemma_add_with_carry(s: Chip8State, random: u8)
    requires
        s.wf(),
        s.pc + 1 < RAM_SIZE,
        decode(s.fetch_word()) == Some(OpKind::AddReg),
        reg_x(s.fetch_word()) != FLAG_REG,
    ensures
        ({
            let t = s.step(random);
            let x = reg_x(s.fetch_word());
            let y = reg_y(s.fetch_word());
            &&& t.v_reg[x] + 0x100 * t.v_reg[FLAG_REG as int] == s.v_reg[x] + s.v_reg[y]
            &&& t.v_reg[FLAG_REG as int] <= 1
        }),
{
}

/// `8XY5` with `X` other than `F`: the new `VX` is the true difference
/// `VX - VY` plus 256 when `VF` reports a borrow.
pub proof fn lemma_sub_with_borrow(s: Chip8State, random: u8)
    requires
        s.wf(),
        s.pc + 1 < RAM_SIZE,
        decode(s.fetch_word()) == Some(OpKind::SubReg),
        reg_x(s.fetch_word()) != FLAG_REG,
    ensures
        ({
            let t = s.step(random);
            let x = reg_x(s.fetch_word());
            let y = reg_y(s.fetch_word());
            &&& t.v_reg[x] == s.v_reg[x] - s.v_reg[y] + 0x100 * t.v_reg[FLAG_REG as int]
            &&& t.v_reg[FLAG_REG as int] <= 1
        }),
{
}

/// A conditional skip moves `pc` by one instruction or by two, and changes
/// nothing else.
pub proof fn lemma_skip_moves_only_pc(s: Chip8State, random: u8)
    requires
        s.wf(),
        s.pc + 1 < RAM_SIZE,
        decode(s.fetch_word()) matches Some(op) && (op == OpKind::SkipEqImm
            || op == OpKind::SkipNeImm || op == OpKind::SkipEqReg || op == OpKind::SkipNeReg
            || op == OpKind::SkipKeyPressed || op == OpKind::SkipKeyReleased),
    ensures
        s.step(random) == (Chip8State { pc: s.step(random).pc, ..s }),
        s.step(random).pc == s.pc + 2 || s.step(random).pc == s.pc + 4,
{
}

/// `8XY6` with `X` other than `F` loses no bit: twice the new `VX` plus
/// the flag in `VF` is the old `VY`.
pub proof fn lemma_shift_right_keeps_low_bit(s: Chip8State, random: u8)
    requires
        s.wf(),
        s.pc + 1 < RAM_SIZE,
        decode(s.fetch_word()) == Some(OpKind::ShiftRight),
        reg_x(s.fetch_word()) != FLAG_REG,
    ensures
        ({
            let t = s.step(random);
            let x = reg_x(s.fetch_word());
            let y = reg_y(s.fetch_word());
            &&& 2 * t.v_reg[x] + t.v_reg[FLAG_REG as int] == s.v_reg[y]
            &&& t.v_reg[FLAG_REG as int] <= 1
        }),
{
}

/// The word fetched at `pc` is big-endian: the byte at `pc` is its high
/// byte and the byte after it its low byte.
pub proof fn lemma_fetch_big_endian(s: Chip8State)
    requires
        s.wf(),
        s.pc + 1 < RAM_SIZE,
    ensures
        s.fetch_word() / 0x100 == s.ram[s.pc as int],
        s.fetch_word() % 0x100 == s.ram[s.pc + 1],
        s.advance_pc().pc == s.pc + 2,
{
}

/// Loading puts byte `i` of the program at address `0x200 + i` and keeps
/// every other byte of memory.
pub proof fn lemma_load_places_program(ram: Seq<u8>, data: Seq<u8>)
    requires
        ram.len() == RAM_SIZE,
        data.len() <= RAM_SIZE - PC_START_ADDR,
    ensures
        loaded_ram(ram, data).len() == RAM_SIZE,
        forall|i: int| 0 <= i < data.len() ==> loaded_ram(ram, data)[PC_START_ADDR + i] == data[i],
        forall|a: int|
            0 <= a < RAM_SIZE && !(PC_START_ADDR <= a < PC_START_ADDR + data.len())
                ==> loaded_ram(ram, data)[a] == ram[a],
{
}

} // verus!
