//! What each instruction word does, stated over the hex digits of the word
//! fetched at `pc` and the registers it names, one tick at a time.
//!
//! The statements name no instruction kind and no per-instruction model:
//! they say, for every state and every word of a given shape, what the
//! registers, the program counter, the stack and the screen hold after the tick.

use vstd::prelude::*;

use crate::chip8_instr::{
    first_nibble, fourth_nibble, low_byte, low_twelve, second_nibble, third_nibble,
};
use crate::semantics::Chip8State;
use crate::{FLAG_REG, NUM_KEYS, NUM_REGS, RAM_SIZE, SCREEN_SIZE, STACK_SIZE};

verus! {

/// The registers other than `x` keep their values from `s` in `t`.
pub open spec fn other_regs_kept(s: Chip8State, t: Chip8State, x: int) -> bool {
    forall|i: int| 0 <= i < NUM_REGS && i != x ==> t.v_reg[i] == s.v_reg[i]
}

/// Only registers changed, and `pc` moved past the instruction.
pub open spec fn only_regs_and_pc_advanced(s: Chip8State, t: Chip8State) -> bool {
    &&& t.pc == s.pc + 2
    &&& t.i_reg == s.i_reg
    &&& t.sp == s.sp
    &&& t.stack == s.stack
    &&& t.screen == s.screen
    &&& t.ram == s.ram
    &&& t.keys == s.keys
    &&& t.dt == s.dt
    &&& t.st == s.st
}

/// `6XNN`, `7XNN`, `8XY0`..`8XY3`, `ANNN`, `CXNN`, `FX07`: what lands in `VX`
/// (or `I`), with every other register, the stack and the screen kept and
/// `pc` moved to the next instruction.
pub proof fn lemma_register_writes(s: Chip8State, random: u8)
    requires
        s.wf(),
        s.pc + 1 < RAM_SIZE,
    ensures
        ({
            let w = s.fetch_word();
            let t = s.step(random);
            let a = first_nibble(w);
            let c = third_nibble(w);
            let d = fourth_nibble(w);
            let x = second_nibble(w) as int;
            let y = third_nibble(w) as int;
            let nn = low_byte(w);
            &&& a == 0x6 ==> t.v_reg[x] == nn
            &&& a == 0x7 ==> t.v_reg[x] == (s.v_reg[x] + nn) % 0x100
            &&& a == 0x8 && d == 0x0 ==> t.v_reg[x] == s.v_reg[y]
            &&& a == 0x8 && d == 0x1 ==> t.v_reg[x] == s.v_reg[x] | s.v_reg[y]
            &&& a == 0x8 && d == 0x2 ==> t.v_reg[x] == s.v_reg[x] & s.v_reg[y]
            &&& a == 0x8 && d == 0x3 ==> t.v_reg[x] == s.v_reg[x] ^ s.v_reg[y]
            &&& a == 0xC ==> t.v_reg[x] == random & nn
            &&& a == 0xF && c == 0x0 && d == 0x7 ==> t.v_reg[x] == s.dt
            &&& (a == 0x6 || a == 0x7 || (a == 0x8 && d <= 0x3) || a == 0xC || (a == 0xF && c
                == 0x0 && d == 0x7)) ==> {
                &&& other_regs_kept(s, t, x)
                &&& only_regs_and_pc_advanced(s, t)
            }
            &&& a == 0xA ==> {
                &&& t.i_reg == low_twelve(w)
                &&& t.v_reg == s.v_reg
                &&& t == (Chip8State { i_reg: t.i_reg, pc: t.pc, ..s })
                &&& t.pc == s.pc + 2
            }
        }),
{
}

/// `8XY4`, `8XY5`, `8XY7`, `8XY6`, `8XYE`: the arithmetic and the flag in `VF`.
/// The flag is written last, so it is what `VF` holds even when `X` is `F`;
/// `VX` gets the result when `X` is another register.
pub proof fn lemma_arithmetic_flags(s: Chip8State, random: u8)
    requires
        s.wf(),
        s.pc + 1 < RAM_SIZE,
    ensures
        ({
            let w = s.fetch_word();
            let t = s.step(random);
            let a = first_nibble(w);
            let d = fourth_nibble(w);
            let x = second_nibble(w) as int;
            let y = third_nibble(w) as int;
            let vx = s.v_reg[x];
            let vy = s.v_reg[y];
            let f = FLAG_REG as int;
            &&& a == 0x8 && d == 0x4 ==> {
                &&& t.v_reg[f] == (if vx + vy >= 0x100 { 1int } else { 0int })
                &&& x != f ==> t.v_reg[x] + 0x100 * t.v_reg[f] == vx + vy
            }
            &&& a == 0x8 && d == 0x5 ==> {
                &&& t.v_reg[f] == (if vx < vy { 1int } else { 0int })
                &&& x != f ==> t.v_reg[x] == vx - vy + 0x100 * t.v_reg[f]
            }
            &&& a == 0x8 && d == 0x7 ==> {
                &&& t.v_reg[f] == (if vy < vx { 1int } else { 0int })
                &&& x != f ==> t.v_reg[x] == vy - vx + 0x100 * t.v_reg[f]
            }
            &&& a == 0x8 && d == 0x6 ==> {
                &&& t.v_reg[f] == vy % 2
                &&& x != f ==> 2 * t.v_reg[x] + t.v_reg[f] == vy
            }
            &&& a == 0x8 && d == 0xE ==> {
                &&& t.v_reg[f] == vy % 2
                &&& x != f ==> t.v_reg[x] == 2 * vy - 0x100 * (vy / 0x80)
            }
            &&& a == 0x8 && (d == 0x4 || d == 0x5 || d == 0x6 || d == 0x7 || d == 0xE) ==> {
                &&& forall|i: int| 0 <= i < f && i != x ==> t.v_reg[i] == s.v_reg[i]
                &&& only_regs_and_pc_advanced(s, t)
            }
        }),
{
}

/// The conditional skips `3XNN`, `4XNN`, `5XY0`, `9XY0`, `EX9E`, `EXA1`: the
/// next instruction is at `pc + 4` when the condition holds and at `pc + 2`
/// otherwise; nothing else changes.
pub proof fn lemma_skips(s: Chip8State, random: u8)
    requires
        s.wf(),
        s.pc + 1 < RAM_SIZE,
    ensures
        ({
            let w = s.fetch_word();
            let t = s.step(random);
            let a = first_nibble(w);
            let c = third_nibble(w);
            let d = fourth_nibble(w);
            let vx = s.v_reg[second_nibble(w) as int];
            let vy = s.v_reg[third_nibble(w) as int];
            let nn = low_byte(w);
            let key_down = vx < NUM_KEYS && s.keys[vx as int];
            let key_up = vx < NUM_KEYS && !s.keys[vx as int];
            &&& a == 0x3 ==> t == (Chip8State {
                pc: (s.pc + if vx == nn { 4int } else { 2int }) as u16,
                ..s
            })
            &&& a == 0x4 ==> t == (Chip8State {
                pc: (s.pc + if vx != nn { 4int } else { 2int }) as u16,
                ..s
            })
            &&& a == 0x5 && d == 0x0 ==> t == (Chip8State {
                pc: (s.pc + if vx == vy { 4int } else { 2int }) as u16,
                ..s
            })
            &&& a == 0x9 && d == 0x0 ==> t == (Chip8State {
                pc: (s.pc + if vx != vy { 4int } else { 2int }) as u16,
                ..s
            })
            &&& a == 0xE && c == 0x9 && d == 0xE ==> t == (Chip8State {
                pc: (s.pc + if key_down { 4int } else { 2int }) as u16,
                ..s
            })
            &&& a == 0xE && c == 0xA && d == 0x1 ==> t == (Chip8State {
                pc: (s.pc + if key_up { 4int } else { 2int }) as u16,
                ..s
            })
        }),
{
}

/// `1NNN`, `BNNN`, `2NNN`, `00EE`: where control goes, and what the stack holds.
pub proof fn lemma_jumps_calls_returns(s: Chip8State, random: u8)
    requires
        s.wf(),
        s.pc + 1 < RAM_SIZE,
    ensures
        ({
            let w = s.fetch_word();
            let t = s.step(random);
            let a = first_nibble(w);
            let nnn = low_twelve(w);
            &&& a == 0x1 ==> t == (Chip8State { pc: nnn, ..s })
            &&& a == 0xB ==> {
                &&& t.pc == nnn + s.v_reg[0]
                &&& t == (Chip8State { pc: t.pc, ..s })
            }
            &&& a == 0x2 && s.sp < STACK_SIZE ==> {
                &&& t.pc == nnn
                &&& t.sp == s.sp + 1
                &&& t.stack[s.sp as int] == s.pc + 2
                &&& forall|i: int| 0 <= i < STACK_SIZE && i != s.sp ==> t.stack[i] == s.stack[i]
                &&& t == (Chip8State { pc: t.pc, sp: t.sp, stack: t.stack, ..s })
            }
            &&& w == 0x00EE && 1 <= s.sp ==> t == (Chip8State {
                pc: s.stack[s.sp - 1],
                sp: (s.sp - 1) as u8,
                ..s
            })
        }),
{
}

/// `00E0` turns every pixel off; `0000` and `DXYN` only move `pc` on.
pub proof fn lemma_screen_and_no_ops(s: Chip8State, random: u8)
    requires
        s.wf(),
        s.pc + 1 < RAM_SIZE,
    ensures
        ({
            let w = s.fetch_word();
            let t = s.step(random);
            &&& w == 0x00E0 ==> {
                &&& forall|i: int| 0 <= i < SCREEN_SIZE ==> !t.screen[i]
                &&& t.screen.len() == SCREEN_SIZE
                &&& t == (Chip8State { pc: (s.pc + 2) as u16, screen: t.screen, ..s })
            }
            &&& (w == 0x0000 || first_nibble(w) == 0xD) ==> t == (Chip8State {
                pc: (s.pc + 2) as u16,
                ..s
            })
        }),
{
}

/// `FX0A` with a key pressed: `VX` gets the lowest pressed key and `pc`
/// moves on; nothing else changes.
pub proof fn lemma_wait_key_takes_lowest(s: Chip8State, random: u8)
    requires
        s.wf(),
        s.pc + 1 < RAM_SIZE,
        first_nibble(s.fetch_word()) == 0xF,
        third_nibble(s.fetch_word()) == 0x0,
        fourth_nibble(s.fetch_word()) == 0xA,
        exists|k: int| 0 <= k < NUM_KEYS && s.keys[k],
    ensures
        ({
            let t = s.step(random);
            let x = second_nibble(s.fetch_word()) as int;
            &&& t.v_reg[x] < NUM_KEYS
            &&& s.keys[t.v_reg[x] as int]
            &&& forall|j: int| 0 <= j < t.v_reg[x] ==> !s.keys[j]
            &&& other_regs_kept(s, t, x)
            &&& only_regs_and_pc_advanced(s, t)
        }),
{
    let keys = s.keys;
    let k0 = choose|k: int| 0 <= k < NUM_KEYS && keys[k];
    lemma_lowest_pressed_exists(keys, k0);
}

/// Some pressed key is the lowest one.
proof fn lemma_lowest_pressed_exists(keys: Seq<bool>, k: int)
    requires
        0 <= k < keys.len(),
        keys[k],
    ensures
        exists|m: int| crate::semantics::is_first_pressed(keys, m),
    decreases k,
{
    if forall|j: int| 0 <= j < k ==> !keys[j] {
        assert(crate::semantics::is_first_pressed(keys, k));
    } else {
        let j = choose|j: int| 0 <= j < k && keys[j];
        lemma_lowest_pressed_exists(keys, j);
    }
}

/// The words a tick accepts: every word of the shapes below runs (the
/// stack permitting, for `2NNN` and `00EE`), and no other word does.
pub proof fn lemma_implemented_words(s: Chip8State)
    requires
        s.wf(),
        s.pc + 1 < RAM_SIZE,
    ensures
        ({
            let w = s.fetch_word();
            let a = first_nibble(w);
            let c = third_nibble(w);
            let d = fourth_nibble(w);
            s.can_tick() <==> {
                ||| w == 0x0000
                ||| w == 0x00E0
                ||| w == 0x00EE && 1 <= s.sp
                ||| a == 0x2 && s.sp < STACK_SIZE
                ||| a == 0x1 || a == 0x3 || a == 0x4 || a == 0x6 || a == 0x7
                ||| a == 0xA || a == 0xB || a == 0xC || a == 0xD
                ||| (a == 0x5 || a == 0x9) && d == 0x0
                ||| a == 0x8 && (d <= 0x7 || d == 0xE)
                ||| a == 0xE && ((c == 0x9 && d == 0xE) || (c == 0xA && d == 0x1))
                ||| a == 0xF && c == 0x0 && (d == 0x7 || d == 0xA)
            }
        }),
{
    let w = s.fetch_word();
    crate::chip8_instr::lemma_nibbles_compose(w);
}

} // verus!
