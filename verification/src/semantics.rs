//! The machine as mathematical values, and what each instruction does to it.

use vstd::prelude::*;

use crate::chip8_instr::{
    Chip8Instr,
    first_nibble, fourth_nibble, low_byte, low_twelve, second_nibble, third_nibble,
};
use crate::{FLAG_REG, NUM_KEYS, NUM_REGS, PC_START_ADDR, RAM_SIZE, SCREEN_SIZE, STACK_SIZE};

verus! {

/// The whole state of the machine.
pub struct Chip8State {
    /// One entry per pixel, row after row; `true` is lit.
    pub screen: Seq<bool>,
    pub pc: u16,
    pub v_reg: Seq<u8>,
    pub i_reg: u16,
    /// Number of return addresses on the stack.
    pub sp: u8,
    pub stack: Seq<u16>,
    pub ram: Seq<u8>,
    pub dt: u8,
    pub st: u8,
    pub keys: Seq<bool>,
}

/// The instructions the machine knows, named after what they do.
pub enum OpKind {
    /// `0000`: does nothing.
    Nop,
    /// `00E0`: clears the screen.
    ClearScreen,
    /// `00EE`: returns from a subroutine.
    Return,
    /// `1NNN`: jumps to `NNN`.
    Jump,
    /// `2NNN`: calls the subroutine at `NNN`.
    Call,
    /// `3XNN`: skips the next instruction if `VX == NN`.
    SkipEqImm,
    /// `4XNN`: skips the next instruction if `VX != NN`.
    SkipNeImm,
    /// `5XY0`: skips the next instruction if `VX == VY`.
    SkipEqReg,
    /// `6XNN`: `VX = NN`.
    LoadImm,
    /// `7XNN`: `VX += NN`, wrapping, flags untouched.
    AddImm,
    /// `8XY0`: `VX = VY`.
    Move,
    /// `8XY1`: `VX |= VY`.
    Or,
    /// `8XY2`: `VX &= VY`.
    And,
    /// `8XY3`: `VX ^= VY`.
    Xor,
    /// `8XY4`: `VX += VY`, `VF` = carry.
    AddReg,
    /// `8XY5`: `VX -= VY`, `VF` = borrow.
    SubReg,
    /// `8XY6`: `VX = VY >> 1`, `VF` = least significant bit of `VY`.
    ShiftRight,
    /// `8XY7`: `VX = VY - VX`, `VF` = borrow.
    SubReversed,
    /// `8XYE`: `VX = VY << 1`, `VF` = least significant bit of `VY`.
    ShiftLeft,
    /// `9XY0`: skips the next instruction if `VX != VY`.
    SkipNeReg,
    /// `ANNN`: `I = NNN`.
    SetIndex,
    /// `BNNN`: jumps to `NNN + V0`.
    JumpOffset,
    /// `CXNN`: `VX` = a random byte masked with `NN`.
    Random,
    /// `DXYN`: drawing; has no effect in this machine.
    Draw,
    /// `EX9E`: skips the next instruction if the key in `VX` is pressed.
    SkipKeyPressed,
    /// `EXA1`: skips the next instruction if the key in `VX` is a key and is not pressed.
    SkipKeyReleased,
    /// `FX07`: `VX` = delay timer.
    GetDelay,
    /// `FX0A`: waits for a key press and stores the key in `VX`.
    WaitKey,
}

/// Which instruction a word encodes; `None` for the words the machine does not implement.
pub open spec fn decode(bits: u16) -> Option<OpKind> {
    let a = first_nibble(bits);
    let b = second_nibble(bits);
    let c = third_nibble(bits);
    let d = fourth_nibble(bits);
    if a == 0x0 && b == 0x0 && c == 0x0 && d == 0x0 {
        Some(OpKind::Nop)
    } else if a == 0x0 && b == 0x0 && c == 0xE && d == 0x0 {
        Some(OpKind::ClearScreen)
    } else if a == 0x0 && b == 0x0 && c == 0xE && d == 0xE {
        Some(OpKind::Return)
    } else if a == 0x1 {
        Some(OpKind::Jump)
    } else if a == 0x2 {
        Some(OpKind::Call)
    } else if a == 0x3 {
        Some(OpKind::SkipEqImm)
    } else if a == 0x4 {
        Some(OpKind::SkipNeImm)
    } else if a == 0x5 && d == 0x0 {
        Some(OpKind::SkipEqReg)
    } else if a == 0x6 {
        Some(OpKind::LoadImm)
    } else if a == 0x7 {
        Some(OpKind::AddImm)
    } else if a == 0x8 && d == 0x0 {
        Some(OpKind::Move)
    } else if a == 0x8 && d == 0x1 {
        Some(OpKind::Or)
    } else if a == 0x8 && d == 0x2 {
        Some(OpKind::And)
    } else if a == 0x8 && d == 0x3 {
        Some(OpKind::Xor)
    } else if a == 0x8 && d == 0x4 {
        Some(OpKind::AddReg)
    } else if a == 0x8 && d == 0x5 {
        Some(OpKind::SubReg)
    } else if a == 0x8 && d == 0x6 {
        Some(OpKind::ShiftRight)
    } else if a == 0x8 && d == 0x7 {
        Some(OpKind::SubReversed)
    } else if a == 0x8 && d == 0xE {
        Some(OpKind::ShiftLeft)
    } else if a == 0x9 && d == 0x0 {
        Some(OpKind::SkipNeReg)
    } else if a == 0xA {
        Some(OpKind::SetIndex)
    } else if a == 0xB {
        Some(OpKind::JumpOffset)
    } else if a == 0xC {
        Some(OpKind::Random)
    } else if a == 0xD {
        Some(OpKind::Draw)
    } else if a == 0xE && c == 0x9 && d == 0xE {
        Some(OpKind::SkipKeyPressed)
    } else if a == 0xE && c == 0xA && d == 0x1 {
        Some(OpKind::SkipKeyReleased)
    } else if a == 0xF && c == 0x0 && d == 0x7 {
        Some(OpKind::GetDelay)
    } else if a == 0xF && c == 0x0 && d == 0xA {
        Some(OpKind::WaitKey)
    } else {
        None
    }
}

/// The register named by the second hex digit.
pub open spec fn reg_x(bits: u16) -> int {
    second_nibble(bits) as int
}

/// The register named by the third hex digit.
pub open spec fn reg_y(bits: u16) -> int {
    third_nibble(bits) as int
}

/// `k` is a pressed key and no key below it is pressed.
pub open spec fn is_first_pressed(keys: Seq<bool>, k: int) -> bool {
    &&& 0 <= k < keys.len()
    &&& keys[k]
    &&& forall|j: int| 0 <= j < k ==> !keys[j]
}

/// The lowest pressed key, if any key is pressed.
pub open spec fn first_pressed(keys: Seq<bool>) -> Option<int> {
    if exists|k: int| is_first_pressed(keys, k) {
        Some(choose|k: int| is_first_pressed(keys, k))
    } else {
        None
    }
}

/// The state the machine starts in: everything zero, nothing lit, `pc` at the program start.
pub open spec fn initial_state() -> Chip8State {
    Chip8State {
        screen: Seq::new(SCREEN_SIZE as nat, |k: int| false),
        pc: PC_START_ADDR,
        v_reg: Seq::new(NUM_REGS as nat, |k: int| 0u8),
        i_reg: 0,
        sp: 0,
        stack: Seq::new(STACK_SIZE as nat, |k: int| 0u16),
        ram: Seq::new(RAM_SIZE as nat, |k: int| 0u8),
        dt: 0,
        st: 0,
        keys: Seq::new(NUM_KEYS as nat, |k: int| false),
    }
}

/// Memory after `data` was copied to the program start; the rest is kept.
pub open spec fn loaded_ram(ram: Seq<u8>, data: Seq<u8>) -> Seq<u8> {
    Seq::new(
        ram.len(),
        |k: int|
            if PC_START_ADDR <= k < PC_START_ADDR + data.len() {
                data[k - PC_START_ADDR]
            } else {
                ram[k]
            },
    )
}

impl Chip8State {
    /// Every sequence has the size of its hardware counterpart, and the
    /// stack pointer stays within the stack.
    pub open spec fn wf(self) -> bool {
        &&& self.screen.len() == SCREEN_SIZE
        &&& self.v_reg.len() == NUM_REGS
        &&& self.stack.len() == STACK_SIZE
        &&& self.ram.len() == RAM_SIZE
        &&& self.keys.len() == NUM_KEYS
        &&& self.sp <= STACK_SIZE
    }

    /// The same state with `VX` set to `val`.
    pub open spec fn set_reg(self, x: int, val: u8) -> Chip8State {
        Chip8State { v_reg: self.v_reg.update(x, val), ..self }
    }

    /// The same state with `VX` set to `val` and then `VF` set to `flag`.
    pub open spec fn set_reg_and_flag(self, x: int, val: u8, flag: u8) -> Chip8State {
        Chip8State { v_reg: self.v_reg.update(x, val).update(FLAG_REG as int, flag), ..self }
    }

    /// Skips the next instruction (two bytes) when `cond` holds.
    pub open spec fn skip_if(self, cond: bool) -> Chip8State {
        if cond {
            Chip8State { pc: (self.pc + 2) as u16, ..self }
        } else {
            self
        }
    }

    /// The instruction word at `pc`, big-endian.
    pub open spec fn fetch_word(self) -> u16 {
        (self.ram[self.pc as int] * 0x100 + self.ram[self.pc + 1]) as u16
    }

    /// The state once the instruction at `pc` has been fetched.
    pub open spec fn advance_pc(self) -> Chip8State {
        Chip8State { pc: (self.pc + 2) as u16, ..self }
    }

    /// The stack can take what the instruction does to it.
    pub open spec fn stack_allows(self, op: OpKind) -> bool {
        match op {
            OpKind::Return => 1 <= self.sp <= STACK_SIZE,
            OpKind::Call => self.sp < STACK_SIZE,
            _ => true,
        }
    }

    /// Whether a conditional skip instruction skips, in this state.
    pub open spec fn skip_taken(self, op: OpKind, bits: u16) -> bool {
        let vx = self.v_reg[reg_x(bits)];
        let vy = self.v_reg[reg_y(bits)];
        match op {
            OpKind::SkipEqImm => vx == low_byte(bits),
            OpKind::SkipNeImm => vx != low_byte(bits),
            OpKind::SkipEqReg => vx == vy,
            OpKind::SkipNeReg => vx != vy,
            OpKind::SkipKeyPressed => vx < NUM_KEYS && self.keys[vx as int],
            OpKind::SkipKeyReleased => vx < NUM_KEYS && !self.keys[vx as int],
            _ => false,
        }
    }

    /// The 16-bit program counter can take what the instruction does to it:
    /// a skip that is taken moves it forward by 2, and `FX0A` with no key
    /// pressed moves it back by 2.
    pub open spec fn pc_allows(self, op: OpKind, bits: u16) -> bool {
        &&& self.skip_taken(op, bits) ==> self.pc <= 0xFFFD
        &&& (op == OpKind::WaitKey && first_pressed(self.keys) is None) ==> self.pc >= 2
    }

    /// Executing `bits` cannot fail: it encodes an implemented instruction,
    /// and the stack and the program counter can take it.
    pub open spec fn can_execute(self, bits: u16) -> bool {
        &&& decode(bits) matches Some(op)
        &&& self.stack_allows(op)
        &&& self.pc_allows(op, bits)
    }

    /// A tick can run from this state: the word at `pc` lies in memory and
    /// can be executed once `pc` has moved past it.
    pub open spec fn can_tick(self) -> bool {
        &&& self.pc + 1 < RAM_SIZE
        &&& self.advance_pc().can_execute(self.fetch_word())
    }

    /// `00E0`: every pixel off.
    pub open spec fn clear_screen(self) -> Chip8State {
        Chip8State { screen: Seq::new(SCREEN_SIZE as nat, |k: int| false), ..self }
    }

    /// `00EE`: pop the return address into `pc`.
    pub open spec fn return_from(self) -> Chip8State {
        Chip8State { sp: (self.sp - 1) as u8, pc: self.stack[self.sp - 1], ..self }
    }

    /// `1NNN`: `pc = NNN`.
    pub open spec fn jump(self, bits: u16) -> Chip8State {
        Chip8State { pc: low_twelve(bits), ..self }
    }

    /// `2NNN`: push `pc`, then `pc = NNN`.
    pub open spec fn call(self, bits: u16) -> Chip8State {
        Chip8State {
            stack: self.stack.update(self.sp as int, self.pc),
            sp: (self.sp + 1) as u8,
            pc: low_twelve(bits),
            ..self
        }
    }

    /// `8XY4`: `VX = VX + VY` wrapping, then `VF` = 1 on overflow, else 0.
    pub open spec fn add_reg(self, bits: u16) -> Chip8State {
        let vx = self.v_reg[reg_x(bits)];
        let vy = self.v_reg[reg_y(bits)];
        self.set_reg_and_flag(
            reg_x(bits),
            ((vx + vy) % 0x100) as u8,
            if vx + vy > 0xFF { 1 } else { 0 },
        )
    }

    /// `8XY5`: `VX = VX - VY` wrapping, then `VF` = 1 on borrow, else 0.
    pub open spec fn sub_reg(self, bits: u16) -> Chip8State {
        let vx = self.v_reg[reg_x(bits)];
        let vy = self.v_reg[reg_y(bits)];
        self.set_reg_and_flag(reg_x(bits), ((vx - vy) % 0x100) as u8, if vx < vy { 1 } else { 0 })
    }

    /// `8XY7`: `VX = VY - VX` wrapping, then `VF` = 1 on borrow, else 0.
    pub open spec fn sub_reversed(self, bits: u16) -> Chip8State {
        let vx = self.v_reg[reg_x(bits)];
        let vy = self.v_reg[reg_y(bits)];
        self.set_reg_and_flag(reg_x(bits), ((vy - vx) % 0x100) as u8, if vy < vx { 1 } else { 0 })
    }

    /// `8XY6`: `VX = VY >> 1`, then `VF` = the least significant bit of `VY`.
    pub open spec fn shift_right(self, bits: u16) -> Chip8State {
        let vy = self.v_reg[reg_y(bits)];
        self.set_reg_and_flag(reg_x(bits), vy / 2, vy % 2)
    }

    /// `8XYE`: `VX = VY << 1` (the top bit is dropped), then `VF` = the least
    /// significant bit of `VY`.
    pub open spec fn shift_left(self, bits: u16) -> Chip8State {
        let vy = self.v_reg[reg_y(bits)];
        self.set_reg_and_flag(reg_x(bits), ((vy * 2) % 0x100) as u8, vy % 2)
    }

    /// `BNNN`: `pc = NNN + V0`.
    pub open spec fn jump_offset(self, bits: u16) -> Chip8State {
        Chip8State { pc: (low_twelve(bits) + self.v_reg[0]) as u16, ..self }
    }

    /// `FX0A`: `VX` = the lowest pressed key; with no key pressed, `pc` goes
    /// back by 2 so that the instruction runs again.
    pub open spec fn wait_key(self, bits: u16) -> Chip8State {
        match first_pressed(self.keys) {
            Some(k) => self.set_reg(reg_x(bits), k as u8),
            None => Chip8State { pc: (self.pc - 2) as u16, ..self },
        }
    }

    /// What executing `bits` does, the random byte being `random` (only `CXNN` reads it).
    pub open spec fn execute(self, bits: u16, random: u8) -> Chip8State {
        let x = reg_x(bits);
        let y = reg_y(bits);
        let vx = self.v_reg[x];
        let vy = self.v_reg[y];
        match decode(bits) {
            Some(OpKind::Nop) => self,
            Some(OpKind::ClearScreen) => self.clear_screen(),
            Some(OpKind::Return) => self.return_from(),
            Some(OpKind::Jump) => self.jump(bits),
            Some(OpKind::Call) => self.call(bits),
            Some(OpKind::SkipEqImm) => self.skip_if(self.skip_taken(OpKind::SkipEqImm, bits)),
            Some(OpKind::SkipNeImm) => self.skip_if(self.skip_taken(OpKind::SkipNeImm, bits)),
            Some(OpKind::SkipEqReg) => self.skip_if(self.skip_taken(OpKind::SkipEqReg, bits)),
            Some(OpKind::LoadImm) => self.set_reg(x, low_byte(bits)),
            Some(OpKind::AddImm) => self.set_reg(x, ((vx + low_byte(bits)) % 0x100) as u8),
            Some(OpKind::Move) => self.set_reg(x, vy),
            Some(OpKind::Or) => self.set_reg(x, vx | vy),
            Some(OpKind::And) => self.set_reg(x, vx & vy),
            Some(OpKind::Xor) => self.set_reg(x, vx ^ vy),
            Some(OpKind::AddReg) => self.add_reg(bits),
            Some(OpKind::SubReg) => self.sub_reg(bits),
            Some(OpKind::ShiftRight) => self.shift_right(bits),
            Some(OpKind::SubReversed) => self.sub_reversed(bits),
            Some(OpKind::ShiftLeft) => self.shift_left(bits),
            Some(OpKind::SkipNeReg) => self.skip_if(self.skip_taken(OpKind::SkipNeReg, bits)),
            Some(OpKind::SetIndex) => Chip8State { i_reg: low_twelve(bits), ..self },
            Some(OpKind::JumpOffset) => self.jump_offset(bits),
            Some(OpKind::Random) => self.set_reg(x, random & low_byte(bits)),
            Some(OpKind::Draw) => self,
            Some(OpKind::SkipKeyPressed) => self.skip_if(
                self.skip_taken(OpKind::SkipKeyPressed, bits),
            ),
            Some(OpKind::SkipKeyReleased) => self.skip_if(
                self.skip_taken(OpKind::SkipKeyReleased, bits),
            ),
            Some(OpKind::GetDelay) => self.set_reg(x, self.dt),
            Some(OpKind::WaitKey) => self.wait_key(bits),
            None => self,
        }
    }

    /// One tick: fetch the word at `pc`, move `pc` past it, execute it.
    pub open spec fn step(self, random: u8) -> Chip8State {
        self.advance_pc().execute(self.fetch_word(), random)
    }
}

} // verus!

verus! {

/// Decodes an instruction word: which instruction it is, or `None` for a
/// word the machine does not implement.
pub fn decode_instr(instr: &Chip8Instr) -> (r: Option<OpKind>)
    ensures
        r == decode(instr.bits),
{
    match (instr.first(), instr.second(), instr.third(), instr.fourth()) {
        (0x0, 0x0, 0x0, 0x0) => Some(OpKind::Nop),
        (0x0, 0x0, 0xE, 0x0) => Some(OpKind::ClearScreen),
        (0x0, 0x0, 0xE, 0xE) => Some(OpKind::Return),
        (0x1, _, _, _) => Some(OpKind::Jump),
        (0x2, _, _, _) => Some(OpKind::Call),
        (0x3, _, _, _) => Some(OpKind::SkipEqImm),
        (0x4, _, _, _) => Some(OpKind::SkipNeImm),
        (0x5, _, _, 0x0) => Some(OpKind::SkipEqReg),
        (0x6, _, _, _) => Some(OpKind::LoadImm),
        (0x7, _, _, _) => Some(OpKind::AddImm),
        (0x8, _, _, 0x0) => Some(OpKind::Move),
        (0x8, _, _, 0x1) => Some(OpKind::Or),
        (0x8, _, _, 0x2) => Some(OpKind::And),
        (0x8, _, _, 0x3) => Some(OpKind::Xor),
        (0x8, _, _, 0x4) => Some(OpKind::AddReg),
        (0x8, _, _, 0x5) => Some(OpKind::SubReg),
        (0x8, _, _, 0x6) => Some(OpKind::ShiftRight),
        (0x8, _, _, 0x7) => Some(OpKind::SubReversed),
        (0x8, _, _, 0xE) => Some(OpKind::ShiftLeft),
        (0x9, _, _, 0x0) => Some(OpKind::SkipNeReg),
        (0xA, _, _, _) => Some(OpKind::SetIndex),
        (0xB, _, _, _) => Some(OpKind::JumpOffset),
        (0xC, _, _, _) => Some(OpKind::Random),
        (0xD, _, _, _) => Some(OpKind::Draw),
        (0xE, _, 0x9, 0xE) => Some(OpKind::SkipKeyPressed),
        (0xE, _, 0xA, 0x1) => Some(OpKind::SkipKeyReleased),
        (0xF, _, 0x0, 0x7) => Some(OpKind::GetDelay),
        (0xF, _, 0x0, 0xA) => Some(OpKind::WaitKey),
        _ => None,
    }
}

} // verus!

verus! {

/// Only `CXNN` reads the random byte: every other word has one outcome.
pub proof fn lemma_execute_ignores_random(s: Chip8State, bits: u16, r1: u8, r2: u8)
    requires
        first_nibble(bits) != 0xC,
    ensures
        s.execute(bits, r1) == s.execute(bits, r2),
{
}

} // verus!
