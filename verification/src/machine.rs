//! The machine: its state, and the fetch and execution of instructions.

use vstd::prelude::*;

use crate::chip8_instr::{Chip8Instr, first_nibble, low_byte, low_twelve};
use crate::laws::lemma_step_preserves_wf;
use crate::rng::random_byte;
use crate::semantics::{
    decode, decode_instr, first_pressed, initial_state, is_first_pressed,
    lemma_execute_ignores_random, loaded_ram, reg_x, reg_y, Chip8State, OpKind,
};
use crate::{
    FLAG_REG, NUM_KEYS, NUM_REGS, PC_START_ADDR, RAM_SIZE, SCREEN_SIZE, STACK_SIZE,
};

verus! {

/// The call stack: return addresses, and how many of them it holds.
struct CallStack {
    /// Number of return addresses held (the first unused slot).
    sp: u8,
    stack: [u16; STACK_SIZE],
}

impl CallStack {
    /// The stack pointer never leaves the stack.
    #[verifier::type_invariant]
    spec fn sp_in_stack(self) -> bool {
        self.sp <= STACK_SIZE
    }
}

/// A CHIP-8 machine.
pub struct Chip8 {
    /// Each pixel is either on (`true`, white) or off (`false`, black).
    pub screen: [bool; SCREEN_SIZE],
    pc: u16,
    /// The registers `V0` to `VF`.
    v_reg: [u8; NUM_REGS],
    /// The index register.
    i_reg: u16,
    calls: CallStack,
    ram: [u8; RAM_SIZE],
    /// Delay timer.
    dt: u8,
    /// Sound timer.
    st: u8,
    /// Which keys of the keypad are pressed.
    keys: [bool; NUM_KEYS],
}

impl View for Chip8 {
    type V = Chip8State;

    closed spec fn view(&self) -> Chip8State {
        Chip8State {
            screen: self.screen@,
            pc: self.pc,
            v_reg: self.v_reg@,
            i_reg: self.i_reg,
            sp: self.calls.sp,
            stack: self.calls.stack@,
            ram: self.ram@,
            dt: self.dt,
            st: self.st,
            keys: self.keys@,
        }
    }
}

impl Chip8 {
    /// Every machine's memory, screen, registers, stack and keypad have
    /// their hardware sizes.
    pub proof fn lemma_view_sizes(&self)
        ensures
            self@.screen.len() == SCREEN_SIZE,
            self@.v_reg.len() == NUM_REGS,
            self@.stack.len() == STACK_SIZE,
            self@.ram.len() == RAM_SIZE,
            self@.keys.len() == NUM_KEYS,
    {
    }

    /// A machine in its initial state.
    pub fn new() -> (c: Self)
        ensures
            c@ == initial_state(),
            c@.wf(),
    {
        let c = Self {
            pc: PC_START_ADDR,
            v_reg: [0u8; NUM_REGS],
            i_reg: 0,
            calls: CallStack { sp: 0, stack: [0u16; STACK_SIZE] },
            ram: [0u8; RAM_SIZE],
            screen: [false; SCREEN_SIZE],
            dt: 0,
            st: 0,
            keys: [false; NUM_KEYS],
        };
        assert(c@.screen =~= initial_state().screen);
        assert(c@.v_reg =~= initial_state().v_reg);
        assert(c@.stack =~= initial_state().stack);
        assert(c@.ram =~= initial_state().ram);
        assert(c@.keys =~= initial_state().keys);
        c
    }

    // Stack

    fn stack_push(&mut self, addr: u16)
        requires
            old(self)@.sp < STACK_SIZE,
        ensures
            final(self)@ == (Chip8State {
                stack: old(self)@.stack.update(old(self)@.sp as int, addr),
                sp: (old(self)@.sp + 1) as u8,
                ..old(self)@
            }),
    {
        self.calls.stack[self.calls.sp as usize] = addr;
        self.calls.sp = self.calls.sp + 1;
    }

    fn stack_pop(&mut self) -> (addr: u16)
        requires
            1 <= old(self)@.sp,
        ensures
            addr == old(self)@.stack[old(self)@.sp - 1],
            final(self)@ == (Chip8State { sp: (old(self)@.sp - 1) as u8, ..old(self)@ }),
    {
        proof {
            use_type_invariant(&self.calls);
        }
        self.calls.sp = self.calls.sp - 1;
        self.calls.stack[self.calls.sp as usize]
    }

    // Instructions

    /// CLS
    fn op_00e0(&mut self, _instr: Chip8Instr)
        ensures
            final(self)@ == old(self)@.clear_screen(),
    {
        self.screen = [false; SCREEN_SIZE];
        assert(self@.screen =~= old(self)@.clear_screen().screen);
    }

    /// RET
    fn op_00ee(&mut self, _instr: Chip8Instr)
        requires
            1 <= old(self)@.sp,
        ensures
            final(self)@ == old(self)@.return_from(),
    {
        self.pc = self.stack_pop();
    }

    /// JMP
    fn op_1nnn(&mut self, instr: Chip8Instr)
        ensures
            final(self)@ == old(self)@.jump(instr.bits),
    {
        let nnn = instr.nnn();
        assert(nnn < 0x1000 ==> nnn & 0x0FFF == nnn) by (bit_vector);
        self.pc = nnn & 0x0FFF;
    }

    /// JAL
    fn op_2nnn(&mut self, instr: Chip8Instr)
        requires
            old(self)@.sp < STACK_SIZE,
        ensures
            final(self)@ == old(self)@.call(instr.bits),
    {
        // The return address is the current pc, which already points past this instruction.
        self.stack_push(self.pc);
        self.op_1nnn(instr);
    }

    /// SEQI: skip the following instruction if `VX == NN`.
    fn op_3xnn(&mut self, instr: Chip8Instr)
        requires
            old(self)@.skip_taken(OpKind::SkipEqImm, instr.bits) ==> old(self)@.pc <= 0xFFFD,
        ensures
            final(self)@ == old(self)@.skip_if(old(self)@.skip_taken(OpKind::SkipEqImm, instr.bits)),
    {
        if self.v_reg[instr.reg_x()] == instr.nn() {
            self.pc += 2;
        }
    }

    /// SNEI: skip the following instruction if `VX != NN`.
    fn op_4xnn(&mut self, instr: Chip8Instr)
        requires
            old(self)@.skip_taken(OpKind::SkipNeImm, instr.bits) ==> old(self)@.pc <= 0xFFFD,
        ensures
            final(self)@ == old(self)@.skip_if(old(self)@.skip_taken(OpKind::SkipNeImm, instr.bits)),
    {
        if self.v_reg[instr.reg_x()] != instr.nn() {
            self.pc += 2;
        }
    }

    /// SEQ: skip the following instruction if `VX == VY`.
    fn op_5xy0(&mut self, instr: Chip8Instr)
        requires
            old(self)@.skip_taken(OpKind::SkipEqReg, instr.bits) ==> old(self)@.pc <= 0xFFFD,
        ensures
            final(self)@ == old(self)@.skip_if(old(self)@.skip_taken(OpKind::SkipEqReg, instr.bits)),
    {
        if self.v_reg[instr.reg_x()] == self.v_reg[instr.reg_y()] {
            self.pc += 2;
        }
    }

    /// LI: `VX = NN`.
    fn op_6xnn(&mut self, instr: Chip8Instr)
        ensures
            final(self)@ == old(self)@.set_reg(reg_x(instr.bits), low_byte(instr.bits)),
    {
        self.v_reg[instr.reg_x()] = instr.nn();
    }

    /// ADDI: `VX = VX + NN`, wrapping; the flag register is left alone.
    fn op_7xnn(&mut self, instr: Chip8Instr)
        ensures
            final(self)@ == old(self)@.set_reg(
                reg_x(instr.bits),
                ((old(self)@.v_reg[reg_x(instr.bits)] + low_byte(instr.bits)) % 0x100) as u8,
            ),
    {
        let x = instr.reg_x();
        let sum = self.v_reg[x].wrapping_add(instr.nn());
        self.v_reg[x] = sum;
    }

    /// MV: `VX = VY`.
    fn op_8xy0(&mut self, instr: Chip8Instr)
        ensures
            final(self)@ == old(self)@.set_reg(
                reg_x(instr.bits),
                old(self)@.v_reg[reg_y(instr.bits)],
            ),
    {
        let y = self.v_reg[instr.reg_y()];
        self.v_reg[instr.reg_x()] = y;
    }

    /// SEOR: `VX = VX | VY`.
    fn op_8xy1(&mut self, instr: Chip8Instr)
        ensures
            final(self)@ == old(self)@.set_reg(
                reg_x(instr.bits),
                old(self)@.v_reg[reg_x(instr.bits)] | old(self)@.v_reg[reg_y(instr.bits)],
            ),
    {
        let x = instr.reg_x();
        let val = self.v_reg[x] | self.v_reg[instr.reg_y()];
        self.v_reg[x] = val;
    }

    /// SEAND: `VX = VX & VY`.
    fn op_8xy2(&mut self, instr: Chip8Instr)
        ensures
            final(self)@ == old(self)@.set_reg(
                reg_x(instr.bits),
                old(self)@.v_reg[reg_x(instr.bits)] & old(self)@.v_reg[reg_y(instr.bits)],
            ),
    {
        let x = instr.reg_x();
        let val = self.v_reg[x] & self.v_reg[instr.reg_y()];
        self.v_reg[x] = val;
    }

    /// SEXOR: `VX = VX ^ VY`.
    fn op_8xy3(&mut self, instr: Chip8Instr)
        ensures
            final(self)@ == old(self)@.set_reg(
                reg_x(instr.bits),
                old(self)@.v_reg[reg_x(instr.bits)] ^ old(self)@.v_reg[reg_y(instr.bits)],
            ),
    {
        let x = instr.reg_x();
        let val = self.v_reg[x] ^ self.v_reg[instr.reg_y()];
        self.v_reg[x] = val;
    }

    /// ADD: `VX = VX + VY`; `VF` is set to 1 on overflow, else 0.
    fn op_8xy4(&mut self, instr: Chip8Instr)
        ensures
            final(self)@ == old(self)@.add_reg(instr.bits),
    {
        let x = instr.reg_x();
        let vx = self.v_reg[x];
        let vy = self.v_reg[instr.reg_y()];
        let (result, overflow) = match vx.checked_add(vy) {
            Some(sum) => (sum, false),
            None => (vx.wrapping_add(vy), true),
        };
        self.v_reg[x] = result;
        self.v_reg[FLAG_REG] = if overflow { 1 } else { 0 };
    }

    /// SUB: `VX = VX - VY`; `VF` is set to 1 on overflow (borrow), else 0.
    fn op_8xy5(&mut self, instr: Chip8Instr)
        ensures
            final(self)@ == old(self)@.sub_reg(instr.bits),
    {
        let x = instr.reg_x();
        let vx = self.v_reg[x];
        let vy = self.v_reg[instr.reg_y()];
        let (result, overflow) = match vx.checked_sub(vy) {
            Some(diff) => (diff, false),
            None => (vx.wrapping_sub(vy), true),
        };
        self.v_reg[x] = result;
        self.v_reg[FLAG_REG] = if overflow { 1 } else { 0 };
    }

    /// SRL: `VX = VY >> 1`; `VF` = the least significant bit of `VY`.
    fn op_8xy6(&mut self, instr: Chip8Instr)
        ensures
            final(self)@ == old(self)@.shift_right(instr.bits),
    {
        let vy = self.v_reg[instr.reg_y()];
        assert(vy >> 1 == vy / 2) by (bit_vector);
        assert(vy & 1 == vy % 2) by (bit_vector);
        self.v_reg[instr.reg_x()] = vy >> 1;
        self.v_reg[FLAG_REG] = vy & 1;
    }

    /// SUB2: `VX = VY - VX`; `VF` is set to 1 on overflow (borrow), else 0.
    fn op_8xy7(&mut self, instr: Chip8Instr)
        ensures
            final(self)@ == old(self)@.sub_reversed(instr.bits),
    {
        let x = instr.reg_x();
        let vx = self.v_reg[x];
        let vy = self.v_reg[instr.reg_y()];
        let (result, overflow) = match vy.checked_sub(vx) {
            Some(diff) => (diff, false),
            None => (vy.wrapping_sub(vx), true),
        };
        self.v_reg[x] = result;
        self.v_reg[FLAG_REG] = if overflow { 1 } else { 0 };
    }

    /// SLL: `VX = VY << 1`; `VF` = the least significant bit of `VY`.
    fn op_8xye(&mut self, instr: Chip8Instr)
        ensures
            final(self)@ == old(self)@.shift_left(instr.bits),
    {
        let vy = self.v_reg[instr.reg_y()];
        assert((vy << 1u8) as int == (vy * 2) % 0x100) by (bit_vector);
        assert(vy & 1 == vy % 2) by (bit_vector);
        self.v_reg[instr.reg_x()] = vy << 1u8;
        self.v_reg[FLAG_REG] = vy & 1;
    }

    /// SNE: skip the following instruction if `VX != VY`.
    fn op_9xy0(&mut self, instr: Chip8Instr)
        requires
            old(self)@.skip_taken(OpKind::SkipNeReg, instr.bits) ==> old(self)@.pc <= 0xFFFD,
        ensures
            final(self)@ == old(self)@.skip_if(old(self)@.skip_taken(OpKind::SkipNeReg, instr.bits)),
    {
        if self.v_reg[instr.reg_x()] != self.v_reg[instr.reg_y()] {
            self.pc += 2;
        }
    }

    /// SMI: `I = NNN`.
    fn op_annn(&mut self, instr: Chip8Instr)
        ensures
            final(self)@ == (Chip8State { i_reg: low_twelve(instr.bits), ..old(self)@ }),
    {
        self.i_reg = instr.nnn();
    }

    /// LJMP: `pc = NNN + V0`.
    fn op_bnnn(&mut self, instr: Chip8Instr)
        ensures
            final(self)@ == old(self)@.jump_offset(instr.bits),
    {
        self.pc = instr.nnn() + self.v_reg[0] as u16;
    }

    /// SRND: `VX` = a random byte masked with `NN`.
    fn op_cxnn(&mut self, instr: Chip8Instr)
        ensures
            exists|r: u8|
                final(self)@ == old(self)@.set_reg(reg_x(instr.bits), r & low_byte(instr.bits)),
    {
        let random = random_byte();
        self.set_masked_random(instr, random);
    }

    /// The rest of SRND once the random byte is known: `VX = random & NN`.
    fn set_masked_random(&mut self, instr: Chip8Instr, random: u8)
        ensures
            final(self)@ == old(self)@.set_reg(reg_x(instr.bits), random & low_byte(instr.bits)),
    {
        self.v_reg[instr.reg_x()] = random & instr.nn();
    }

    /// DSPR: drawing is not done; the machine is left as it is.
    fn op_dxyn(&mut self, _instr: Chip8Instr)
        ensures
            final(self)@ == old(self)@,
    {
    }

    /// SKP: skip the next instruction if the key in `VX` is pressed.
    fn op_ex9e(&mut self, instr: Chip8Instr)
        requires
            old(self)@.skip_taken(OpKind::SkipKeyPressed, instr.bits) ==> old(self)@.pc <= 0xFFFD,
        ensures
            final(self)@ == old(self)@.skip_if(
                old(self)@.skip_taken(OpKind::SkipKeyPressed, instr.bits),
            ),
    {
        let key_code = self.v_reg[instr.reg_x()] as usize;
        if key_code < NUM_KEYS && self.keys[key_code] {
            self.pc += 2;
        }
    }

    /// SKNP: skip the next instruction if the key in `VX` is a key and is not pressed.
    fn op_exa1(&mut self, instr: Chip8Instr)
        requires
            old(self)@.skip_taken(OpKind::SkipKeyReleased, instr.bits) ==> old(self)@.pc <= 0xFFFD,
        ensures
            final(self)@ == old(self)@.skip_if(
                old(self)@.skip_taken(OpKind::SkipKeyReleased, instr.bits),
            ),
    {
        let key_code = self.v_reg[instr.reg_x()] as usize;
        if key_code < NUM_KEYS && !self.keys[key_code] {
            self.pc += 2;
        }
    }

    /// SDT: `VX` = delay timer.
    fn op_fx07(&mut self, instr: Chip8Instr)
        ensures
            final(self)@ == old(self)@.set_reg(reg_x(instr.bits), old(self)@.dt),
    {
        self.v_reg[instr.reg_x()] = self.dt;
    }

    /// WKP: store the lowest pressed key in `VX`; with no key pressed, step
    /// `pc` back so that this instruction runs again.
    fn op_fx0a(&mut self, instr: Chip8Instr)
        requires
            first_pressed(old(self)@.keys) is None ==> old(self)@.pc >= 2,
        ensures
            final(self)@ == old(self)@.wait_key(instr.bits),
    {
        let pressed_key = first_pressed_key(&self.keys);
        match pressed_key {
            Some(k) => {
                self.v_reg[instr.reg_x()] = k as u8;
            },
            None => {
                self.pc -= 2;
            },
        }
    }

    // Instruction handling

    /// Reads the big-endian word at `pc` and moves `pc` past it.
    fn fetch(&mut self) -> (instr: Chip8Instr)
        requires
            old(self)@.pc + 1 < RAM_SIZE,
        ensures
            instr.bits == old(self)@.fetch_word(),
            final(self)@ == old(self)@.advance_pc(),
    {
        let hi = self.ram[self.pc as usize];
        let lo = self.ram[self.pc as usize + 1];
        assert(((hi as u16) << 8u16) | (lo as u16) == hi as u16 * 0x100 + lo as u16) by (bit_vector);
        let instr = ((hi as u16) << 8u16) | (lo as u16);
        self.pc += 2;
        Chip8Instr { bits: instr }
    }

    /// Executes one instruction (with `pc` already past it).
    fn execute(&mut self, instr: Chip8Instr)
        requires
            old(self)@.can_execute(instr.bits),
        ensures
            exists|r: u8| final(self)@ == old(self)@.execute(instr.bits, r),
    {
        let ghost bits = instr.bits;
        match decode_instr(&instr) {
            Some(OpKind::Nop) => {},
            Some(OpKind::ClearScreen) => self.op_00e0(instr),
            Some(OpKind::Return) => self.op_00ee(instr),
            Some(OpKind::Jump) => self.op_1nnn(instr),
            Some(OpKind::Call) => self.op_2nnn(instr),
            Some(OpKind::SkipEqImm) => self.op_3xnn(instr),
            Some(OpKind::SkipNeImm) => self.op_4xnn(instr),
            Some(OpKind::SkipEqReg) => self.op_5xy0(instr),
            Some(OpKind::LoadImm) => self.op_6xnn(instr),
            Some(OpKind::AddImm) => self.op_7xnn(instr),
            Some(OpKind::Move) => self.op_8xy0(instr),
            Some(OpKind::Or) => self.op_8xy1(instr),
            Some(OpKind::And) => self.op_8xy2(instr),
            Some(OpKind::Xor) => self.op_8xy3(instr),
            Some(OpKind::AddReg) => self.op_8xy4(instr),
            Some(OpKind::SubReg) => self.op_8xy5(instr),
            Some(OpKind::ShiftRight) => self.op_8xy6(instr),
            Some(OpKind::SubReversed) => self.op_8xy7(instr),
            Some(OpKind::ShiftLeft) => self.op_8xye(instr),
            Some(OpKind::SkipNeReg) => self.op_9xy0(instr),
            Some(OpKind::SetIndex) => self.op_annn(instr),
            Some(OpKind::JumpOffset) => self.op_bnnn(instr),
            Some(OpKind::Random) => {
                self.op_cxnn(instr);
                proof {
                    let r = choose|r: u8|
                        self@ == old(self)@.set_reg(reg_x(bits), r & low_byte(bits));
                    assert(self@ == old(self)@.execute(bits, r));
                }
                return;
            },
            Some(OpKind::Draw) => self.op_dxyn(instr),
            Some(OpKind::SkipKeyPressed) => self.op_ex9e(instr),
            Some(OpKind::SkipKeyReleased) => self.op_exa1(instr),
            Some(OpKind::GetDelay) => self.op_fx07(instr),
            Some(OpKind::WaitKey) => self.op_fx0a(instr),
            None => {},
        }
        assert(self@ == old(self)@.execute(bits, 0));
    }

    /// One tick: fetches the instruction at `pc`, then decodes and executes it.
    /// Only `CXNN` draws a random byte; for every other instruction the
    /// result is `step` with any byte.
    pub fn tick(&mut self)
        requires
            old(self)@.can_tick(),
        ensures
            exists|r: u8| final(self)@ == old(self)@.step(r),
            first_nibble(old(self)@.fetch_word()) != 0xC ==> final(self)@ == old(self)@.step(0),
            final(self)@.wf(),
    {
        proof {
            use_type_invariant(&self.calls);
        }
        let instr = self.fetch();
        let ghost fetched = self@;
        let ghost bits = instr.bits;
        self.execute(instr);
        proof {
            let r = choose|r: u8| self@ == fetched.execute(bits, r);
            assert(self@ == old(self)@.step(r));
            if first_nibble(bits) != 0xC {
                lemma_execute_ignores_random(fetched, bits, r, 0);
            }
            lemma_step_preserves_wf(old(self)@, r);
        }
    }

    /// One tick, with `random` as the byte that `CXNN` would draw.
    pub fn tick_with_random(&mut self, random: u8)
        requires
            old(self)@.can_tick(),
        ensures
            final(self)@ == old(self)@.step(random),
            final(self)@.wf(),
    {
        proof {
            use_type_invariant(&self.calls);
        }
        let instr = self.fetch();
        let ghost fetched = self@;
        let ghost bits = instr.bits;
        if instr.first() == 0xC {
            self.set_masked_random(instr, random);
        } else {
            self.execute(instr);
            proof {
                let r = choose|r: u8| self@ == fetched.execute(bits, r);
                lemma_execute_ignores_random(fetched, bits, r, random);
            }
        }
        proof {
            lemma_step_preserves_wf(old(self)@, random);
        }
    }

    /// Whether `tick` can run: the word at `pc` lies in memory, is an
    /// implemented instruction, and the stack can take it.
    pub fn can_tick(&self) -> (b: bool)
        ensures
            b == self@.can_tick(),
    {
        proof {
            use_type_invariant(&self.calls);
        }
        if self.pc as usize + 1 >= RAM_SIZE {
            return false;
        }
        let hi = self.ram[self.pc as usize];
        let lo = self.ram[self.pc as usize + 1];
        assert(((hi as u16) << 8u16) | (lo as u16) == hi as u16 * 0x100 + lo as u16) by (bit_vector);
        let instr = Chip8Instr { bits: ((hi as u16) << 8u16) | (lo as u16) };
        match decode_instr(&instr) {
            Some(OpKind::Return) => 1 <= self.calls.sp,
            Some(OpKind::Call) => (self.calls.sp as usize) < STACK_SIZE,
            Some(_) => true,
            None => false,
        }
    }

    /// Copies a program to memory at the program start; the rest of memory is kept.
    pub fn load(&mut self, data: &[u8])
        requires
            data@.len() <= RAM_SIZE - PC_START_ADDR,
        ensures
            final(self)@ == (Chip8State { ram: loaded_ram(old(self)@.ram, data@), ..old(self)@ }),
            final(self)@.wf(),
    {
        proof {
            use_type_invariant(&self.calls);
        }
        let start = PC_START_ADDR as usize;
        let mut ram = self.ram;
        let mut k: usize = 0;
        while k < data.len()
            invariant
                start == PC_START_ADDR,
                data@.len() <= RAM_SIZE - PC_START_ADDR,
                k <= data@.len(),
                forall|j: int|
                    0 <= j < RAM_SIZE ==> ram[j] == (if start <= j < start + k {
                        data@[j - start]
                    } else {
                        self.ram[j]
                    }),
            decreases data@.len() - k,
        {
            ram[start + k] = data[k];
            k += 1;
        }
        self.ram = ram;
        assert(self@.ram =~= loaded_ram(old(self)@.ram, data@));
    }

    // Reading the state

    /// The program counter.
    pub fn pc(&self) -> (r: u16)
        ensures
            r == self@.pc,
    {
        self.pc
    }

    /// Register `Vx`.
    pub fn register(&self, x: usize) -> (r: u8)
        requires
            x < NUM_REGS,
        ensures
            r == self@.v_reg[x as int],
    {
        self.v_reg[x]
    }

    /// The index register `I`.
    pub fn index_register(&self) -> (r: u16)
        ensures
            r == self@.i_reg,
    {
        self.i_reg
    }

    /// Number of return addresses on the stack.
    pub fn stack_pointer(&self) -> (r: u8)
        ensures
            r == self@.sp,
            r <= STACK_SIZE,
    {
        proof {
            use_type_invariant(&self.calls);
        }
        self.calls.sp
    }

    /// The byte of memory at `addr`.
    pub fn memory(&self, addr: usize) -> (r: u8)
        requires
            addr < RAM_SIZE,
        ensures
            r == self@.ram[addr as int],
    {
        self.ram[addr]
    }
}

/// The lowest pressed key, if any.
fn first_pressed_key(keys: &[bool; NUM_KEYS]) -> (r: Option<usize>)
    ensures
        match r {
            Some(k) => k < NUM_KEYS && first_pressed(keys@) == Some(k as int),
            None => first_pressed(keys@) is None,
        },
{
    let mut k: usize = 0;
    while k < NUM_KEYS
        invariant
            k <= NUM_KEYS,
            forall|j: int| 0 <= j < k ==> !keys[j],
        decreases NUM_KEYS - k,
    {
        if keys[k] {
            assert(is_first_pressed(keys@, k as int));
            let ghost c = choose|c: int| is_first_pressed(keys@, c);
            assert(c == k as int) by {
                if c < k as int {
                    assert(!keys[c]);
                } else if c > k as int {
                    assert(keys@[k as int]);
                }
            }
            return Some(k);
        }
        k += 1;
    }
    assert(!exists|c: int| is_first_pressed(keys@, c)) by {
        assert forall|c: int| !is_first_pressed(keys@, c) by {
            if 0 <= c < NUM_KEYS {
                assert(!keys[c]);
            }
        }
    }
    None
}

} // verus!
