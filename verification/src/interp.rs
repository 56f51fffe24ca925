//! The executable interpreter.
//!
//! [`Chip8`] owns all machine state. Its contract is exact: one call to
//! [`Chip8::cycle_with_random`] performs precisely the step that
//! [`spec_cycle`] describes on the abstract [`MachineState`], and
//! [`Chip8::cycle`] does the same for some byte drawn from the
//! random-number source.

use crate::insn::decode;
use crate::insn::inst_wf;
use crate::insn::lemma_decode_wf;
use crate::insn::Instruction;
use crate::model::advanced;
use crate::model::blit_row;
use crate::model::blit_sprite;
use crate::model::fetched_opcode;
use crate::model::font_set;
use crate::model::initial_state;
use crate::model::mem_after_dump;
use crate::model::mem_after_load;
use crate::model::regs_after_load;
use crate::model::skipped;
use crate::model::spec_cycle;
use crate::model::step_insn;
use crate::model::ticked;
use crate::model::Chip8Error;
use crate::model::MachineState;
use crate::model::FRAMEBUFFER_SIZE;
use crate::model::MAX_PROGRAM_SIZE;
use crate::model::MEMORY_SIZE;
use crate::model::PROGRAM_START;
use crate::model::REGISTER_COUNT;
use crate::model::STACK_DEPTH;
use rand::Rng;
use vstd::pervasive::VecAdditionalExecFns;
use vstd::prelude::*;

verus! {

/// The CHIP-8 machine: memory, registers, program counter, call stack,
/// timers, framebuffer, key latch and the two host-facing flags.
pub struct Chip8 {
    memory: Vec<u8>,
    regs: Vec<u8>,
    i_register: u16,
    program_counter: u16,
    gfx: Vec<u8>,
    stack: Vec<u16>,
    delay_timer: u8,
    sound_timer: u8,
    is_sound: bool,
    is_draw: bool,
    keyboard_input: Option<u8>,
}

impl View for Chip8 {
    type V = MachineState;

    closed spec fn view(&self) -> MachineState {
        MachineState {
            memory: self.memory@,
            regs: self.regs@,
            i: self.i_register,
            pc: self.program_counter,
            gfx: self.gfx@,
            stack: self.stack@,
            delay: self.delay_timer,
            sound: self.sound_timer,
            sound_on: self.is_sound,
            redraw: self.is_draw,
            key: self.keyboard_input,
        }
    }
}

/// Relies on rand::thread_rng and rand::Rng::gen: one byte drawn from the
/// thread-local generator. Nothing is promised of the value; every caller
/// states what holds whatever byte comes back.
#[verifier::external_body]
fn random_byte() -> u8 {
    rand::thread_rng().gen()
}

/// A vector of `n` zero bytes.
#[verifier::loop_isolation(false)]
fn zeroed_bytes(n: usize) -> (v: Vec<u8>)
    ensures
        v@ == Seq::new(n as nat, |j: int| 0u8),
{
    let mut v: Vec<u8> = Vec::new();
    while v.len() < n
        invariant
            v@.len() <= n,
            v@ == Seq::new(v@.len(), |j: int| 0u8),
        decreases n - v@.len(),
    {
        v.push(0);
    }
    v
}

/// The font glyphs as loadable data, equal to the model's `font_set`.
#[verifier::loop_isolation(false)]
fn font_data() -> (v: Vec<u8>)
    ensures
        v@ == font_set(),
{
    let font: [u8; 80] = [
        0xF0, 0x90, 0x90, 0x90, 0xF0, // 0
        0x20, 0x60, 0x20, 0x20, 0x70, // 1
        0xF0, 0x10, 0xF0, 0x80, 0xF0, // 2
        0xF0, 0x10, 0xF0, 0x10, 0xF0, // 3
        0x90, 0x90, 0xF0, 0x10, 0x10, // 4
        0xF0, 0x80, 0xF0, 0x10, 0xF0, // 5
        0xF0, 0x80, 0xF0, 0x90, 0xF0, // 6
        0xF0, 0x10, 0x20, 0x40, 0x40, // 7
        0xF0, 0x90, 0xF0, 0x90, 0xF0, // 8
        0xF0, 0x90, 0xF0, 0x10, 0xF0, // 9
        0xF0, 0x90, 0xF0, 0x90, 0x90, // A
        0xE0, 0x90, 0xE0, 0x90, 0xE0, // B
        0xF0, 0x80, 0x80, 0x80, 0xF0, // C
        0xE0, 0x90, 0x90, 0x90, 0xE0, // D
        0xF0, 0x80, 0xF0, 0x80, 0xF0, // E
        0xF0, 0x80, 0xF0, 0x80, 0x80, // F
    ];
    let mut v: Vec<u8> = Vec::new();
    let mut k: usize = 0;
    while k < 80
        invariant
            k <= 80,
            v@.len() == k,
            forall|j: int| 0 <= j < k ==> v@[j] == font@[j],
        decreases 80 - k,
    {
        v.push(font[k]);
        k += 1;
    }
    proof {
        assert(font@ =~= font_set());
        assert(v@ =~= font_set());
    }
    v
}

impl Chip8 {
    /// The machine is well-formed: its view satisfies the structural
    /// invariant of reachable states.
    pub open spec fn wf(&self) -> bool {
        self@.inv()
    }

    /// A fresh machine: font in low memory, everything else zeroed, program
    /// counter at `PROGRAM_START`.
    #[verifier::loop_isolation(false)]
    pub fn initialize() -> (c: Chip8)
        ensures
            c.wf(),
            c@ == initial_state(),
    {
        let mut memory = font_data();
        while memory.len() < MEMORY_SIZE
            invariant
                80 <= memory@.len() <= MEMORY_SIZE,
                memory@ == font_set() + Seq::new((memory@.len() - 80) as nat, |j: int| 0u8),
            decreases MEMORY_SIZE - memory@.len(),
        {
            memory.push(0);
        }
        let c = Chip8 {
            memory,
            regs: zeroed_bytes(REGISTER_COUNT),
            i_register: 0,
            program_counter: PROGRAM_START as u16,
            gfx: zeroed_bytes(FRAMEBUFFER_SIZE),
            stack: Vec::new(),
            delay_timer: 0,
            sound_timer: 0,
            is_sound: false,
            is_draw: false,
            keyboard_input: None,
        };
        proof {
            assert(c@ =~= initial_state());
        }
        c
    }

    /// Replace the key latch: `Some(k)` while key `k` is held, `None` when
    /// no key is held.
    pub fn set_keyboard_input(&mut self, input: Option<u8>)
        requires
            old(self).wf(),
            input matches Some(k) ==> k < 16,
        ensures
            final(self).wf(),
            final(self)@ == (MachineState { key: input, ..old(self)@ }),
    {
        self.keyboard_input = input;
    }

    /// Copy a program image into memory starting at `PROGRAM_START`.
    ///
    /// An image longer than `MAX_PROGRAM_SIZE` bytes is rejected whole: the
    /// error is returned and not one byte of the machine changes. Otherwise
    /// the image lands byte for byte at `PROGRAM_START`, and all other
    /// memory — the font region below `PROGRAM_START` included — keeps its
    /// contents.
    #[verifier::loop_isolation(false)]
    pub fn load_rom(&mut self, buffer: &[u8]) -> (r: Result<(), Chip8Error>)
        requires
            old(self).wf(),
        ensures
            final(self).wf(),
            buffer@.len() <= MAX_PROGRAM_SIZE ==> {
                &&& r == Ok::<(), Chip8Error>(())
                &&& final(self)@ == (MachineState {
                    memory: mem_after_load(old(self)@.memory, buffer@),
                    ..old(self)@
                })
                &&& forall|j: int|
                    0 <= j < buffer@.len() ==> final(self)@.memory[PROGRAM_START + j] == buffer@[j]
                &&& forall|j: int|
                    0 <= j < PROGRAM_START ==> final(self)@.memory[j] == old(self)@.memory[j]
            },
            buffer@.len() > MAX_PROGRAM_SIZE ==> {
                &&& r == Err::<(), Chip8Error>(Chip8Error::ProgramTooLarge)
                &&& final(self)@ == old(self)@
            },
    {
        let ghost pre = self@;
        if buffer.len() > MAX_PROGRAM_SIZE {
            return Err(Chip8Error::ProgramTooLarge);
        }
        let mut k: usize = 0;
        while k < buffer.len()
            invariant
                k <= buffer@.len(),
                self@.memory.len() == MEMORY_SIZE,
                self@.memory == Seq::new(
                    MEMORY_SIZE as nat,
                    |j: int|
                        if PROGRAM_START <= j < PROGRAM_START + k {
                            buffer@[j - PROGRAM_START]
                        } else {
                            pre.memory[j]
                        },
                ),
                self@.regs == pre.regs,
                self@.i == pre.i,
                self@.pc == pre.pc,
                self@.gfx == pre.gfx,
                self@.stack == pre.stack,
                self@.delay == pre.delay,
                self@.sound == pre.sound,
                self@.sound_on == pre.sound_on,
                self@.redraw == pre.redraw,
                self@.key == pre.key,
            decreases buffer@.len() - k,
        {
            self.memory.set(PROGRAM_START + k, buffer[k]);
            k += 1;
        }
        proof {
            assert(self@.memory =~= mem_after_load(pre.memory, buffer@));
            assert(self@ =~= (MachineState { memory: mem_after_load(pre.memory, buffer@), ..pre }));
        }
        Ok(())
    }

    /// Zero the framebuffer.
    fn clear_screen(&mut self)
        ensures
            final(self)@ == (MachineState {
                gfx: Seq::new(FRAMEBUFFER_SIZE as nat, |j: int| 0u8),
                ..old(self)@
            }),
    {
        self.gfx = zeroed_bytes(FRAMEBUFFER_SIZE);
    }

    /// Advance past the current two-byte instruction.
    fn increment_program_counter(&mut self)
        requires
            old(self)@.pc <= 0xFFE,
        ensures
            final(self)@ == advanced(old(self)@),
    {
        self.program_counter = self.program_counter + 2;
    }

    /// Advance past the current instruction and the one after it.
    fn skip_next_instruction(&mut self)
        requires
            old(self)@.pc <= 0xFFE,
        ensures
            final(self)@ == skipped(old(self)@),
    {
        self.program_counter = self.program_counter + 4;
    }

    /// Draw an `n`-row sprite read from memory at I to `(Vx, Vy)`,
    /// XOR-compositing and recording a collision in VF. Coordinates wrap
    /// modulo the framebuffer's width and height.
    #[verifier::loop_isolation(false)]
    fn op_draw(&mut self, x: u8, y: u8, n: u8) -> (r: Result<Option<u16>, Chip8Error>)
        requires
            old(self).wf(),
            x < 16,
            y < 16,
            n < 16,
            old(self)@.pc <= 0xFFE,
        ensures
            final(self).wf(),
            final(self)@ == step_insn(old(self)@, Instruction::Draw(x, y, n), 0).state,
            r == step_insn(old(self)@, Instruction::Draw(x, y, n), 0).report,
    {
        let ghost pre = self@;
        if self.i_register as usize + n as usize > MEMORY_SIZE {
            return Err(Chip8Error::AddressOutOfRange);
        }
        let vx = self.regs[x as usize];
        let vy = self.regs[y as usize];
        let base = self.i_register as usize;
        let mut collision = false;
        let mut row: usize = 0;
        while row < n as usize
            invariant
                row <= n as usize,
                self@.gfx.len() == FRAMEBUFFER_SIZE,
                forall|c: int| 0 <= c < FRAMEBUFFER_SIZE ==> self@.gfx[c] == 0 || self@.gfx[c] == 1,
                self@.gfx == blit_sprite(pre.gfx, pre.memory, pre.i as int, vx, vy, row as int).0,
                collision == blit_sprite(pre.gfx, pre.memory, pre.i as int, vx, vy, row as int).1,
                self@.memory == pre.memory,
                self@.regs == pre.regs,
                self@.i == pre.i,
                self@.pc == pre.pc,
                self@.stack == pre.stack,
                self@.delay == pre.delay,
                self@.sound == pre.sound,
                self@.sound_on == pre.sound_on,
                self@.redraw == pre.redraw,
                self@.key == pre.key,
            decreases n as usize - row,
        {
            let sprite = self.memory[base + row];
            let py = (vy as usize + row) % 32;
            let ghost g_row = self@.gfx;
            let ghost c_row = collision;
            let mut col: usize = 0;
            while col < 8
                invariant
                    col <= 8,
                    row < n as usize,
                    py == ((vy as int) + row as int) % 32,
                    sprite == pre.memory[pre.i + row],
                    self@.gfx.len() == FRAMEBUFFER_SIZE,
                    forall|c: int|
                        0 <= c < FRAMEBUFFER_SIZE ==> self@.gfx[c] == 0 || self@.gfx[c] == 1,
                    self@.gfx == blit_row(g_row, sprite, vx, py as int, col as int).0,
                    collision == (c_row || blit_row(g_row, sprite, vx, py as int, col as int).1),
                    self@.memory == pre.memory,
                    self@.regs == pre.regs,
                    self@.i == pre.i,
                    self@.pc == pre.pc,
                    self@.stack == pre.stack,
                    self@.delay == pre.delay,
                    self@.sound == pre.sound,
                    self@.sound_on == pre.sound_on,
                    self@.redraw == pre.redraw,
                    self@.key == pre.key,
                decreases 8 - col,
            {
                if sprite & (0x80u8 >> (col as u8)) != 0 {
                    let px = (vx as usize + col) % 64;
                    let idx = py * 64 + px;
                    let cell = self.gfx[idx];
                    if cell == 1 {
                        collision = true;
                    }
                    self.gfx.set(idx, if cell == 1 { 0 } else { 1 });
                    proof {
                        assert(self@.gfx =~= blit_row(
                            g_row,
                            sprite,
                            vx,
                            py as int,
                            col as int + 1,
                        ).0);
                    }
                }
                col += 1;
            }
            proof {
                assert(self@.gfx =~= blit_sprite(
                    pre.gfx,
                    pre.memory,
                    pre.i as int,
                    vx,
                    vy,
                    row as int + 1,
                ).0);
            }
            row += 1;
        }
        self.regs.set(0xF, if collision { 1 } else { 0 });
        self.is_draw = true;
        self.increment_program_counter();
        proof {
            assert(self@ =~= step_insn(pre, Instruction::Draw(x, y, n), 0).state);
        }
        Ok(None)
    }

    /// Store registers V0 through Vx at memory addresses I through I + x.
    #[verifier::loop_isolation(false)]
    fn op_dump(&mut self, x: u8) -> (r: Result<Option<u16>, Chip8Error>)
        requires
            old(self).wf(),
            x < 16,
            old(self)@.pc <= 0xFFE,
        ensures
            final(self).wf(),
            final(self)@ == step_insn(old(self)@, Instruction::DumpRegs(x), 0).state,
            r == step_insn(old(self)@, Instruction::DumpRegs(x), 0).report,
    {
        let ghost pre = self@;
        if self.i_register as usize + x as usize >= MEMORY_SIZE {
            return Err(Chip8Error::AddressOutOfRange);
        }
        let base = self.i_register as usize;
        let mut t: usize = 0;
        while t <= x as usize
            invariant
                t <= x as usize + 1,
                self@.memory.len() == MEMORY_SIZE,
                self@.memory == Seq::new(
                    MEMORY_SIZE as nat,
                    |j: int|
                        if base <= j < base + t {
                            pre.regs[j - base]
                        } else {
                            pre.memory[j]
                        },
                ),
                self@.regs == pre.regs,
                self@.i == pre.i,
                self@.pc == pre.pc,
                self@.gfx == pre.gfx,
                self@.stack == pre.stack,
                self@.delay == pre.delay,
                self@.sound == pre.sound,
                self@.sound_on == pre.sound_on,
                self@.redraw == pre.redraw,
                self@.key == pre.key,
            decreases x as usize + 1 - t,
        {
            let v = self.regs[t];
            self.memory.set(base + t, v);
            t += 1;
        }
        proof {
            assert(self@.memory =~= mem_after_dump(pre.memory, pre.regs, pre.i as int, x as int));
        }
        self.increment_program_counter();
        proof {
            assert(self@ =~= step_insn(pre, Instruction::DumpRegs(x), 0).state);
        }
        Ok(None)
    }

    /// Load registers V0 through Vx from memory addresses I through I + x.
    #[verifier::loop_isolation(false)]
    fn op_load(&mut self, x: u8) -> (r: Result<Option<u16>, Chip8Error>)
        requires
            old(self).wf(),
            x < 16,
            old(self)@.pc <= 0xFFE,
        ensures
            final(self).wf(),
            final(self)@ == step_insn(old(self)@, Instruction::LoadRegs(x), 0).state,
            r == step_insn(old(self)@, Instruction::LoadRegs(x), 0).report,
    {
        let ghost pre = self@;
        if self.i_register as usize + x as usize >= MEMORY_SIZE {
            return Err(Chip8Error::AddressOutOfRange);
        }
        let base = self.i_register as usize;
        let mut t: usize = 0;
        while t <= x as usize
            invariant
                t <= x as usize + 1,
                self@.regs.len() == REGISTER_COUNT,
                self@.regs == Seq::new(
                    REGISTER_COUNT as nat,
                    |j: int|
                        if 0 <= j < t {
                            pre.memory[base + j]
                        } else {
                            pre.regs[j]
                        },
                ),
                self@.memory == pre.memory,
                self@.i == pre.i,
                self@.pc == pre.pc,
                self@.gfx == pre.gfx,
                self@.stack == pre.stack,
                self@.delay == pre.delay,
                self@.sound == pre.sound,
                self@.sound_on == pre.sound_on,
                self@.redraw == pre.redraw,
                self@.key == pre.key,
            decreases x as usize + 1 - t,
        {
            let v = self.memory[base + t];
            self.regs.set(t, v);
            t += 1;
        }
        proof {
            assert(self@.regs =~= regs_after_load(pre.regs, pre.memory, pre.i as int, x as int));
        }
        self.increment_program_counter();
        proof {
            assert(self@ =~= step_insn(pre, Instruction::LoadRegs(x), 0).state);
        }
        Ok(None)
    }

    /// Execute one decoded instruction: the step that `step_insn` describes.
    fn execute(&mut self, inst: Instruction, rnd: u8) -> (r: Result<Option<u16>, Chip8Error>)
        requires
            old(self).wf(),
            inst_wf(inst),
            old(self)@.pc <= 0xFFE,
        ensures
            final(self).wf(),
            final(self)@ == step_insn(old(self)@, inst, rnd).state,
            r == step_insn(old(self)@, inst, rnd).report,
    {
        let ghost pre = self@;
        match inst {
            Instruction::ClearScreen => {
                self.clear_screen();
                self.is_draw = true;
                self.increment_program_counter();
                Ok(None)
            },
            Instruction::Ret => {
                if self.stack.len() == 0 {
                    return Err(Chip8Error::StackUnderflow);
                }
                let addr = self.stack.pop().unwrap();
                self.program_counter = addr;
                Ok(None)
            },
            Instruction::Jump(nnn) => {
                self.program_counter = nnn;
                Ok(None)
            },
            Instruction::Call(nnn) => {
                if self.stack.len() >= STACK_DEPTH {
                    return Err(Chip8Error::StackOverflow);
                }
                self.stack.push(self.program_counter + 2);
                self.program_counter = nnn;
                Ok(None)
            },
            Instruction::SkipEqImm(x, nn) => {
                if self.regs[x as usize] == nn {
                    self.skip_next_instruction();
                } else {
                    self.increment_program_counter();
                }
                Ok(None)
            },
            Instruction::SkipNeImm(x, nn) => {
                if self.regs[x as usize] != nn {
                    self.skip_next_instruction();
                } else {
                    self.increment_program_counter();
                }
                Ok(None)
            },
            Instruction::SkipEqReg(x, y) => {
                if self.regs[x as usize] == self.regs[y as usize] {
                    self.skip_next_instruction();
                } else {
                    self.increment_program_counter();
                }
                Ok(None)
            },
            Instruction::LoadImm(x, nn) => {
                self.regs.set(x as usize, nn);
                self.increment_program_counter();
                Ok(None)
            },
            Instruction::AddImm(x, nn) => {
                let vx = self.regs[x as usize];
                let sum: u16 = vx as u16 + nn as u16;
                self.regs.set(x as usize, (sum % 256) as u8);
                self.increment_program_counter();
                Ok(None)
            },
            Instruction::Assign(x, y) => {
                let vy = self.regs[y as usize];
                self.regs.set(x as usize, vy);
                self.increment_program_counter();
                Ok(None)
            },
            Instruction::Or(x, y) => {
                let vx = self.regs[x as usize];
                let vy = self.regs[y as usize];
                self.regs.set(x as usize, vx | vy);
                self.increment_program_counter();
                Ok(None)
            },
            Instruction::And(x, y) => {
                let vx = self.regs[x as usize];
                let vy = self.regs[y as usize];
                self.regs.set(x as usize, vx & vy);
                self.increment_program_counter();
                Ok(None)
            },
            Instruction::Xor(x, y) => {
                let vx = self.regs[x as usize];
                let vy = self.regs[y as usize];
                self.regs.set(x as usize, vx ^ vy);
                self.increment_program_counter();
                Ok(None)
            },
            Instruction::AddCarry(x, y) => {
                let vx = self.regs[x as usize];
                let vy = self.regs[y as usize];
                let sum: u16 = vx as u16 + vy as u16;
                self.regs.set(x as usize, (sum % 256) as u8);
                self.regs.set(15, if sum > 255 { 1 } else { 0 });
                self.increment_program_counter();
                Ok(None)
            },
            Instruction::SubBorrow(x, y) => {
                let vx = self.regs[x as usize];
                let vy = self.regs[y as usize];
                if vx >= vy {
                    self.regs.set(x as usize, vx - vy);
                    self.regs.set(15, 1);
                } else {
                    self.regs.set(x as usize, ((vx as u16 + 256) - vy as u16) as u8);
                    self.regs.set(15, 0);
                }
                self.increment_program_counter();
                Ok(None)
            },
            Instruction::ShiftRight(x) => {
                let vx = self.regs[x as usize];
                self.regs.set(15, vx % 2);
                let v2 = self.regs[x as usize];
                self.regs.set(x as usize, v2 / 2);
                self.increment_program_counter();
                Ok(None)
            },
            Instruction::SubNBorrow(x, y) => {
                let vx = self.regs[x as usize];
                let vy = self.regs[y as usize];
                if vy >= vx {
                    self.regs.set(x as usize, vy - vx);
                    self.regs.set(15, 1);
                } else {
                    self.regs.set(x as usize, ((vy as u16 + 256) - vx as u16) as u8);
                    self.regs.set(15, 0);
                }
                self.increment_program_counter();
                Ok(None)
            },
            Instruction::ShiftLeft(x) => {
                let vx = self.regs[x as usize];
                self.regs.set(15, vx / 128);
                let v2 = self.regs[x as usize];
                self.regs.set(x as usize, (v2 % 128) * 2);
                self.increment_program_counter();
                Ok(None)
            },
            Instruction::SkipNeReg(x, y) => {
                if self.regs[x as usize] != self.regs[y as usize] {
                    self.skip_next_instruction();
                } else {
                    self.increment_program_counter();
                }
                Ok(None)
            },
            Instruction::SetIndex(nnn) => {
                self.i_register = nnn;
                self.increment_program_counter();
                Ok(None)
            },
            Instruction::JumpOffset(op) => {
                let target: u32 = ((self.regs[0] as u32) + (op as u32) * 0x0FFF) % 0x10000;
                self.program_counter = target as u16;
                Ok(None)
            },
            Instruction::Random(x, nn) => {
                self.regs.set(x as usize, rnd & nn);
                self.increment_program_counter();
                Ok(None)
            },
            Instruction::Draw(x, y, n) => self.op_draw(x, y, n),
            Instruction::SkipKey(x) => {
                let vx = self.regs[x as usize];
                let pressed = match self.keyboard_input {
                    Some(k) => k == vx,
                    None => false,
                };
                if pressed {
                    self.skip_next_instruction();
                } else {
                    self.increment_program_counter();
                }
                Ok(None)
            },
            Instruction::SkipNoKey(x) => {
                let vx = self.regs[x as usize];
                let pressed = match self.keyboard_input {
                    Some(k) => k == vx,
                    None => false,
                };
                if !pressed {
                    self.skip_next_instruction();
                } else {
                    self.increment_program_counter();
                }
                Ok(None)
            },
            Instruction::LoadDelay(x) => {
                let d = self.delay_timer;
                self.regs.set(x as usize, d);
                self.increment_program_counter();
                Ok(None)
            },
            Instruction::WaitKey(x) => {
                match self.keyboard_input {
                    Some(k) => {
                        self.regs.set(x as usize, k);
                        self.increment_program_counter();
                    },
                    None => {},
                }
                Ok(None)
            },
            Instruction::SetDelay(x) => {
                self.delay_timer = self.regs[x as usize];
                self.increment_program_counter();
                Ok(None)
            },
            Instruction::SetSound(x) => {
                self.sound_timer = self.regs[x as usize];
                self.increment_program_counter();
                Ok(None)
            },
            Instruction::AddIndex(x) => {
                let vx = self.regs[x as usize];
                self.i_register = (self.i_register + vx as u16) % 0x1000;
                self.increment_program_counter();
                Ok(None)
            },
            Instruction::FontAddr(x) => {
                let vx = self.regs[x as usize];
                self.i_register = (5 * (vx % 16)) as u16;
                self.increment_program_counter();
                Ok(None)
            },
            Instruction::StoreBcd(x) => {
                if self.i_register as usize + 2 >= MEMORY_SIZE {
                    return Err(Chip8Error::AddressOutOfRange);
                }
                let base = self.i_register as usize;
                let v = self.regs[x as usize];
                self.memory.set(base, v / 100);
                self.memory.set(base + 1, (v / 10) % 10);
                self.memory.set(base + 2, v % 10);
                self.increment_program_counter();
                Ok(None)
            },
            Instruction::DumpRegs(x) => self.op_dump(x),
            Instruction::LoadRegs(x) => self.op_load(x),
            Instruction::Unknown(op) => {
                self.increment_program_counter();
                Ok(Some(op))
            },
        }
    }

    /// Count the timers down and set the sound-on pulse for this cycle.
    fn tick_timers(&mut self)
        ensures
            final(self)@ == ticked(old(self)@),
    {
        if self.delay_timer > 0 {
            self.delay_timer = self.delay_timer - 1;
        }
        self.is_sound = self.sound_timer == 1;
        if self.sound_timer > 0 {
            self.sound_timer = self.sound_timer - 1;
        }
    }

    /// One fetch-decode-execute-timer step, with the random byte for this
    /// cycle passed in. The machine afterwards, and what is returned, are
    /// exactly what `spec_cycle` says: `Ok(None)` for an ordinary step,
    /// `Ok(Some(op))` when the unknown opcode `op` was executed as a
    /// reported no-op, and an error — with the machine left untouched — on
    /// an illegal state.
    pub fn cycle_with_random(&mut self, rnd: u8) -> (r: Result<Option<u16>, Chip8Error>)
        requires
            old(self).wf(),
        ensures
            final(self).wf(),
            final(self)@ == spec_cycle(old(self)@, rnd).state,
            r == spec_cycle(old(self)@, rnd).report,
    {
        let ghost pre = self@;
        if self.program_counter as usize + 1 >= MEMORY_SIZE {
            return Err(Chip8Error::AddressOutOfRange);
        }
        let pc = self.program_counter as usize;
        let hi = self.memory[pc];
        let lo = self.memory[pc + 1];
        let op = ((hi as u16) << 8) | (lo as u16);
        proof {
            assert(op == fetched_opcode(pre));
            lemma_decode_wf(op);
        }
        let inst = decode(op);
        let report = match self.execute(inst, rnd) {
            Ok(d) => d,
            Err(e) => {
                return Err(e);
            },
        };
        self.tick_timers();
        Ok(report)
    }

    /// One fetch-decode-execute-timer step, drawing this cycle's byte from
    /// the random-number source: the step `spec_cycle` describes, for some
    /// such byte.
    pub fn cycle(&mut self) -> (r: Result<Option<u16>, Chip8Error>)
        requires
            old(self).wf(),
        ensures
            final(self).wf(),
            exists|rnd: u8|
                #![auto]
                final(self)@ == spec_cycle(old(self)@, rnd).state && r == spec_cycle(
                    old(self)@,
                    rnd,
                ).report,
    {
        let rnd = random_byte();
        self.cycle_with_random(rnd)
    }

    /// Register Vx.
    pub fn register(&self, x: u8) -> (v: u8)
        requires
            self.wf(),
            x < 16,
        ensures
            v == self@.regs[x as int],
    {
        self.regs[x as usize]
    }

    /// The program counter.
    pub fn pc(&self) -> (p: u16)
        ensures
            p == self@.pc,
    {
        self.program_counter
    }

    /// The address register I.
    pub fn index_register(&self) -> (i: u16)
        ensures
            i == self@.i,
    {
        self.i_register
    }

    /// The byte at a memory address.
    pub fn memory_at(&self, addr: usize) -> (b: u8)
        requires
            self.wf(),
            addr < MEMORY_SIZE,
        ensures
            b == self@.memory[addr as int],
    {
        self.memory[addr]
    }

    /// One framebuffer cell, by row-major index.
    pub fn pixel(&self, idx: usize) -> (p: u8)
        requires
            self.wf(),
            idx < FRAMEBUFFER_SIZE,
        ensures
            p == self@.gfx[idx as int],
    {
        self.gfx[idx]
    }

    /// The whole framebuffer, row-major, one byte per cell.
    pub fn framebuffer(&self) -> (g: &Vec<u8>)
        ensures
            g@ == self@.gfx,
    {
        &self.gfx
    }

    /// How many return addresses are outstanding.
    pub fn stack_depth(&self) -> (d: usize)
        ensures
            d == self@.stack.len(),
    {
        self.stack.len()
    }

    /// The delay timer.
    pub fn delay(&self) -> (d: u8)
        ensures
            d == self@.delay,
    {
        self.delay_timer
    }

    /// The sound timer.
    pub fn sound(&self) -> (s: u8)
        ensures
            s == self@.sound,
    {
        self.sound_timer
    }

    /// Whether this cycle reported a sound-on pulse.
    pub fn sound_on(&self) -> (b: bool)
        ensures
            b == self@.sound_on,
    {
        self.is_sound
    }

    /// Whether an instruction has changed the framebuffer since the flag was
    /// last cleared.
    pub fn needs_redraw(&self) -> (b: bool)
        ensures
            b == self@.redraw,
    {
        self.is_draw
    }

    /// Acknowledge a redraw: the host calls this after copying the
    /// framebuffer out.
    pub fn clear_draw_flag(&mut self)
        requires
            old(self).wf(),
        ensures
            final(self).wf(),
            final(self)@ == (MachineState { redraw: false, ..old(self)@ }),
    {
        self.is_draw = false;
    }

    /// The key latch.
    pub fn key(&self) -> (k: Option<u8>)
        ensures
            k == self@.key,
    {
        self.keyboard_input
    }
}

} // verus!
