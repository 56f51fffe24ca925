//! Abstract model of the CHIP-8 machine.
//!
//! `MachineState` is the mathematical view of the interpreter: plain
//! sequences and integers, one field per architectural component. The
//! executable interpreter's contracts all speak in terms of this model.

use crate::insn::spec_decode;
use crate::insn::Instruction;
use vstd::prelude::*;

verus! {

/// Size of the address space, in bytes.
pub const MEMORY_SIZE: usize = 0x1000;

/// Address at which a program image is loaded, and the initial program counter.
pub const PROGRAM_START: usize = 0x200;

/// Largest program image that fits between `PROGRAM_START` and the end of memory.
pub const MAX_PROGRAM_SIZE: usize = 0xE00;

/// Number of general-purpose registers (V0 through VF).
pub const REGISTER_COUNT: usize = 0x10;

/// Cells in the 64 x 32 monochrome framebuffer.
pub const FRAMEBUFFER_SIZE: usize = 0x800;

/// Maximum call nesting: a call with this many return addresses already
/// stacked is an illegal-state error.
pub const STACK_DEPTH: usize = 0x10;

/// A terminal illegal-state condition, surfaced to the host rather than
/// wrapped silently or left as a crash.
#[derive(Clone, Copy, Debug, PartialEq, Eq, Structural)]
pub enum Chip8Error {
    /// A program image longer than `MAX_PROGRAM_SIZE` bytes was offered.
    ProgramTooLarge,
    /// A return was executed with no call outstanding.
    StackUnderflow,
    /// A call was executed with `STACK_DEPTH` return addresses outstanding.
    StackOverflow,
    /// The cycle had to touch a memory address past the end of the address
    /// space: a fetch with the program counter out of range, or an indexed
    /// access (draw, digit store, register dump or load) past 0xFFF.
    AddressOutOfRange,
}

/// The abstract machine state: one field per architectural component.
#[verifier::ext_equal]
pub ghost struct MachineState {
    /// The 4096-byte address space; the font glyphs occupy 0x000..0x050.
    pub memory: Seq<u8>,
    /// The sixteen registers V0..VF; VF doubles as the carry/borrow/collision flag.
    pub regs: Seq<u8>,
    /// The address register I; only the low 12 bits are ever set.
    pub i: u16,
    /// The program counter.
    pub pc: u16,
    /// The 64 x 32 framebuffer in row-major order; each cell is 0 or 1.
    pub gfx: Seq<u8>,
    /// Outstanding return addresses, most recent last.
    pub stack: Seq<u16>,
    /// The delay timer, counted down once per cycle while positive.
    pub delay: u8,
    /// The sound timer, counted down once per cycle while positive.
    pub sound: u8,
    /// True exactly while the sound timer has just gone from 1 to 0.
    pub sound_on: bool,
    /// True once an instruction has changed the framebuffer; the host clears it.
    pub redraw: bool,
    /// The key latch: the single key currently held, if any.
    pub key: Option<u8>,
}

impl MachineState {
    /// Structural invariant of every reachable machine state.
    pub open spec fn inv(self) -> bool {
        &&& self.memory.len() == MEMORY_SIZE
        &&& self.regs.len() == REGISTER_COUNT
        &&& self.gfx.len() == FRAMEBUFFER_SIZE
        &&& forall|k: int| 0 <= k < FRAMEBUFFER_SIZE ==> self.gfx[k] == 0 || self.gfx[k] == 1
        &&& self.stack.len() <= STACK_DEPTH
        &&& self.i < MEMORY_SIZE
        &&& self.key matches Some(k) ==> k < 16
    }
}

/// The built-in font: sixteen glyphs of five bytes each, one per hex digit.
pub open spec fn font_set() -> Seq<u8> {
    seq![
        0xF0u8, 0x90, 0x90, 0x90, 0xF0, // 0
        0x20, 0x60, 0x20, 0x20, 0x70, // 1
        0xF0, 0x10, 0xF0, 0x80, 0xF0, // 2
        0xF0, 0x10, 0xF0, 0x10, 0xF0, // 3
        0x90, 0x90, 0xF0, 0x10, 0x10, // 4
        0xF0, 0x80, 0xF0, 0x10, 0xF0, // 5
        0xF0, 0x80, 0xF0, 0x90, 0xF0, // 6
        0xF0, 0x10, 0x20, 0x40, 0x40, // 7
        0xF0, 0x90, 0xF0, 0x90, 0xF0, // 8
        0xF0, 0x90, 0xF0, 0x10, 0xF0, // 9
        0xF0, 0x90, 0xF0, 0x90, 0x90, // A
        0xE0, 0x90, 0xE0, 0x90, 0xE0, // B
        0xF0, 0x80, 0x80, 0x80, 0xF0, // C
        0xE0, 0x90, 0x90, 0x90, 0xE0, // D
        0xF0, 0x80, 0xF0, 0x80, 0xF0, // E
        0xF0, 0x80, 0xF0, 0x80, 0x80, // F
    ]
}

/// The state right after initialization: font in low memory, everything else
/// zeroed, program counter at `PROGRAM_START`.
pub open spec fn initial_state() -> MachineState {
    MachineState {
        memory: font_set() + Seq::new((MEMORY_SIZE - 80) as nat, |j: int| 0u8),
        regs: Seq::new(REGISTER_COUNT as nat, |j: int| 0u8),
        i: 0,
        pc: PROGRAM_START as u16,
        gfx: Seq::new(FRAMEBUFFER_SIZE as nat, |j: int| 0u8),
        stack: Seq::empty(),
        delay: 0,
        sound: 0,
        sound_on: false,
        redraw: false,
        key: None,
    }
}

/// The outcome of one instruction or one whole cycle: the machine state
/// afterwards and what is reported to the host. `Ok(None)` is an ordinary
/// step; `Ok(Some(op))` reports that the unknown opcode `op` was executed as
/// a no-op; `Err` is a terminal illegal-state condition, and the state is
/// then exactly what it was before.
#[verifier::ext_equal]
pub ghost struct StepOutcome {
    pub state: MachineState,
    pub report: Result<Option<u16>, Chip8Error>,
}

/// An ordinary step to state `s`.
pub open spec fn step_ok(s: MachineState) -> StepOutcome {
    StepOutcome { state: s, report: Ok(None) }
}

/// An illegal-state condition, leaving the state as it was.
pub open spec fn step_err(s: MachineState, e: Chip8Error) -> StepOutcome {
    StepOutcome { state: s, report: Err(e) }
}

/// `s` with the program counter set to `pc`.
pub open spec fn with_pc(s: MachineState, pc: u16) -> MachineState {
    MachineState { pc, ..s }
}

/// `s` with register `x` set to `v`.
pub open spec fn with_reg(s: MachineState, x: u8, v: u8) -> MachineState {
    MachineState { regs: s.regs.update(x as int, v), ..s }
}

/// `s` advanced past the current two-byte instruction.
pub open spec fn advanced(s: MachineState) -> MachineState {
    MachineState { pc: (s.pc + 2) as u16, ..s }
}

/// `s` advanced past the current instruction and the one after it.
pub open spec fn skipped(s: MachineState) -> MachineState {
    MachineState { pc: (s.pc + 4) as u16, ..s }
}

/// Whether bit `col` of a sprite byte is set, counting the most significant
/// bit as column 0.
pub open spec fn sprite_bit(b: u8, col: int) -> bool {
    b & (0x80u8 >> (col as u8)) != 0
}

/// XOR one set sprite bit into framebuffer cell `(px, py)`: the cell flips,
/// and a collision is reported when it was on.
pub open spec fn blit_pixel(gfx: Seq<u8>, px: int, py: int) -> (Seq<u8>, bool)
    recommends
        gfx.len() == FRAMEBUFFER_SIZE,
        0 <= px < 64,
        0 <= py < 32,
{
    let idx = py * 64 + px;
    (gfx.update(idx, if gfx[idx] == 1 { 0u8 } else { 1u8 }), gfx[idx] == 1)
}

/// Blit the first `k` of the 8 bits of sprite byte `b` into row `py`,
/// starting at column `vx` and wrapping modulo 64. Returns the new
/// framebuffer and whether any bit collided.
pub open spec fn blit_row(gfx: Seq<u8>, b: u8, vx: u8, py: int, k: int) -> (Seq<u8>, bool)
    decreases k,
{
    if k <= 0 {
        (gfx, false)
    } else {
        let done = blit_row(gfx, b, vx, py, k - 1);
        if sprite_bit(b, k - 1) {
            let bit = blit_pixel(done.0, (vx + k - 1) % 64, py);
            (bit.0, done.1 || bit.1)
        } else {
            done
        }
    }
}

/// Blit the first `r` rows of a sprite read from `memory` at address `i`
/// into the framebuffer at `(vx, vy)`, rows wrapping modulo 32.
pub open spec fn blit_sprite(
    gfx: Seq<u8>,
    memory: Seq<u8>,
    i: int,
    vx: u8,
    vy: u8,
    r: int,
) -> (Seq<u8>, bool)
    decreases r,
{
    if r <= 0 {
        (gfx, false)
    } else {
        let done = blit_sprite(gfx, memory, i, vx, vy, r - 1);
        let row = blit_row(done.0, memory[i + r - 1], vx, (vy + r - 1) % 32, 8);
        (row.0, done.1 || row.1)
    }
}

/// Memory after storing registers V0 through Vx at addresses `i` through
/// `i + x`.
pub open spec fn mem_after_dump(memory: Seq<u8>, regs: Seq<u8>, i: int, x: int) -> Seq<u8> {
    Seq::new(
        memory.len(),
        |j: int| if i <= j <= i + x { regs[j - i] } else { memory[j] },
    )
}

/// Registers after loading V0 through Vx from addresses `i` through `i + x`.
pub open spec fn regs_after_load(regs: Seq<u8>, memory: Seq<u8>, i: int, x: int) -> Seq<u8> {
    Seq::new(
        regs.len(),
        |j: int| if 0 <= j <= x { memory[i + j] } else { regs[j] },
    )
}

/// Memory after loading a program image at `PROGRAM_START`.
pub open spec fn mem_after_load(memory: Seq<u8>, image: Seq<u8>) -> Seq<u8> {
    Seq::new(
        memory.len(),
        |j: int|
            if PROGRAM_START <= j < PROGRAM_START + image.len() {
                image[j - PROGRAM_START]
            } else {
                memory[j]
            },
    )
}

/// The per-cycle timer step: each timer counts down while positive, and the
/// sound-on pulse is reported exactly while the sound timer goes from 1 to 0.
pub open spec fn ticked(s: MachineState) -> MachineState {
    MachineState {
        delay: if s.delay > 0 { (s.delay - 1) as u8 } else { 0u8 },
        sound: if s.sound > 0 { (s.sound - 1) as u8 } else { 0u8 },
        sound_on: s.sound == 1,
        ..s
    }
}

/// The effect of one decoded instruction on the machine state. `rnd` is the
/// byte the random-number source produced this cycle; only the random
/// instruction reads it.
pub open spec fn step_insn(s: MachineState, inst: Instruction, rnd: u8) -> StepOutcome {
    match inst {
        Instruction::ClearScreen => step_ok(
            advanced(
                MachineState {
                    gfx: Seq::new(FRAMEBUFFER_SIZE as nat, |j: int| 0u8),
                    redraw: true,
                    ..s
                },
            ),
        ),
        Instruction::Ret => {
            if s.stack.len() == 0 {
                step_err(s, Chip8Error::StackUnderflow)
            } else {
                step_ok(MachineState { pc: s.stack.last(), stack: s.stack.drop_last(), ..s })
            }
        },
        Instruction::Jump(nnn) => step_ok(with_pc(s, nnn)),
        Instruction::Call(nnn) => {
            if s.stack.len() >= STACK_DEPTH {
                step_err(s, Chip8Error::StackOverflow)
            } else {
                step_ok(MachineState { pc: nnn, stack: s.stack.push((s.pc + 2) as u16), ..s })
            }
        },
        Instruction::SkipEqImm(x, nn) => {
            if s.regs[x as int] == nn {
                step_ok(skipped(s))
            } else {
                step_ok(advanced(s))
            }
        },
        Instruction::SkipNeImm(x, nn) => {
            if s.regs[x as int] != nn {
                step_ok(skipped(s))
            } else {
                step_ok(advanced(s))
            }
        },
        Instruction::SkipEqReg(x, y) => {
            if s.regs[x as int] == s.regs[y as int] {
                step_ok(skipped(s))
            } else {
                step_ok(advanced(s))
            }
        },
        Instruction::LoadImm(x, nn) => step_ok(advanced(with_reg(s, x, nn))),
        Instruction::AddImm(x, nn) => step_ok(
            advanced(with_reg(s, x, ((s.regs[x as int] + nn) % 256) as u8)),
        ),
        Instruction::Assign(x, y) => step_ok(advanced(with_reg(s, x, s.regs[y as int]))),
        Instruction::Or(x, y) => step_ok(
            advanced(with_reg(s, x, s.regs[x as int] | s.regs[y as int])),
        ),
        Instruction::And(x, y) => step_ok(
            advanced(with_reg(s, x, s.regs[x as int] & s.regs[y as int])),
        ),
        Instruction::Xor(x, y) => step_ok(
            advanced(with_reg(s, x, s.regs[x as int] ^ s.regs[y as int])),
        ),
        Instruction::AddCarry(x, y) => {
            let sum = s.regs[x as int] + s.regs[y as int];
            let r1 = s.regs.update(x as int, (sum % 256) as u8);
            let r2 = r1.update(15, if sum > 255 { 1u8 } else { 0u8 });
            step_ok(advanced(MachineState { regs: r2, ..s }))
        },
        Instruction::SubBorrow(x, y) => {
            let d = s.regs[x as int] - s.regs[y as int];
            let r2 = if d >= 0 {
                s.regs.update(x as int, d as u8).update(15, 1u8)
            } else {
                s.regs.update(x as int, (d + 256) as u8).update(15, 0u8)
            };
            step_ok(advanced(MachineState { regs: r2, ..s }))
        },
        Instruction::ShiftRight(x) => {
            let r1 = s.regs.update(15, s.regs[x as int] % 2);
            let r2 = r1.update(x as int, r1[x as int] / 2);
            step_ok(advanced(MachineState { regs: r2, ..s }))
        },
        Instruction::SubNBorrow(x, y) => {
            let d = s.regs[y as int] - s.regs[x as int];
            let r2 = if d >= 0 {
                s.regs.update(x as int, d as u8).update(15, 1u8)
            } else {
                s.regs.update(x as int, (d + 256) as u8).update(15, 0u8)
            };
            step_ok(advanced(MachineState { regs: r2, ..s }))
        },
        Instruction::ShiftLeft(x) => {
            let r1 = s.regs.update(15, s.regs[x as int] / 128);
            let r2 = r1.update(x as int, ((r1[x as int] % 128) * 2) as u8);
            step_ok(advanced(MachineState { regs: r2, ..s }))
        },
        Instruction::SkipNeReg(x, y) => {
            if s.regs[x as int] != s.regs[y as int] {
                step_ok(skipped(s))
            } else {
                step_ok(advanced(s))
            }
        },
        Instruction::SetIndex(nnn) => step_ok(advanced(MachineState { i: nnn, ..s })),
        Instruction::JumpOffset(op) => step_ok(
            with_pc(s, ((s.regs[0] + op * 0x0FFF) % 0x10000) as u16),
        ),
        Instruction::Random(x, nn) => step_ok(advanced(with_reg(s, x, rnd & nn))),
        Instruction::Draw(x, y, n) => {
            if s.i + n > MEMORY_SIZE {
                step_err(s, Chip8Error::AddressOutOfRange)
            } else {
                let blit = blit_sprite(
                    s.gfx,
                    s.memory,
                    s.i as int,
                    s.regs[x as int],
                    s.regs[y as int],
                    n as int,
                );
                step_ok(
                    advanced(
                        MachineState {
                            gfx: blit.0,
                            regs: s.regs.update(15, if blit.1 { 1u8 } else { 0u8 }),
                            redraw: true,
                            ..s
                        },
                    ),
                )
            }
        },
        Instruction::SkipKey(x) => {
            if s.key == Some(s.regs[x as int]) {
                step_ok(skipped(s))
            } else {
                step_ok(advanced(s))
            }
        },
        Instruction::SkipNoKey(x) => {
            if s.key != Some(s.regs[x as int]) {
                step_ok(skipped(s))
            } else {
                step_ok(advanced(s))
            }
        },
        Instruction::LoadDelay(x) => step_ok(advanced(with_reg(s, x, s.delay))),
        Instruction::WaitKey(x) => {
            match s.key {
                Some(k) => step_ok(advanced(with_reg(s, x, k))),
                None => step_ok(s),
            }
        },
        Instruction::SetDelay(x) => step_ok(
            advanced(MachineState { delay: s.regs[x as int], ..s }),
        ),
        Instruction::SetSound(x) => step_ok(
            advanced(MachineState { sound: s.regs[x as int], ..s }),
        ),
        Instruction::AddIndex(x) => step_ok(
            advanced(MachineState { i: ((s.i + s.regs[x as int]) % 0x1000) as u16, ..s }),
        ),
        Instruction::FontAddr(x) => step_ok(
            advanced(MachineState { i: (5 * (s.regs[x as int] % 16)) as u16, ..s }),
        ),
        Instruction::StoreBcd(x) => {
            if s.i + 2 >= MEMORY_SIZE {
                step_err(s, Chip8Error::AddressOutOfRange)
            } else {
                let v = s.regs[x as int];
                let m = s.memory.update(s.i as int, (v / 100) as u8).update(
                    s.i + 1,
                    ((v / 10) % 10) as u8,
                ).update(s.i + 2, (v % 10) as u8);
                step_ok(advanced(MachineState { memory: m, ..s }))
            }
        },
        Instruction::DumpRegs(x) => {
            if s.i + x >= MEMORY_SIZE {
                step_err(s, Chip8Error::AddressOutOfRange)
            } else {
                step_ok(
                    advanced(
                        MachineState {
                            memory: mem_after_dump(s.memory, s.regs, s.i as int, x as int),
                            ..s
                        },
                    ),
                )
            }
        },
        Instruction::LoadRegs(x) => {
            if s.i + x >= MEMORY_SIZE {
                step_err(s, Chip8Error::AddressOutOfRange)
            } else {
                step_ok(
                    advanced(
                        MachineState {
                            regs: regs_after_load(s.regs, s.memory, s.i as int, x as int),
                            ..s
                        },
                    ),
                )
            }
        },
        Instruction::Unknown(op) => StepOutcome { state: advanced(s), report: Ok(Some(op)) },
    }
}

/// The big-endian 16-bit opcode at the program counter.
pub open spec fn fetched_opcode(s: MachineState) -> u16 {
    ((s.memory[s.pc as int] as u16) << 8) | (s.memory[s.pc as int + 1] as u16)
}

/// One whole cycle: fetch, decode, execute, then count the timers down.
/// A fetch with the program counter out of range, like every other
/// illegal-state condition, leaves the state exactly as it was.
pub open spec fn spec_cycle(s: MachineState, rnd: u8) -> StepOutcome {
    if s.pc + 1 >= MEMORY_SIZE {
        step_err(s, Chip8Error::AddressOutOfRange)
    } else {
        let out = step_insn(s, spec_decode(fetched_opcode(s)), rnd);
        match out.report {
            Ok(_) => StepOutcome { state: ticked(out.state), ..out },
            Err(_) => out,
        }
    }
}

} // verus!
