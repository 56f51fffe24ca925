//! Instruction decoding.
//!
//! A fetched 16-bit opcode is classified by its top nibble, and for the
//! groups 0x0, 0x8, 0xE and 0xF further by its low byte or low nibble, into
//! one tagged variant per instruction, carrying the extracted operand fields:
//! `x` and `y` are register indices (always below 16), `n`/`nn`/`nnn` are the
//! low nibble, low byte and low 12 bits.

use vstd::prelude::*;

verus! {

/// One decoded instruction. An opcode matching no group decodes to
/// `Unknown`, which executes as a reported no-op.
#[derive(Clone, Copy, Debug, PartialEq, Eq, Structural)]
pub enum Instruction {
    /// 00E0: zero the framebuffer.
    ClearScreen,
    /// 00EE: pop the program counter off the call stack.
    Ret,
    /// 1nnn: jump to nnn.
    Jump(u16),
    /// 2nnn: push the address of the next instruction, jump to nnn.
    Call(u16),
    /// 3xnn: skip the next instruction if Vx == nn.
    SkipEqImm(u8, u8),
    /// 4xnn: skip the next instruction if Vx != nn.
    SkipNeImm(u8, u8),
    /// 5xy?: skip the next instruction if Vx == Vy.
    SkipEqReg(u8, u8),
    /// 6xnn: Vx = nn.
    LoadImm(u8, u8),
    /// 7xnn: Vx += nn with 8-bit wraparound; the flag register is untouched.
    AddImm(u8, u8),
    /// 8xy0: Vx = Vy.
    Assign(u8, u8),
    /// 8xy1: Vx |= Vy.
    Or(u8, u8),
    /// 8xy2: Vx &= Vy.
    And(u8, u8),
    /// 8xy3: Vx ^= Vy.
    Xor(u8, u8),
    /// 8xy4: Vx += Vy; VF = 1 on overflow, else 0; the sum wraps.
    AddCarry(u8, u8),
    /// 8xy5: Vx -= Vy; VF = 1 when no borrow occurred, else 0; wraps.
    SubBorrow(u8, u8),
    /// 8xy6: VF = bit 0 of Vx, then Vx >>= 1.
    ShiftRight(u8),
    /// 8xy7: Vx = Vy - Vx; VF = 1 when no borrow occurred, else 0; wraps.
    SubNBorrow(u8, u8),
    /// 8xyE: VF = bit 7 of Vx, then Vx <<= 1.
    ShiftLeft(u8),
    /// 9xy?: skip the next instruction if Vx != Vy.
    SkipNeReg(u8, u8),
    /// Annn: I = nnn.
    SetIndex(u16),
    /// Bnnn: jump to V0 plus an opcode-derived offset. The offset is the
    /// full opcode times 0x0FFF, truncated to 16 bits — a quirk of this
    /// machine, kept deliberately instead of the conventional V0 + nnn.
    JumpOffset(u16),
    /// Cxnn: Vx = random byte AND nn.
    Random(u8, u8),
    /// Dxyn: XOR an n-row sprite from memory[I..] at (Vx, Vy); VF = collision.
    Draw(u8, u8, u8),
    /// Ex9E: skip the next instruction if the key latch holds Vx.
    SkipKey(u8),
    /// ExA1: skip the next instruction if the key latch does not hold Vx.
    SkipNoKey(u8),
    /// Fx07: Vx = delay timer.
    LoadDelay(u8),
    /// Fx0A: if a key is latched, store it in Vx and advance; otherwise leave
    /// the program counter alone so the instruction is refetched next cycle.
    WaitKey(u8),
    /// Fx15: delay timer = Vx.
    SetDelay(u8),
    /// Fx18: sound timer = Vx.
    SetSound(u8),
    /// Fx1E: I += Vx with 12-bit wraparound.
    AddIndex(u8),
    /// Fx29: I = address of the font glyph for the low nibble of Vx.
    FontAddr(u8),
    /// Fx33: store the decimal digits of Vx at memory[I], I+1, I+2.
    StoreBcd(u8),
    /// Fx55: store V0..Vx inclusive at memory[I..].
    DumpRegs(u8),
    /// Fx65: load V0..Vx inclusive from memory[I..].
    LoadRegs(u8),
    /// No group matches: executed as a no-op, reported to the host.
    Unknown(u16),
}

/// Bits 11..8 of an opcode: the first operand register index.
pub open spec fn op_x(op: u16) -> u8 {
    ((op >> 8) & 0xF) as u8
}

/// Bits 7..4 of an opcode: the second operand register index.
pub open spec fn op_y(op: u16) -> u8 {
    ((op >> 4) & 0xF) as u8
}

/// The low nibble of an opcode: a small immediate.
pub open spec fn op_n(op: u16) -> u8 {
    (op & 0xF) as u8
}

/// The low byte of an opcode: a byte immediate.
pub open spec fn op_nn(op: u16) -> u8 {
    (op & 0xFF) as u8
}

/// The low 12 bits of an opcode: an address.
pub open spec fn op_nnn(op: u16) -> u16 {
    op & 0xFFF
}

/// What an opcode decodes to.
pub open spec fn spec_decode(op: u16) -> Instruction {
    let x = op_x(op);
    let y = op_y(op);
    let n = op_n(op);
    let nn = op_nn(op);
    let nnn = op_nnn(op);
    if op & 0xF000 == 0x0000 {
        if op & 0x00FF == 0x00E0 {
            Instruction::ClearScreen
        } else if op & 0x00FF == 0x00EE {
            Instruction::Ret
        } else {
            Instruction::Unknown(op)
        }
    } else if op & 0xF000 == 0x1000 {
        Instruction::Jump(nnn)
    } else if op & 0xF000 == 0x2000 {
        Instruction::Call(nnn)
    } else if op & 0xF000 == 0x3000 {
        Instruction::SkipEqImm(x, nn)
    } else if op & 0xF000 == 0x4000 {
        Instruction::SkipNeImm(x, nn)
    } else if op & 0xF000 == 0x5000 {
        Instruction::SkipEqReg(x, y)
    } else if op & 0xF000 == 0x6000 {
        Instruction::LoadImm(x, nn)
    } else if op & 0xF000 == 0x7000 {
        Instruction::AddImm(x, nn)
    } else if op & 0xF000 == 0x8000 {
        if op & 0x000F == 0x0000 {
            Instruction::Assign(x, y)
        } else if op & 0x000F == 0x0001 {
            Instruction::Or(x, y)
        } else if op & 0x000F == 0x0002 {
            Instruction::And(x, y)
        } else if op & 0x000F == 0x0003 {
            Instruction::Xor(x, y)
        } else if op & 0x000F == 0x0004 {
            Instruction::AddCarry(x, y)
        } else if op & 0x000F == 0x0005 {
            Instruction::SubBorrow(x, y)
        } else if op & 0x000F == 0x0006 {
            Instruction::ShiftRight(x)
        } else if op & 0x000F == 0x0007 {
            Instruction::SubNBorrow(x, y)
        } else if op & 0x000F == 0x000E {
            Instruction::ShiftLeft(x)
        } else {
            Instruction::Unknown(op)
        }
    } else if op & 0xF000 == 0x9000 {
        Instruction::SkipNeReg(x, y)
    } else if op & 0xF000 == 0xA000 {
        Instruction::SetIndex(nnn)
    } else if op & 0xF000 == 0xB000 {
        Instruction::JumpOffset(op)
    } else if op & 0xF000 == 0xC000 {
        Instruction::Random(x, nn)
    } else if op & 0xF000 == 0xD000 {
        Instruction::Draw(x, y, n)
    } else if op & 0xF000 == 0xE000 {
        if op & 0x00FF == 0x009E {
            Instruction::SkipKey(x)
        } else if op & 0x00FF == 0x00A1 {
            Instruction::SkipNoKey(x)
        } else {
            Instruction::Unknown(op)
        }
    } else {
        if op & 0x00FF == 0x0007 {
            Instruction::LoadDelay(x)
        } else if op & 0x00FF == 0x000A {
            Instruction::WaitKey(x)
        } else if op & 0x00FF == 0x0015 {
            Instruction::SetDelay(x)
        } else if op & 0x00FF == 0x0018 {
            Instruction::SetSound(x)
        } else if op & 0x00FF == 0x001E {
            Instruction::AddIndex(x)
        } else if op & 0x00FF == 0x0029 {
            Instruction::FontAddr(x)
        } else if op & 0x00FF == 0x0033 {
            Instruction::StoreBcd(x)
        } else if op & 0x00FF == 0x0055 {
            Instruction::DumpRegs(x)
        } else if op & 0x00FF == 0x0065 {
            Instruction::LoadRegs(x)
        } else {
            Instruction::Unknown(op)
        }
    }
}

/// Every register index carried by an instruction is below 16, and a draw
/// height is below 16; the decoder only ever produces such instructions.
pub open spec fn inst_wf(inst: Instruction) -> bool {
    match inst {
        Instruction::SkipEqImm(x, _) => x < 16,
        Instruction::SkipNeImm(x, _) => x < 16,
        Instruction::SkipEqReg(x, y) => x < 16 && y < 16,
        Instruction::LoadImm(x, _) => x < 16,
        Instruction::AddImm(x, _) => x < 16,
        Instruction::Assign(x, y) => x < 16 && y < 16,
        Instruction::Or(x, y) => x < 16 && y < 16,
        Instruction::And(x, y) => x < 16 && y < 16,
        Instruction::Xor(x, y) => x < 16 && y < 16,
        Instruction::AddCarry(x, y) => x < 16 && y < 16,
        Instruction::SubBorrow(x, y) => x < 16 && y < 16,
        Instruction::ShiftRight(x) => x < 16,
        Instruction::SubNBorrow(x, y) => x < 16 && y < 16,
        Instruction::ShiftLeft(x) => x < 16,
        Instruction::SkipNeReg(x, y) => x < 16 && y < 16,
        Instruction::Jump(nnn) => nnn < 0x1000,
        Instruction::Call(nnn) => nnn < 0x1000,
        Instruction::SetIndex(nnn) => nnn < 0x1000,
        Instruction::Random(x, _) => x < 16,
        Instruction::Draw(x, y, n) => x < 16 && y < 16 && n < 16,
        Instruction::SkipKey(x) => x < 16,
        Instruction::SkipNoKey(x) => x < 16,
        Instruction::LoadDelay(x) => x < 16,
        Instruction::WaitKey(x) => x < 16,
        Instruction::SetDelay(x) => x < 16,
        Instruction::SetSound(x) => x < 16,
        Instruction::AddIndex(x) => x < 16,
        Instruction::FontAddr(x) => x < 16,
        Instruction::StoreBcd(x) => x < 16,
        Instruction::DumpRegs(x) => x < 16,
        Instruction::LoadRegs(x) => x < 16,
        _ => true,
    }
}

/// Decoding always yields a well-formed instruction.
pub proof fn lemma_decode_wf(op: u16)
    ensures
        inst_wf(spec_decode(op)),
{
    lemma_decode_fields(op);
}

/// Register indices extracted by the decoder are always below 16.
pub proof fn lemma_decode_fields(op: u16)
    ensures
        op_x(op) < 16,
        op_y(op) < 16,
        op_n(op) < 16,
        op_nnn(op) < 0x1000,
{
    assert(((op >> 8) & 0xF) < 16 && ((op >> 4) & 0xF) < 16 && (op & 0xF) < 16 && (op & 0xFFF)
        < 0x1000) by (bit_vector);
}

/// Decode an opcode into its instruction.
pub fn decode(op: u16) -> (inst: Instruction)
    ensures
        inst == spec_decode(op),
{
    let x = ((op >> 8) & 0xF) as u8;
    let y = ((op >> 4) & 0xF) as u8;
    let n = (op & 0xF) as u8;
    let nn = (op & 0xFF) as u8;
    let nnn = op & 0xFFF;
    if op & 0xF000 == 0x0000 {
        if op & 0x00FF == 0x00E0 {
            Instruction::ClearScreen
        } else if op & 0x00FF == 0x00EE {
            Instruction::Ret
        } else {
            Instruction::Unknown(op)
        }
    } else if op & 0xF000 == 0x1000 {
        Instruction::Jump(nnn)
    } else if op & 0xF000 == 0x2000 {
        Instruction::Call(nnn)
    } else if op & 0xF000 == 0x3000 {
        Instruction::SkipEqImm(x, nn)
    } else if op & 0xF000 == 0x4000 {
        Instruction::SkipNeImm(x, nn)
    } else if op & 0xF000 == 0x5000 {
        Instruction::SkipEqReg(x, y)
    } else if op & 0xF000 == 0x6000 {
        Instruction::LoadImm(x, nn)
    } else if op & 0xF000 == 0x7000 {
        Instruction::AddImm(x, nn)
    } else if op & 0xF000 == 0x8000 {
        if op & 0x000F == 0x0000 {
            Instruction::Assign(x, y)
        } else if op & 0x000F == 0x0001 {
            Instruction::Or(x, y)
        } else if op & 0x000F == 0x0002 {
            Instruction::And(x, y)
        } else if op & 0x000F == 0x0003 {
            Instruction::Xor(x, y)
        } else if op & 0x000F == 0x0004 {
            Instruction::AddCarry(x, y)
        } else if op & 0x000F == 0x0005 {
            Instruction::SubBorrow(x, y)
        } else if op & 0x000F == 0x0006 {
            Instruction::ShiftRight(x)
        } else if op & 0x000F == 0x0007 {
            Instruction::SubNBorrow(x, y)
        } else if op & 0x000F == 0x000E {
            Instruction::ShiftLeft(x)
        } else {
            Instruction::Unknown(op)
        }
    } else if op & 0xF000 == 0x9000 {
        Instruction::SkipNeReg(x, y)
    } else if op & 0xF000 == 0xA000 {
        Instruction::SetIndex(nnn)
    } else if op & 0xF000 == 0xB000 {
        Instruction::JumpOffset(op)
    } else if op & 0xF000 == 0xC000 {
        Instruction::Random(x, nn)
    } else if op & 0xF000 == 0xD000 {
        Instruction::Draw(x, y, n)
    } else if op & 0xF000 == 0xE000 {
        if op & 0x00FF == 0x009E {
            Instruction::SkipKey(x)
        } else if op & 0x00FF == 0x00A1 {
            Instruction::SkipNoKey(x)
        } else {
            Instruction::Unknown(op)
        }
    } else {
        if op & 0x00FF == 0x0007 {
            Instruction::LoadDelay(x)
        } else if op & 0x00FF == 0x000A {
            Instruction::WaitKey(x)
        } else if op & 0x00FF == 0x0015 {
            Instruction::SetDelay(x)
        } else if op & 0x00FF == 0x0018 {
            Instruction::SetSound(x)
        } else if op & 0x00FF == 0x001E {
            Instruction::AddIndex(x)
        } else if op & 0x00FF == 0x0029 {
            Instruction::FontAddr(x)
        } else if op & 0x00FF == 0x0033 {
            Instruction::StoreBcd(x)
        } else if op & 0x00FF == 0x0055 {
            Instruction::DumpRegs(x)
        } else if op & 0x00FF == 0x0065 {
            Instruction::LoadRegs(x)
        } else {
            Instruction::Unknown(op)
        }
    }
}

} // verus!
