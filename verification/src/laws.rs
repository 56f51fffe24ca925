//! Laws of the interpreter: properties relating several cycles, stated over
//! the abstract model and proved once for every machine state.

use crate::insn::op_nnn;
use crate::insn::Instruction;
use crate::model::fetched_opcode;
use crate::model::spec_cycle;
use crate::model::step_insn;
use crate::model::ticked;
use crate::model::Chip8Error;
use crate::model::MachineState;
use crate::model::MEMORY_SIZE;
use crate::model::STACK_DEPTH;
use vstd::prelude::*;

verus! {

/// Law: a call, followed by a return fetched from the called address, brings
/// the program counter to the instruction after the call and leaves the
/// stack exactly as deep as it was before the call.
///
/// `s` is any well-formed state about to fetch a call (top nibble 2) whose
/// target address holds the return opcode, with room on the stack.
pub proof fn lemma_call_return_round_trip(s: MachineState, rnd1: u8, rnd2: u8)
    requires
        s.inv(),
        s.stack.len() < STACK_DEPTH,
        s.pc + 1 < MEMORY_SIZE,
        fetched_opcode(s) & 0xF000 == 0x2000,
        op_nnn(fetched_opcode(s)) + 1 < MEMORY_SIZE,
        s.memory[op_nnn(fetched_opcode(s)) as int] == 0x00,
        s.memory[op_nnn(fetched_opcode(s)) + 1] == 0xEE,
    ensures
        ({
            let called = spec_cycle(s, rnd1);
            let returned = spec_cycle(called.state, rnd2);
            &&& called.report == Ok::<Option<u16>, Chip8Error>(None)
            &&& returned.report == Ok::<Option<u16>, Chip8Error>(None)
            &&& returned.state.pc == s.pc + 2
            &&& returned.state.stack == s.stack
        }),
{
    let op1 = fetched_opcode(s);
    let nnn = op_nnn(op1);
    let called = spec_cycle(s, rnd1);
    assert(called.state.pc == nnn && called.state.memory == s.memory && called.state.stack
        == s.stack.push((s.pc + 2) as u16));
    let op2 = fetched_opcode(called.state);
    assert(op2 == ((0x00u8 as u16) << 8) | (0xEEu8 as u16));
    assert((((0x00u8 as u16) << 8) | (0xEEu8 as u16)) == 0x00EEu16) by (bit_vector);
    assert(0x00EEu16 & 0xF000 == 0x0000 && 0x00EEu16 & 0x00FF == 0x00EE) by (bit_vector);
    assert(s.stack.push((s.pc + 2) as u16).drop_last() =~= s.stack);
}

/// Law: while no key is latched, the key-wait instruction changes nothing
/// but the timers, so the same instruction is fetched again next cycle.
pub proof fn lemma_wait_key_stalls(s: MachineState, rnd: u8)
    requires
        s.inv(),
        s.key is None,
        s.pc + 1 < MEMORY_SIZE,
        fetched_opcode(s) & 0xF000 == 0xF000,
        fetched_opcode(s) & 0x00FF == 0x000A,
    ensures
        spec_cycle(s, rnd).state == ticked(s),
        spec_cycle(s, rnd).state.pc == s.pc,
        spec_cycle(s, rnd).report == Ok::<Option<u16>, Chip8Error>(None),
{
}

/// Law: the key-wait instruction itself never stores anything or moves the
/// program counter while no key is latched, whichever register it names.
pub proof fn lemma_wait_key_step_is_identity(s: MachineState, x: u8, rnd: u8)
    requires
        s.key is None,
    ensures
        step_insn(s, Instruction::WaitKey(x), rnd).state == s,
        step_insn(s, Instruction::WaitKey(x), rnd).report == Ok::<Option<u16>, Chip8Error>(None),
{
}

/// Law: a sound timer standing at 1 yields the sound-on pulse for exactly
/// one timer step: the step that takes it to 0 reports the pulse, and the
/// step after that reports silence.
pub proof fn lemma_sound_edge_once(s: MachineState)
    requires
        s.sound == 1,
    ensures
        ticked(s).sound_on,
        ticked(s).sound == 0,
        !ticked(ticked(s)).sound_on,
{
}

} // verus!
