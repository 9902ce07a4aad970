//! One tick of the processor, and a run of many, as functions on states.

use vstd::prelude::*;
use crate::bus::{read16, wrap16};
use crate::flags::{CARRY, DECIMAL_MODE, INTERRUPT_DISABLE, NEGATIVE, OVERFLOW, ZERO};
use crate::opcodes::{descriptor, AddressingMode};
use crate::state::{signed, CpuState, Outcome};

verus! {

/// Whether the instruction with opcode byte `code` reaches its operand
/// through the addressing mode of its descriptor.
pub open spec fn takes_operand(code: u8) -> bool {
    match code {
        0xA9 | 0xA5 | 0xB5 | 0xAD | 0xBD | 0xB9 | 0xA1 | 0xB1 => true,
        0xA2 | 0xA6 | 0xB6 | 0xAE | 0xBE => true,
        0xA0 | 0xA4 | 0xB4 | 0xAC | 0xBC => true,
        0x85 | 0x95 | 0x8D | 0x9D | 0x99 | 0x81 | 0x91 => true,
        0x86 | 0x96 | 0x8E => true,
        0x84 | 0x94 | 0x8C => true,
        0x29 | 0x25 | 0x35 | 0x2D | 0x3D | 0x39 | 0x21 | 0x31 => true,
        0x49 | 0x45 | 0x55 | 0x4D | 0x5D | 0x59 | 0x41 | 0x51 => true,
        0x09 | 0x05 | 0x15 | 0x0D | 0x1D | 0x19 | 0x01 | 0x11 => true,
        0x24 | 0x2C => true,
        0x69 | 0x65 | 0x75 | 0x6D | 0x7D | 0x79 | 0x61 | 0x71 => true,
        0xE9 | 0xE5 | 0xF5 | 0xED | 0xFD | 0xF9 | 0xE1 | 0xF1 | 0xEB => true,
        0xC9 | 0xC5 | 0xD5 | 0xCD | 0xDD | 0xD9 | 0xC1 | 0xD1 => true,
        0xE0 | 0xE4 | 0xEC => true,
        0xC0 | 0xC4 | 0xCC => true,
        0xE6 | 0xF6 | 0xEE | 0xFE => true,
        0xC6 | 0xD6 | 0xCE | 0xDE => true,
        0x06 | 0x16 | 0x0E | 0x1E => true,
        0x46 | 0x56 | 0x4E | 0x5E => true,
        0x26 | 0x36 | 0x2E | 0x3E => true,
        0x66 | 0x76 | 0x6E | 0x7E => true,
        0xA7 | 0xB7 | 0xAF | 0xBF | 0xA3 | 0xB3 => true,
        0x87 | 0x97 | 0x83 | 0x8F => true,
        0xC7 | 0xD7 | 0xCF | 0xDF | 0xDB | 0xC3 | 0xD3 => true,
        0xE7 | 0xF7 | 0xEF | 0xFF | 0xFB | 0xE3 | 0xF3 => true,
        0x07 | 0x17 | 0x0F | 0x1F | 0x1B | 0x03 | 0x13 => true,
        _ => false,
    }
}

/// An instruction that reaches its operand through its addressing mode
/// has a descriptor, and the mode of that descriptor names an operand.
pub proof fn lemma_operand_modes(code: u8)
    requires
        takes_operand(code),
    ensures
        descriptor(code).is_some(),
        descriptor(code).unwrap().mode.resolvable(),
{
    reveal(descriptor);
}

/// Loads and stores: a byte moves between memory and a register.
pub open spec fn load_store(s: CpuState, code: u8, mode: AddressingMode) -> Option<CpuState> {
    match code {
        0xA9 | 0xA5 | 0xB5 | 0xAD | 0xBD | 0xB9 | 0xA1 | 0xB1 => Some(s.lda(mode)),
        0xA2 | 0xA6 | 0xB6 | 0xAE | 0xBE => Some(s.ldx(mode)),
        0xA0 | 0xA4 | 0xB4 | 0xAC | 0xBC => Some(s.ldy(mode)),
        0x85 | 0x95 | 0x8D | 0x9D | 0x99 | 0x81 | 0x91 => Some(s.sta(mode)),
        0x86 | 0x96 | 0x8E => Some(s.stx(mode)),
        0x84 | 0x94 | 0x8C => Some(s.sty(mode)),
        _ => None,
    }
}

/// Transfers between registers and the stack pointer.
pub open spec fn transfers(s: CpuState, code: u8) -> Option<CpuState> {
    match code {
        0xAA => Some(s.tax()),
        0xA8 => Some(s.tay()),
        0x8A => Some(s.txa()),
        0x98 => Some(s.tya()),
        0xBA => Some(s.tsx()),
        0x9A => Some(s.txs()),
        _ => None,
    }
}

/// Pushes and pops of the accumulator and the status byte.
pub open spec fn stack(s: CpuState, code: u8) -> Option<CpuState> {
    match code {
        0x48 => Some(s.pha()),
        0x08 => Some(s.php()),
        0x68 => Some(s.pla()),
        0x28 => Some(s.plp()),
        _ => None,
    }
}

/// AND, EOR, ORA and BIT.
pub open spec fn logical(s: CpuState, code: u8, mode: AddressingMode) -> Option<CpuState> {
    match code {
        0x29 | 0x25 | 0x35 | 0x2D | 0x3D | 0x39 | 0x21 | 0x31 => Some(s.and(mode)),
        0x49 | 0x45 | 0x55 | 0x4D | 0x5D | 0x59 | 0x41 | 0x51 => Some(s.eor(mode)),
        0x09 | 0x05 | 0x15 | 0x0D | 0x1D | 0x19 | 0x01 | 0x11 => Some(s.ora(mode)),
        0x24 | 0x2C => Some(s.bit(mode)),
        _ => None,
    }
}

/// Addition, subtraction and the comparisons.
pub open spec fn arithmetic(s: CpuState, code: u8, mode: AddressingMode) -> Option<CpuState> {
    match code {
        0x69 | 0x65 | 0x75 | 0x6D | 0x7D | 0x79 | 0x61 | 0x71 => Some(s.adc(mode)),
        0xE9 | 0xE5 | 0xF5 | 0xED | 0xFD | 0xF9 | 0xE1 | 0xF1 | 0xEB => Some(s.sbc(mode)),
        0xC9 | 0xC5 | 0xD5 | 0xCD | 0xDD | 0xD9 | 0xC1 | 0xD1 => Some(s.compare(mode, s.a)),
        0xE0 | 0xE4 | 0xEC => Some(s.compare(mode, s.x)),
        0xC0 | 0xC4 | 0xCC => Some(s.compare(mode, s.y)),
        _ => None,
    }
}

/// Increments and decrements of memory and of the index registers.
pub open spec fn increments(s: CpuState, code: u8, mode: AddressingMode) -> Option<CpuState> {
    match code {
        0xE6 | 0xF6 | 0xEE | 0xFE => Some(s.inc(mode)),
        0xE8 => Some(s.inx()),
        0xC8 => Some(s.iny()),
        0xC6 | 0xD6 | 0xCE | 0xDE => Some(s.dec(mode)),
        0xCA => Some(s.dex()),
        0x88 => Some(s.dey()),
        _ => None,
    }
}

/// Shifts and rotations of memory and of the accumulator.
pub open spec fn shifts(s: CpuState, code: u8, mode: AddressingMode) -> Option<CpuState> {
    match code {
        0x0A => Some(s.asl_accumulator()),
        0x06 | 0x16 | 0x0E | 0x1E => Some(s.asl(mode)),
        0x4A => Some(s.lsr_accumulator()),
        0x46 | 0x56 | 0x4E | 0x5E => Some(s.lsr(mode)),
        0x2A => Some(s.rol_accumulator()),
        0x26 | 0x36 | 0x2E | 0x3E => Some(s.rol(mode)),
        0x6A => Some(s.ror_accumulator()),
        0x66 | 0x76 | 0x6E | 0x7E => Some(s.ror(mode)),
        _ => None,
    }
}

/// Jumps, the call and the return.
pub open spec fn jumps(s: CpuState, code: u8) -> Option<CpuState> {
    match code {
        0x4C => Some(s.jmp_absolute()),
        0x6C => Some(s.jump_indirect()),
        0x20 => Some(s.jsr()),
        0x60 => Some(s.rts()),
        _ => None,
    }
}

/// For the opcode byte of a conditional branch, whether its condition
/// holds in `s`; `None` for every other byte.
pub open spec fn branch_condition(s: CpuState, code: u8) -> Option<bool> {
    match code {
        0x90 => Some(!s.flag(CARRY)),
        0xB0 => Some(s.flag(CARRY)),
        0xF0 => Some(s.flag(ZERO)),
        0x30 => Some(s.flag(NEGATIVE)),
        0xD0 => Some(!s.flag(ZERO)),
        0x10 => Some(!s.flag(NEGATIVE)),
        0x70 => Some(s.flag(OVERFLOW)),
        0x50 => Some(!s.flag(OVERFLOW)),
        _ => None,
    }
}

/// The conditional branches.
pub open spec fn branches(s: CpuState, code: u8) -> Option<CpuState> {
    match branch_condition(s, code) {
        Some(condition) => Some(s.branch(condition)),
        None => None,
    }
}

/// Instructions that set or clear one flag.
pub open spec fn flag_changes(s: CpuState, code: u8) -> Option<CpuState> {
    match code {
        0x18 => Some(s.with_flag(CARRY, false)),
        0xD8 => Some(s.with_flag(DECIMAL_MODE, false)),
        0x58 => Some(s.with_flag(INTERRUPT_DISABLE, false)),
        0xB8 => Some(s.with_flag(OVERFLOW, false)),
        0x38 => Some(s.with_flag(CARRY, true)),
        0xF8 => Some(s.with_flag(DECIMAL_MODE, true)),
        0x78 => Some(s.with_flag(INTERRUPT_DISABLE, true)),
        _ => None,
    }
}

/// NOP and the return from an interrupt.
pub open spec fn system(s: CpuState, code: u8) -> Option<CpuState> {
    match code {
        0xEA => Some(s),
        0x40 => Some(s.rti()),
        _ => None,
    }
}

/// Undocumented opcodes: no-ops of several lengths, LAX, AAX, DCP, ISC and SLO.
pub open spec fn undocumented(s: CpuState, code: u8, mode: AddressingMode) -> Option<CpuState> {
    match code {
        0x04 | 0x14 | 0x34 | 0x44 | 0x54 | 0x64 | 0x74 | 0x80 | 0x82 | 0x89 | 0xC2 | 0xD4 | 0xE2
        | 0xF4 => Some(s),
        0x0C | 0x1C | 0x3C | 0x5C | 0x7C | 0xDC | 0xFC => Some(s),
        0x1A | 0x3A | 0x5A | 0x7A | 0xDA | 0xFA => Some(s),
        0xA7 | 0xB7 | 0xAF | 0xBF | 0xA3 | 0xB3 => Some(s.lax(mode)),
        0x87 | 0x97 | 0x83 | 0x8F => Some(s.aax(mode)),
        0xC7 | 0xD7 | 0xCF | 0xDF | 0xDB | 0xC3 | 0xD3 => Some(s.dcp(mode)),
        0xE7 | 0xF7 | 0xEF | 0xFF | 0xFB | 0xE3 | 0xF3 => Some(s.isc(mode)),
        0x07 | 0x17 | 0x0F | 0x1F | 0x1B | 0x03 | 0x13 => Some(s.slo(mode)),
        _ => None,
    }
}

/// What the instruction with opcode byte `code` does to `s`, a state whose
/// program counter is already past the opcode byte. `mode` is the
/// addressing mode of the opcode's descriptor. The families are tried in
/// turn; for BRK and for a byte that is no opcode the result is `s`
/// itself.
#[verifier::opaque]
pub open spec fn execute(s: CpuState, code: u8, mode: AddressingMode) -> CpuState {
    if let Some(done) = load_store(s, code, mode) {
        done
    } else if let Some(done) = transfers(s, code) {
        done
    } else if let Some(done) = stack(s, code) {
        done
    } else if let Some(done) = logical(s, code, mode) {
        done
    } else if let Some(done) = arithmetic(s, code, mode) {
        done
    } else if let Some(done) = increments(s, code, mode) {
        done
    } else if let Some(done) = shifts(s, code, mode) {
        done
    } else if let Some(done) = jumps(s, code) {
        done
    } else if let Some(done) = branches(s, code) {
        done
    } else if let Some(done) = flag_changes(s, code) {
        done
    } else if let Some(done) = system(s, code) {
        done
    } else if let Some(done) = undocumented(s, code, mode) {
        done
    } else {
        s
    }
}

/// Whether the instruction with opcode byte `code`, executed in `s`, sets
/// the program counter itself: the jumps, the call and the two returns
/// always, a branch when its condition holds. What the counter is set to
/// plays no part: a jump to the address at which the counter already
/// stands is a jump.
#[verifier::opaque]
pub open spec fn sets_pc(s: CpuState, code: u8) -> bool {
    jumps(s, code).is_some() || code == 0x40 || branch_condition(s, code) == Some(true)
}

/// Whether the byte at the program counter is an opcode, so that the
/// processor can be ticked.
pub open spec fn recognized(s: CpuState) -> bool {
    descriptor(s.mem[s.pc as int]).is_some()
}

/// One tick. The opcode byte is fetched and the program counter moves
/// past it. A byte without a descriptor ends the tick there, and for
/// good; BRK ends it there too. Otherwise the instruction is executed,
/// and unless it sets the program counter itself, the counter moves on
/// past the instruction's remaining bytes.
pub open spec fn step(s: CpuState) -> (CpuState, Outcome) {
    let code = s.mem[s.pc as int];
    let fetched = CpuState { pc: wrap16(s.pc + 1), ..s };
    match descriptor(code) {
        None => (fetched, Outcome::Unrecognized(code)),
        Some(op) => if code == 0x00 {
            (fetched, Outcome::Break)
        } else {
            let done = execute(fetched, code, op.mode);
            if sets_pc(fetched, code) {
                (done, Outcome::Continue)
            } else {
                (CpuState { pc: wrap16(done.pc + op.len - 1), ..done }, Outcome::Continue)
            }
        },
    }
}

/// At most `ticks` ticks from `s`: the run ends with the first tick that
/// does not end in `Continue`, or when the ticks are used up, and then
/// ends in `Continue`.
pub open spec fn run(s: CpuState, ticks: nat) -> (CpuState, Outcome)
    decreases ticks,
{
    if ticks == 0 {
        (s, Outcome::Continue)
    } else {
        let (next, outcome) = step(s);
        if outcome == Outcome::Continue {
            run(next, (ticks - 1) as nat)
        } else {
            (next, outcome)
        }
    }
}

/// A run can be made in two parts: where the first part uses up its ticks
/// without an end, the second goes on from its state, and together they
/// are the run of all the ticks; where the first part ends, so does the
/// whole run, in the same state.
pub proof fn lemma_run_in_two_parts(s: CpuState, first: nat, second: nat)
    ensures
        run(s, first + second) == (if run(s, first).1 == Outcome::Continue {
            run(run(s, first).0, second)
        } else {
            run(s, first)
        }),
    decreases first,
{
    if first > 0 {
        let (next, outcome) = step(s);
        if outcome == Outcome::Continue {
            lemma_run_in_two_parts(next, (first - 1) as nat, second);
            assert(run(s, first + second) == run(next, (first + second - 1) as nat));
        }
    }
}

/// A tick on an absolute jump leaves the program counter at the jump's
/// target, whatever the target is: the counter does not move on from
/// there.
pub proof fn lemma_jump_lands_on_its_target(s: CpuState)
    requires
        s.mem[s.pc as int] == 0x4C,
    ensures
        step(s).1 == Outcome::Continue,
        step(s).0 == (CpuState { pc: read16(s.mem, wrap16(s.pc + 1)), ..s }),
{
    reveal(descriptor);
    reveal(execute);
    reveal(sets_pc);
}

/// A tick on a branch whose condition holds leaves the program counter at
/// the branch's target, and a tick on one whose condition does not hold
/// leaves it after the displacement byte.
pub proof fn lemma_branch_lands(s: CpuState)
    requires
        branch_condition(s, s.mem[s.pc as int]).is_some(),
    ensures
        step(s).1 == Outcome::Continue,
        step(s).0 == (CpuState {
            pc: if branch_condition(s, s.mem[s.pc as int]) == Some(true) {
                wrap16(wrap16(s.pc + 1) + 1 + signed(s.mem[wrap16(s.pc + 1) as int]))
            } else {
                wrap16(wrap16(s.pc + 1) + 1)
            },
            ..s
        }),
{
    reveal(descriptor);
    reveal(execute);
    reveal(sets_pc);
}

} // verus!
